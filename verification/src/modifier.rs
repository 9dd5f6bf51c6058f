//! A modifier keystroke, as a plain record.

use vstd::prelude::*;

verus! {

/// The key a modifier keystroke carries.
#[derive(Clone, Copy, Debug, PartialEq, Eq, Structural)]
pub struct Modifier {
    pub key: char,
}

impl Modifier {
    /// A modifier from its key.
    pub fn new(c: char) -> (m: Modifier)
        ensures
            m.key == c,
    {
        Modifier { key: c }
    }
}

} // verus!
