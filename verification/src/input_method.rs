//! The keystroke table of an input convention: which key toggles each
//! vowel flag, the d/đ toggle, and each tone. The table is plain
//! configuration; the core only consumes the resolved actions.

use vstd::prelude::*;

verus! {

use crate::vword::Flag;
use crate::vword::Raw;
use crate::vword::Tone;

/// The keys of one input convention, in the fixed order: the circumflex
/// toggles for a, e, o; the breve/horn toggles for a, o, u; the d toggle;
/// and the five tone keys.
#[derive(Clone, Copy, Debug, PartialEq, Eq, Structural)]
pub struct InputMethod {
    pub aa: char,
    pub aw: char,
    pub ee: char,
    pub oo: char,
    pub ow: char,
    pub uw: char,
    pub dd: char,
    pub s: char,
    pub f: char,
    pub r: char,
    pub x: char,
    pub j: char,
}

/// One resolved action for a keystroke.
#[derive(Clone, Copy, Debug, PartialEq, Eq, Structural)]
pub enum KeyType {
    NoAction,
    Toggle(Raw, Flag),
    Tone(Tone),
    ToggleD,
}

/// The Telex table: aa→â, aw→ă, ee→ê, oo→ô, ow/uw→horn, dd→đ, and
/// s, f, r, x, j for the five tones.
pub open spec fn telex_table() -> InputMethod {
    InputMethod {
        aa: 'a',
        aw: 'w',
        ee: 'e',
        oo: 'o',
        ow: 'w',
        uw: 'w',
        dd: 'd',
        s: 's',
        f: 'f',
        r: 'r',
        x: 'x',
        j: 'j',
    }
}

/// Every action the table maps `c` to, in the table's fixed order, with
/// the no-op action last.
pub open spec fn get_type_spec(im: InputMethod, c: char) -> Seq<KeyType> {
    let s = Seq::<KeyType>::empty();
    let s = if c == im.aa {
        s.push(KeyType::Toggle(Raw::A, Flag::D))
    } else {
        s
    };
    let s = if c == im.aw {
        s.push(KeyType::Toggle(Raw::A, Flag::W))
    } else {
        s
    };
    let s = if c == im.ee {
        s.push(KeyType::Toggle(Raw::E, Flag::D))
    } else {
        s
    };
    let s = if c == im.oo {
        s.push(KeyType::Toggle(Raw::O, Flag::D))
    } else {
        s
    };
    let s = if c == im.ow {
        s.push(KeyType::Toggle(Raw::O, Flag::W))
    } else {
        s
    };
    let s = if c == im.uw {
        s.push(KeyType::Toggle(Raw::U, Flag::W))
    } else {
        s
    };
    let s = if c == im.dd {
        s.push(KeyType::ToggleD)
    } else {
        s
    };
    let s = if c == im.s {
        s.push(KeyType::Tone(Tone::S))
    } else {
        s
    };
    let s = if c == im.f {
        s.push(KeyType::Tone(Tone::F))
    } else {
        s
    };
    let s = if c == im.r {
        s.push(KeyType::Tone(Tone::R))
    } else {
        s
    };
    let s = if c == im.x {
        s.push(KeyType::Tone(Tone::X))
    } else {
        s
    };
    let s = if c == im.j {
        s.push(KeyType::Tone(Tone::J))
    } else {
        s
    };
    s.push(KeyType::NoAction)
}

impl InputMethod {
    /// A table from its twelve keys, in the fixed order.
    pub fn new(arr: [char; 12]) -> (im: InputMethod)
        ensures
            im == (InputMethod {
                aa: arr@[0],
                aw: arr@[1],
                ee: arr@[2],
                oo: arr@[3],
                ow: arr@[4],
                uw: arr@[5],
                dd: arr@[6],
                s: arr@[7],
                f: arr@[8],
                r: arr@[9],
                x: arr@[10],
                j: arr@[11],
            }),
    {
        InputMethod {
            aa: arr[0],
            aw: arr[1],
            ee: arr[2],
            oo: arr[3],
            ow: arr[4],
            uw: arr[5],
            dd: arr[6],
            s: arr[7],
            f: arr[8],
            r: arr[9],
            x: arr[10],
            j: arr[11],
        }
    }

    /// The Telex convention.
    pub fn telex() -> (im: InputMethod)
        ensures
            im == telex_table(),
    {
        InputMethod {
            aa: 'a',
            aw: 'w',
            ee: 'e',
            oo: 'o',
            ow: 'w',
            uw: 'w',
            dd: 'd',
            s: 's',
            f: 'f',
            r: 'r',
            x: 'x',
            j: 'j',
        }
    }

    /// Every action this table maps `c` to, in order, ending with the
    /// no-op action.
    #[verifier::rlimit(100)]
    pub fn get_type(&self, c: char) -> (r: Vec<KeyType>)
        ensures
            r@ == get_type_spec(*self, c),
    {
        let mut ret: Vec<KeyType> = Vec::new();
        if c == self.aa {
            ret.push(KeyType::Toggle(Raw::A, Flag::D));
        }
        if c == self.aw {
            ret.push(KeyType::Toggle(Raw::A, Flag::W));
        }
        if c == self.ee {
            ret.push(KeyType::Toggle(Raw::E, Flag::D));
        }
        if c == self.oo {
            ret.push(KeyType::Toggle(Raw::O, Flag::D));
        }
        if c == self.ow {
            ret.push(KeyType::Toggle(Raw::O, Flag::W));
        }
        if c == self.uw {
            ret.push(KeyType::Toggle(Raw::U, Flag::W));
        }
        if c == self.dd {
            ret.push(KeyType::ToggleD);
        }
        if c == self.s {
            ret.push(KeyType::Tone(Tone::S));
        }
        if c == self.f {
            ret.push(KeyType::Tone(Tone::F));
        }
        if c == self.r {
            ret.push(KeyType::Tone(Tone::R));
        }
        if c == self.x {
            ret.push(KeyType::Tone(Tone::X));
        }
        if c == self.j {
            ret.push(KeyType::Tone(Tone::J));
        }
        ret.push(KeyType::NoAction);
        proof {
            assert(ret@ =~= get_type_spec(*self, c));
        }
        ret
    }
}

} // verus!
