//! Core of a Telex-style Vietnamese input method: a character-level model of
//! syllables, the nucleus-selection rule that places a tone mark, the
//! vowel-flag and d/đ toggles, and the syllable-legality check.

pub mod glyph;
pub mod input;
pub mod input_method;
pub mod modifier;
pub mod nucleus;
pub mod output;
pub mod util;
pub mod vword;
