//! The fixed character tables: the vowel-glyph table mapping a
//! (raw, flag, tone) triple to its glyph, its reverse for lower- and
//! upper-case glyphs, and the case maps for the whole alphabet the
//! library knows. Characters outside that alphabet are folded through
//! `char`'s own case functions, behind trusted wrappers.

use vstd::prelude::*;

verus! {

use crate::vword::Flag;
use crate::vword::Raw;
use crate::vword::Tone;

/// The glyph that a (raw, flag, tone) triple resolves to, lower case.
/// `None` for the flag combinations Vietnamese does not use (such as a
/// horn on e); a word is never built with those, and rendering writes a
/// space for them.
pub open spec fn vowel_char(r: Raw, f: Flag, t: Tone) -> Option<char> {
    match (r, f) {
        (Raw::A, Flag::N) => Some(
            match t {
                Tone::N => 'a',
                Tone::S => 'á',
                Tone::F => 'à',
                Tone::R => 'ả',
                Tone::X => 'ã',
                Tone::J => 'ạ',
            },
        ),
        (Raw::A, Flag::D) => Some(
            match t {
                Tone::N => 'â',
                Tone::S => 'ấ',
                Tone::F => 'ầ',
                Tone::R => 'ẩ',
                Tone::X => 'ẫ',
                Tone::J => 'ậ',
            },
        ),
        (Raw::A, Flag::W) => Some(
            match t {
                Tone::N => 'ă',
                Tone::S => 'ắ',
                Tone::F => 'ằ',
                Tone::R => 'ẳ',
                Tone::X => 'ẵ',
                Tone::J => 'ặ',
            },
        ),
        (Raw::E, Flag::N) => Some(
            match t {
                Tone::N => 'e',
                Tone::S => 'é',
                Tone::F => 'è',
                Tone::R => 'ẻ',
                Tone::X => 'ẽ',
                Tone::J => 'ẹ',
            },
        ),
        (Raw::E, Flag::D) => Some(
            match t {
                Tone::N => 'ê',
                Tone::S => 'ế',
                Tone::F => 'ề',
                Tone::R => 'ể',
                Tone::X => 'ễ',
                Tone::J => 'ệ',
            },
        ),
        (Raw::I, Flag::N) => Some(
            match t {
                Tone::N => 'i',
                Tone::S => 'í',
                Tone::F => 'ì',
                Tone::R => 'ỉ',
                Tone::X => 'ĩ',
                Tone::J => 'ị',
            },
        ),
        (Raw::O, Flag::N) => Some(
            match t {
                Tone::N => 'o',
                Tone::S => 'ó',
                Tone::F => 'ò',
                Tone::R => 'ỏ',
                Tone::X => 'õ',
                Tone::J => 'ọ',
            },
        ),
        (Raw::O, Flag::D) => Some(
            match t {
                Tone::N => 'ô',
                Tone::S => 'ố',
                Tone::F => 'ồ',
                Tone::R => 'ổ',
                Tone::X => 'ỗ',
                Tone::J => 'ộ',
            },
        ),
        (Raw::O, Flag::W) => Some(
            match t {
                Tone::N => 'ơ',
                Tone::S => 'ớ',
                Tone::F => 'ờ',
                Tone::R => 'ở',
                Tone::X => 'ỡ',
                Tone::J => 'ợ',
            },
        ),
        (Raw::U, Flag::N) => Some(
            match t {
                Tone::N => 'u',
                Tone::S => 'ú',
                Tone::F => 'ù',
                Tone::R => 'ủ',
                Tone::X => 'ũ',
                Tone::J => 'ụ',
            },
        ),
        (Raw::U, Flag::W) => Some(
            match t {
                Tone::N => 'ư',
                Tone::S => 'ứ',
                Tone::F => 'ừ',
                Tone::R => 'ử',
                Tone::X => 'ữ',
                Tone::J => 'ự',
            },
        ),
        (Raw::Y, Flag::N) => Some(
            match t {
                Tone::N => 'y',
                Tone::S => 'ý',
                Tone::F => 'ỳ',
                Tone::R => 'ỷ',
                Tone::X => 'ỹ',
                Tone::J => 'ỵ',
            },
        ),
        _ => None,
    }
}

/// Executable forward lookup in the vowel-glyph table.
pub fn vowel_glyph(r: Raw, f: Flag, t: Tone) -> (res: Option<char>)
    ensures
        res == vowel_char(r, f, t),
{
    match (r, f) {
        (Raw::A, Flag::N) => Some(
            match t {
                Tone::N => 'a',
                Tone::S => 'á',
                Tone::F => 'à',
                Tone::R => 'ả',
                Tone::X => 'ã',
                Tone::J => 'ạ',
            },
        ),
        (Raw::A, Flag::D) => Some(
            match t {
                Tone::N => 'â',
                Tone::S => 'ấ',
                Tone::F => 'ầ',
                Tone::R => 'ẩ',
                Tone::X => 'ẫ',
                Tone::J => 'ậ',
            },
        ),
        (Raw::A, Flag::W) => Some(
            match t {
                Tone::N => 'ă',
                Tone::S => 'ắ',
                Tone::F => 'ằ',
                Tone::R => 'ẳ',
                Tone::X => 'ẵ',
                Tone::J => 'ặ',
            },
        ),
        (Raw::E, Flag::N) => Some(
            match t {
                Tone::N => 'e',
                Tone::S => 'é',
                Tone::F => 'è',
                Tone::R => 'ẻ',
                Tone::X => 'ẽ',
                Tone::J => 'ẹ',
            },
        ),
        (Raw::E, Flag::D) => Some(
            match t {
                Tone::N => 'ê',
                Tone::S => 'ế',
                Tone::F => 'ề',
                Tone::R => 'ể',
                Tone::X => 'ễ',
                Tone::J => 'ệ',
            },
        ),
        (Raw::I, Flag::N) => Some(
            match t {
                Tone::N => 'i',
                Tone::S => 'í',
                Tone::F => 'ì',
                Tone::R => 'ỉ',
                Tone::X => 'ĩ',
                Tone::J => 'ị',
            },
        ),
        (Raw::O, Flag::N) => Some(
            match t {
                Tone::N => 'o',
                Tone::S => 'ó',
                Tone::F => 'ò',
                Tone::R => 'ỏ',
                Tone::X => 'õ',
                Tone::J => 'ọ',
            },
        ),
        (Raw::O, Flag::D) => Some(
            match t {
                Tone::N => 'ô',
                Tone::S => 'ố',
                Tone::F => 'ồ',
                Tone::R => 'ổ',
                Tone::X => 'ỗ',
                Tone::J => 'ộ',
            },
        ),
        (Raw::O, Flag::W) => Some(
            match t {
                Tone::N => 'ơ',
                Tone::S => 'ớ',
                Tone::F => 'ờ',
                Tone::R => 'ở',
                Tone::X => 'ỡ',
                Tone::J => 'ợ',
            },
        ),
        (Raw::U, Flag::N) => Some(
            match t {
                Tone::N => 'u',
                Tone::S => 'ú',
                Tone::F => 'ù',
                Tone::R => 'ủ',
                Tone::X => 'ũ',
                Tone::J => 'ụ',
            },
        ),
        (Raw::U, Flag::W) => Some(
            match t {
                Tone::N => 'ư',
                Tone::S => 'ứ',
                Tone::F => 'ừ',
                Tone::R => 'ử',
                Tone::X => 'ữ',
                Tone::J => 'ự',
            },
        ),
        (Raw::Y, Flag::N) => Some(
            match t {
                Tone::N => 'y',
                Tone::S => 'ý',
                Tone::F => 'ỳ',
                Tone::R => 'ỷ',
                Tone::X => 'ỹ',
                Tone::J => 'ỵ',
            },
        ),
        _ => None,
    }
}

/// Reverse of the vowel-glyph table for lower-case glyphs.
pub open spec fn lower_vowel_of(c: char) -> Option<(Raw, Flag, Tone)> {
    match c {
        'a' => Some((Raw::A, Flag::N, Tone::N)),
        'á' => Some((Raw::A, Flag::N, Tone::S)),
        'à' => Some((Raw::A, Flag::N, Tone::F)),
        'ả' => Some((Raw::A, Flag::N, Tone::R)),
        'ã' => Some((Raw::A, Flag::N, Tone::X)),
        'ạ' => Some((Raw::A, Flag::N, Tone::J)),
        'â' => Some((Raw::A, Flag::D, Tone::N)),
        'ấ' => Some((Raw::A, Flag::D, Tone::S)),
        'ầ' => Some((Raw::A, Flag::D, Tone::F)),
        'ẩ' => Some((Raw::A, Flag::D, Tone::R)),
        'ẫ' => Some((Raw::A, Flag::D, Tone::X)),
        'ậ' => Some((Raw::A, Flag::D, Tone::J)),
        'ă' => Some((Raw::A, Flag::W, Tone::N)),
        'ắ' => Some((Raw::A, Flag::W, Tone::S)),
        'ằ' => Some((Raw::A, Flag::W, Tone::F)),
        'ẳ' => Some((Raw::A, Flag::W, Tone::R)),
        'ẵ' => Some((Raw::A, Flag::W, Tone::X)),
        'ặ' => Some((Raw::A, Flag::W, Tone::J)),
        'e' => Some((Raw::E, Flag::N, Tone::N)),
        'é' => Some((Raw::E, Flag::N, Tone::S)),
        'è' => Some((Raw::E, Flag::N, Tone::F)),
        'ẻ' => Some((Raw::E, Flag::N, Tone::R)),
        'ẽ' => Some((Raw::E, Flag::N, Tone::X)),
        'ẹ' => Some((Raw::E, Flag::N, Tone::J)),
        'ê' => Some((Raw::E, Flag::D, Tone::N)),
        'ế' => Some((Raw::E, Flag::D, Tone::S)),
        'ề' => Some((Raw::E, Flag::D, Tone::F)),
        'ể' => Some((Raw::E, Flag::D, Tone::R)),
        'ễ' => Some((Raw::E, Flag::D, Tone::X)),
        'ệ' => Some((Raw::E, Flag::D, Tone::J)),
        'i' => Some((Raw::I, Flag::N, Tone::N)),
        'í' => Some((Raw::I, Flag::N, Tone::S)),
        'ì' => Some((Raw::I, Flag::N, Tone::F)),
        'ỉ' => Some((Raw::I, Flag::N, Tone::R)),
        'ĩ' => Some((Raw::I, Flag::N, Tone::X)),
        'ị' => Some((Raw::I, Flag::N, Tone::J)),
        'o' => Some((Raw::O, Flag::N, Tone::N)),
        'ó' => Some((Raw::O, Flag::N, Tone::S)),
        'ò' => Some((Raw::O, Flag::N, Tone::F)),
        'ỏ' => Some((Raw::O, Flag::N, Tone::R)),
        'õ' => Some((Raw::O, Flag::N, Tone::X)),
        'ọ' => Some((Raw::O, Flag::N, Tone::J)),
        'ô' => Some((Raw::O, Flag::D, Tone::N)),
        'ố' => Some((Raw::O, Flag::D, Tone::S)),
        'ồ' => Some((Raw::O, Flag::D, Tone::F)),
        'ổ' => Some((Raw::O, Flag::D, Tone::R)),
        'ỗ' => Some((Raw::O, Flag::D, Tone::X)),
        'ộ' => Some((Raw::O, Flag::D, Tone::J)),
        'ơ' => Some((Raw::O, Flag::W, Tone::N)),
        'ớ' => Some((Raw::O, Flag::W, Tone::S)),
        'ờ' => Some((Raw::O, Flag::W, Tone::F)),
        'ở' => Some((Raw::O, Flag::W, Tone::R)),
        'ỡ' => Some((Raw::O, Flag::W, Tone::X)),
        'ợ' => Some((Raw::O, Flag::W, Tone::J)),
        'u' => Some((Raw::U, Flag::N, Tone::N)),
        'ú' => Some((Raw::U, Flag::N, Tone::S)),
        'ù' => Some((Raw::U, Flag::N, Tone::F)),
        'ủ' => Some((Raw::U, Flag::N, Tone::R)),
        'ũ' => Some((Raw::U, Flag::N, Tone::X)),
        'ụ' => Some((Raw::U, Flag::N, Tone::J)),
        'ư' => Some((Raw::U, Flag::W, Tone::N)),
        'ứ' => Some((Raw::U, Flag::W, Tone::S)),
        'ừ' => Some((Raw::U, Flag::W, Tone::F)),
        'ử' => Some((Raw::U, Flag::W, Tone::R)),
        'ữ' => Some((Raw::U, Flag::W, Tone::X)),
        'ự' => Some((Raw::U, Flag::W, Tone::J)),
        'y' => Some((Raw::Y, Flag::N, Tone::N)),
        'ý' => Some((Raw::Y, Flag::N, Tone::S)),
        'ỳ' => Some((Raw::Y, Flag::N, Tone::F)),
        'ỷ' => Some((Raw::Y, Flag::N, Tone::R)),
        'ỹ' => Some((Raw::Y, Flag::N, Tone::X)),
        'ỵ' => Some((Raw::Y, Flag::N, Tone::J)),
        _ => None,
    }
}

/// Executable reverse lookup for lower-case vowel glyphs.
pub fn lookup_lower_vowel(c: char) -> (res: Option<(Raw, Flag, Tone)>)
    ensures
        res == lower_vowel_of(c),
{
    match c {
        'a' => Some((Raw::A, Flag::N, Tone::N)),
        'á' => Some((Raw::A, Flag::N, Tone::S)),
        'à' => Some((Raw::A, Flag::N, Tone::F)),
        'ả' => Some((Raw::A, Flag::N, Tone::R)),
        'ã' => Some((Raw::A, Flag::N, Tone::X)),
        'ạ' => Some((Raw::A, Flag::N, Tone::J)),
        'â' => Some((Raw::A, Flag::D, Tone::N)),
        'ấ' => Some((Raw::A, Flag::D, Tone::S)),
        'ầ' => Some((Raw::A, Flag::D, Tone::F)),
        'ẩ' => Some((Raw::A, Flag::D, Tone::R)),
        'ẫ' => Some((Raw::A, Flag::D, Tone::X)),
        'ậ' => Some((Raw::A, Flag::D, Tone::J)),
        'ă' => Some((Raw::A, Flag::W, Tone::N)),
        'ắ' => Some((Raw::A, Flag::W, Tone::S)),
        'ằ' => Some((Raw::A, Flag::W, Tone::F)),
        'ẳ' => Some((Raw::A, Flag::W, Tone::R)),
        'ẵ' => Some((Raw::A, Flag::W, Tone::X)),
        'ặ' => Some((Raw::A, Flag::W, Tone::J)),
        'e' => Some((Raw::E, Flag::N, Tone::N)),
        'é' => Some((Raw::E, Flag::N, Tone::S)),
        'è' => Some((Raw::E, Flag::N, Tone::F)),
        'ẻ' => Some((Raw::E, Flag::N, Tone::R)),
        'ẽ' => Some((Raw::E, Flag::N, Tone::X)),
        'ẹ' => Some((Raw::E, Flag::N, Tone::J)),
        'ê' => Some((Raw::E, Flag::D, Tone::N)),
        'ế' => Some((Raw::E, Flag::D, Tone::S)),
        'ề' => Some((Raw::E, Flag::D, Tone::F)),
        'ể' => Some((Raw::E, Flag::D, Tone::R)),
        'ễ' => Some((Raw::E, Flag::D, Tone::X)),
        'ệ' => Some((Raw::E, Flag::D, Tone::J)),
        'i' => Some((Raw::I, Flag::N, Tone::N)),
        'í' => Some((Raw::I, Flag::N, Tone::S)),
        'ì' => Some((Raw::I, Flag::N, Tone::F)),
        'ỉ' => Some((Raw::I, Flag::N, Tone::R)),
        'ĩ' => Some((Raw::I, Flag::N, Tone::X)),
        'ị' => Some((Raw::I, Flag::N, Tone::J)),
        'o' => Some((Raw::O, Flag::N, Tone::N)),
        'ó' => Some((Raw::O, Flag::N, Tone::S)),
        'ò' => Some((Raw::O, Flag::N, Tone::F)),
        'ỏ' => Some((Raw::O, Flag::N, Tone::R)),
        'õ' => Some((Raw::O, Flag::N, Tone::X)),
        'ọ' => Some((Raw::O, Flag::N, Tone::J)),
        'ô' => Some((Raw::O, Flag::D, Tone::N)),
        'ố' => Some((Raw::O, Flag::D, Tone::S)),
        'ồ' => Some((Raw::O, Flag::D, Tone::F)),
        'ổ' => Some((Raw::O, Flag::D, Tone::R)),
        'ỗ' => Some((Raw::O, Flag::D, Tone::X)),
        'ộ' => Some((Raw::O, Flag::D, Tone::J)),
        'ơ' => Some((Raw::O, Flag::W, Tone::N)),
        'ớ' => Some((Raw::O, Flag::W, Tone::S)),
        'ờ' => Some((Raw::O, Flag::W, Tone::F)),
        'ở' => Some((Raw::O, Flag::W, Tone::R)),
        'ỡ' => Some((Raw::O, Flag::W, Tone::X)),
        'ợ' => Some((Raw::O, Flag::W, Tone::J)),
        'u' => Some((Raw::U, Flag::N, Tone::N)),
        'ú' => Some((Raw::U, Flag::N, Tone::S)),
        'ù' => Some((Raw::U, Flag::N, Tone::F)),
        'ủ' => Some((Raw::U, Flag::N, Tone::R)),
        'ũ' => Some((Raw::U, Flag::N, Tone::X)),
        'ụ' => Some((Raw::U, Flag::N, Tone::J)),
        'ư' => Some((Raw::U, Flag::W, Tone::N)),
        'ứ' => Some((Raw::U, Flag::W, Tone::S)),
        'ừ' => Some((Raw::U, Flag::W, Tone::F)),
        'ử' => Some((Raw::U, Flag::W, Tone::R)),
        'ữ' => Some((Raw::U, Flag::W, Tone::X)),
        'ự' => Some((Raw::U, Flag::W, Tone::J)),
        'y' => Some((Raw::Y, Flag::N, Tone::N)),
        'ý' => Some((Raw::Y, Flag::N, Tone::S)),
        'ỳ' => Some((Raw::Y, Flag::N, Tone::F)),
        'ỷ' => Some((Raw::Y, Flag::N, Tone::R)),
        'ỹ' => Some((Raw::Y, Flag::N, Tone::X)),
        'ỵ' => Some((Raw::Y, Flag::N, Tone::J)),
        _ => None,
    }
}

/// Reverse of the vowel-glyph table for upper-case glyphs.
pub open spec fn upper_vowel_of(c: char) -> Option<(Raw, Flag, Tone)> {
    match c {
        'A' => Some((Raw::A, Flag::N, Tone::N)),
        'Á' => Some((Raw::A, Flag::N, Tone::S)),
        'À' => Some((Raw::A, Flag::N, Tone::F)),
        'Ả' => Some((Raw::A, Flag::N, Tone::R)),
        'Ã' => Some((Raw::A, Flag::N, Tone::X)),
        'Ạ' => Some((Raw::A, Flag::N, Tone::J)),
        'Â' => Some((Raw::A, Flag::D, Tone::N)),
        'Ấ' => Some((Raw::A, Flag::D, Tone::S)),
        'Ầ' => Some((Raw::A, Flag::D, Tone::F)),
        'Ẩ' => Some((Raw::A, Flag::D, Tone::R)),
        'Ẫ' => Some((Raw::A, Flag::D, Tone::X)),
        'Ậ' => Some((Raw::A, Flag::D, Tone::J)),
        'Ă' => Some((Raw::A, Flag::W, Tone::N)),
        'Ắ' => Some((Raw::A, Flag::W, Tone::S)),
        'Ằ' => Some((Raw::A, Flag::W, Tone::F)),
        'Ẳ' => Some((Raw::A, Flag::W, Tone::R)),
        'Ẵ' => Some((Raw::A, Flag::W, Tone::X)),
        'Ặ' => Some((Raw::A, Flag::W, Tone::J)),
        'E' => Some((Raw::E, Flag::N, Tone::N)),
        'É' => Some((Raw::E, Flag::N, Tone::S)),
        'È' => Some((Raw::E, Flag::N, Tone::F)),
        'Ẻ' => Some((Raw::E, Flag::N, Tone::R)),
        'Ẽ' => Some((Raw::E, Flag::N, Tone::X)),
        'Ẹ' => Some((Raw::E, Flag::N, Tone::J)),
        'Ê' => Some((Raw::E, Flag::D, Tone::N)),
        'Ế' => Some((Raw::E, Flag::D, Tone::S)),
        'Ề' => Some((Raw::E, Flag::D, Tone::F)),
        'Ể' => Some((Raw::E, Flag::D, Tone::R)),
        'Ễ' => Some((Raw::E, Flag::D, Tone::X)),
        'Ệ' => Some((Raw::E, Flag::D, Tone::J)),
        'I' => Some((Raw::I, Flag::N, Tone::N)),
        'Í' => Some((Raw::I, Flag::N, Tone::S)),
        'Ì' => Some((Raw::I, Flag::N, Tone::F)),
        'Ỉ' => Some((Raw::I, Flag::N, Tone::R)),
        'Ĩ' => Some((Raw::I, Flag::N, Tone::X)),
        'Ị' => Some((Raw::I, Flag::N, Tone::J)),
        'O' => Some((Raw::O, Flag::N, Tone::N)),
        'Ó' => Some((Raw::O, Flag::N, Tone::S)),
        'Ò' => Some((Raw::O, Flag::N, Tone::F)),
        'Ỏ' => Some((Raw::O, Flag::N, Tone::R)),
        'Õ' => Some((Raw::O, Flag::N, Tone::X)),
        'Ọ' => Some((Raw::O, Flag::N, Tone::J)),
        'Ô' => Some((Raw::O, Flag::D, Tone::N)),
        'Ố' => Some((Raw::O, Flag::D, Tone::S)),
        'Ồ' => Some((Raw::O, Flag::D, Tone::F)),
        'Ổ' => Some((Raw::O, Flag::D, Tone::R)),
        'Ỗ' => Some((Raw::O, Flag::D, Tone::X)),
        'Ộ' => Some((Raw::O, Flag::D, Tone::J)),
        'Ơ' => Some((Raw::O, Flag::W, Tone::N)),
        'Ớ' => Some((Raw::O, Flag::W, Tone::S)),
        'Ờ' => Some((Raw::O, Flag::W, Tone::F)),
        'Ở' => Some((Raw::O, Flag::W, Tone::R)),
        'Ỡ' => Some((Raw::O, Flag::W, Tone::X)),
        'Ợ' => Some((Raw::O, Flag::W, Tone::J)),
        'U' => Some((Raw::U, Flag::N, Tone::N)),
        'Ú' => Some((Raw::U, Flag::N, Tone::S)),
        'Ù' => Some((Raw::U, Flag::N, Tone::F)),
        'Ủ' => Some((Raw::U, Flag::N, Tone::R)),
        'Ũ' => Some((Raw::U, Flag::N, Tone::X)),
        'Ụ' => Some((Raw::U, Flag::N, Tone::J)),
        'Ư' => Some((Raw::U, Flag::W, Tone::N)),
        'Ứ' => Some((Raw::U, Flag::W, Tone::S)),
        'Ừ' => Some((Raw::U, Flag::W, Tone::F)),
        'Ử' => Some((Raw::U, Flag::W, Tone::R)),
        'Ữ' => Some((Raw::U, Flag::W, Tone::X)),
        'Ự' => Some((Raw::U, Flag::W, Tone::J)),
        'Y' => Some((Raw::Y, Flag::N, Tone::N)),
        'Ý' => Some((Raw::Y, Flag::N, Tone::S)),
        'Ỳ' => Some((Raw::Y, Flag::N, Tone::F)),
        'Ỷ' => Some((Raw::Y, Flag::N, Tone::R)),
        'Ỹ' => Some((Raw::Y, Flag::N, Tone::X)),
        'Ỵ' => Some((Raw::Y, Flag::N, Tone::J)),
        _ => None,
    }
}

/// Executable reverse lookup for upper-case vowel glyphs.
pub fn lookup_upper_vowel(c: char) -> (res: Option<(Raw, Flag, Tone)>)
    ensures
        res == upper_vowel_of(c),
{
    match c {
        'A' => Some((Raw::A, Flag::N, Tone::N)),
        'Á' => Some((Raw::A, Flag::N, Tone::S)),
        'À' => Some((Raw::A, Flag::N, Tone::F)),
        'Ả' => Some((Raw::A, Flag::N, Tone::R)),
        'Ã' => Some((Raw::A, Flag::N, Tone::X)),
        'Ạ' => Some((Raw::A, Flag::N, Tone::J)),
        'Â' => Some((Raw::A, Flag::D, Tone::N)),
        'Ấ' => Some((Raw::A, Flag::D, Tone::S)),
        'Ầ' => Some((Raw::A, Flag::D, Tone::F)),
        'Ẩ' => Some((Raw::A, Flag::D, Tone::R)),
        'Ẫ' => Some((Raw::A, Flag::D, Tone::X)),
        'Ậ' => Some((Raw::A, Flag::D, Tone::J)),
        'Ă' => Some((Raw::A, Flag::W, Tone::N)),
        'Ắ' => Some((Raw::A, Flag::W, Tone::S)),
        'Ằ' => Some((Raw::A, Flag::W, Tone::F)),
        'Ẳ' => Some((Raw::A, Flag::W, Tone::R)),
        'Ẵ' => Some((Raw::A, Flag::W, Tone::X)),
        'Ặ' => Some((Raw::A, Flag::W, Tone::J)),
        'E' => Some((Raw::E, Flag::N, Tone::N)),
        'É' => Some((Raw::E, Flag::N, Tone::S)),
        'È' => Some((Raw::E, Flag::N, Tone::F)),
        'Ẻ' => Some((Raw::E, Flag::N, Tone::R)),
        'Ẽ' => Some((Raw::E, Flag::N, Tone::X)),
        'Ẹ' => Some((Raw::E, Flag::N, Tone::J)),
        'Ê' => Some((Raw::E, Flag::D, Tone::N)),
        'Ế' => Some((Raw::E, Flag::D, Tone::S)),
        'Ề' => Some((Raw::E, Flag::D, Tone::F)),
        'Ể' => Some((Raw::E, Flag::D, Tone::R)),
        'Ễ' => Some((Raw::E, Flag::D, Tone::X)),
        'Ệ' => Some((Raw::E, Flag::D, Tone::J)),
        'I' => Some((Raw::I, Flag::N, Tone::N)),
        'Í' => Some((Raw::I, Flag::N, Tone::S)),
        'Ì' => Some((Raw::I, Flag::N, Tone::F)),
        'Ỉ' => Some((Raw::I, Flag::N, Tone::R)),
        'Ĩ' => Some((Raw::I, Flag::N, Tone::X)),
        'Ị' => Some((Raw::I, Flag::N, Tone::J)),
        'O' => Some((Raw::O, Flag::N, Tone::N)),
        'Ó' => Some((Raw::O, Flag::N, Tone::S)),
        'Ò' => Some((Raw::O, Flag::N, Tone::F)),
        'Ỏ' => Some((Raw::O, Flag::N, Tone::R)),
        'Õ' => Some((Raw::O, Flag::N, Tone::X)),
        'Ọ' => Some((Raw::O, Flag::N, Tone::J)),
        'Ô' => Some((Raw::O, Flag::D, Tone::N)),
        'Ố' => Some((Raw::O, Flag::D, Tone::S)),
        'Ồ' => Some((Raw::O, Flag::D, Tone::F)),
        'Ổ' => Some((Raw::O, Flag::D, Tone::R)),
        'Ỗ' => Some((Raw::O, Flag::D, Tone::X)),
        'Ộ' => Some((Raw::O, Flag::D, Tone::J)),
        'Ơ' => Some((Raw::O, Flag::W, Tone::N)),
        'Ớ' => Some((Raw::O, Flag::W, Tone::S)),
        'Ờ' => Some((Raw::O, Flag::W, Tone::F)),
        'Ở' => Some((Raw::O, Flag::W, Tone::R)),
        'Ỡ' => Some((Raw::O, Flag::W, Tone::X)),
        'Ợ' => Some((Raw::O, Flag::W, Tone::J)),
        'U' => Some((Raw::U, Flag::N, Tone::N)),
        'Ú' => Some((Raw::U, Flag::N, Tone::S)),
        'Ù' => Some((Raw::U, Flag::N, Tone::F)),
        'Ủ' => Some((Raw::U, Flag::N, Tone::R)),
        'Ũ' => Some((Raw::U, Flag::N, Tone::X)),
        'Ụ' => Some((Raw::U, Flag::N, Tone::J)),
        'Ư' => Some((Raw::U, Flag::W, Tone::N)),
        'Ứ' => Some((Raw::U, Flag::W, Tone::S)),
        'Ừ' => Some((Raw::U, Flag::W, Tone::F)),
        'Ử' => Some((Raw::U, Flag::W, Tone::R)),
        'Ữ' => Some((Raw::U, Flag::W, Tone::X)),
        'Ự' => Some((Raw::U, Flag::W, Tone::J)),
        'Y' => Some((Raw::Y, Flag::N, Tone::N)),
        'Ý' => Some((Raw::Y, Flag::N, Tone::S)),
        'Ỳ' => Some((Raw::Y, Flag::N, Tone::F)),
        'Ỷ' => Some((Raw::Y, Flag::N, Tone::R)),
        'Ỹ' => Some((Raw::Y, Flag::N, Tone::X)),
        'Ỵ' => Some((Raw::Y, Flag::N, Tone::J)),
        _ => None,
    }
}

/// Upper-case counterpart of every lower-case letter the library knows:
/// the 66 accented vowel glyphs, the 26 ASCII letters, and đ.
pub open spec fn upcase_known(c: char) -> Option<char> {
    match c {
        'a' => Some('A'),
        'b' => Some('B'),
        'c' => Some('C'),
        'd' => Some('D'),
        'e' => Some('E'),
        'f' => Some('F'),
        'g' => Some('G'),
        'h' => Some('H'),
        'i' => Some('I'),
        'j' => Some('J'),
        'k' => Some('K'),
        'l' => Some('L'),
        'm' => Some('M'),
        'n' => Some('N'),
        'o' => Some('O'),
        'p' => Some('P'),
        'q' => Some('Q'),
        'r' => Some('R'),
        's' => Some('S'),
        't' => Some('T'),
        'u' => Some('U'),
        'v' => Some('V'),
        'w' => Some('W'),
        'x' => Some('X'),
        'y' => Some('Y'),
        'z' => Some('Z'),
        'đ' => Some('Đ'),
        'á' => Some('Á'),
        'à' => Some('À'),
        'ả' => Some('Ả'),
        'ã' => Some('Ã'),
        'ạ' => Some('Ạ'),
        'â' => Some('Â'),
        'ấ' => Some('Ấ'),
        'ầ' => Some('Ầ'),
        'ẩ' => Some('Ẩ'),
        'ẫ' => Some('Ẫ'),
        'ậ' => Some('Ậ'),
        'ă' => Some('Ă'),
        'ắ' => Some('Ắ'),
        'ằ' => Some('Ằ'),
        'ẳ' => Some('Ẳ'),
        'ẵ' => Some('Ẵ'),
        'ặ' => Some('Ặ'),
        'é' => Some('É'),
        'è' => Some('È'),
        'ẻ' => Some('Ẻ'),
        'ẽ' => Some('Ẽ'),
        'ẹ' => Some('Ẹ'),
        'ê' => Some('Ê'),
        'ế' => Some('Ế'),
        'ề' => Some('Ề'),
        'ể' => Some('Ể'),
        'ễ' => Some('Ễ'),
        'ệ' => Some('Ệ'),
        'í' => Some('Í'),
        'ì' => Some('Ì'),
        'ỉ' => Some('Ỉ'),
        'ĩ' => Some('Ĩ'),
        'ị' => Some('Ị'),
        'ó' => Some('Ó'),
        'ò' => Some('Ò'),
        'ỏ' => Some('Ỏ'),
        'õ' => Some('Õ'),
        'ọ' => Some('Ọ'),
        'ô' => Some('Ô'),
        'ố' => Some('Ố'),
        'ồ' => Some('Ồ'),
        'ổ' => Some('Ổ'),
        'ỗ' => Some('Ỗ'),
        'ộ' => Some('Ộ'),
        'ơ' => Some('Ơ'),
        'ớ' => Some('Ớ'),
        'ờ' => Some('Ờ'),
        'ở' => Some('Ở'),
        'ỡ' => Some('Ỡ'),
        'ợ' => Some('Ợ'),
        'ú' => Some('Ú'),
        'ù' => Some('Ù'),
        'ủ' => Some('Ủ'),
        'ũ' => Some('Ũ'),
        'ụ' => Some('Ụ'),
        'ư' => Some('Ư'),
        'ứ' => Some('Ứ'),
        'ừ' => Some('Ừ'),
        'ử' => Some('Ử'),
        'ữ' => Some('Ữ'),
        'ự' => Some('Ự'),
        'ý' => Some('Ý'),
        'ỳ' => Some('Ỳ'),
        'ỷ' => Some('Ỷ'),
        'ỹ' => Some('Ỹ'),
        'ỵ' => Some('Ỵ'),
        _ => None,
    }
}

/// Lower-case counterpart of every upper-case letter the library knows.
/// The exact reverse of `upcase_known`.
pub open spec fn downcase_known(c: char) -> Option<char> {
    match c {
        'A' => Some('a'),
        'B' => Some('b'),
        'C' => Some('c'),
        'D' => Some('d'),
        'E' => Some('e'),
        'F' => Some('f'),
        'G' => Some('g'),
        'H' => Some('h'),
        'I' => Some('i'),
        'J' => Some('j'),
        'K' => Some('k'),
        'L' => Some('l'),
        'M' => Some('m'),
        'N' => Some('n'),
        'O' => Some('o'),
        'P' => Some('p'),
        'Q' => Some('q'),
        'R' => Some('r'),
        'S' => Some('s'),
        'T' => Some('t'),
        'U' => Some('u'),
        'V' => Some('v'),
        'W' => Some('w'),
        'X' => Some('x'),
        'Y' => Some('y'),
        'Z' => Some('z'),
        'Đ' => Some('đ'),
        'Á' => Some('á'),
        'À' => Some('à'),
        'Ả' => Some('ả'),
        'Ã' => Some('ã'),
        'Ạ' => Some('ạ'),
        'Â' => Some('â'),
        'Ấ' => Some('ấ'),
        'Ầ' => Some('ầ'),
        'Ẩ' => Some('ẩ'),
        'Ẫ' => Some('ẫ'),
        'Ậ' => Some('ậ'),
        'Ă' => Some('ă'),
        'Ắ' => Some('ắ'),
        'Ằ' => Some('ằ'),
        'Ẳ' => Some('ẳ'),
        'Ẵ' => Some('ẵ'),
        'Ặ' => Some('ặ'),
        'É' => Some('é'),
        'È' => Some('è'),
        'Ẻ' => Some('ẻ'),
        'Ẽ' => Some('ẽ'),
        'Ẹ' => Some('ẹ'),
        'Ê' => Some('ê'),
        'Ế' => Some('ế'),
        'Ề' => Some('ề'),
        'Ể' => Some('ể'),
        'Ễ' => Some('ễ'),
        'Ệ' => Some('ệ'),
        'Í' => Some('í'),
        'Ì' => Some('ì'),
        'Ỉ' => Some('ỉ'),
        'Ĩ' => Some('ĩ'),
        'Ị' => Some('ị'),
        'Ó' => Some('ó'),
        'Ò' => Some('ò'),
        'Ỏ' => Some('ỏ'),
        'Õ' => Some('õ'),
        'Ọ' => Some('ọ'),
        'Ô' => Some('ô'),
        'Ố' => Some('ố'),
        'Ồ' => Some('ồ'),
        'Ổ' => Some('ổ'),
        'Ỗ' => Some('ỗ'),
        'Ộ' => Some('ộ'),
        'Ơ' => Some('ơ'),
        'Ớ' => Some('ớ'),
        'Ờ' => Some('ờ'),
        'Ở' => Some('ở'),
        'Ỡ' => Some('ỡ'),
        'Ợ' => Some('ợ'),
        'Ú' => Some('ú'),
        'Ù' => Some('ù'),
        'Ủ' => Some('ủ'),
        'Ũ' => Some('ũ'),
        'Ụ' => Some('ụ'),
        'Ư' => Some('ư'),
        'Ứ' => Some('ứ'),
        'Ừ' => Some('ừ'),
        'Ử' => Some('ử'),
        'Ữ' => Some('ữ'),
        'Ự' => Some('ự'),
        'Ý' => Some('ý'),
        'Ỳ' => Some('ỳ'),
        'Ỷ' => Some('ỷ'),
        'Ỹ' => Some('ỹ'),
        'Ỵ' => Some('ỵ'),
        _ => None,
    }
}

/// The sequence of characters that `char::to_lowercase` yields for `c`;
/// it depends on the character alone.
pub uninterp spec fn lower_chars_of(c: char) -> Seq<char>;

/// The first character that `char::to_uppercase` yields for `c`;
/// it depends on the character alone.
pub uninterp spec fn upper_first_of(c: char) -> char;

/// Whether `c` has the Unicode property Uppercase.
pub uninterp spec fn is_upper_of(c: char) -> bool;

/// Whether `c` has the Unicode property Alphabetic.
pub uninterp spec fn is_alpha_of(c: char) -> bool;

/// Relies on char::to_lowercase: the lower-case mapping of a character
/// depends on the character alone and yields at least one character.
#[verifier::external_body]
pub(crate) fn char_lower_chars(c: char) -> (r: Vec<char>)
    ensures
        r@ == lower_chars_of(c),
        r@.len() >= 1,
{
    c.to_lowercase().collect()
}

/// Relies on char::to_uppercase: the upper-case mapping of a character
/// depends on the character alone and yields at least one character, so
/// taking the first one cannot fail.
#[verifier::external_body]
pub(crate) fn char_upper_first(c: char) -> (r: char)
    ensures
        r == upper_first_of(c),
{
    c.to_uppercase().next().unwrap()
}

/// Relies on char::is_uppercase: whether the character has the Unicode
/// property Uppercase, a fact of the character alone.
#[verifier::external_body]
pub(crate) fn char_is_upper(c: char) -> (r: bool)
    ensures
        r == is_upper_of(c),
{
    c.is_uppercase()
}

/// Relies on char::is_alphabetic: whether the character has the Unicode
/// property Alphabetic, a fact of the character alone.
#[verifier::external_body]
pub(crate) fn char_is_alpha(c: char) -> (r: bool)
    ensures
        r == is_alpha_of(c),
{
    c.is_alphabetic()
}

/// Relies on String::push: appends the given character at the end of the
/// string.
#[verifier::external_body]
pub(crate) fn push_char(s: &mut String, c: char)
    ensures
        final(s)@ == old(s)@.push(c),
{
    s.push(c)
}

/// How a character is written upper case: by the library's own table for
/// the letters it knows, unchanged for the rest of ASCII, and by
/// `char::to_uppercase` beyond that.
pub open spec fn upcase_char(c: char) -> char {
    match upcase_known(c) {
        Some(u) => u,
        None => if (c as u32) < 128 {
            c
        } else {
            upper_first_of(c)
        },
    }
}

/// Executable form of `upcase_char`.
pub fn upcase(c: char) -> (res: char)
    ensures
        res == upcase_char(c),
{
    match lookup_upcase(c) {
        Some(u) => u,
        None => {
            if (c as u32) < 128 {
                c
            } else {
                char_upper_first(c)
            }
        },
    }
}

/// Executable lookup in the `upcase_known` table.
pub fn lookup_upcase(c: char) -> (res: Option<char>)
    ensures
        res == upcase_known(c),
{
    match c {
        'a' => Some('A'),
        'b' => Some('B'),
        'c' => Some('C'),
        'd' => Some('D'),
        'e' => Some('E'),
        'f' => Some('F'),
        'g' => Some('G'),
        'h' => Some('H'),
        'i' => Some('I'),
        'j' => Some('J'),
        'k' => Some('K'),
        'l' => Some('L'),
        'm' => Some('M'),
        'n' => Some('N'),
        'o' => Some('O'),
        'p' => Some('P'),
        'q' => Some('Q'),
        'r' => Some('R'),
        's' => Some('S'),
        't' => Some('T'),
        'u' => Some('U'),
        'v' => Some('V'),
        'w' => Some('W'),
        'x' => Some('X'),
        'y' => Some('Y'),
        'z' => Some('Z'),
        'đ' => Some('Đ'),
        'á' => Some('Á'),
        'à' => Some('À'),
        'ả' => Some('Ả'),
        'ã' => Some('Ã'),
        'ạ' => Some('Ạ'),
        'â' => Some('Â'),
        'ấ' => Some('Ấ'),
        'ầ' => Some('Ầ'),
        'ẩ' => Some('Ẩ'),
        'ẫ' => Some('Ẫ'),
        'ậ' => Some('Ậ'),
        'ă' => Some('Ă'),
        'ắ' => Some('Ắ'),
        'ằ' => Some('Ằ'),
        'ẳ' => Some('Ẳ'),
        'ẵ' => Some('Ẵ'),
        'ặ' => Some('Ặ'),
        'é' => Some('É'),
        'è' => Some('È'),
        'ẻ' => Some('Ẻ'),
        'ẽ' => Some('Ẽ'),
        'ẹ' => Some('Ẹ'),
        'ê' => Some('Ê'),
        'ế' => Some('Ế'),
        'ề' => Some('Ề'),
        'ể' => Some('Ể'),
        'ễ' => Some('Ễ'),
        'ệ' => Some('Ệ'),
        'í' => Some('Í'),
        'ì' => Some('Ì'),
        'ỉ' => Some('Ỉ'),
        'ĩ' => Some('Ĩ'),
        'ị' => Some('Ị'),
        'ó' => Some('Ó'),
        'ò' => Some('Ò'),
        'ỏ' => Some('Ỏ'),
        'õ' => Some('Õ'),
        'ọ' => Some('Ọ'),
        'ô' => Some('Ô'),
        'ố' => Some('Ố'),
        'ồ' => Some('Ồ'),
        'ổ' => Some('Ổ'),
        'ỗ' => Some('Ỗ'),
        'ộ' => Some('Ộ'),
        'ơ' => Some('Ơ'),
        'ớ' => Some('Ớ'),
        'ờ' => Some('Ờ'),
        'ở' => Some('Ở'),
        'ỡ' => Some('Ỡ'),
        'ợ' => Some('Ợ'),
        'ú' => Some('Ú'),
        'ù' => Some('Ù'),
        'ủ' => Some('Ủ'),
        'ũ' => Some('Ũ'),
        'ụ' => Some('Ụ'),
        'ư' => Some('Ư'),
        'ứ' => Some('Ứ'),
        'ừ' => Some('Ừ'),
        'ử' => Some('Ử'),
        'ữ' => Some('Ữ'),
        'ự' => Some('Ự'),
        'ý' => Some('Ý'),
        'ỳ' => Some('Ỳ'),
        'ỷ' => Some('Ỷ'),
        'ỹ' => Some('Ỹ'),
        'ỵ' => Some('Ỵ'),
        _ => None,
    }
}

/// How a single character is folded to lower case: by the library's own
/// table for the letters it knows, unchanged for the rest of ASCII, and by
/// `char::to_lowercase` beyond that; a character whose lower-case form is
/// more than one character folds to the null character.
pub open spec fn fold_lower(c: char) -> char {
    match downcase_known(c) {
        Some(l) => l,
        None => if (c as u32) < 128 {
            c
        } else if lower_chars_of(c).len() != 1 {
            '\0'
        } else {
            lower_chars_of(c)[0]
        },
    }
}

/// Executable form of `fold_lower`.
pub fn to_fold_lower(c: char) -> (res: char)
    ensures
        res == fold_lower(c),
{
    match lookup_downcase(c) {
        Some(l) => l,
        None => {
            if (c as u32) < 128 {
                c
            } else {
                let low = char_lower_chars(c);
                if low.len() != 1 {
                    '\0'
                } else {
                    low[0]
                }
            }
        },
    }
}

/// Executable lookup in the `downcase_known` table.
pub fn lookup_downcase(c: char) -> (res: Option<char>)
    ensures
        res == downcase_known(c),
{
    match c {
        'A' => Some('a'),
        'B' => Some('b'),
        'C' => Some('c'),
        'D' => Some('d'),
        'E' => Some('e'),
        'F' => Some('f'),
        'G' => Some('g'),
        'H' => Some('h'),
        'I' => Some('i'),
        'J' => Some('j'),
        'K' => Some('k'),
        'L' => Some('l'),
        'M' => Some('m'),
        'N' => Some('n'),
        'O' => Some('o'),
        'P' => Some('p'),
        'Q' => Some('q'),
        'R' => Some('r'),
        'S' => Some('s'),
        'T' => Some('t'),
        'U' => Some('u'),
        'V' => Some('v'),
        'W' => Some('w'),
        'X' => Some('x'),
        'Y' => Some('y'),
        'Z' => Some('z'),
        'Đ' => Some('đ'),
        'Á' => Some('á'),
        'À' => Some('à'),
        'Ả' => Some('ả'),
        'Ã' => Some('ã'),
        'Ạ' => Some('ạ'),
        'Â' => Some('â'),
        'Ấ' => Some('ấ'),
        'Ầ' => Some('ầ'),
        'Ẩ' => Some('ẩ'),
        'Ẫ' => Some('ẫ'),
        'Ậ' => Some('ậ'),
        'Ă' => Some('ă'),
        'Ắ' => Some('ắ'),
        'Ằ' => Some('ằ'),
        'Ẳ' => Some('ẳ'),
        'Ẵ' => Some('ẵ'),
        'Ặ' => Some('ặ'),
        'É' => Some('é'),
        'È' => Some('è'),
        'Ẻ' => Some('ẻ'),
        'Ẽ' => Some('ẽ'),
        'Ẹ' => Some('ẹ'),
        'Ê' => Some('ê'),
        'Ế' => Some('ế'),
        'Ề' => Some('ề'),
        'Ể' => Some('ể'),
        'Ễ' => Some('ễ'),
        'Ệ' => Some('ệ'),
        'Í' => Some('í'),
        'Ì' => Some('ì'),
        'Ỉ' => Some('ỉ'),
        'Ĩ' => Some('ĩ'),
        'Ị' => Some('ị'),
        'Ó' => Some('ó'),
        'Ò' => Some('ò'),
        'Ỏ' => Some('ỏ'),
        'Õ' => Some('õ'),
        'Ọ' => Some('ọ'),
        'Ô' => Some('ô'),
        'Ố' => Some('ố'),
        'Ồ' => Some('ồ'),
        'Ổ' => Some('ổ'),
        'Ỗ' => Some('ỗ'),
        'Ộ' => Some('ộ'),
        'Ơ' => Some('ơ'),
        'Ớ' => Some('ớ'),
        'Ờ' => Some('ờ'),
        'Ở' => Some('ở'),
        'Ỡ' => Some('ỡ'),
        'Ợ' => Some('ợ'),
        'Ú' => Some('ú'),
        'Ù' => Some('ù'),
        'Ủ' => Some('ủ'),
        'Ũ' => Some('ũ'),
        'Ụ' => Some('ụ'),
        'Ư' => Some('ư'),
        'Ứ' => Some('ứ'),
        'Ừ' => Some('ừ'),
        'Ử' => Some('ử'),
        'Ữ' => Some('ữ'),
        'Ự' => Some('ự'),
        'Ý' => Some('ý'),
        'Ỳ' => Some('ỳ'),
        'Ỷ' => Some('ỷ'),
        'Ỹ' => Some('ỹ'),
        'Ỵ' => Some('ỵ'),
        _ => None,
    }
}

} // verus!

