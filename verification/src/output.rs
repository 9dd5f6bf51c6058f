//! The response record handed back to a host, and its encoding to the
//! interchange text format: a record with one field, `word`, written as
//! a JSON object with the string escaped the usual way.

use vstd::prelude::*;

verus! {

use crate::glyph;

/// The response record: the replacement word.
#[derive(Clone, Debug)]
pub struct Output {
    word: String,
}

impl View for Output {
    type V = Seq<char>;

    closed spec fn view(&self) -> Seq<char> {
        self.word@
    }
}

/// The hexadecimal digit for a value below sixteen.
pub open spec fn hex_digit(n: u32) -> char {
    if n == 0 {
        '0'
    } else if n == 1 {
        '1'
    } else if n == 2 {
        '2'
    } else if n == 3 {
        '3'
    } else if n == 4 {
        '4'
    } else if n == 5 {
        '5'
    } else if n == 6 {
        '6'
    } else if n == 7 {
        '7'
    } else if n == 8 {
        '8'
    } else if n == 9 {
        '9'
    } else if n == 10 {
        'a'
    } else if n == 11 {
        'b'
    } else if n == 12 {
        'c'
    } else if n == 13 {
        'd'
    } else if n == 14 {
        'e'
    } else {
        'f'
    }
}

/// How one character is written inside a JSON string: quote, backslash
/// and the named control characters get a backslash escape, the other
/// control characters a four-digit unicode escape, everything else
/// stands as it is.
pub open spec fn escape_char(c: char) -> Seq<char> {
    if c == '"' {
        seq!['\\', '"']
    } else if c == '\\' {
        seq!['\\', '\\']
    } else if c == '\n' {
        seq!['\\', 'n']
    } else if c == '\r' {
        seq!['\\', 'r']
    } else if c == '\t' {
        seq!['\\', 't']
    } else if (c as u32) < 32 {
        seq!['\\', 'u', '0', '0', hex_digit((c as u32) / 16), hex_digit((c as u32) % 16)]
    } else {
        seq![c]
    }
}

/// A whole string escaped, character by character.
pub open spec fn json_escaped(s: Seq<char>) -> Seq<char>
    decreases s.len(),
{
    if s.len() == 0 {
        Seq::empty()
    } else {
        json_escaped(s.drop_last()) + escape_char(s.last())
    }
}

/// The JSON object a response encodes to.
pub open spec fn json_of(word: Seq<char>) -> Seq<char> {
    seq!['{', '"', 'w', 'o', 'r', 'd', '"', ':', '"'] + json_escaped(word) + seq!['"', '}']
}

/// Push every character of `cs` onto `s`.
fn push_all(s: &mut String, cs: &[char])
    ensures
        final(s)@ == old(s)@ + cs@,
{
    let mut i: usize = 0;
    while i < cs.len()
        invariant
            i <= cs@.len(),
            s@ == old(s)@ + cs@.take(i as int),
        decreases cs@.len() - i,
    {
        let c = cs[i];
        glyph::push_char(s, c);
        proof {
            assert(old(s)@ + cs@.take(i as int + 1) =~= (old(s)@ + cs@.take(i as int)).push(
                cs@[i as int],
            ));
        }
        i = i + 1;
    }
    proof {
        assert(cs@.take(cs@.len() as int) =~= cs@);
    }
}

/// The executable hexadecimal digit.
fn hex_digit_char(n: u32) -> (c: char)
    requires
        n < 16,
    ensures
        c == hex_digit(n),
{
    match n {
        0 => '0',
        1 => '1',
        2 => '2',
        3 => '3',
        4 => '4',
        5 => '5',
        6 => '6',
        7 => '7',
        8 => '8',
        9 => '9',
        10 => 'a',
        11 => 'b',
        12 => 'c',
        13 => 'd',
        14 => 'e',
        _ => 'f',
    }
}

/// Append the escaped form of one character.
fn push_escaped(s: &mut String, c: char)
    ensures
        final(s)@ == old(s)@ + escape_char(c),
{
    if c == '"' {
        glyph::push_char(s, '\\');
        glyph::push_char(s, '"');
        proof {
            assert(s@ =~= old(s)@ + escape_char(c));
        }
    } else if c == '\\' {
        glyph::push_char(s, '\\');
        glyph::push_char(s, '\\');
        proof {
            assert(s@ =~= old(s)@ + escape_char(c));
        }
    } else if c == '\n' {
        glyph::push_char(s, '\\');
        glyph::push_char(s, 'n');
        proof {
            assert(s@ =~= old(s)@ + escape_char(c));
        }
    } else if c == '\r' {
        glyph::push_char(s, '\\');
        glyph::push_char(s, 'r');
        proof {
            assert(s@ =~= old(s)@ + escape_char(c));
        }
    } else if c == '\t' {
        glyph::push_char(s, '\\');
        glyph::push_char(s, 't');
        proof {
            assert(s@ =~= old(s)@ + escape_char(c));
        }
    } else if (c as u32) < 32 {
        let u = c as u32;
        glyph::push_char(s, '\\');
        glyph::push_char(s, 'u');
        glyph::push_char(s, '0');
        glyph::push_char(s, '0');
        glyph::push_char(s, hex_digit_char(u / 16));
        glyph::push_char(s, hex_digit_char(u % 16));
        proof {
            assert(s@ =~= old(s)@ + escape_char(c));
        }
    } else {
        glyph::push_char(s, c);
        proof {
            assert(s@ =~= old(s)@ + escape_char(c));
        }
    }
}

impl Output {
    /// A response from its word.
    pub fn new(word: String) -> (o: Output)
        ensures
            o@ == word@,
    {
        Output { word }
    }

    /// Encode the response as its JSON object.
    #[verifier::loop_isolation(false)]
    pub fn encode(&self) -> (s: String)
        ensures
            s@ == json_of(self@),
    {
        let mut s = String::new();
        let opener = ['{', '"', 'w', 'o', 'r', 'd', '"', ':', '"'];
        push_all(&mut s, &opener);
        proof {
            assert(opener@ =~= seq!['{', '"', 'w', 'o', 'r', 'd', '"', ':', '"']);
            assert(s@ =~= seq!['{', '"', 'w', 'o', 'r', 'd', '"', ':', '"']);
        }
        let w = self.word.as_str();
        for c in it: w.chars()
            invariant
                it.seq() == self@,
                s@ == seq!['{', '"', 'w', 'o', 'r', 'd', '"', ':', '"'] + json_escaped(
                    self@.take(it.index() as int),
                ),
        {
            push_escaped(&mut s, c);
            proof {
                assert(self@.take(it.index() as int + 1).drop_last() =~= self@.take(
                    it.index() as int,
                ));
            }
        }
        proof {
            assert(self@.take(self@.len() as int) =~= self@);
        }
        glyph::push_char(&mut s, '"');
        glyph::push_char(&mut s, '}');
        proof {
            assert(s@ =~= json_of(self@));
        }
        s
    }
}

} // verus!
