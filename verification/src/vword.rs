//! The grapheme model: classified characters (`VChar`), words (`VWord`),
//! and the toggle operations on them.

use vstd::prelude::*;

verus! {

use crate::glyph;
use crate::nucleus;

/// Outcome of a toggle operation: the mark was applied, removed again,
/// or no eligible character was found.
#[derive(Clone, Copy, Debug, PartialEq, Eq, Structural)]
pub enum VResult {
    Applied,
    Unset,
    NoTarget,
}

/// Tone of a vowel: none, acute, grave, hook, tilde, or dot.
#[derive(Clone, Copy, Debug, PartialEq, Eq, Structural)]
pub enum Tone {
    N,
    S,
    F,
    R,
    X,
    J,
}

/// Base vowel letter, before any modifier.
#[derive(Clone, Copy, Debug, PartialEq, Eq, Structural)]
pub enum Raw {
    A,
    E,
    I,
    O,
    U,
    Y,
}

/// Non-tone vowel modifier: none, the breve/horn class (ă, ơ, ư),
/// or the circumflex class (â, ê, ô).
#[derive(Clone, Copy, Debug, PartialEq, Eq, Structural)]
pub enum Flag {
    N,
    W,
    D,
}

/// One classified character. The character need not belong to a valid
/// Vietnamese word: anything that is neither a Vietnamese consonant nor a
/// vowel glyph is kept as `Invalid`.
#[derive(Clone, Copy, Debug, PartialEq, Eq, Structural)]
pub enum VChar {
    Consonant(char),
    Vovel(Raw, Flag, Tone),
    Invalid(char),
}

/// The 17 Vietnamese consonant letters.
pub fn consonants() -> (r: Vec<char>)
    ensures
        r@ == consonant_letters(),
{
    let v = vec!['b', 'c', 'd', 'đ', 'g', 'h', 'k', 'l', 'm', 'n', 'p', 'q', 'r', 's', 't', 'v', 'x'];
    proof {
        assert(v@ =~= consonant_letters());
    }
    v
}

/// The consonant letters as a sequence, in their conventional order.
pub open spec fn consonant_letters() -> Seq<char> {
    seq!['b', 'c', 'd', 'đ', 'g', 'h', 'k', 'l', 'm', 'n', 'p', 'q', 'r', 's', 't', 'v', 'x']
}

/// Whether `c` is one of the 17 Vietnamese consonant letters (lower case).
pub open spec fn is_consonant_letter(c: char) -> bool {
    ||| c == 'b'
    ||| c == 'c'
    ||| c == 'd'
    ||| c == 'đ'
    ||| c == 'g'
    ||| c == 'h'
    ||| c == 'k'
    ||| c == 'l'
    ||| c == 'm'
    ||| c == 'n'
    ||| c == 'p'
    ||| c == 'q'
    ||| c == 'r'
    ||| c == 's'
    ||| c == 't'
    ||| c == 'v'
    ||| c == 'x'
}

/// Executable form of `is_consonant_letter`.
pub fn is_consonant_char(c: char) -> (r: bool)
    ensures
        r == is_consonant_letter(c),
{
    match c {
        'b' | 'c' | 'd' | 'đ' | 'g' | 'h' | 'k' | 'l' | 'm' | 'n' | 'p' | 'q' | 'r' | 's' | 't'
            | 'v' | 'x' => true,
        _ => false,
    }
}

/// How one character is classified: against the lower- and upper-case
/// glyph tables and the consonant set first, concretely for the rest of
/// ASCII, and through `char`'s own case functions beyond that — first
/// lower-cased, then matched again, kept as `Invalid` when nothing
/// matches. The second component records whether the character was
/// written upper case.
pub open spec fn from_char_spec(c: char) -> (VChar, bool) {
    match glyph::lower_vowel_of(c) {
        Some(rft) => (VChar::Vovel(rft.0, rft.1, rft.2), false),
        None => match glyph::upper_vowel_of(c) {
            Some(rft) => (VChar::Vovel(rft.0, rft.1, rft.2), true),
            None => if is_consonant_letter(c) {
                (VChar::Consonant(c), false)
            } else {
                match glyph::downcase_known(c) {
                    Some(l) => if is_consonant_letter(l) {
                        (VChar::Consonant(l), true)
                    } else {
                        (VChar::Invalid(l), true)
                    },
                    None => if (c as u32) < 128 {
                        (VChar::Invalid(c), false)
                    } else if glyph::lower_chars_of(c).len() != 1 {
                        (VChar::Invalid(c), false)
                    } else {
                        let cl = glyph::lower_chars_of(c)[0];
                        let up = glyph::is_upper_of(c);
                        match glyph::lower_vowel_of(cl) {
                            Some(rft) => (VChar::Vovel(rft.0, rft.1, rft.2), up),
                            None => if is_consonant_letter(cl) {
                                (VChar::Consonant(cl), up)
                            } else {
                                (VChar::Invalid(cl), up)
                            },
                        }
                    },
                }
            },
        },
    }
}

impl VChar {
    /// Whether this grapheme is a vowel.
    pub open spec fn is_vowel(self) -> bool {
        self is Vovel
    }

    /// The glyph this grapheme renders to, lower case; a space for the
    /// vowel triples outside the glyph table.
    pub open spec fn to_char_spec(self) -> char {
        match self {
            VChar::Consonant(c) => c,
            VChar::Invalid(c) => c,
            VChar::Vovel(r, f, t) => match glyph::vowel_char(r, f, t) {
                Some(c) => c,
                None => ' ',
            },
        }
    }

    /// Render this grapheme as one (lower-case) character.
    pub fn to_char(&self) -> (res: char)
        ensures
            res == self.to_char_spec(),
    {
        match self {
            VChar::Consonant(c) => *c,
            VChar::Invalid(c) => *c,
            VChar::Vovel(r, f, t) => match glyph::vowel_glyph(*r, *f, *t) {
                Some(c) => c,
                None => ' ',
            },
        }
    }

    /// Render this grapheme as a one-character string; a space for the
    /// vowel triples outside the glyph table.
    pub fn to_string(&self) -> (s: String)
        ensures
            s@ == seq![self.to_char_spec()],
    {
        let mut s = String::new();
        glyph::push_char(&mut s, self.to_char());
        proof {
            assert(s@ =~= seq![self.to_char_spec()]);
        }
        s
    }

    /// Classify one character, together with its was-upper-case flag.
    pub fn from_char(c: char) -> (res: (VChar, bool))
        ensures
            res == from_char_spec(c),
    {
        if let Some((r, f, t)) = glyph::lookup_lower_vowel(c) {
            (VChar::Vovel(r, f, t), false)
        } else if let Some((r, f, t)) = glyph::lookup_upper_vowel(c) {
            (VChar::Vovel(r, f, t), true)
        } else if is_consonant_char(c) {
            (VChar::Consonant(c), false)
        } else if let Some(l) = glyph::lookup_downcase(c) {
            if is_consonant_char(l) {
                (VChar::Consonant(l), true)
            } else {
                (VChar::Invalid(l), true)
            }
        } else if (c as u32) < 128 {
            (VChar::Invalid(c), false)
        } else {
            let low = glyph::char_lower_chars(c);
            if low.len() != 1 {
                (VChar::Invalid(c), false)
            } else {
                let cl = low[0];
                let up = glyph::char_is_upper(c);
                if let Some((r, f, t)) = glyph::lookup_lower_vowel(cl) {
                    (VChar::Vovel(r, f, t), up)
                } else if is_consonant_char(cl) {
                    (VChar::Consonant(cl), up)
                } else {
                    (VChar::Invalid(cl), up)
                }
            }
        }
    }

    /// What toggling a tone does to one grapheme: on a vowel, the same
    /// tone clears and any other tone is set; anything else is left as it
    /// is, with no target.
    pub open spec fn toggle_tone_spec(self, tone: Tone) -> (VChar, VResult) {
        match self {
            VChar::Vovel(r, f, t0) => if t0 == tone {
                (VChar::Vovel(r, f, Tone::N), VResult::Unset)
            } else {
                (VChar::Vovel(r, f, tone), VResult::Applied)
            },
            _ => (self, VResult::NoTarget),
        }
    }

    /// Toggle `tone` on this grapheme.
    pub fn toggle_tone(&mut self, tone: &Tone) -> (res: VResult)
        ensures
            *final(self) == old(self).toggle_tone_spec(*tone).0,
            res == old(self).toggle_tone_spec(*tone).1,
    {
        if let VChar::Vovel(r, f, t0) = *self {
            if t0 == *tone {
                *self = VChar::Vovel(r, f, Tone::N);
                VResult::Unset
            } else {
                *self = VChar::Vovel(r, f, *tone);
                VResult::Applied
            }
        } else {
            VResult::NoTarget
        }
    }
}

/// How one grapheme with its case flag renders back to a character.
pub open spec fn render_char(v: VChar, up: bool) -> char {
    if up {
        glyph::upcase_char(v.to_char_spec())
    } else {
        v.to_char_spec()
    }
}

/// The characters that the round-trip law covers: everything the
/// library's own tables know (the Vietnamese vowel glyphs and consonants
/// in both cases) and all of ASCII — digits, spaces and punctuation
/// among them.
pub open spec fn vn_scope_char(c: char) -> bool {
    ||| (c as u32) < 128
    ||| glyph::lower_vowel_of(c) is Some
    ||| glyph::upper_vowel_of(c) is Some
    ||| c == 'đ'
    ||| c == 'Đ'
}

/// Classifying a character in scope and rendering it back yields the
/// character itself.
pub proof fn lemma_char_round_trip(c: char)
    requires
        vn_scope_char(c),
    ensures
        render_char(from_char_spec(c).0, from_char_spec(c).1) == c,
{
}

/// The graphemes that classifying every character of `s` yields.
pub open spec fn from_str_graphemes(s: Seq<char>) -> Seq<VChar> {
    Seq::new(s.len(), |i: int| from_char_spec(s[i]).0)
}

/// The was-upper-case flags that classifying every character of `s`
/// yields.
pub open spec fn from_str_cases(s: Seq<char>) -> Seq<bool> {
    Seq::new(s.len(), |i: int| from_char_spec(s[i]).1)
}

/// How a grapheme sequence with its case flags renders back to text.
pub open spec fn render_seq(data: Seq<VChar>, upcase: Seq<bool>) -> Seq<char> {
    Seq::new(data.len(), |i: int| render_char(data[i], upcase[i]))
}

/// Round trip: over characters in scope — Vietnamese letters of either
/// case, digits, spaces and punctuation — classifying a text and
/// rendering it back yields the text itself.
pub proof fn lemma_round_trip(s: Seq<char>)
    requires
        forall|i: int| 0 <= i < s.len() ==> vn_scope_char(#[trigger] s[i]),
    ensures
        render_seq(from_str_graphemes(s), from_str_cases(s)) =~= s,
{
    assert forall|i: int| 0 <= i < s.len() implies render_seq(
        from_str_graphemes(s),
        from_str_cases(s),
    )[i] == s[i] by {
        lemma_char_round_trip(s[i]);
    }
}

/// Rightmost grapheme eligible for the d/đ toggle.
pub open spec fn d_target(data: Seq<VChar>) -> Option<int>
    decreases data.len(),
{
    if data.len() == 0 {
        None
    } else if data.last() == VChar::Consonant('d') || data.last() == VChar::Consonant('đ') {
        Some(data.len() - 1)
    } else {
        d_target(data.drop_last())
    }
}

/// What toggling between d and đ does to a word: nothing without a
/// target; a d there becomes đ (`Applied`), a đ becomes d (`Unset`).
pub open spec fn toggle_d_result(data: Seq<VChar>) -> (Seq<VChar>, VResult) {
    match d_target(data) {
        None => (data, VResult::NoTarget),
        Some(i) => if data[i] == VChar::Consonant('d') {
            (data.update(i, VChar::Consonant('đ')), VResult::Applied)
        } else {
            (data.update(i, VChar::Consonant('d')), VResult::Unset)
        },
    }
}

/// Rightmost vowel whose raw letter is `raw`.
pub open spec fn vowel_flag_target(data: Seq<VChar>, raw: Raw) -> Option<int>
    decreases data.len(),
{
    if data.len() == 0 {
        None
    } else if data.last() matches VChar::Vovel(r, _, _) && r == raw {
        Some(data.len() - 1)
    } else {
        vowel_flag_target(data.drop_last(), raw)
    }
}

/// What toggling a vowel flag does to a word: nothing without a target;
/// at the rightmost vowel with the raw letter, the same flag clears to
/// none (`Unset`) and any other flag is set (`Applied`). The tone is
/// kept either way.
pub open spec fn toggle_vovel_result(data: Seq<VChar>, raw: Raw, flag: Flag) -> (
    Seq<VChar>,
    VResult,
) {
    match vowel_flag_target(data, raw) {
        None => (data, VResult::NoTarget),
        Some(i) => match data[i] {
            VChar::Vovel(r, f, t) => if f == flag {
                (data.update(i, VChar::Vovel(r, Flag::N, t)), VResult::Unset)
            } else {
                (data.update(i, VChar::Vovel(r, flag, t)), VResult::Applied)
            },
            _ => (data, VResult::NoTarget),
        },
    }
}

/// The d/đ target always lies inside the word.
pub proof fn lemma_d_target_bounds(data: Seq<VChar>)
    ensures
        d_target(data) matches Some(i) ==> 0 <= i < data.len(),
    decreases data.len(),
{
    if data.len() > 0 && !(data.last() == VChar::Consonant('d') || data.last()
        == VChar::Consonant('đ')) {
        lemma_d_target_bounds(data.drop_last());
    }
}

/// The vowel-flag target always lies inside the word and is a vowel with
/// the raw letter asked for.
pub proof fn lemma_vowel_flag_target_bounds(data: Seq<VChar>, raw: Raw)
    ensures
        vowel_flag_target(data, raw) matches Some(i) ==> 0 <= i < data.len() && data[i].is_vowel(),
    decreases data.len(),
{
    if data.len() > 0 && !(data.last() matches VChar::Vovel(r, _, _) && r == raw) {
        lemma_vowel_flag_target_bounds(data.drop_last(), raw);
    }
}

/// A word: the classified graphemes of a text, with an index-aligned
/// sequence of was-upper-case flags of the same length. The text it came
/// from need not be valid Vietnamese.
#[derive(Clone, Debug)]
pub struct VWord {
    data: Vec<VChar>,
    upcase: Vec<bool>,
}

impl View for VWord {
    type V = (Seq<VChar>, Seq<bool>);

    closed spec fn view(&self) -> (Seq<VChar>, Seq<bool>) {
        (self.data@, self.upcase@)
    }
}

impl PartialEq for VWord {
    /// Two words are equal when their graphemes and their case flags are.
    fn eq(&self, other: &VWord) -> (r: bool) {
        if self.data.len() != other.data.len() || self.upcase.len() != other.upcase.len() {
            return false;
        }
        let n = self.data.len();
        let mut i: usize = 0;
        while i < n
            invariant
                n == self.data.len() == other.data.len(),
                self.upcase.len() == other.upcase.len(),
                i <= n,
                forall|j: int| 0 <= j < i ==> self.data@[j] == other.data@[j],
            decreases n - i,
        {
            if self.data[i] != other.data[i] {
                return false;
            }
            i += 1;
        }
        let m = self.upcase.len();
        let mut k: usize = 0;
        while k < m
            invariant
                n == self.data.len() == other.data.len(),
                m == self.upcase.len() == other.upcase.len(),
                k <= m,
                forall|j: int| 0 <= j < n ==> self.data@[j] == other.data@[j],
                forall|j: int| 0 <= j < k ==> self.upcase@[j] == other.upcase@[j],
            decreases m - k,
        {
            if self.upcase[k] != other.upcase[k] {
                return false;
            }
            k += 1;
        }
        proof {
            assert(self.data@ =~= other.data@);
            assert(self.upcase@ =~= other.upcase@);
        }
        true
    }
}

impl vstd::std_specs::cmp::PartialEqSpecImpl for VWord {
    open spec fn obeys_eq_spec() -> bool {
        true
    }

    open spec fn eq_spec(&self, other: &VWord) -> bool {
        self@ == other@
    }
}

impl VWord {
    /// The internal invariant: graphemes and case flags stay aligned.
    pub open spec fn wf(&self) -> bool {
        self@.0.len() == self@.1.len()
    }

    /// An empty word.
    pub fn new() -> (w: VWord)
        ensures
            w@.0 =~= Seq::<VChar>::empty(),
            w@.1 =~= Seq::<bool>::empty(),
            w.wf(),
    {
        VWord { data: Vec::new(), upcase: Vec::new() }
    }

    /// Append one grapheme with its case flag at the end.
    pub fn push(&mut self, c: VChar, is_uppercase: bool)
        ensures
            final(self)@.0 == old(self)@.0.push(c),
            final(self)@.1 == old(self)@.1.push(is_uppercase),
    {
        self.data.push(c);
        self.upcase.push(is_uppercase);
    }

    /// A word from its parts. The two sequences must be aligned; an
    /// unequal length would be a construction defect.
    pub fn new_raw(data: Vec<VChar>, upcase: Vec<bool>) -> (w: VWord)
        requires
            data@.len() == upcase@.len(),
        ensures
            w@.0 == data@,
            w@.1 == upcase@,
            w.wf(),
    {
        VWord { data, upcase }
    }

    /// Classify a whole text into a word.
    pub fn from_str(s: &str) -> (w: VWord)
        ensures
            w@.0 == from_str_graphemes(s@),
            w@.1 == from_str_cases(s@),
            w.wf(),
    {
        let mut ret = VWord::new();
        for c in it: s.chars()
            invariant
                it.seq() == s@,
                ret@.0.len() == it.index(),
                ret@.1.len() == it.index(),
                forall|j: int| 0 <= j < it.index() ==> ret@.0[j] == from_char_spec(s@[j]).0,
                forall|j: int| 0 <= j < it.index() ==> ret@.1[j] == from_char_spec(s@[j]).1,
        {
            let (x, y) = VChar::from_char(c);
            ret.push(x, y);
        }
        proof {
            assert(ret@.0 =~= from_str_graphemes(s@));
            assert(ret@.1 =~= from_str_cases(s@));
        }
        ret
    }

    /// The graphemes of the word.
    pub fn vchars(&self) -> (r: &Vec<VChar>)
        ensures
            r@ == self@.0,
    {
        &self.data
    }

    /// The graphemes of the word, each with its case flag.
    pub fn iter(&self) -> (r: Vec<(VChar, bool)>)
        requires
            self.wf(),
        ensures
            r@.len() == self@.0.len(),
            forall|j: int| 0 <= j < r@.len() ==> r@[j] == (self@.0[j], self@.1[j]),
    {
        let mut r: Vec<(VChar, bool)> = Vec::new();
        let mut i: usize = 0;
        while i < self.data.len()
            invariant
                self.wf(),
                i <= self.data.len(),
                r@.len() == i,
                forall|j: int| 0 <= j < i ==> r@[j] == (self@.0[j], self@.1[j]),
            decreases self.data.len() - i,
        {
            r.push((self.data[i], self.upcase[i]));
            i += 1;
        }
        r
    }

    /// Toggle the tone on one grapheme of the word, in place.
    fn apply_tone_at(&mut self, i: usize, tone: &Tone) -> (res: VResult)
        requires
            i < old(self)@.0.len(),
        ensures
            final(self)@.0 == old(self)@.0.update(
                i as int,
                old(self)@.0[i as int].toggle_tone_spec(*tone).0,
            ),
            final(self)@.1 == old(self)@.1,
            res == old(self)@.0[i as int].toggle_tone_spec(*tone).1,
    {
        let mut g = self.data[i];
        let res = g.toggle_tone(tone);
        self.data[i] = g;
        res
    }

    /// Toggle `tone` on the word. The nucleus-selection rules pick the
    /// target grapheme; the same tone there clears it and returns
    /// `Unset`, any other tone is set and returns `Applied`; without a
    /// target the word stays as it is.
    pub fn toggle_tone(&mut self, tone: &Tone) -> (res: VResult)
        ensures
            final(self)@.0 == nucleus::toggle_tone_result(old(self)@.0, *tone).0,
            final(self)@.1 == old(self)@.1,
            res == nucleus::toggle_tone_result(old(self)@.0, *tone).1,
    {
        match nucleus::select_target(&self.data) {
            None => VResult::NoTarget,
            Some(t) => self.apply_tone_at(t, tone),
        }
    }

    /// Toggle between d and đ at the rightmost eligible consonant:
    /// d becomes đ and returns `Applied`, đ becomes d and returns
    /// `Unset`; without either the word stays as it is.
    #[verifier::loop_isolation(false)]
    pub fn toggle_d(&mut self) -> (res: VResult)
        ensures
            final(self)@.0 == toggle_d_result(old(self)@.0).0,
            final(self)@.1 == old(self)@.1,
            res == toggle_d_result(old(self)@.0).1,
    {
        let ghost d = self@.0;
        let mut i: usize = self.data.len();
        proof {
            assert(d.take(i as int) =~= d);
        }
        while i > 0
            invariant
                self@.0 == d,
                self@.1 == old(self)@.1,
                i <= d.len(),
                d_target(d) == d_target(d.take(i as int)),
            decreases i,
        {
            i = i - 1;
            proof {
                assert(d.take(i as int + 1).last() == d[i as int]);
                assert(d.take(i as int + 1).drop_last() =~= d.take(i as int));
            }
            let c = self.data[i];
            if let VChar::Consonant(cc) = c {
                if cc == 'd' {
                    self.data[i] = VChar::Consonant('đ');
                    return VResult::Applied;
                }
                if cc == 'đ' {
                    self.data[i] = VChar::Consonant('d');
                    return VResult::Unset;
                }
            }
        }
        proof {
            assert(d.take(0).len() == 0);
        }
        VResult::NoTarget
    }

    /// Toggle `flag` on the rightmost vowel whose raw letter is `raw`:
    /// the same flag there clears it and returns `Unset`, any other flag
    /// is set and returns `Applied`; without such a vowel the word stays
    /// as it is.
    #[verifier::loop_isolation(false)]
    pub fn toggle_vovel(&mut self, raw: &Raw, flag: &Flag) -> (res: VResult)
        ensures
            final(self)@.0 == toggle_vovel_result(old(self)@.0, *raw, *flag).0,
            final(self)@.1 == old(self)@.1,
            res == toggle_vovel_result(old(self)@.0, *raw, *flag).1,
    {
        let ghost d = self@.0;
        let mut i: usize = self.data.len();
        proof {
            assert(d.take(i as int) =~= d);
        }
        while i > 0
            invariant
                self@.0 == d,
                self@.1 == old(self)@.1,
                i <= d.len(),
                vowel_flag_target(d, *raw) == vowel_flag_target(d.take(i as int), *raw),
            decreases i,
        {
            i = i - 1;
            proof {
                assert(d.take(i as int + 1).last() == d[i as int]);
                assert(d.take(i as int + 1).drop_last() =~= d.take(i as int));
            }
            let c = self.data[i];
            if let VChar::Vovel(r, f, t) = c {
                if r == *raw {
                    if f == *flag {
                        self.data[i] = VChar::Vovel(r, Flag::N, t);
                        return VResult::Unset;
                    } else {
                        self.data[i] = VChar::Vovel(r, *flag, t);
                        return VResult::Applied;
                    }
                }
            }
        }
        proof {
            assert(d.take(0).len() == 0);
        }
        VResult::NoTarget
    }

    /// Render the word back to text: each grapheme's glyph, upper-cased
    /// where its case flag is set.
    pub fn to_string(&self) -> (s: String)
        requires
            self.wf(),
        ensures
            s@ == render_seq(self@.0, self@.1),
    {
        let mut s = String::new();
        let mut i: usize = 0;
        while i < self.data.len()
            invariant
                self.wf(),
                i <= self.data.len(),
                s@.len() == i,
                forall|j: int| 0 <= j < i ==> s@[j] == render_char(self@.0[j], self@.1[j]),
            decreases self.data.len() - i,
        {
            let c = self.data[i].to_char();
            let c = if self.upcase[i] {
                glyph::upcase(c)
            } else {
                c
            };
            glyph::push_char(&mut s, c);
            i += 1;
        }
        proof {
            assert(s@ =~= render_seq(self@.0, self@.1));
        }
        s
    }
}

} // verus!
