//! The per-keystroke request — the candidate text, the modifier key and
//! the input-method table — and its evaluation: split off the trailing
//! word, gate on syllable legality, and try the keystroke's actions in
//! order. The first action that finds a target decides the outcome.

use vstd::prelude::*;

verus! {

use crate::glyph;
use crate::input_method::get_type_spec;
use crate::input_method::InputMethod;
use crate::input_method::KeyType;
use crate::nucleus::toggle_tone_result;
use crate::util;
use crate::vword::from_str_cases;
use crate::vword::from_str_graphemes;
use crate::vword::render_seq;
use crate::vword::toggle_d_result;
use crate::vword::toggle_vovel_result;
use crate::vword::VChar;
use crate::vword::VResult;
use crate::vword::VWord;

/// Whether a character counts as a letter when the buffer is segmented:
/// decided concretely for ASCII, by `char::is_alphabetic` beyond.
pub open spec fn alphabetic_spec(c: char) -> bool {
    if (c as u32) < 128 {
        (97 <= c as u32 <= 122) || (65 <= c as u32 <= 90)
    } else {
        glyph::is_alpha_of(c)
    }
}

/// Whether a grapheme belongs to the trailing candidate word: everything
/// but an `Invalid` grapheme whose character is neither a letter nor a
/// decimal digit.
pub open spec fn word_component(c: VChar) -> bool {
    match c {
        VChar::Invalid(ch) => alphabetic_spec(ch) || (48 <= ch as u32 <= 57),
        _ => true,
    }
}

/// Where the untouched prefix ends: right after the last grapheme that
/// does not belong to the candidate word.
pub open spec fn split_point(data: Seq<VChar>) -> int
    decreases data.len(),
{
    if data.len() == 0 {
        0
    } else if !word_component(data.last()) {
        data.len() as int
    } else {
        split_point(data.drop_last())
    }
}

/// Applying the resolved actions in order: the first toggle that finds a
/// target decides — `Applied` succeeds, `Unset` reverts and fails — and
/// the no-op action, always last, leaves the word unchanged and fails.
pub open spec fn apply_actions(data: Seq<VChar>, actions: Seq<KeyType>) -> (Seq<VChar>, bool)
    decreases actions.len(),
{
    if actions.len() == 0 {
        (data, false)
    } else {
        match actions[0] {
            KeyType::NoAction => (data, false),
            KeyType::Toggle(r, f) => {
                let (d2, res) = toggle_vovel_result(data, r, f);
                if res is Applied {
                    (d2, true)
                } else if res is Unset {
                    (d2, false)
                } else {
                    apply_actions(data, actions.drop_first())
                }
            },
            KeyType::Tone(t) => {
                let (d2, res) = toggle_tone_result(data, t);
                if res is Applied {
                    (d2, true)
                } else if res is Unset {
                    (d2, false)
                } else {
                    apply_actions(data, actions.drop_first())
                }
            },
            KeyType::ToggleD => {
                let (d2, res) = toggle_d_result(data);
                if res is Applied {
                    (d2, true)
                } else if res is Unset {
                    (d2, false)
                } else {
                    apply_actions(data, actions.drop_first())
                }
            },
        }
    }
}

/// The whole evaluation of one keystroke: classify the text, split off
/// the trailing candidate word, and — when that word is a legal syllable
/// — try the keystroke's actions in order. The rendered text is the
/// replacement; the flag says whether a modifier was applied, so that a
/// host keeps the keystroke out of the text.
pub open spec fn output_spec(word: Seq<char>, modifier: char, im: InputMethod) -> (
    Seq<char>,
    bool,
) {
    let data = from_str_graphemes(word);
    let upcase = from_str_cases(word);
    let k = split_point(data);
    let rest_d = data.take(k);
    let rest_u = upcase.take(k);
    let word_d = data.skip(k);
    let word_u = upcase.skip(k);
    if !util::legal_syllable(word_d) {
        (render_seq(rest_d, rest_u) + render_seq(word_d, word_u), false)
    } else {
        let (d2, ok) = apply_actions(word_d, get_type_spec(im, modifier));
        (render_seq(rest_d, rest_u) + render_seq(d2, word_u), ok)
    }
}

/// The request record: the candidate text, the modifier key (folded to
/// lower case), and the keystroke table to resolve it with.
#[derive(Clone, Debug)]
pub struct Input {
    word: String,
    modifier: char,
    input_method: InputMethod,
}

impl View for Input {
    type V = (Seq<char>, char, InputMethod);

    closed spec fn view(&self) -> (Seq<char>, char, InputMethod) {
        (self.word@, self.modifier, self.input_method)
    }
}

/// Executable test of `word_component`.
fn is_word_component(c: VChar) -> (r: bool)
    ensures
        r == word_component(c),
{
    match c {
        VChar::Invalid(ch) => {
            let u = ch as u32;
            if u < 128 {
                (97 <= u && u <= 122) || (65 <= u && u <= 90) || (48 <= u && u <= 57)
            } else {
                glyph::char_is_alpha(ch)
            }
        },
        _ => true,
    }
}

/// Executable search for the split point.
#[verifier::loop_isolation(false)]
fn find_split(data: &Vec<VChar>) -> (k: usize)
    ensures
        k as int == split_point(data@),
        k <= data@.len(),
{
    let mut i: usize = data.len();
    proof {
        assert(data@.take(i as int) =~= data@);
    }
    while i > 0
        invariant
            i <= data@.len(),
            split_point(data@) == split_point(data@.take(i as int)),
        decreases i,
    {
        proof {
            assert(data@.take(i as int).last() == data@[i as int - 1]);
            assert(data@.take(i as int).drop_last() =~= data@.take(i as int - 1));
        }
        if !is_word_component(data[i - 1]) {
            return i;
        }
        i = i - 1;
    }
    proof {
        assert(data@.take(0).len() == 0);
    }
    0
}

/// Render a prefix and a word one after the other.
fn render_both(rest: &VWord, wrd: &VWord) -> (s: String)
    requires
        rest.wf(),
        wrd.wf(),
    ensures
        s@ == render_seq(rest@.0, rest@.1) + render_seq(wrd@.0, wrd@.1),
{
    let mut s = rest.to_string();
    let t = wrd.to_string();
    s.append(t.as_str());
    s
}

impl Input {
    /// A request from its parts; the modifier key is folded to lower
    /// case, a key with no one-character lower case becomes the null
    /// character.
    pub fn new(a: String, b: char, c: InputMethod) -> (inp: Input)
        ensures
            inp@ == (a@, glyph::fold_lower(b), c),
    {
        let m = glyph::to_fold_lower(b);
        Input { word: a, modifier: m, input_method: c }
    }

    /// Evaluate the request: the replacement for the request's text.
    /// `Ok` when a modifier was applied — the host then swallows the
    /// keystroke — and `Err` with the text unchanged or reverted when
    /// none was.
    #[verifier::loop_isolation(false)]
    pub fn output(&self) -> (r: Result<String, String>)
        ensures
            ({
                let (s, ok) = output_spec(self@.0, self@.1, self@.2);
                match r {
                    Ok(v) => ok && v@ == s,
                    Err(v) => !ok && v@ == s,
                }
            }),
    {
        let all = VWord::from_str(self.word.as_str());
        let ghost data = from_str_graphemes(self@.0);
        let ghost upcase = from_str_cases(self@.0);
        let k = find_split(all.vchars());

        // split into the untouched prefix and the candidate word
        let items = all.iter();
        let mut rest = VWord::new();
        let mut i: usize = 0;
        while i < k
            invariant
                i <= k <= data.len(),
                rest@.0.len() == i,
                rest@.1.len() == i,
                forall|j: int| 0 <= j < i ==> rest@.0[j] == data[j],
                forall|j: int| 0 <= j < i ==> rest@.1[j] == upcase[j],
            decreases k - i,
        {
            let (x, y) = items[i];
            rest.push(x, y);
            i = i + 1;
        }
        let mut wrd = VWord::new();
        let mut i2: usize = k;
        while i2 < items.len()
            invariant
                k <= i2 <= data.len(),
                items@.len() == data.len(),
                wrd@.0.len() == i2 - k,
                wrd@.1.len() == i2 - k,
                forall|j: int| 0 <= j < i2 - k ==> wrd@.0[j] == data[k + j],
                forall|j: int| 0 <= j < i2 - k ==> wrd@.1[j] == upcase[k + j],
            decreases items@.len() - i2,
        {
            let (x, y) = items[i2];
            wrd.push(x, y);
            i2 = i2 + 1;
        }
        proof {
            assert(rest@.0 =~= data.take(k as int));
            assert(rest@.1 =~= upcase.take(k as int));
            assert(wrd@.0 =~= data.skip(k as int));
            assert(wrd@.1 =~= upcase.skip(k as int));
        }
        let ghost wd = data.skip(k as int);

        if !util::is_vietnamese(&wrd) {
            return Err(render_both(&rest, &wrd));
        }

        // try the keystroke's actions in order
        let actions = self.input_method.get_type(self.modifier);
        let ok = try_actions(&mut wrd, &actions);
        if ok {
            Ok(render_both(&rest, &wrd))
        } else {
            Err(render_both(&rest, &wrd))
        }
    }
}

/// Try the resolved actions on the word, in order, until one of them
/// finds a target or the no-op action ends the run.
#[verifier::loop_isolation(false)]
fn try_actions(wrd: &mut VWord, actions: &Vec<KeyType>) -> (ok: bool)
    ensures
        final(wrd)@.0 == apply_actions(old(wrd)@.0, actions@).0,
        final(wrd)@.0.len() == old(wrd)@.0.len(),
        final(wrd)@.1 == old(wrd)@.1,
        ok == apply_actions(old(wrd)@.0, actions@).1,
{
    let ghost wd = wrd@.0;
    let ghost acts = actions@;
    proof {
        assert(acts.skip(0) =~= acts);
    }
    let mut idx: usize = 0;
    while idx < actions.len()
        invariant
            idx <= acts.len(),
            actions@ == acts,
            wrd@.0 == wd,
            wrd@.1 == old(wrd)@.1,
            apply_actions(wd, acts) == apply_actions(wd, acts.skip(idx as int)),
        decreases acts.len() - idx,
    {
        proof {
            assert(acts.skip(idx as int)[0] == acts[idx as int]);
            assert(acts.skip(idx as int).drop_first() =~= acts.skip(idx as int + 1));
        }
        match actions[idx] {
            KeyType::NoAction => {
                return false;
            },
            KeyType::Toggle(r, f) => {
                proof {
                    crate::vword::lemma_vowel_flag_target_bounds(wd, r);
                }
                let res = wrd.toggle_vovel(&r, &f);
                match res {
                    VResult::Applied => {
                        return true;
                    },
                    VResult::Unset => {
                        return false;
                    },
                    VResult::NoTarget => {},
                }
            },
            KeyType::Tone(t) => {
                proof {
                    crate::nucleus::lemma_tone_target_bounds(wd);
                }
                let res = wrd.toggle_tone(&t);
                match res {
                    VResult::Applied => {
                        return true;
                    },
                    VResult::Unset => {
                        return false;
                    },
                    VResult::NoTarget => {
                        proof {
                            crate::nucleus::lemma_toggle_tone_no_target(wd, t);
                        }
                    },
                }
            },
            KeyType::ToggleD => {
                proof {
                    crate::vword::lemma_d_target_bounds(wd);
                }
                let res = wrd.toggle_d();
                match res {
                    VResult::Applied => {
                        return true;
                    },
                    VResult::Unset => {
                        return false;
                    },
                    VResult::NoTarget => {},
                }
            },
        }
        idx = idx + 1;
    }
    false
}

} // verus!