//! The syllable validator: whether a word has the shape of a legal
//! Vietnamese syllable — no invalid graphemes, at most three maximal
//! consonant/vowel runs, and consonant runs spelled from the fixed
//! onset and coda allow-sets.

use vstd::prelude::*;

verus! {

use crate::vword::VChar;
use crate::vword::VWord;

/// The views of a vector of runs.
pub open spec fn run_views(s: Seq<Vec<VChar>>) -> Seq<Seq<VChar>> {
    Seq::new(s.len(), |i: int| s[i]@)
}

/// Whether the word holds any grapheme that did not classify.
pub open spec fn has_invalid(data: Seq<VChar>) -> bool {
    exists|i: int| 0 <= i < data.len() && data[i] is Invalid
}

/// The kind a run is grouped by: consonant runs against the rest.
pub open spec fn run_kind(c: VChar) -> bool {
    c is Consonant
}

/// The maximal same-kind runs of the word, in order.
pub open spec fn runs(data: Seq<VChar>) -> Seq<Seq<VChar>>
    decreases data.len(),
{
    if data.len() == 0 {
        Seq::empty()
    } else {
        let r = runs(data.drop_last());
        let c = data.last();
        if r.len() == 0 || run_kind(r.last().last()) != run_kind(c) {
            r.push(seq![c])
        } else {
            r.update(r.len() - 1, r.last().push(c))
        }
    }
}

/// The spelling of a run.
pub open spec fn run_chars(run: Seq<VChar>) -> Seq<char> {
    Seq::new(run.len(), |i: int| run[i].to_char_spec())
}

/// Whether a run is a consonant run.
pub open spec fn is_cons_run(run: Seq<VChar>) -> bool {
    run.len() > 0 && run[0] is Consonant
}

/// The consonant spellings a syllable may begin with.
pub open spec fn onset_allowed(s: Seq<char>) -> bool {
    ||| s == seq!['p', 'h']
    ||| s == seq!['t', 'h']
    ||| s == seq!['t', 'r']
    ||| s == seq!['g', 'i']
    ||| s == seq!['d']
    ||| s == seq!['c', 'h']
    ||| s == seq!['n', 'h']
    ||| s == seq!['n', 'g']
    ||| s == seq!['n', 'g', 'h']
    ||| s == seq!['k', 'h']
    ||| s == seq!['g']
    ||| s == seq!['g', 'h']
    ||| s == seq!['c']
    ||| s == seq!['q']
    ||| s == seq!['k']
    ||| s == seq!['t']
    ||| s == seq!['r']
    ||| s == seq!['h']
    ||| s == seq!['b']
    ||| s == seq!['m']
    ||| s == seq!['v']
    ||| s == seq!['đ']
    ||| s == seq!['n']
    ||| s == seq!['l']
    ||| s == seq!['x']
    ||| s == seq!['p']
    ||| s == seq!['s']
}

/// The consonant spellings a syllable may end with.
pub open spec fn coda_allowed(s: Seq<char>) -> bool {
    ||| s == seq!['n']
    ||| s == seq!['n', 'g']
    ||| s == seq!['t']
    ||| s == seq!['c']
    ||| s == seq!['m']
    ||| s == seq!['n', 'h']
    ||| s == seq!['c', 'h']
    ||| s == seq!['p']
}

/// Whether the word is a legal Vietnamese syllable: it classifies whole,
/// splits into at most three runs, and its consonant runs — the first as
/// onset, the last as coda — are spelled from the allow-sets. One run
/// alone, or none, is always legal; with three runs only the outer two
/// are constrained, the nucleus run is not.
pub open spec fn legal_syllable(data: Seq<VChar>) -> bool {
    if has_invalid(data) {
        false
    } else {
        let rs = runs(data);
        if rs.len() > 3 {
            false
        } else if rs.len() <= 1 {
            true
        } else if rs.len() == 2 {
            &&& (is_cons_run(rs[0]) ==> onset_allowed(run_chars(rs[0])))
            &&& (is_cons_run(rs[1]) ==> coda_allowed(run_chars(rs[1])))
        } else {
            &&& is_cons_run(rs[0])
            &&& onset_allowed(run_chars(rs[0]))
            &&& coda_allowed(run_chars(rs[2]))
        }
    }
}

/// A word with any `Invalid` grapheme is never a legal syllable.
pub proof fn lemma_invalid_never_legal(data: Seq<VChar>)
    requires
        has_invalid(data),
    ensures
        !legal_syllable(data),
{
}

/// Executable test of `is_cons_run`.
fn cons_run(run: &Vec<VChar>) -> (r: bool)
    ensures
        r == is_cons_run(run@),
{
    if run.len() == 0 {
        return false;
    }
    if let VChar::Consonant(_) = run[0] {
        true
    } else {
        false
    }
}

/// The spelling of a run, rendered to characters.
#[verifier::loop_isolation(false)]
fn spell(run: &Vec<VChar>) -> (s: Vec<char>)
    ensures
        s@ == run_chars(run@),
{
    let mut s: Vec<char> = Vec::new();
    let mut i: usize = 0;
    while i < run.len()
        invariant
            i <= run@.len(),
            s@.len() == i,
            forall|j: int| 0 <= j < i ==> s@[j] == run@[j].to_char_spec(),
        decreases run@.len() - i,
    {
        s.push(run[i].to_char());
        i = i + 1;
    }
    proof {
        assert(s@ =~= run_chars(run@));
    }
    s
}

/// Executable test against the onset allow-set.
fn onset_run_allowed(run: &Vec<VChar>) -> (r: bool)
    ensures
        r == onset_allowed(run_chars(run@)),
{
    let s = spell(run);
    let r = if s.len() == 1 {
        let a = s[0];
        a == 'd' || a == 'g' || a == 'c' || a == 'q' || a == 'k' || a == 't' || a == 'r' || a
            == 'h' || a == 'b' || a == 'm' || a == 'v' || a == 'đ' || a == 'n' || a == 'l' || a
            == 'x' || a == 'p' || a == 's'
    } else if s.len() == 2 {
        let a = s[0];
        let b = s[1];
        (a == 'p' && b == 'h') || (a == 't' && b == 'h') || (a == 't' && b == 'r') || (a == 'g'
            && b == 'i') || (a == 'c' && b == 'h') || (a == 'n' && b == 'h') || (a == 'n' && b
            == 'g') || (a == 'k' && b == 'h') || (a == 'g' && b == 'h')
    } else if s.len() == 3 {
        s[0] == 'n' && s[1] == 'g' && s[2] == 'h'
    } else {
        false
    };
    proof {
        lemma_spelling_shapes(s@);
    }
    r
}

/// Executable test against the coda allow-set.
fn coda_run_allowed(run: &Vec<VChar>) -> (r: bool)
    ensures
        r == coda_allowed(run_chars(run@)),
{
    let s = spell(run);
    let r = if s.len() == 1 {
        let a = s[0];
        a == 'n' || a == 't' || a == 'c' || a == 'm' || a == 'p'
    } else if s.len() == 2 {
        let a = s[0];
        let b = s[1];
        (a == 'n' && b == 'g') || (a == 'n' && b == 'h') || (a == 'c' && b == 'h')
    } else {
        false
    };
    proof {
        lemma_spelling_shapes(s@);
    }
    r
}

/// Ties a spelling of one, two or three characters to the sequence
/// literals the allow-sets are written with.
proof fn lemma_spelling_shapes(s: Seq<char>)
    ensures
        s.len() == 1 ==> s =~= seq![s[0]],
        s.len() == 2 ==> s =~= seq![s[0], s[1]],
        s.len() == 3 ==> s =~= seq![s[0], s[1], s[2]],
{
}

/// Whether the word is a legal Vietnamese syllable shape.
#[verifier::loop_isolation(false)]
pub fn is_vietnamese(input: &VWord) -> (r: bool)
    ensures
        r == legal_syllable(input@.0),
{
    let raw: &Vec<VChar> = input.vchars();
    let ghost d = input@.0;

    // a word that did not classify whole is rejected outright
    let mut i: usize = 0;
    while i < raw.len()
        invariant
            i <= d.len(),
            forall|j: int| 0 <= j < i ==> !(d[j] is Invalid),
        decreases d.len() - i,
    {
        if let VChar::Invalid(_) = raw[i] {
            return false;
        }
        i = i + 1;
    }

    // split into maximal same-kind runs
    let mut split: Vec<Vec<VChar>> = Vec::new();
    let mut i: usize = 0;
    while i < raw.len()
        invariant
            i <= d.len(),
            run_views(split@) =~~= runs(d.take(i as int)),
            forall|j: int| 0 <= j < split@.len() ==> split@[j]@.len() > 0,
        decreases d.len() - i,
    {
        let u = raw[i];
        proof {
            assert(d.take(i as int + 1).drop_last() =~= d.take(i as int));
            assert(d.take(i as int + 1).last() == d[i as int]);
        }
        let new_run = if split.len() == 0 {
            true
        } else {
            let last_run = &split[split.len() - 1];
            let prev = last_run[last_run.len() - 1];
            let prev_cons = if let VChar::Consonant(_) = prev {
                true
            } else {
                false
            };
            let cur_cons = if let VChar::Consonant(_) = u {
                true
            } else {
                false
            };
            prev_cons != cur_cons
        };
        if new_run {
            let mut run: Vec<VChar> = Vec::new();
            run.push(u);
            split.push(run);
            proof {
                assert(run_views(split@) =~~= runs(d.take(i as int + 1)));
            }
        } else {
            let mut run = match split.pop() {
                Some(rr) => rr,
                None => vstd::pervasive::unreached(),
            };
            run.push(u);
            split.push(run);
            proof {
                assert(run_views(split@) =~~= runs(d.take(i as int + 1)));
            }
        }
        i = i + 1;
    }
    proof {
        assert(d.take(d.len() as int) =~= d);
        assert(!has_invalid(d));
    }

    if split.len() > 3 {
        return false;
    }
    if split.len() <= 1 {
        return true;
    }
    if split.len() == 2 {
        let c1 = if cons_run(&split[0]) {
            onset_run_allowed(&split[0])
        } else {
            true
        };
        let c2 = if cons_run(&split[1]) {
            coda_run_allowed(&split[1])
        } else {
            true
        };
        c1 && c2
    } else {
        if !cons_run(&split[0]) {
            return false;
        }
        onset_run_allowed(&split[0]) && coda_run_allowed(&split[2])
    }
}

} // verus!
