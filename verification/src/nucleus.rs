//! Nucleus selection: which vowel of a trailing vowel cluster carries the
//! tone mark. The rules run in a fixed order of linguistic precedence —
//! the qu- and gi-exceptions, the diphthong table, the coda-glide and
//! onset-glide heuristics, and a last-grapheme fallback — and a later rule
//! fires only when no earlier one found a match.

use vstd::prelude::*;

verus! {

use crate::vword::Flag;
use crate::vword::Raw;
use crate::vword::VChar;

/// Index of the last vowel grapheme of the word, if there is one.
pub open spec fn last_vowel_idx(data: Seq<VChar>) -> Option<int>
    decreases data.len(),
{
    if data.len() == 0 {
        None
    } else if data.last().is_vowel() {
        Some(data.len() - 1)
    } else {
        last_vowel_idx(data.drop_last())
    }
}

/// Start of the maximal vowel run that ends at `hi`.
pub open spec fn run_start(data: Seq<VChar>, hi: int) -> int
    decreases hi,
{
    if hi <= 0 {
        0
    } else if data[hi - 1].is_vowel() {
        run_start(data, hi - 1)
    } else {
        hi
    }
}

/// The raw letter and flag of a vowel grapheme; the tone is never part of
/// a selection rule.
pub open spec fn vowel_rf(c: VChar) -> (Raw, Flag) {
    match c {
        VChar::Vovel(r, f, _) => (r, f),
        _ => arbitrary(),
    }
}

/// The qu-exception: a plain u right after a q sounds with the q and is
/// not a nucleus candidate; the cluster starts one place later.
pub open spec fn after_qu(data: Seq<VChar>, lo: int) -> int {
    if vowel_rf(data[lo]) == (Raw::U, Flag::N) && lo >= 1 && data[lo - 1] == VChar::Consonant('q') {
        lo + 1
    } else {
        lo
    }
}

/// The gi-exception: a plain i right after a g is part of the onset and
/// dropped — unless it is the only vowel, so that a bare gi still has a
/// nucleus.
pub open spec fn after_gi(data: Seq<VChar>, lo: int, hi: int) -> int {
    if lo < hi && vowel_rf(data[lo]) == (Raw::I, Flag::N) && lo >= 1 && data[lo - 1]
        == VChar::Consonant('g') {
        lo + 1
    } else {
        lo
    }
}

/// The fixed diphthong table: for a matching adjacent pair, which of its
/// two members carries the tone (0 the left, 1 the right).
pub open spec fn diphthong_offset(a: (Raw, Flag), b: (Raw, Flag)) -> Option<int> {
    if a == (Raw::I, Flag::N) && b == (Raw::A, Flag::N) {
        Some(0int)
    } else if a == (Raw::Y, Flag::N) && b == (Raw::A, Flag::N) {
        Some(0int)
    } else if a == (Raw::I, Flag::N) && b == (Raw::E, Flag::D) {
        Some(1int)
    } else if a == (Raw::Y, Flag::N) && b == (Raw::E, Flag::D) {
        Some(1int)
    } else if a == (Raw::U, Flag::N) && b == (Raw::O, Flag::D) {
        Some(1int)
    } else if a == (Raw::U, Flag::N) && b == (Raw::A, Flag::N) {
        Some(0int)
    } else if a == (Raw::U, Flag::W) && b == (Raw::O, Flag::W) {
        Some(1int)
    } else if a == (Raw::U, Flag::W) && b == (Raw::A, Flag::N) {
        Some(0int)
    } else {
        None
    }
}

/// First adjacent pair at or after `i` (and before `hi`) that the
/// diphthong table knows, resolved to the index of the member that
/// carries the tone.
pub open spec fn diphthong_scan(data: Seq<VChar>, hi: int, i: int) -> Option<int>
    decreases hi - i,
{
    if i >= hi {
        None
    } else {
        match diphthong_offset(vowel_rf(data[i]), vowel_rf(data[i + 1])) {
            Some(off) => Some(i + off),
            None => diphthong_scan(data, hi, i + 1),
        }
    }
}

/// Vowels that can close a syllable as a glide.
pub open spec fn is_coda_glide(p: (Raw, Flag)) -> bool {
    p == (Raw::Y, Flag::N) || p == (Raw::U, Flag::N) || p == (Raw::I, Flag::N) || p == (
    Raw::O,
    Flag::N,
    )
}

/// First non-leading vowel in `i..=hi` that is a coda glide; the tone
/// goes on its predecessor.
pub open spec fn coda_scan(data: Seq<VChar>, hi: int, i: int) -> Option<int>
    decreases hi + 1 - i,
{
    if i > hi {
        None
    } else if is_coda_glide(vowel_rf(data[i])) {
        Some(i - 1)
    } else {
        coda_scan(data, hi, i + 1)
    }
}

/// Vowels that can open a syllable as a glide.
pub open spec fn is_onset_glide(p: (Raw, Flag)) -> bool {
    p == (Raw::O, Flag::N) || p == (Raw::U, Flag::N)
}

/// First vowel in `i..hi` that is an onset glide; the tone goes on its
/// successor.
pub open spec fn onset_scan(data: Seq<VChar>, hi: int, i: int) -> Option<int>
    decreases hi - i,
{
    if i >= hi {
        None
    } else if is_onset_glide(vowel_rf(data[i])) {
        Some(i + 1)
    } else {
        onset_scan(data, hi, i + 1)
    }
}

/// The index that carries the tone, if any: collect the last vowel run,
/// at most its last three members; apply the qu- and gi-exceptions; a
/// sole survivor is the nucleus; otherwise the diphthong table, the
/// coda-glide and the onset-glide rules are tried in that order; when
/// nothing matched the very last grapheme of the word stands in, whether
/// or not it is a vowel.
pub open spec fn tone_target(data: Seq<VChar>) -> Option<int> {
    match last_vowel_idx(data) {
        None => None,
        Some(hi) => {
            let lo0 = vstd::math::max(run_start(data, hi), hi - 2);
            let lo1 = after_qu(data, lo0);
            if lo1 > hi {
                None
            } else {
                let lo = after_gi(data, lo1, hi);
                if lo == hi {
                    Some(lo)
                } else if diphthong_scan(data, hi, lo) is Some {
                    diphthong_scan(data, hi, lo)
                } else if coda_scan(data, hi, lo + 1) is Some {
                    coda_scan(data, hi, lo + 1)
                } else if onset_scan(data, hi, lo) is Some {
                    onset_scan(data, hi, lo)
                } else {
                    Some(data.len() - 1)
                }
            }
        },
    }
}

/// What toggling a tone does to a whole word: nothing without a target;
/// otherwise the target grapheme is toggled in place.
pub open spec fn toggle_tone_result(data: Seq<VChar>, tone: crate::vword::Tone) -> (
    Seq<VChar>,
    crate::vword::VResult,
) {
    match tone_target(data) {
        None => (data, crate::vword::VResult::NoTarget),
        Some(i) => {
            let (c2, res) = data[i].toggle_tone_spec(tone);
            (data.update(i, c2), res)
        },
    }
}

/// The last vowel index is in bounds and a vowel, and everything after it
/// is no vowel.
pub proof fn lemma_last_vowel_idx(data: Seq<VChar>)
    ensures
        match last_vowel_idx(data) {
            Some(hi) => 0 <= hi < data.len() && data[hi].is_vowel() && (forall|k: int|
                hi < k < data.len() ==> !data[k].is_vowel()),
            None => forall|k: int| 0 <= k < data.len() ==> !data[k].is_vowel(),
        },
    decreases data.len(),
{
    if data.len() > 0 && !data.last().is_vowel() {
        lemma_last_vowel_idx(data.drop_last());
        assert forall|k: int| 0 <= k < data.len() - 1 implies data.drop_last()[k] == data[k] by {}
    }
}

/// The run start lies in bounds and everything from it up to `hi` is a
/// vowel.
pub proof fn lemma_run_start_vowels(data: Seq<VChar>, hi: int)
    requires
        0 <= hi < data.len(),
        data[hi].is_vowel(),
    ensures
        0 <= run_start(data, hi) <= hi,
        forall|k: int| run_start(data, hi) <= k <= hi ==> data[k].is_vowel(),
    decreases hi,
{
    if hi > 0 && data[hi - 1].is_vowel() {
        lemma_run_start_vowels(data, hi - 1);
    }
}

/// The run start is at or before any position from which everything up to
/// `hi` is a vowel.
pub proof fn lemma_run_start_le(data: Seq<VChar>, hi: int, l: int)
    requires
        0 <= l <= hi < data.len(),
        data[hi].is_vowel(),
        forall|k: int| l <= k <= hi ==> data[k].is_vowel(),
    ensures
        run_start(data, hi) <= l,
    decreases hi - l,
{
    if l < hi {
        lemma_run_start_le(data, hi - 1, l);
    } else {
        lemma_run_start_vowels(data, hi);
    }
}

/// Executable raw-and-flag of a vowel grapheme.
pub(crate) fn vowel_rf_exec(c: VChar) -> (r: (Raw, Flag))
    requires
        c.is_vowel(),
    ensures
        r == vowel_rf(c),
{
    match c {
        VChar::Vovel(r, f, _) => (r, f),
        _ => vstd::pervasive::unreached(),
    }
}

/// Executable lookup in the diphthong table.
pub(crate) fn diphthong_pair(ar: Raw, af: Flag, br: Raw, bf: Flag) -> (r: Option<usize>)
    ensures
        r is Some <==> diphthong_offset((ar, af), (br, bf)) is Some,
        r is Some ==> {
            &&& r->0 as int == diphthong_offset((ar, af), (br, bf))->0
            &&& r->0 <= 1
        },
{
    if ar == Raw::I && af == Flag::N && br == Raw::A && bf == Flag::N {
        Some(0)
    } else if ar == Raw::Y && af == Flag::N && br == Raw::A && bf == Flag::N {
        Some(0)
    } else if ar == Raw::I && af == Flag::N && br == Raw::E && bf == Flag::D {
        Some(1)
    } else if ar == Raw::Y && af == Flag::N && br == Raw::E && bf == Flag::D {
        Some(1)
    } else if ar == Raw::U && af == Flag::N && br == Raw::O && bf == Flag::D {
        Some(1)
    } else if ar == Raw::U && af == Flag::N && br == Raw::A && bf == Flag::N {
        Some(0)
    } else if ar == Raw::U && af == Flag::W && br == Raw::O && bf == Flag::W {
        Some(1)
    } else if ar == Raw::U && af == Flag::W && br == Raw::A && bf == Flag::N {
        Some(0)
    } else {
        None
    }
}

/// Executable form of `is_coda_glide`.
pub(crate) fn coda_glide(r: Raw, f: Flag) -> (b: bool)
    ensures
        b == is_coda_glide((r, f)),
{
    f == Flag::N && (r == Raw::Y || r == Raw::U || r == Raw::I || r == Raw::O)
}

/// Executable form of `is_onset_glide`.
pub(crate) fn onset_glide(r: Raw, f: Flag) -> (b: bool)
    ensures
        b == is_onset_glide((r, f)),
{
    f == Flag::N && (r == Raw::O || r == Raw::U)
}

/// A diphthong hit lies between the scan start and `hi`.
pub proof fn lemma_diphthong_scan_bounds(data: Seq<VChar>, hi: int, i: int)
    ensures
        diphthong_scan(data, hi, i) matches Some(t) ==> i <= t <= hi,
    decreases hi - i,
{
    if i < hi {
        lemma_diphthong_scan_bounds(data, hi, i + 1);
    }
}

/// A coda-glide hit lies between the scan start less one and `hi - 1`.
pub proof fn lemma_coda_scan_bounds(data: Seq<VChar>, hi: int, i: int)
    ensures
        coda_scan(data, hi, i) matches Some(t) ==> i - 1 <= t <= hi - 1,
    decreases hi + 1 - i,
{
    if i <= hi {
        lemma_coda_scan_bounds(data, hi, i + 1);
    }
}

/// An onset-glide hit lies between the scan start plus one and `hi`.
pub proof fn lemma_onset_scan_bounds(data: Seq<VChar>, hi: int, i: int)
    ensures
        onset_scan(data, hi, i) matches Some(t) ==> i + 1 <= t <= hi,
    decreases hi - i,
{
    if i < hi {
        lemma_onset_scan_bounds(data, hi, i + 1);
    }
}

/// The selected target always lies inside the word.
pub proof fn lemma_tone_target_bounds(data: Seq<VChar>)
    ensures
        tone_target(data) matches Some(i) ==> 0 <= i < data.len(),
{
    lemma_last_vowel_idx(data);
    if let Some(hi) = last_vowel_idx(data) {
        lemma_run_start_vowels(data, hi);
        let lo0 = vstd::math::max(run_start(data, hi), hi - 2);
        let lo1 = after_qu(data, lo0);
        if lo1 <= hi {
            let lo = after_gi(data, lo1, hi);
            lemma_diphthong_scan_bounds(data, hi, lo);
            lemma_coda_scan_bounds(data, hi, lo + 1);
            lemma_onset_scan_bounds(data, hi, lo);
        }
    }
}

/// A toggle that found no target leaves the word as it was.
pub proof fn lemma_toggle_tone_no_target(data: Seq<VChar>, tone: crate::vword::Tone)
    requires
        toggle_tone_result(data, tone).1 is NoTarget,
    ensures
        toggle_tone_result(data, tone).0 == data,
{
    lemma_tone_target_bounds(data);
    if let Some(i) = tone_target(data) {
        assert(toggle_tone_result(data, tone).0 =~= data);
    }
}

/// Whether two graphemes agree on everything a selection rule reads:
/// the variant, a consonant's or invalid grapheme's character, and a
/// vowel's raw letter and flag — only a vowel's tone is free.
pub open spec fn shape_eq(x: VChar, y: VChar) -> bool {
    match (x, y) {
        (VChar::Consonant(c1), VChar::Consonant(c2)) => c1 == c2,
        (VChar::Invalid(c1), VChar::Invalid(c2)) => c1 == c2,
        (VChar::Vovel(r1, f1, _), VChar::Vovel(r2, f2, _)) => r1 == r2 && f1 == f2,
        _ => false,
    }
}

/// Whether two words differ at most in the tones their vowels carry.
pub open spec fn same_shape(a: Seq<VChar>, b: Seq<VChar>) -> bool {
    a.len() == b.len() && (forall|i: int| 0 <= i < a.len() ==> shape_eq(a[i], b[i]))
}

proof fn lemma_last_vowel_shape(a: Seq<VChar>, b: Seq<VChar>)
    requires
        same_shape(a, b),
    ensures
        last_vowel_idx(a) == last_vowel_idx(b),
    decreases a.len(),
{
    if a.len() > 0 {
        assert(shape_eq(a.last(), b.last()));
        if !a.last().is_vowel() {
            assert forall|i: int| 0 <= i < a.drop_last().len() implies shape_eq(
                a.drop_last()[i],
                b.drop_last()[i],
            ) by {
                assert(shape_eq(a[i], b[i]));
            }
            lemma_last_vowel_shape(a.drop_last(), b.drop_last());
        }
    }
}

proof fn lemma_run_start_shape(a: Seq<VChar>, b: Seq<VChar>, hi: int)
    requires
        same_shape(a, b),
        0 <= hi < a.len(),
    ensures
        run_start(a, hi) == run_start(b, hi),
    decreases hi,
{
    if hi > 0 {
        assert(shape_eq(a[hi - 1], b[hi - 1]));
        if a[hi - 1].is_vowel() {
            lemma_run_start_shape(a, b, hi - 1);
        }
    }
}

proof fn lemma_diphthong_scan_shape(a: Seq<VChar>, b: Seq<VChar>, hi: int, i: int)
    requires
        same_shape(a, b),
        0 <= i,
        hi < a.len(),
        forall|k: int| i <= k <= hi ==> a[k].is_vowel(),
    ensures
        diphthong_scan(a, hi, i) == diphthong_scan(b, hi, i),
    decreases hi - i,
{
    if i < hi {
        assert(shape_eq(a[i], b[i]));
        assert(shape_eq(a[i + 1], b[i + 1]));
        lemma_diphthong_scan_shape(a, b, hi, i + 1);
    }
}

proof fn lemma_coda_scan_shape(a: Seq<VChar>, b: Seq<VChar>, hi: int, i: int)
    requires
        same_shape(a, b),
        0 <= i,
        hi < a.len(),
        forall|k: int| i <= k <= hi ==> a[k].is_vowel(),
    ensures
        coda_scan(a, hi, i) == coda_scan(b, hi, i),
    decreases hi + 1 - i,
{
    if i <= hi {
        assert(shape_eq(a[i], b[i]));
        lemma_coda_scan_shape(a, b, hi, i + 1);
    }
}

proof fn lemma_onset_scan_shape(a: Seq<VChar>, b: Seq<VChar>, hi: int, i: int)
    requires
        same_shape(a, b),
        0 <= i,
        hi < a.len(),
        forall|k: int| i <= k <= hi ==> a[k].is_vowel(),
    ensures
        onset_scan(a, hi, i) == onset_scan(b, hi, i),
    decreases hi - i,
{
    if i < hi {
        assert(shape_eq(a[i], b[i]));
        lemma_onset_scan_shape(a, b, hi, i + 1);
    }
}

/// Nucleus selection never reads a tone: two words that differ only in
/// tones resolve to the same target.
pub proof fn lemma_tone_target_shape(a: Seq<VChar>, b: Seq<VChar>)
    requires
        same_shape(a, b),
    ensures
        tone_target(a) == tone_target(b),
{
    lemma_last_vowel_shape(a, b);
    if let Some(hi) = last_vowel_idx(a) {
        lemma_last_vowel_idx(a);
        lemma_run_start_vowels(a, hi);
        lemma_run_start_shape(a, b, hi);
        let lo0 = vstd::math::max(run_start(a, hi), hi - 2);
        assert(shape_eq(a[lo0], b[lo0]));
        if lo0 >= 1 {
            assert(shape_eq(a[lo0 - 1], b[lo0 - 1]));
        }
        assert(after_qu(a, lo0) == after_qu(b, lo0));
        let lo1 = after_qu(a, lo0);
        if lo1 <= hi {
            assert(shape_eq(a[lo1], b[lo1]));
            if lo1 >= 1 {
                assert(shape_eq(a[lo1 - 1], b[lo1 - 1]));
            }
            assert(after_gi(a, lo1, hi) == after_gi(b, lo1, hi));
            let lo = after_gi(a, lo1, hi);
            if lo < hi {
                lemma_diphthong_scan_shape(a, b, hi, lo);
                lemma_coda_scan_shape(a, b, hi, lo + 1);
                lemma_onset_scan_shape(a, b, hi, lo);
            }
        }
    }
}

/// Toggling the same tone twice at a nucleus that starts unmarked: the
/// first toggle sets the tone and reports it applied, the second removes
/// it again and reports it unset, and the word is restored. (A nucleus
/// that already carries some other tone is overwritten by the first
/// toggle, so the second round does not restore it.)
pub proof fn lemma_toggle_tone_twice(data: Seq<VChar>, tone: crate::vword::Tone)
    requires
        tone != crate::vword::Tone::N,
        tone_target(data) matches Some(i) && data[i] matches VChar::Vovel(_, _, crate::vword::Tone::N),
    ensures
        ({
            let (d1, r1) = toggle_tone_result(data, tone);
            let (d2, r2) = toggle_tone_result(d1, tone);
            &&& r1 is Applied
            &&& r2 is Unset
            &&& d2 == data
        }),
{
    lemma_tone_target_bounds(data);
    let i = tone_target(data)->0;
    let d1 = toggle_tone_result(data, tone).0;
    assert forall|k: int| 0 <= k < data.len() implies shape_eq(data[k], d1[k]) by {
        if k == i {
            assert(shape_eq(data[i], d1[i]));
        }
    }
    lemma_tone_target_shape(data, d1);
    assert(toggle_tone_result(d1, tone).0 =~= data);
}

/// Executable scan for the first adjacent pair in the diphthong table.
#[verifier::loop_isolation(false)]
pub(crate) fn scan_diphthong(data: &Vec<VChar>, lo: usize, hi: usize) -> (r: Option<usize>)
    requires
        lo <= hi < data@.len(),
        forall|k: int| lo <= k <= hi ==> data@[k].is_vowel(),
    ensures
        match r {
            Some(t) => diphthong_scan(data@, hi as int, lo as int) == Some(t as int) && lo <= t
                <= hi,
            None => diphthong_scan(data@, hi as int, lo as int) is None,
        },
{
    let mut i: usize = lo;
    while i < hi
        invariant
            lo <= i <= hi,
            diphthong_scan(data@, hi as int, lo as int) == diphthong_scan(
                data@,
                hi as int,
                i as int,
            ),
        decreases hi - i,
    {
        let a = vowel_rf_exec(data[i]);
        let b = vowel_rf_exec(data[i + 1]);
        if let Some(off) = diphthong_pair(a.0, a.1, b.0, b.1) {
            return Some(i + off);
        }
        i = i + 1;
    }
    None
}

/// Executable scan for the first coda glide after the cluster's first
/// vowel.
#[verifier::loop_isolation(false)]
pub(crate) fn scan_coda(data: &Vec<VChar>, lo: usize, hi: usize) -> (r: Option<usize>)
    requires
        lo <= hi < data@.len(),
        forall|k: int| lo <= k <= hi ==> data@[k].is_vowel(),
    ensures
        match r {
            Some(t) => coda_scan(data@, hi as int, lo as int + 1) == Some(t as int) && lo <= t
                < hi,
            None => coda_scan(data@, hi as int, lo as int + 1) is None,
        },
{
    let mut j: usize = lo;
    while j < hi
        invariant
            lo <= j <= hi,
            coda_scan(data@, hi as int, lo as int + 1) == coda_scan(
                data@,
                hi as int,
                j as int + 1,
            ),
        decreases hi - j,
    {
        let a = vowel_rf_exec(data[j + 1]);
        if coda_glide(a.0, a.1) {
            return Some(j);
        }
        j = j + 1;
    }
    None
}

/// Executable scan for the first onset glide before the cluster's last
/// vowel.
#[verifier::loop_isolation(false)]
pub(crate) fn scan_onset(data: &Vec<VChar>, lo: usize, hi: usize) -> (r: Option<usize>)
    requires
        lo <= hi < data@.len(),
        forall|k: int| lo <= k <= hi ==> data@[k].is_vowel(),
    ensures
        match r {
            Some(t) => onset_scan(data@, hi as int, lo as int) == Some(t as int) && lo < t <= hi,
            None => onset_scan(data@, hi as int, lo as int) is None,
        },
{
    let mut i: usize = lo;
    while i < hi
        invariant
            lo <= i <= hi,
            onset_scan(data@, hi as int, lo as int) == onset_scan(data@, hi as int, i as int),
        decreases hi - i,
    {
        let a = vowel_rf_exec(data[i]);
        if onset_glide(a.0, a.1) {
            return Some(i + 1);
        }
        i = i + 1;
    }
    None
}

/// Executable nucleus selection: the index of the grapheme that is to
/// carry the tone, by the rules of `tone_target`.
#[verifier::loop_isolation(false)]
pub fn select_target(data: &Vec<VChar>) -> (r: Option<usize>)
    ensures
        match r {
            Some(t) => tone_target(data@) == Some(t as int) && t < data@.len(),
            None => tone_target(data@) is None,
        },
{
    let ghost d = data@;
    let hi: usize = match find_last_vowel(data) {
        None => {
            return None;
        },
        Some(h) => h,
    };
    proof {
        lemma_last_vowel_idx(d);
        lemma_run_start_vowels(d, hi as int);
    }
    let mut lo: usize = find_run_lo(data, hi);
    let ghost lo0 = lo as int;
    proof {
        assert(forall|k: int| lo0 <= k <= hi ==> d[k].is_vowel());
    }
    // the qu-exception may consume the leftmost candidate
    if lo >= 1 {
        let cur = data[lo];
        if let VChar::Vovel(r, f, _) = cur {
            if r == Raw::U && f == Flag::N {
                if let VChar::Consonant(cc) = data[lo - 1] {
                    if cc == 'q' {
                        if lo == hi {
                            proof {
                                assert(after_qu(d, lo0) == lo0 + 1);
                            }
                            return None;
                        }
                        lo = lo + 1;
                    }
                }
            }
        }
    }
    let ghost lo1 = lo as int;
    proof {
        assert(lo1 == after_qu(d, lo0));
    }
    // the gi-exception, unless the candidate is the only vowel
    if lo < hi && lo >= 1 {
        let cur = data[lo];
        if let VChar::Vovel(r, f, _) = cur {
            if r == Raw::I && f == Flag::N {
                if let VChar::Consonant(cc) = data[lo - 1] {
                    if cc == 'g' {
                        lo = lo + 1;
                    }
                }
            }
        }
    }
    let ghost lo2 = lo as int;
    proof {
        assert(lo2 == after_gi(d, lo1, hi as int));
    }
    if lo == hi {
        return Some(lo);
    }
    if let Some(t) = scan_diphthong(data, lo, hi) {
        return Some(t);
    }
    if let Some(t) = scan_coda(data, lo, hi) {
        return Some(t);
    }
    if let Some(t) = scan_onset(data, lo, hi) {
        return Some(t);
    }
    // nothing matched: the very last grapheme of the word stands in
    Some(data.len() - 1)
}

/// Executable search for the last vowel grapheme.
pub(crate) fn find_last_vowel(data: &Vec<VChar>) -> (r: Option<usize>)
    ensures
        match r {
            Some(i) => last_vowel_idx(data@) == Some(i as int),
            None => last_vowel_idx(data@) is None,
        },
{
    let mut i: usize = data.len();
    proof {
        assert(data@.take(i as int) =~= data@);
    }
    while i > 0
        invariant
            i <= data@.len(),
            last_vowel_idx(data@) == last_vowel_idx(data@.take(i as int)),
        decreases i,
    {
        i = i - 1;
        if let VChar::Vovel(_, _, _) = data[i] {
            proof {
                assert(data@.take(i as int + 1).last() == data@[i as int]);
            }
            return Some(i);
        }
        proof {
            assert(data@.take(i as int + 1).last() == data@[i as int]);
            assert(data@.take(i as int + 1).drop_last() =~= data@.take(i as int));
        }
    }
    proof {
        assert(data@.take(0).len() == 0);
    }
    None
}

/// Executable computation of the cluster's lower bound: the start of the
/// vowel run ending at `hi`, but never more than two places before it.
pub(crate) fn find_run_lo(data: &Vec<VChar>, hi: usize) -> (lo: usize)
    requires
        hi < data@.len(),
        data@[hi as int].is_vowel(),
    ensures
        lo as int == vstd::math::max(run_start(data@, hi as int), hi - 2),
        lo <= hi,
{
    proof {
        lemma_run_start_vowels(data@, hi as int);
    }
    let mut lo: usize = hi;
    loop
        invariant
            0 <= run_start(data@, hi as int) <= lo <= hi < data@.len(),
            hi - lo <= 2,
            data@[hi as int].is_vowel(),
            forall|k: int| lo <= k <= hi ==> data@[k].is_vowel(),
        decreases lo,
    {
        if lo == 0 || hi - lo >= 2 {
            return lo;
        }
        let prev = data[lo - 1];
        if let VChar::Vovel(_, _, _) = prev {
            proof {
                lemma_run_start_le(data@, hi as int, lo - 1);
            }
            lo = lo - 1;
        } else {
            proof {
                // the run begins exactly here: one place further left is
                // no vowel
                if run_start(data@, hi as int) < lo {
                    lemma_run_start_vowels(data@, hi as int);
                    assert(data@[lo - 1].is_vowel());
                }
            }
            return lo;
        }
    }
}

} // verus!
