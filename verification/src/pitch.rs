//! Pitch search: the peak of a magnitude spectrum, the period chosen from a
//! cumulative-mean-normalised difference function, the octave correction
//! towards the guitar's notes, and the naming of MIDI note numbers.
use vstd::prelude::*;
use crate::order::{
    first_below, first_minimum, has_above, has_below, highest_above, is_first_below, is_first_minimum, is_highest_above, is_lowest_below,
    key_lt, key_zero, less, lowest_below, lemma_highest_above_unique,
};

verus! {

// ---------------------------------------------------------------------
// Spectral peak
// ---------------------------------------------------------------------

/// Lowest bin of the searched band: the raw bin, and at least 1 so that the
/// peak always has a left neighbour.
pub open spec fn band_low(low_raw: usize) -> int {
    if low_raw < 1 { 1 } else { low_raw as int }
}

/// Highest bin of the searched band: the raw bin, and at most `len - 2` so
/// that the peak always has a right neighbour.
pub open spec fn band_high(high_raw: usize, len: int) -> int {
    if high_raw < len - 2 { high_raw as int } else { len - 2 }
}

/// The band holds no bin to search: fewer than three magnitudes, or an empty
/// or one-bin band.
pub open spec fn band_is_empty(len: int, low_raw: usize, high_raw: usize) -> bool {
    len < 3 || band_low(low_raw) >= band_high(high_raw, len)
}

/// `p` is the peak of `s[lo..=hi]`: the first bin of largest positive
/// magnitude, or `lo` when no magnitude in the band is positive.
pub open spec fn is_band_peak(s: Seq<Option<i32>>, lo: int, hi: int, p: int) -> bool {
    if has_above(s, lo, hi, key_zero()) {
        is_highest_above(s, lo, hi, key_zero(), p)
    } else {
        p == lo
    }
}

/// The magnitude found at the peak `p`: that of the bin, or zero when no
/// magnitude in the band is positive.
pub open spec fn peak_level(s: Seq<Option<i32>>, lo: int, hi: int, p: int) -> Option<i32> {
    if has_above(s, lo, hi, key_zero()) {
        s[p]
    } else {
        key_zero()
    }
}

/// Finds the strongest bin of `magnitudes` between the raw bins `low_raw`
/// and `high_raw`, narrowed so that both neighbours of the peak exist.
/// Returns `None` when the band is empty or when the peak's magnitude lies
/// below `min_peak`.
pub fn locate_peak(magnitudes: &[Option<i32>], low_raw: usize, high_raw: usize, min_peak: Option<i32>) -> (r:
    Option<usize>)
    ensures
        band_is_empty(magnitudes@.len() as int, low_raw, high_raw) ==> r is None,
        !band_is_empty(magnitudes@.len() as int, low_raw, high_raw) ==> exists|p: int|
            #[trigger] is_band_peak(magnitudes@, band_low(low_raw), band_high(high_raw, magnitudes@.len() as int), p)
                && r == (if key_lt(
                peak_level(magnitudes@, band_low(low_raw), band_high(high_raw, magnitudes@.len() as int), p),
                min_peak,
            ) {
                None::<usize>
            } else {
                Some(p as usize)
            }),
        r matches Some(p) ==> 1 <= p && p + 1 < magnitudes@.len(),
{
    let len = magnitudes.len();
    if len < 3 {
        return None;
    }
    let low = if low_raw < 1 { 1 } else { low_raw };
    let high = if high_raw < len - 2 { high_raw } else { len - 2 };
    if low >= high {
        return None;
    }
    let ghost s = magnitudes@;
    let (index, level) = match highest_above(magnitudes, low, high, Some(0i32)) {
        Some(i) => (i, magnitudes[i]),
        None => (low, Some(0i32)),
    };
    proof {
        assert(is_band_peak(s, low as int, high as int, index as int));
        assert(level == peak_level(s, low as int, high as int, index as int));
    }
    if less(level, min_peak) {
        None
    } else {
        Some(index)
    }
}

// ---------------------------------------------------------------------
// Period selection on the normalised difference function
// ---------------------------------------------------------------------

/// From position `t`, `d` ends the run of strictly decreasing values: each
/// step from `t` to `d` goes down, and the step after `d` (if any within
/// `hi`) does not.
pub open spec fn descends_to(s: Seq<Option<i32>>, t: int, hi: int, d: int) -> bool {
    &&& t <= d <= hi
    &&& forall|k: int| t <= k < d ==> key_lt(s[k + 1], #[trigger] s[k])
    &&& (d == hi || !key_lt(s[d + 1], s[d]))
}

/// The periods `min_tau..=max_tau` can be searched in a signal of
/// `signal_len` samples: the shortest period is at least 2 and the longest
/// lies inside the signal.
pub fn period_range_fits(min_tau: usize, max_tau: usize, signal_len: usize) -> (r: bool)
    ensures
        r == (2 <= min_tau && max_tau < signal_len),
{
    !(min_tau < 2 || max_tau >= signal_len)
}

/// Chooses the period from the normalised difference values `cmnd`.
///
/// The first period in `min_tau..=max_tau` whose value lies below
/// `threshold` starts a descent that follows strictly decreasing values and
/// stops at the bottom of that dip. When no value lies below `threshold`,
/// the period of the smallest value is taken, unless that value lies above
/// `fallback_limit`, in which case no period is found.
pub fn select_period(
    cmnd: &[Option<i32>],
    min_tau: usize,
    max_tau: usize,
    threshold: Option<i32>,
    fallback_limit: Option<i32>,
) -> (r: Option<usize>)
    requires
        1 <= min_tau <= max_tau < cmnd@.len(),
    ensures
        has_below(cmnd@, min_tau as int, max_tau as int, threshold) ==> exists|t: int|
            #[trigger] is_first_below(cmnd@, min_tau as int, max_tau as int, threshold, t) && r is Some
                && descends_to(cmnd@, t, max_tau as int, r->0 as int),
        !has_below(cmnd@, min_tau as int, max_tau as int, threshold) ==> exists|b: int|
            #[trigger] is_first_minimum(cmnd@, min_tau as int, max_tau as int, b) && r == (if key_lt(
                fallback_limit,
                cmnd@[b],
            ) {
                None::<usize>
            } else {
                Some(b as usize)
            }),
{
    let ghost s = cmnd@;
    match first_below(cmnd, min_tau, max_tau, threshold) {
        Some(t) => {
            let mut d = t;
            while d < max_tau && less(cmnd[d + 1], cmnd[d])
                invariant
                    t <= d <= max_tau,
                    max_tau < cmnd@.len(),
                    forall|k: int| t <= k < d ==> key_lt(cmnd@[k + 1], #[trigger] cmnd@[k]),
                decreases max_tau - d,
            {
                d = d + 1;
            }
            proof {
                assert(is_first_below(s, min_tau as int, max_tau as int, threshold, t as int));
                assert(descends_to(s, t as int, max_tau as int, d as int));
            }
            Some(d)
        },
        None => {
            let b = first_minimum(cmnd, min_tau, max_tau);
            if less(fallback_limit, cmnd[b]) {
                None
            } else {
                Some(b)
            }
        },
    }
}

// ---------------------------------------------------------------------
// Octave correction
// ---------------------------------------------------------------------

/// Chooses among octave candidates by their pitch errors. `errors` lists,
/// candidate after candidate, the error of that candidate against each of
/// `notes` reference notes (a candidate outside the playable range has no
/// comparable errors). The winner is the candidate that owns the first
/// smallest error below `ceiling`; `None` when no error lies below it.
pub fn best_octave_candidate(errors: &[Option<i32>], notes: usize, ceiling: Option<i32>) -> (r: Option<usize>)
    requires
        notes > 0,
        errors@.len() > 0,
    ensures
        r is None <==> !has_below(errors@, 0, errors@.len() - 1, ceiling),
        r matches Some(c) ==> exists|i: int|
            #[trigger] is_lowest_below(errors@, 0, errors@.len() - 1, ceiling, i) && c == i / (notes as int),
{
    match lowest_below(errors, 0, errors.len() - 1, ceiling) {
        Some(i) => {
            proof {
                assert(is_lowest_below(errors@, 0, errors@.len() - 1, ceiling, i as int));
            }
            Some(i / notes)
        },
        None => None,
    }
}

// ---------------------------------------------------------------------
// Note naming
// ---------------------------------------------------------------------

/// The pitch class of a MIDI note number: its remainder modulo 12, from 0
/// for C up to 11 for B.
pub fn pitch_class(midi: i32) -> (r: usize)
    ensures
        r < 12,
        r as int == midi as int % 12,
{
    if midi >= 0 {
        (midi as u32 % 12) as usize
    } else {
        let n: u64 = (0i64 - midi as i64) as u64;
        let m: u64 = n % 12;
        proof {
            assert(midi as int == -(n as int));
            assert(n as int == 12 * (n as int / 12) + m as int);
            assert((midi as int) % 12 == (if m == 0 { 0 } else { 12 - m as int })) by {
                let q = n as int / 12;
                if m == 0 {
                    assert(midi as int == 12 * (-q));
                } else {
                    assert(midi as int == 12 * (-q - 1) + (12 - m as int));
                }
            }
        }
        if m == 0 {
            0
        } else {
            (12 - m) as usize
        }
    }
}

/// The quotient of `m` by 12, rounded towards zero.
pub open spec fn quotient_toward_zero_12(m: int) -> int {
    if m >= 0 { m / 12 } else { -((-m) / 12) }
}

/// The octave number of a MIDI note number: its quotient by 12, rounded
/// towards zero, minus one (note 60 is C4).
pub fn octave_number(midi: i32) -> (r: i32)
    ensures
        r as int == quotient_toward_zero_12(midi as int) - 1,
{
    if midi >= 0 {
        (midi as u32 / 12) as i32 - 1
    } else {
        let n: u64 = (0i64 - midi as i64) as u64;
        0i32 - (n / 12) as i32 - 1
    }
}

/// The name of a pitch class.
pub open spec fn pitch_class_name_spec(class: int) -> Seq<char> {
    if class == 0 {
        "C"@
    } else if class == 1 {
        "C#"@
    } else if class == 2 {
        "D"@
    } else if class == 3 {
        "D#"@
    } else if class == 4 {
        "E"@
    } else if class == 5 {
        "F"@
    } else if class == 6 {
        "F#"@
    } else if class == 7 {
        "G"@
    } else if class == 8 {
        "G#"@
    } else if class == 9 {
        "A"@
    } else if class == 10 {
        "A#"@
    } else {
        "B"@
    }
}

/// The name of a pitch class, with sharps.
pub fn pitch_class_name(class: usize) -> (r: &'static str)
    requires
        class < 12,
    ensures
        r@ == pitch_class_name_spec(class as int),
{
    match class {
        0 => "C",
        1 => "C#",
        2 => "D",
        3 => "D#",
        4 => "E",
        5 => "F",
        6 => "F#",
        7 => "G",
        8 => "G#",
        9 => "A",
        10 => "A#",
        _ => "B",
    }
}

/// The peak of a band is unique.
pub proof fn lemma_band_peak_unique(s: Seq<Option<i32>>, lo: int, hi: int, p: int, q: int)
    requires
        is_band_peak(s, lo, hi, p),
        is_band_peak(s, lo, hi, q),
    ensures
        p == q,
{
    if has_above(s, lo, hi, key_zero()) {
        lemma_highest_above_unique(s, lo, hi, key_zero(), p, q);
    }
}

/// The period chosen after a dip is unique: the first dip is unique, and so
/// is the bottom of the descent that starts there.
pub proof fn lemma_dip_period_unique(
    s: Seq<Option<i32>>,
    lo: int,
    hi: int,
    threshold: Option<i32>,
    t: int,
    u: int,
    d: int,
    e: int,
)
    requires
        is_first_below(s, lo, hi, threshold, t),
        is_first_below(s, lo, hi, threshold, u),
        descends_to(s, t, hi, d),
        descends_to(s, u, hi, e),
    ensures
        t == u,
        d == e,
{
    if t < u {
        assert(!key_lt(s[t], threshold));
    } else if u < t {
        assert(!key_lt(s[u], threshold));
    }
    if d < e {
        assert(key_lt(s[d + 1], s[d]));
    } else if e < d {
        assert(key_lt(s[e + 1], s[e]));
    }
}

/// A MIDI note number from 0 up is rebuilt from its octave number and pitch
/// class: `midi == 12 * (octave + 1) + class`. (Below 0 the octave rounds
/// towards zero and this fails, e.g. for -1.)
pub proof fn lemma_note_number_decomposes(midi: int)
    requires
        midi >= 0,
    ensures
        midi == 12 * ((quotient_toward_zero_12(midi) - 1) + 1) + midi % 12,
{
}

/// One octave up keeps the pitch class and raises the octave number by one,
/// for MIDI note numbers from 0 up.
pub proof fn lemma_octave_up(midi: int)
    requires
        midi >= 0,
    ensures
        (midi + 12) % 12 == midi % 12,
        quotient_toward_zero_12(midi + 12) - 1 == (quotient_toward_zero_12(midi) - 1) + 1,
{
}

/// The octave number comes from the quotient by 12 rounded towards zero:
/// the remainder `midi - 12 * q` lies in `0..12` for notes from 0 up and in
/// `-11..=0` below 0.
pub proof fn lemma_octave_rounds_toward_zero(midi: int)
    ensures
        midi >= 0 ==> 0 <= midi - 12 * quotient_toward_zero_12(midi) < 12,
        midi < 0 ==> -12 < midi - 12 * quotient_toward_zero_12(midi) <= 0,
{
}

/// The pitch-class names form the chromatic scale with sharps: class by
/// class, the letters run C C D D E F F G G A A B, the five black keys
/// (classes 1 3 6 8 10) carry a `#` after the letter of the class below,
/// the seven white keys are the bare letter; and no two classes share a
/// name.
pub proof fn lemma_pitch_class_names_chromatic()
    ensures
        forall|c: int|
            0 <= c < 12 ==> (#[trigger] pitch_class_name_spec(c))[0] == "CCDDEFFGGAAB"@[c],
        forall|c: int|
            0 <= c < 12 ==> (#[trigger] pitch_class_name_spec(c)).len() == (if c == 1 || c == 3 || c == 6 || c
                == 8 || c == 10 {
                2int
            } else {
                1int
            }),
        forall|c: int|
            0 <= c < 12 && (#[trigger] pitch_class_name_spec(c)).len() == 2 ==> pitch_class_name_spec(c)[1] == '#'
                && pitch_class_name_spec(c)[0] == pitch_class_name_spec(c - 1)[0],
        forall|a: int, b: int|
            0 <= a < 12 && 0 <= b < 12 && a != b ==> #[trigger] pitch_class_name_spec(a) != #[trigger] pitch_class_name_spec(b),
{
    reveal_strlit("CCDDEFFGGAAB");
    reveal_strlit("C");
    reveal_strlit("C#");
    reveal_strlit("D");
    reveal_strlit("D#");
    reveal_strlit("E");
    reveal_strlit("F");
    reveal_strlit("F#");
    reveal_strlit("G");
    reveal_strlit("G#");
    reveal_strlit("A");
    reveal_strlit("A#");
    reveal_strlit("B");
    assert forall|a: int, b: int|
        0 <= a < 12 && 0 <= b < 12 && a != b implies #[trigger] pitch_class_name_spec(a) != #[trigger] pitch_class_name_spec(b) by {
        let x = pitch_class_name_spec(a);
        let y = pitch_class_name_spec(b);
        if x == y {
            assert(x.len() == y.len());
            assert(x[0] == y[0]);
        }
    }
}

} // verus!
