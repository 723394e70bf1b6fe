//! Tuning verdicts: which string of the guitar a pitch is nearest to, and
//! whether it is in tune, too low or too high.
use vstd::prelude::*;
use crate::pitch::{pitch_class_name_spec, quotient_toward_zero_12};
use crate::order::{
    absolute, first_minimum, is_first_minimum, key_abs, key_le, key_lt, key_wf, key_zero, less,
    less_eq, lemma_first_minimum_is_least,
};

verus! {

/// The number of strings of the guitar, tuned E2 A2 D3 G3 B3 E4.
pub const GUITAR_STRING_COUNT: usize = 6;

/// The verdict on a pitch against its target note.
#[derive(Clone, Copy, Debug, PartialEq, Eq, Structural)]
pub enum TuningStatus {
    TooLow,
    InTune,
    TooHigh,
}

/// The verdict for a deviation from the target: in tune when its absolute
/// value is within the tolerance (`inclusive` decides whether the bound
/// itself counts), else too low when the deviation is negative, else too
/// high.
pub open spec fn status_of(deviation: Option<i32>, tolerance: Option<i32>, inclusive: bool) -> TuningStatus {
    let within = if inclusive {
        key_le(key_abs(deviation), tolerance)
    } else {
        key_lt(key_abs(deviation), tolerance)
    };
    if within {
        TuningStatus::InTune
    } else if key_lt(deviation, key_zero()) {
        TuningStatus::TooLow
    } else {
        TuningStatus::TooHigh
    }
}

/// The verdict for a deviation in cents: in tune when `|cents| <= tolerance`,
/// too low (flat) when the deviation is negative, too high (sharp) otherwise.
pub fn cents_status(cents: Option<i32>, tolerance: Option<i32>) -> (r: TuningStatus)
    requires
        key_wf(cents),
    ensures
        r == status_of(cents, tolerance, true),
{
    if less_eq(absolute(cents), tolerance) {
        TuningStatus::InTune
    } else if less(cents, Some(0i32)) {
        TuningStatus::TooLow
    } else {
        TuningStatus::TooHigh
    }
}

/// The verdict for a deviation in hertz (detected minus target): in tune
/// when `|deviation| < tolerance`, too low when the detected pitch lies below
/// the target, too high otherwise.
pub fn hertz_status(deviation: Option<i32>, tolerance: Option<i32>) -> (r: TuningStatus)
    requires
        key_wf(deviation),
    ensures
        r == status_of(deviation, tolerance, false),
{
    if less(absolute(deviation), tolerance) {
        TuningStatus::InTune
    } else if less(deviation, Some(0i32)) {
        TuningStatus::TooLow
    } else {
        TuningStatus::TooHigh
    }
}

/// The note nearest to a pitch, given the pitch's distance to each note:
/// the first note of smallest distance, scanning from the first note (which
/// is kept when no distance compares below its own).
pub fn closest_note(distances: &[Option<i32>]) -> (r: usize)
    requires
        distances@.len() > 0,
    ensures
        r < distances@.len(),
        is_first_minimum(distances@, 0, distances@.len() - 1, r as int),
        distances@[0] is Some ==> forall|j: int|
            0 <= j < distances@.len() ==> !key_lt(#[trigger] distances@[j], distances@[r as int]),
{
    let r = first_minimum(distances, 0, distances.len() - 1);
    proof {
        if distances@[0] is Some {
            lemma_first_minimum_is_least(distances@, 0, distances@.len() - 1, r as int);
        }
    }
    r
}

/// The name of a string's note, from the lowest string to the highest.
pub open spec fn guitar_note_name_spec(string: int) -> Seq<char> {
    if string == 0 {
        "E2"@
    } else if string == 1 {
        "A2"@
    } else if string == 2 {
        "D3"@
    } else if string == 3 {
        "G3"@
    } else if string == 4 {
        "B3"@
    } else {
        "E4"@
    }
}

/// The name of the note to which a string is tuned.
pub fn guitar_note_name(string: usize) -> (r: &'static str)
    requires
        string < GUITAR_STRING_COUNT,
    ensures
        r@ == guitar_note_name_spec(string as int),
{
    match string {
        0 => "E2",
        1 => "A2",
        2 => "D3",
        3 => "G3",
        4 => "B3",
        _ => "E4",
    }
}

/// The verdict in cents, against a tolerance `t >= 0`: in tune exactly when
/// the deviation lies in `-t..=t`, too low (flat) exactly when it lies below
/// `-t`, too high (sharp) exactly when it lies above `t`. So, outside the
/// tolerance, a negative deviation is always too low and a positive one
/// always too high.
pub proof fn lemma_cents_verdict_by_sign(deviation: i32, tolerance: i32)
    requires
        key_wf(Some(deviation)),
        tolerance >= 0,
    ensures
        (status_of(Some(deviation), Some(tolerance), true) == TuningStatus::InTune) <==> (-tolerance <= deviation
            <= tolerance),
        (status_of(Some(deviation), Some(tolerance), true) == TuningStatus::TooLow) <==> deviation < -tolerance,
        (status_of(Some(deviation), Some(tolerance), true) == TuningStatus::TooHigh) <==> deviation > tolerance,
        status_of(Some(deviation), Some(tolerance), true) != TuningStatus::InTune ==> {
            &&& (status_of(Some(deviation), Some(tolerance), true) == TuningStatus::TooLow) <==> deviation < 0
            &&& (status_of(Some(deviation), Some(tolerance), true) == TuningStatus::TooHigh) <==> deviation > 0
        },
{
}

/// The verdict in hertz, against a tolerance `t > 0`: in tune exactly when
/// the deviation lies strictly between `-t` and `t`, too low exactly when it
/// is at most `-t`, too high exactly when it is at least `t`; outside the
/// tolerance, negative means too low and positive too high.
pub proof fn lemma_hertz_verdict_by_sign(deviation: i32, tolerance: i32)
    requires
        key_wf(Some(deviation)),
        tolerance > 0,
    ensures
        (status_of(Some(deviation), Some(tolerance), false) == TuningStatus::InTune) <==> (-tolerance < deviation
            < tolerance),
        (status_of(Some(deviation), Some(tolerance), false) == TuningStatus::TooLow) <==> deviation <= -tolerance,
        (status_of(Some(deviation), Some(tolerance), false) == TuningStatus::TooHigh) <==> deviation >= tolerance,
        status_of(Some(deviation), Some(tolerance), false) != TuningStatus::InTune ==> {
            &&& (status_of(Some(deviation), Some(tolerance), false) == TuningStatus::TooLow) <==> deviation < 0
            &&& (status_of(Some(deviation), Some(tolerance), false) == TuningStatus::TooHigh) <==> deviation > 0
        },
{
}

/// A deviation of the other sign: in tune together, else too low and too
/// high swap.
pub proof fn lemma_verdict_of_opposite(deviation: i32, tolerance: i32, inclusive: bool)
    requires
        key_wf(Some(deviation)),
        tolerance > 0,
    ensures
        (status_of(Some(deviation), Some(tolerance), inclusive) == TuningStatus::InTune) <==> (status_of(
            Some((-deviation) as i32),
            Some(tolerance),
            inclusive,
        ) == TuningStatus::InTune),
        (status_of(Some(deviation), Some(tolerance), inclusive) == TuningStatus::TooLow) <==> (status_of(
            Some((-deviation) as i32),
            Some(tolerance),
            inclusive,
        ) == TuningStatus::TooHigh),
{
}

/// A deviation that compares with nothing (not a number) is never in tune
/// and never too low: it is reported too high; and against a tolerance that
/// compares with nothing, no deviation is in tune.
pub proof fn lemma_verdict_of_unordered(deviation: Option<i32>, tolerance: Option<i32>, inclusive: bool)
    ensures
        status_of(None, tolerance, inclusive) == TuningStatus::TooHigh,
        status_of(deviation, None, inclusive) != TuningStatus::InTune,
{
}

/// The strings are named after the MIDI notes of standard tuning, 40 45 50
/// 55 59 64 (rising by fourths, with a major third between G and B): each
/// name is the pitch-class name of the string's note followed by the digit
/// of its octave number.
pub proof fn lemma_guitar_note_names(string: int)
    requires
        0 <= string < GUITAR_STRING_COUNT,
    ensures
        ({
            let midi = seq![40int, 45, 50, 55, 59, 64][string];
            guitar_note_name_spec(string) == pitch_class_name_spec(midi % 12) + seq![
                (48 + quotient_toward_zero_12(midi) - 1) as char,
            ]
        }),
{
    reveal_strlit("E2");
    reveal_strlit("A2");
    reveal_strlit("D3");
    reveal_strlit("G3");
    reveal_strlit("B3");
    reveal_strlit("E4");
    reveal_strlit("E");
    reveal_strlit("A");
    reveal_strlit("D");
    reveal_strlit("G");
    reveal_strlit("B");
    let midi = seq![40int, 45, 50, 55, 59, 64][string];
    assert(guitar_note_name_spec(string) =~= pitch_class_name_spec(midi % 12) + seq![
        (48 + quotient_toward_zero_12(midi) - 1) as char,
    ]);
}

} // verus!
