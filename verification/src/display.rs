//! What the tuner's window shows: the labels of the strings, where each
//! string's button sits on the headstock, how the tuning gauge follows the
//! detected pitch, and how it is highlighted.
use vstd::prelude::*;
use crate::order::{absolute, key_abs, key_lt, key_wf, less};
use crate::tuning::{guitar_note_name_spec, GUITAR_STRING_COUNT};

verus! {

/// The labels of a string: the letter on its button and the note shown
/// when it is selected.
#[derive(Clone, Copy, Debug)]
pub struct StringInfo {
    pub name: &'static str,
    pub note: &'static str,
}

/// The number of string entries: one per string, and a last, blank one for
/// "no string selected".
pub const STRING_ENTRIES: usize = 7;

/// The letter on the button of entry `index`.
pub open spec fn string_name_spec(index: int) -> Seq<char> {
    if index == 0 || index == 5 {
        "E"@
    } else if index == 1 {
        "A"@
    } else if index == 2 {
        "D"@
    } else if index == 3 {
        "G"@
    } else if index == 4 {
        "B"@
    } else {
        ""@
    }
}

/// The note shown for entry `index`.
pub open spec fn string_note_spec(index: int) -> Seq<char> {
    if index == 0 {
        "Mi grave (E2)"@
    } else if index == 1 {
        "La (A2)"@
    } else if index == 2 {
        "Ré (D3)"@
    } else if index == 3 {
        "Sol (G3)"@
    } else if index == 4 {
        "Si (B3)"@
    } else if index == 5 {
        "Mi aigu (E4)"@
    } else {
        ""@
    }
}

/// The labels of entry `index`: strings 0 to 5 from the lowest, then the
/// blank entry 6.
pub fn string_info(index: usize) -> (r: StringInfo)
    requires
        index < STRING_ENTRIES,
    ensures
        r.name@ == string_name_spec(index as int),
        r.note@ == string_note_spec(index as int),
{
    match index {
        0 => StringInfo { name: "E", note: "Mi grave (E2)" },
        1 => StringInfo { name: "A", note: "La (A2)" },
        2 => StringInfo { name: "D", note: "Ré (D3)" },
        3 => StringInfo { name: "G", note: "Sol (G3)" },
        4 => StringInfo { name: "B", note: "Si (B3)" },
        5 => StringInfo { name: "E", note: "Mi aigu (E4)" },
        _ => StringInfo { name: "", note: "" },
    }
}

/// The side of the headstock where a string's tuning peg sits.
#[derive(Clone, Copy, Debug, PartialEq, Eq, Structural)]
pub enum PegSide {
    Left,
    Right,
}

/// Where a string's button sits: the side, and the row counted from the
/// bottom of the headstock.
#[derive(Clone, Copy, Debug, PartialEq, Eq, Structural)]
pub struct ButtonSlot {
    pub side: PegSide,
    pub row: usize,
}

/// The slot of the button of string `string`: the three low strings on the
/// left, the three high strings on the right; the outer strings (0 and 5)
/// on the bottom row, strings 1 and 4 in the middle, 2 and 3 on top.
pub fn string_button_slot(string: usize) -> (r: ButtonSlot)
    requires
        string < GUITAR_STRING_COUNT,
    ensures
        r == slot_of(string),
        r.side == (if string <= 2 { PegSide::Left } else { PegSide::Right }),
        r.row == (if string == 0 || string == 5 { 0usize } else if string == 1 || string == 4 { 1usize } else { 2usize }),
        r.row < 3,
{
    let side = if string <= 2 { PegSide::Left } else { PegSide::Right };
    let row = if string == 0 || string == 5 {
        0
    } else if string == 1 || string == 4 {
        1
    } else {
        2
    };
    ButtonSlot { side, row }
}

/// How the gauge's deviation changes on a new frame of the window.
#[derive(Clone, Copy, Debug, PartialEq, Eq, Structural)]
pub enum GaugeUpdate {
    /// Measure the detected pitch against the note of this string.
    Measure(usize),
    /// A string is selected but no pitch is detected: keep the last value.
    Keep,
    /// No string is selected: the deviation returns to zero.
    Reset,
}

/// The gauge update for the selected entry and the presence of a detected
/// pitch.
pub fn gauge_update(selected: usize, has_frequency: bool) -> (r: GaugeUpdate)
    ensures
        r == (if selected < GUITAR_STRING_COUNT {
            if has_frequency {
                GaugeUpdate::Measure(selected)
            } else {
                GaugeUpdate::Keep
            }
        } else {
            GaugeUpdate::Reset
        }),
{
    if selected < GUITAR_STRING_COUNT {
        if has_frequency {
            GaugeUpdate::Measure(selected)
        } else {
            GaugeUpdate::Keep
        }
    } else {
        GaugeUpdate::Reset
    }
}

/// How the gauge is drawn.
#[derive(Clone, Copy, Debug, PartialEq, Eq, Structural)]
pub enum GaugeHighlight {
    /// No string selected, or no pitch detected: the gauge is greyed out
    /// and shows no value.
    Idle,
    /// The deviation is within the tolerance.
    InTune,
    /// The deviation is outside the tolerance.
    OutOfTune,
}

/// The gauge highlight: idle unless a string is selected and a pitch is
/// detected; then in tune when `|deviation| < tolerance`.
pub fn gauge_highlight(selected: usize, has_frequency: bool, deviation: Option<i32>, tolerance: Option<i32>) -> (r:
    GaugeHighlight)
    requires
        key_wf(deviation),
    ensures
        r == gauge_highlight_of(selected, has_frequency, deviation, tolerance),
{
    if !(selected < GUITAR_STRING_COUNT && has_frequency) {
        GaugeHighlight::Idle
    } else if less(absolute(deviation), tolerance) {
        GaugeHighlight::InTune
    } else {
        GaugeHighlight::OutOfTune
    }
}

/// The labels agree with the strings' notes: for each string, the button
/// letter is the first letter of the string's note name, and the shown note
/// ends with that name in brackets; the last entry is blank.
pub proof fn lemma_string_labels_name_the_notes(index: int)
    requires
        0 <= index < STRING_ENTRIES,
    ensures
        index < GUITAR_STRING_COUNT ==> string_name_spec(index) == guitar_note_name_spec(index).take(1),
        index < GUITAR_STRING_COUNT ==> ({
            let note = string_note_spec(index);
            note.len() >= 4 && note.subrange(note.len() - 4, note.len() as int) == seq!['('] + guitar_note_name_spec(
                index,
            ) + seq![')']
        }),
        index == GUITAR_STRING_COUNT ==> string_name_spec(index).len() == 0 && string_note_spec(index).len() == 0,
{
    reveal_strlit("E");
    reveal_strlit("A");
    reveal_strlit("D");
    reveal_strlit("G");
    reveal_strlit("B");
    reveal_strlit("");
    reveal_strlit("E2");
    reveal_strlit("A2");
    reveal_strlit("D3");
    reveal_strlit("G3");
    reveal_strlit("B3");
    reveal_strlit("E4");
    reveal_strlit("Mi grave (E2)");
    reveal_strlit("La (A2)");
    reveal_strlit("Ré (D3)");
    reveal_strlit("Sol (G3)");
    reveal_strlit("Si (B3)");
    reveal_strlit("Mi aigu (E4)");
    if index < GUITAR_STRING_COUNT {
        assert(string_name_spec(index) =~= guitar_note_name_spec(index).take(1));
        let note = string_note_spec(index);
        assert(note.subrange(note.len() - 4, note.len() as int) =~= seq!['('] + guitar_note_name_spec(index) + seq![
            ')',
        ]);
    }
}

/// The buttons are symmetric across the headstock: strings `i` and
/// `5 - i` sit on the same row on opposite sides, and no two strings share
/// a slot.
pub proof fn lemma_button_slots_symmetric(i: usize, j: usize)
    requires
        i < GUITAR_STRING_COUNT,
        j < GUITAR_STRING_COUNT,
    ensures
        ({
            let a = slot_of(i);
            let b = slot_of((5 - i) as usize);
            a.row == b.row && a.side != b.side
        }),
        i != j ==> slot_of(i) != slot_of(j),
{
}

/// The slot that `string_button_slot` gives string `string`.
pub open spec fn slot_of(string: usize) -> ButtonSlot {
    ButtonSlot {
        side: if string <= 2 { PegSide::Left } else { PegSide::Right },
        row: if string == 0 || string == 5 { 0usize } else if string == 1 || string == 4 { 1usize } else { 2usize },
    }
}

/// With a string selected and a pitch detected, the gauge is in tune
/// exactly when the deviation lies strictly inside `-t..t`; otherwise it is
/// idle.
pub proof fn lemma_gauge_highlight_by_deviation(selected: usize, has_frequency: bool, deviation: i32, tolerance: i32)
    requires
        key_wf(Some(deviation)),
    ensures
        (gauge_highlight_of(selected, has_frequency, Some(deviation), Some(tolerance)) == GaugeHighlight::Idle) <==> !(
        selected < GUITAR_STRING_COUNT && has_frequency),
        (gauge_highlight_of(selected, has_frequency, Some(deviation), Some(tolerance)) == GaugeHighlight::InTune) <==> (
        selected < GUITAR_STRING_COUNT && has_frequency && -tolerance < deviation < tolerance),
{
}

/// The highlight that `gauge_highlight` gives.
pub open spec fn gauge_highlight_of(selected: usize, has_frequency: bool, deviation: Option<i32>, tolerance: Option<i32>) -> GaugeHighlight {
    if !(selected < GUITAR_STRING_COUNT && has_frequency) {
        GaugeHighlight::Idle
    } else if key_lt(key_abs(deviation), tolerance) {
        GaugeHighlight::InTune
    } else {
        GaugeHighlight::OutOfTune
    }
}

} // verus!
