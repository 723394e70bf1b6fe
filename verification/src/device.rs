//! The choice of an input configuration among those an audio device
//! supports: mono before multi-channel, 32-bit float samples before 16-bit
//! signed before 16-bit unsigned before any other format, then the sample
//! rate closest to the target.
use vstd::prelude::*;

verus! {

/// The sample formats that the capture distinguishes.
#[derive(Clone, Copy, Debug, PartialEq, Eq, Structural)]
pub enum SampleFormatKind {
    /// 32-bit floating-point samples.
    F32,
    /// 16-bit signed integer samples.
    I16,
    /// 16-bit unsigned integer samples.
    U16,
    /// Any other format.
    Other,
}

/// One range of input configurations that a device supports.
#[derive(Clone, Copy, Debug, PartialEq, Eq, Structural)]
pub struct InputConfigRange {
    pub channels: u16,
    pub format: SampleFormatKind,
    pub min_rate: u32,
    pub max_rate: u32,
}

/// The configuration chosen for capture.
#[derive(Clone, Copy, Debug, PartialEq, Eq, Structural)]
pub struct SelectedInput {
    /// The position of the chosen range among those offered.
    pub index: usize,
    pub channels: u16,
    pub sample_rate: u32,
    pub format: SampleFormatKind,
}

/// The rate used from a range: the target, brought into `min_rate..=max_rate`
/// (the minimum wins when the target lies below it).
pub open spec fn chosen_rate(range: InputConfigRange, target: u32) -> u32 {
    if target < range.min_rate {
        range.min_rate
    } else if target > range.max_rate {
        range.max_rate
    } else {
        target
    }
}

/// The penalty for channels: none for mono, else 100 plus the channel count.
pub open spec fn mono_penalty(channels: u16) -> int {
    if channels == 1 { 0 } else { 100 + channels }
}

/// The penalty for the sample format.
pub open spec fn format_penalty(format: SampleFormatKind) -> int {
    match format {
        SampleFormatKind::F32 => 0,
        SampleFormatKind::I16 => 1,
        SampleFormatKind::U16 => 2,
        SampleFormatKind::Other => 10,
    }
}

/// The penalty for the rate: the distance of the chosen rate to the target.
pub open spec fn rate_penalty(range: InputConfigRange, target: u32) -> int {
    let rate = chosen_rate(range, target);
    if rate >= target { rate - target } else { target - rate }
}

/// `a` scores strictly better than `b`: its penalties are smaller in the
/// order channels, format, rate.
pub open spec fn better(a: InputConfigRange, b: InputConfigRange, target: u32) -> bool {
    ||| mono_penalty(a.channels) < mono_penalty(b.channels)
    ||| mono_penalty(a.channels) == mono_penalty(b.channels) && format_penalty(a.format) < format_penalty(
        b.format,
    )
    ||| mono_penalty(a.channels) == mono_penalty(b.channels) && format_penalty(a.format) == format_penalty(
        b.format,
    ) && rate_penalty(a, target) < rate_penalty(b, target)
}

/// `i` is the first of the best-scoring ranges.
pub open spec fn is_best_range(ranges: Seq<InputConfigRange>, target: u32, i: int) -> bool {
    &&& 0 <= i < ranges.len()
    &&& forall|j: int| 0 <= j < ranges.len() ==> !better(#[trigger] ranges[j], ranges[i], target)
    &&& forall|j: int| 0 <= j < i ==> better(ranges[i], #[trigger] ranges[j], target)
}

fn rate_in_range(range: &InputConfigRange, target: u32) -> (r: u32)
    ensures
        r == chosen_rate(*range, target),
{
    if target < range.min_rate {
        range.min_rate
    } else if target > range.max_rate {
        range.max_rate
    } else {
        target
    }
}

/// The penalties of a range, in the order they are compared.
fn penalties(range: &InputConfigRange, target: u32) -> (r: (u32, u32, u32))
    ensures
        r.0 == mono_penalty(range.channels),
        r.1 == format_penalty(range.format),
        r.2 == rate_penalty(*range, target),
{
    let mono: u32 = if range.channels == 1 { 0 } else { 100 + range.channels as u32 };
    let format: u32 = match range.format {
        SampleFormatKind::F32 => 0,
        SampleFormatKind::I16 => 1,
        SampleFormatKind::U16 => 2,
        SampleFormatKind::Other => 10,
    };
    let rate = rate_in_range(range, target);
    let distance = if rate >= target { rate - target } else { target - rate };
    (mono, format, distance)
}

/// Whether the penalties `a` come strictly before `b`, field by field.
fn scores_before(a: (u32, u32, u32), b: (u32, u32, u32)) -> (r: bool)
    ensures
        r == (a.0 < b.0 || (a.0 == b.0 && a.1 < b.1) || (a.0 == b.0 && a.1 == b.1 && a.2 < b.2)),
{
    a.0 < b.0 || (a.0 == b.0 && (a.1 < b.1 || (a.1 == b.1 && a.2 < b.2)))
}

/// Chooses the input configuration closest to `target_sample_rate`: the
/// first range of best score, used at its rate nearest to the target.
/// `None` when the device offers no range.
pub fn select_input_config(ranges: &[InputConfigRange], target_sample_rate: u32) -> (r: Option<SelectedInput>)
    ensures
        r is None <==> ranges@.len() == 0,
        r matches Some(sel) ==> {
            &&& is_best_range(ranges@, target_sample_rate, sel.index as int)
            &&& sel.channels == ranges@[sel.index as int].channels
            &&& sel.format == ranges@[sel.index as int].format
            &&& sel.sample_rate == chosen_rate(ranges@[sel.index as int], target_sample_rate)
        },
{
    let mut best: Option<usize> = None;
    let mut best_score: (u32, u32, u32) = (0, 0, 0);
    let mut i: usize = 0;
    while i < ranges.len()
        invariant
            i <= ranges@.len(),
            best is None <==> i == 0,
            best matches Some(b) ==> {
                &&& b < i
                &&& best_score.0 == mono_penalty(ranges@[b as int].channels)
                &&& best_score.1 == format_penalty(ranges@[b as int].format)
                &&& best_score.2 == rate_penalty(ranges@[b as int], target_sample_rate)
                &&& forall|j: int| 0 <= j < i ==> !better(#[trigger] ranges@[j], ranges@[b as int], target_sample_rate)
                &&& forall|j: int| 0 <= j < b ==> better(ranges@[b as int], #[trigger] ranges@[j], target_sample_rate)
            },
        decreases ranges@.len() - i,
    {
        let score = penalties(&ranges[i], target_sample_rate);
        if best.is_none() || scores_before(score, best_score) {
            best = Some(i);
            best_score = score;
        }
        i = i + 1;
    }
    match best {
        Some(b) => {
            let range = &ranges[b];
            Some(
                SelectedInput {
                    index: b,
                    channels: range.channels,
                    sample_rate: rate_in_range(range, target_sample_rate),
                    format: range.format,
                },
            )
        },
        None => None,
    }
}

/// The chosen rate lies within the range whenever the range is not
/// inverted, and equals the target whenever the target lies within it.
pub proof fn lemma_chosen_rate_in_range(range: InputConfigRange, target: u32)
    requires
        range.min_rate <= range.max_rate,
    ensures
        range.min_rate <= chosen_rate(range, target) <= range.max_rate,
        range.min_rate <= target <= range.max_rate ==> chosen_rate(range, target) == target,
{
}

/// A mono range is always preferred to a multi-channel one.
pub proof fn lemma_mono_preferred(ranges: Seq<InputConfigRange>, target: u32, i: int, j: int)
    requires
        is_best_range(ranges, target, i),
        0 <= j < ranges.len(),
        ranges[j].channels == 1,
    ensures
        ranges[i].channels == 1,
{
    assert(!better(ranges[j], ranges[i], target));
}

/// The best range is unique.
pub proof fn lemma_best_range_unique(ranges: Seq<InputConfigRange>, target: u32, i: int, k: int)
    requires
        is_best_range(ranges, target, i),
        is_best_range(ranges, target, k),
    ensures
        i == k,
{
    if i < k {
        assert(better(ranges[k], ranges[i], target));
    } else if k < i {
        assert(better(ranges[i], ranges[k], target));
    }
}

/// The chosen rate is the rate of the range nearest to the target: no rate
/// the range allows lies closer to the target.
pub proof fn lemma_chosen_rate_nearest(range: InputConfigRange, target: u32, rate: u32)
    requires
        range.min_rate <= rate <= range.max_rate,
    ensures
        range.min_rate <= chosen_rate(range, target) <= range.max_rate,
        (if chosen_rate(range, target) >= target {
            chosen_rate(range, target) - target
        } else {
            target - chosen_rate(range, target)
        }) <= (if rate >= target {
            rate - target
        } else {
            target - rate
        }),
{
}

} // verus!
