//! Ordered keys for measured levels.
//!
//! The analysis compares measured quantities (spectrum magnitudes, pitch
//! errors, deviations in cents) only by their order. Each quantity reaches
//! this library as a key: `Some(k)` for a comparable value, ordered as the
//! values it stands for, and `None` for a value that is unordered (not a
//! number), which compares neither below, above nor equal to anything.
//! Every comparison below is false as soon as one side is `None`, exactly as
//! the comparison of the measured values is.
use vstd::prelude::*;

verus! {

/// The largest magnitude a key can carry: that of an infinite value.
pub const KEY_LIMIT: i32 = 0x7f80_0000;

/// A key is well formed when its magnitude does not exceed `KEY_LIMIT`.
pub open spec fn key_wf(a: Option<i32>) -> bool {
    a matches Some(x) ==> -KEY_LIMIT <= x <= KEY_LIMIT
}

/// `a < b` for the values the keys stand for.
pub open spec fn key_lt(a: Option<i32>, b: Option<i32>) -> bool {
    a is Some && b is Some && a->0 < b->0
}

/// `a <= b` for the values the keys stand for.
pub open spec fn key_le(a: Option<i32>, b: Option<i32>) -> bool {
    a is Some && b is Some && a->0 <= b->0
}

/// The key of the absolute value.
pub open spec fn key_abs(a: Option<i32>) -> Option<i32> {
    match a {
        Some(x) => Some(if x < 0 { (-x) as i32 } else { x }),
        None => None,
    }
}

/// The key of zero.
pub open spec fn key_zero() -> Option<i32> {
    Some(0i32)
}

/// Compares two keys: `a < b`.
pub fn less(a: Option<i32>, b: Option<i32>) -> (r: bool)
    ensures
        r == key_lt(a, b),
{
    match (a, b) {
        (Some(x), Some(y)) => x < y,
        _ => false,
    }
}

/// Compares two keys: `a <= b`.
pub fn less_eq(a: Option<i32>, b: Option<i32>) -> (r: bool)
    ensures
        r == key_le(a, b),
{
    match (a, b) {
        (Some(x), Some(y)) => x <= y,
        _ => false,
    }
}

/// The key of the absolute value of the value that `a` stands for.
pub fn absolute(a: Option<i32>) -> (r: Option<i32>)
    requires
        key_wf(a),
    ensures
        r == key_abs(a),
        key_wf(r),
{
    match a {
        Some(x) => Some(if x < 0 { -x } else { x }),
        None => None,
    }
}

/// `i` is the first position in `lo..=hi` of the smallest key that lies
/// below `bound`.
pub open spec fn is_lowest_below(s: Seq<Option<i32>>, lo: int, hi: int, bound: Option<i32>, i: int) -> bool {
    &&& lo <= i <= hi
    &&& key_lt(s[i], bound)
    &&& forall|j: int| lo <= j <= hi ==> !key_lt(#[trigger] s[j], s[i])
    &&& forall|j: int| lo <= j < i ==> !key_le(#[trigger] s[j], s[i])
}

/// Some key in `lo..=hi` lies below `bound`.
pub open spec fn has_below(s: Seq<Option<i32>>, lo: int, hi: int, bound: Option<i32>) -> bool {
    exists|j: int| lo <= j <= hi && key_lt(#[trigger] s[j], bound)
}

/// `i` is the first position in `lo..=hi` of the largest key that lies
/// above `bound`.
pub open spec fn is_highest_above(s: Seq<Option<i32>>, lo: int, hi: int, bound: Option<i32>, i: int) -> bool {
    &&& lo <= i <= hi
    &&& key_lt(bound, s[i])
    &&& forall|j: int| lo <= j <= hi ==> !key_lt(s[i], #[trigger] s[j])
    &&& forall|j: int| lo <= j < i ==> !key_le(s[i], #[trigger] s[j])
}

/// Some key in `lo..=hi` lies above `bound`.
pub open spec fn has_above(s: Seq<Option<i32>>, lo: int, hi: int, bound: Option<i32>) -> bool {
    exists|j: int| lo <= j <= hi && key_lt(bound, #[trigger] s[j])
}

/// `t` is the first position in `lo..=hi` whose key lies below `bound`.
pub open spec fn is_first_below(s: Seq<Option<i32>>, lo: int, hi: int, bound: Option<i32>, t: int) -> bool {
    &&& lo <= t <= hi
    &&& key_lt(s[t], bound)
    &&& forall|u: int| lo <= u < t ==> !key_lt(#[trigger] s[u], bound)
}

/// Scans `keys[lo..=hi]` for the first key below `bound`.
pub fn first_below(keys: &[Option<i32>], lo: usize, hi: usize, bound: Option<i32>) -> (r: Option<usize>)
    requires
        lo <= hi < keys@.len(),
    ensures
        r is None <==> !has_below(keys@, lo as int, hi as int, bound),
        r matches Some(t) ==> is_first_below(keys@, lo as int, hi as int, bound, t as int),
{
    let mut i = lo;
    while i <= hi
        invariant
            lo <= i <= hi + 1,
            hi < keys@.len(),
            forall|u: int| lo <= u < i ==> !key_lt(#[trigger] keys@[u], bound),
        decreases hi + 1 - i,
    {
        if less(keys[i], bound) {
            return Some(i);
        }
        i = i + 1;
    }
    None
}

/// Scans `keys[lo..=hi]` for the smallest key below `bound`, keeping the
/// first one on ties; `None` when no key lies below `bound`.
pub fn lowest_below(keys: &[Option<i32>], lo: usize, hi: usize, bound: Option<i32>) -> (r: Option<usize>)
    requires
        lo <= hi < keys@.len(),
    ensures
        r is None <==> !has_below(keys@, lo as int, hi as int, bound),
        r matches Some(i) ==> is_lowest_below(keys@, lo as int, hi as int, bound, i as int),
{
    let mut best = bound;
    let mut found: Option<usize> = None;
    let mut i = lo;
    while i <= hi
        invariant
            lo <= i <= hi + 1,
            hi < keys@.len(),
            found is None ==> best == bound && forall|j: int| lo <= j < i ==> !key_lt(#[trigger] keys@[j], bound),
            found matches Some(f) ==> {
                &&& lo <= f < i
                &&& best == keys@[f as int]
                &&& key_lt(keys@[f as int], bound)
                &&& forall|j: int| lo <= j < i ==> !key_lt(#[trigger] keys@[j], keys@[f as int])
                &&& forall|j: int| lo <= j < f ==> !key_le(#[trigger] keys@[j], keys@[f as int])
            },
        decreases hi + 1 - i,
    {
        if less(keys[i], best) {
            best = keys[i];
            found = Some(i);
        }
        i = i + 1;
    }
    proof {
        if found is None {
            assert(!has_below(keys@, lo as int, hi as int, bound));
        } else {
            let f = found->0;
            assert(key_lt(keys@[f as int], bound));
        }
    }
    found
}

/// Scans `keys[lo..=hi]` for the largest key above `bound`, keeping the
/// first one on ties; `None` when no key lies above `bound`.
pub fn highest_above(keys: &[Option<i32>], lo: usize, hi: usize, bound: Option<i32>) -> (r: Option<usize>)
    requires
        lo <= hi < keys@.len(),
    ensures
        r is None <==> !has_above(keys@, lo as int, hi as int, bound),
        r matches Some(i) ==> is_highest_above(keys@, lo as int, hi as int, bound, i as int),
{
    let mut best = bound;
    let mut found: Option<usize> = None;
    let mut i = lo;
    while i <= hi
        invariant
            lo <= i <= hi + 1,
            hi < keys@.len(),
            found is None ==> best == bound && forall|j: int| lo <= j < i ==> !key_lt(bound, #[trigger] keys@[j]),
            found matches Some(f) ==> {
                &&& lo <= f < i
                &&& best == keys@[f as int]
                &&& key_lt(bound, keys@[f as int])
                &&& forall|j: int| lo <= j < i ==> !key_lt(keys@[f as int], #[trigger] keys@[j])
                &&& forall|j: int| lo <= j < f ==> !key_le(keys@[f as int], #[trigger] keys@[j])
            },
        decreases hi + 1 - i,
    {
        if less(best, keys[i]) {
            best = keys[i];
            found = Some(i);
        }
        i = i + 1;
    }
    proof {
        if found is None {
            assert(!has_above(keys@, lo as int, hi as int, bound));
        } else {
            let f = found->0;
            assert(key_lt(bound, keys@[f as int]));
        }
    }
    found
}

/// The first smallest key below a bound is unique: two positions that both
/// meet `is_lowest_below` are the same position.
pub proof fn lemma_lowest_below_unique(s: Seq<Option<i32>>, lo: int, hi: int, bound: Option<i32>, i: int, k: int)
    requires
        is_lowest_below(s, lo, hi, bound, i),
        is_lowest_below(s, lo, hi, bound, k),
    ensures
        i == k,
{
    if i < k {
        assert(!key_le(s[i], s[k]));
        assert(!key_lt(s[i], s[k]));
    } else if k < i {
        assert(!key_le(s[k], s[i]));
        assert(!key_lt(s[k], s[i]));
    }
}

/// The first largest key above a bound is unique.
pub proof fn lemma_highest_above_unique(s: Seq<Option<i32>>, lo: int, hi: int, bound: Option<i32>, i: int, k: int)
    requires
        is_highest_above(s, lo, hi, bound, i),
        is_highest_above(s, lo, hi, bound, k),
    ensures
        i == k,
{
    if i < k {
        assert(!key_le(s[k], s[i]));
        assert(!key_lt(s[k], s[i]));
    } else if k < i {
        assert(!key_le(s[i], s[k]));
        assert(!key_lt(s[i], s[k]));
    }
}

/// `b` is the first position of the smallest key of `lo..=hi`, found by a
/// scan that starts from the key at `lo` and moves only to strictly smaller
/// keys (so `b == lo` when nothing lies below the key at `lo`).
pub open spec fn is_first_minimum(s: Seq<Option<i32>>, lo: int, hi: int, b: int) -> bool {
    if has_below(s, lo, hi, s[lo]) {
        is_lowest_below(s, lo, hi, s[lo], b)
    } else {
        b == lo
    }
}

/// The first position of the smallest key of `keys[lo..=hi]`, scanning
/// from the key at `lo`.
pub fn first_minimum(keys: &[Option<i32>], lo: usize, hi: usize) -> (r: usize)
    requires
        lo <= hi < keys@.len(),
    ensures
        is_first_minimum(keys@, lo as int, hi as int, r as int),
        lo <= r <= hi,
{
    match lowest_below(keys, lo, hi, keys[lo]) {
        Some(b) => b,
        None => lo,
    }
}

/// When the scan starts from a comparable key, the first minimum is a
/// minimum: no key of the range lies below it, and every earlier key lies
/// strictly above it or is not comparable.
pub proof fn lemma_first_minimum_is_least(s: Seq<Option<i32>>, lo: int, hi: int, b: int)
    requires
        lo <= hi < s.len(),
        is_first_minimum(s, lo, hi, b),
        s[lo] is Some,
    ensures
        s[b] is Some,
        forall|j: int| lo <= j <= hi ==> !key_lt(#[trigger] s[j], s[b]),
        forall|j: int| lo <= j < b ==> !key_le(#[trigger] s[j], s[b]),
{
    if !has_below(s, lo, hi, s[lo]) {
        assert forall|j: int| lo <= j <= hi implies !key_lt(#[trigger] s[j], s[b]) by {
            if key_lt(s[j], s[b]) {
                assert(has_below(s, lo, hi, s[lo]));
            }
        }
    }
}

/// The first minimum is unique.
pub proof fn lemma_first_minimum_unique(s: Seq<Option<i32>>, lo: int, hi: int, b: int, c: int)
    requires
        is_first_minimum(s, lo, hi, b),
        is_first_minimum(s, lo, hi, c),
    ensures
        b == c,
{
    if has_below(s, lo, hi, s[lo]) {
        lemma_lowest_below_unique(s, lo, hi, s[lo], b, c);
    }
}

} // verus!
