//! Framing of the captured audio stream: the check of the frame layout, the
//! rolling buffer that cuts overlapping frames out of the stream, and the
//! count of the frames spent measuring the background noise.
use vstd::prelude::*;
use std::collections::VecDeque;

verus! {

/// Why an audio configuration is refused.
#[derive(Clone, Copy, Debug, PartialEq, Eq, Structural)]
pub enum ConfigError {
    /// The frame size is zero, the hop size is zero, or the hop is longer
    /// than a frame.
    InvalidFrameLayout,
}

/// A frame layout is valid when frames and hops are non-empty and a hop is
/// no longer than a frame, so that consecutive frames overlap or touch.
pub open spec fn frame_layout_ok(frame_size: usize, hop_size: usize) -> bool {
    frame_size > 0 && hop_size > 0 && hop_size <= frame_size
}

/// Checks a frame layout before capture starts.
pub fn check_frame_layout(frame_size: usize, hop_size: usize) -> (r: Result<(), ConfigError>)
    ensures
        r is Ok <==> frame_layout_ok(frame_size, hop_size),
        r is Err ==> r == Err::<(), ConfigError>(ConfigError::InvalidFrameLayout),
{
    if frame_size == 0 || hop_size == 0 || hop_size > frame_size {
        Err(ConfigError::InvalidFrameLayout)
    } else {
        Ok(())
    }
}

/// What advancing by `hop` leaves of the pending samples `s`: all but the
/// first `hop` samples, or nothing when fewer are pending.
pub open spec fn advanced<T>(s: Seq<T>, hop: nat) -> Seq<T> {
    if hop < s.len() {
        s.skip(hop as int)
    } else {
        Seq::empty()
    }
}

/// The pending samples after `k` frames have been taken from the stream `s`
/// and the buffer advanced by `hop` after each.
pub open spec fn pending_after<T>(s: Seq<T>, hop: nat, k: nat) -> Seq<T>
    decreases k,
{
    if k == 0 {
        s
    } else {
        advanced(pending_after(s, hop, (k - 1) as nat), hop)
    }
}

/// A rolling buffer of samples from which frames are cut.
pub struct RollingFrames<T> {
    rolling: VecDeque<T>,
}

impl<T> View for RollingFrames<T> {
    type V = Seq<T>;

    /// The pending samples, oldest first.
    closed spec fn view(&self) -> Seq<T> {
        self.rolling@
    }
}

impl<T: Copy> RollingFrames<T> {
    /// An empty buffer, with room reserved for `capacity` samples.
    pub fn with_capacity(capacity: usize) -> (r: Self)
        ensures
            r@ == Seq::<T>::empty(),
    {
        RollingFrames { rolling: VecDeque::with_capacity(capacity) }
    }

    /// Appends one sample to the end of the buffer.
    pub fn push(&mut self, sample: T)
        ensures
            final(self)@ == old(self)@.push(sample),
    {
        self.rolling.push_back(sample);
    }

    /// The number of pending samples.
    pub fn len(&self) -> (r: usize)
        ensures
            r == self@.len(),
    {
        self.rolling.len()
    }

    /// The oldest `frame_size` samples, when that many are pending.
    pub fn front_frame(&self, frame_size: usize) -> (r: Option<Vec<T>>)
        ensures
            r is Some <==> self@.len() >= frame_size,
            r matches Some(f) ==> f@ == self@.take(frame_size as int),
    {
        broadcast use vstd::std_specs::vecdeque::group_vec_dequeue_axioms;

        if self.rolling.len() < frame_size {
            return None;
        }
        let mut frame: Vec<T> = Vec::with_capacity(frame_size);
        let mut i: usize = 0;
        while i < frame_size
            invariant
                i <= frame_size <= self.rolling@.len(),
                frame@ == self.rolling@.take(i as int),
            decreases frame_size - i,
        {
            let sample = self.rolling[i];
            frame.push(sample);
            i = i + 1;
            assert(frame@ =~= self.rolling@.take(i as int));
        }
        Some(frame)
    }

    /// Drops the oldest `hop_size` samples, or all of them when fewer are
    /// pending.
    pub fn advance(&mut self, hop_size: usize)
        ensures
            final(self)@ == advanced(old(self)@, hop_size as nat),
    {
        let mut i: usize = 0;
        while i < hop_size
            invariant
                i <= hop_size,
                self@ == advanced(old(self)@, i as nat),
            decreases hop_size - i,
        {
            let _ = self.rolling.pop_front();
            assert(self@ =~= advanced(old(self)@, (i + 1) as nat));
            i = i + 1;
        }
    }
}

/// With a valid layout, frames are windows of the stream at multiples of
/// the hop: as long as the `k`-th frame is complete in the stream `s`
/// (`k * hop + frame_size` samples), the samples pending before it are the
/// stream from `k * hop` on, and the frame is the `frame_size` samples that
/// start there.
pub proof fn lemma_frames_are_windows<T>(s: Seq<T>, frame_size: nat, hop: nat, k: nat)
    requires
        0 < hop <= frame_size,
        k * hop + frame_size <= s.len(),
    ensures
        pending_after(s, hop, k) == s.skip((k * hop) as int),
        pending_after(s, hop, k).take(frame_size as int) == s.subrange(
            (k * hop) as int,
            (k * hop + frame_size) as int,
        ),
    decreases k,
{
    if k == 0 {
        assert(k * hop == 0) by (nonlinear_arith)
            requires
                k == 0,
        ;
        assert(s.skip(0) =~= s);
    } else {
        let j = (k - 1) as nat;
        assert(j * hop + hop == k * hop) by (nonlinear_arith)
            requires
                j == k - 1,
        ;
        lemma_frames_are_windows(s, frame_size, hop, j);
        let p = pending_after(s, hop, j);
        assert(p == s.skip((j * hop) as int));
        assert(hop < p.len());
        assert(advanced(p, hop) =~= s.skip((k * hop) as int));
    }
    assert(pending_after(s, hop, k).take(frame_size as int) =~= s.subrange(
        (k * hop) as int,
        (k * hop + frame_size) as int,
    ));
}

/// The number of noise frames after which calibration is done: the
/// configured count, and at least one frame.
pub open spec fn frames_to_calibrate(required: usize) -> nat {
    if required == 0 { 1 } else { required as nat }
}

/// Counts the frames spent measuring the background noise before the
/// detection threshold is fixed.
pub struct Calibration {
    required: usize,
    seen: usize,
    calibrated: bool,
}

impl Calibration {
    #[verifier::type_invariant]
    spec fn counts_agree(self) -> bool {
        &&& self.seen <= frames_to_calibrate(self.required)
        &&& self.calibrated <==> self.seen == frames_to_calibrate(self.required)
    }

    /// The configured number of noise frames.
    pub closed spec fn required(self) -> usize {
        self.required
    }

    /// The number of noise frames counted so far.
    pub closed spec fn seen(self) -> nat {
        self.seen as nat
    }

    /// Whether calibration is done.
    pub closed spec fn is_done(self) -> bool {
        self.calibrated
    }

    /// A calibration that has counted no frame yet.
    pub fn new(required: usize) -> (r: Self)
        ensures
            r.required() == required,
            r.seen() == 0,
            !r.is_done(),
    {
        Calibration { required, seen: 0, calibrated: false }
    }

    /// Whether calibration is done.
    pub fn calibrated(&self) -> (r: bool)
        ensures
            r == self.is_done(),
            self.seen() <= frames_to_calibrate(self.required()),
            self.is_done() <==> self.seen() == frames_to_calibrate(self.required()),
    {
        proof {
            use_type_invariant(self);
        }
        self.calibrated
    }

    /// The number of noise frames counted so far.
    pub fn seen_count(&self) -> (r: usize)
        ensures
            r == self.seen(),
    {
        self.seen
    }

    /// Counts one more noise frame, while calibration is not done. Returns
    /// whether this frame completed calibration.
    pub fn observe(&mut self) -> (completed: bool)
        ensures
            final(self).required() == old(self).required(),
            final(self).seen() == calibration_step(old(self).required(), old(self).seen()),
            final(self).is_done() == (final(self).seen() == frames_to_calibrate(old(self).required())),
            completed == (!old(self).is_done() && final(self).is_done()),
    {
        proof {
            use_type_invariant(&*self);
        }
        if self.calibrated {
            return false;
        }
        let seen = self.seen + 1;
        let done = seen >= self.required;
        *self = Calibration { required: self.required, seen, calibrated: done };
        done
    }
}

/// One observed noise frame: the count grows by one until calibration is
/// done, then stays.
pub open spec fn calibration_step(required: usize, seen: nat) -> nat {
    if seen < frames_to_calibrate(required) {
        seen + 1
    } else {
        seen
    }
}

/// The count after `n` noise frames from a fresh calibration.
pub open spec fn seen_after(required: usize, n: nat) -> nat
    decreases n,
{
    if n == 0 {
        0
    } else {
        calibration_step(required, seen_after(required, (n - 1) as nat))
    }
}

/// Calibration is done exactly when as many noise frames as configured (at
/// least one) have been observed: after `n` frames the count is
/// `min(n, frames_to_calibrate(required))`.
pub proof fn lemma_calibration_after(required: usize, n: nat)
    ensures
        seen_after(required, n) == (if n < frames_to_calibrate(required) {
            n
        } else {
            frames_to_calibrate(required)
        }),
        (seen_after(required, n) == frames_to_calibrate(required)) <==> n >= frames_to_calibrate(required),
    decreases n,
{
    if n > 0 {
        lemma_calibration_after(required, (n - 1) as nat);
    }
}

} // verus!
