//! Frame animators.  A `Frame` turns accumulated time into a frame index
//! at a fixed duration per frame; an `Animator` wraps the index around a
//! frame count forever; a `LimitRun` does the same for a bounded number of
//! loops and then stops.

use crate::duration::{max_duration_nanos, Duration};
use vstd::arithmetic::div_mod::{
    lemma_div_is_ordered, lemma_div_multiples_vanish, lemma_fundamental_div_mod_converse,
};
use vstd::prelude::*;

verus! {

broadcast use crate::duration::lemma_duration_nonneg;

/// The frame count and per-frame duration of an animation, ready to start.
#[derive(Clone, Copy, Debug)]
pub struct Data {
    pub max: u32,
    pub duration: Duration,
}

/// The former name of `Data`; kept for callers that construct animators
/// through it.
pub type AnimatorData = Data;

impl Data {
    pub fn new(max: u32, duration: Duration) -> (r: Data)
        ensures
            r.max == max,
            r.duration == duration,
    {
        Data { max, duration }
    }

    /// Starts a repeating animator at frame zero.
    pub fn start(self) -> (r: Animator)
        ensures
            r.max == self.max,
            r.duration == self.duration,
            r.frame.index == 0,
            r.frame.elapsed@ == 0,
    {
        Animator::new(self.max, self.duration)
    }

    /// Starts an animator that runs `loops` times and then stops.
    pub fn limit_run_start(self, loops: u32) -> (r: LimitRun)
        ensures
            r.max == self.max,
            r.duration == self.duration,
            r.remaining_loops == loops,
            r.frame.index == 0,
            r.frame.elapsed@ == 0,
    {
        LimitRun::new(self.max, self.duration, loops)
    }
}

/// A raw frame counter: an index and the time spent inside the current
/// frame.
#[derive(Debug, Clone, Copy)]
pub struct Frame {
    pub index: u32,
    pub elapsed: Duration,
}

impl Default for Frame {
    /// Frame zero, no time spent in it.
    fn default() -> (r: Frame)
        ensures
            r.index == 0,
            r.elapsed@ == 0,
    {
        Frame { index: 0, elapsed: Duration::default() }
    }
}

impl Frame {
    /// The index this frame counter reaches once `delta` more time passes,
    /// before any wrap-around.
    pub open spec fn advanced_index(self, delta: Duration, duration: Duration) -> int {
        self.index + (self.elapsed@ + delta@) / duration@
    }

    /// Adds `delta` to the time spent and moves the index forward one step
    /// for every full `duration` spent.
    pub fn advance(&mut self, delta: Duration, duration: Duration)
        requires
            duration@ > 0,
            old(self).elapsed@ + delta@ <= max_duration_nanos(),
            old(self).advanced_index(delta, duration) <= u32::MAX,
        ensures
            final(self).index == old(self).advanced_index(delta, duration),
            final(self).elapsed@ == (old(self).elapsed@ + delta@) % duration@,
    {
        let ghost total: int = old(self).elapsed@ + delta@;
        let ghost i0: int = old(self).index as int;
        self.elapsed = self.elapsed.add(delta);
        proof {
            lemma_div_bound_from_remainder(total, duration@, 0, total);
        }
        while self.elapsed.ge(&duration)
            invariant
                duration@ > 0,
                0 <= self.elapsed@,
                i0 <= self.index,
                self.elapsed@ == total - (self.index - i0) * duration@,
                self.index <= i0 + total / duration@,
                i0 + total / duration@ <= u32::MAX,
            decreases self.elapsed@,
        {
            proof {
                assert((self.index - i0 + 1) * duration@ == (self.index - i0) * duration@
                    + duration@) by (nonlinear_arith);
                lemma_div_bound_from_remainder(
                    total,
                    duration@,
                    self.index - i0 + 1,
                    self.elapsed@ - duration@,
                );
            }
            self.index = self.index + 1;
            self.elapsed = self.elapsed.sub(duration);
        }
        proof {
            lemma_fundamental_div_mod_converse(
                total,
                duration@,
                self.index - i0,
                self.elapsed@,
            );
        }
    }
}

/// If `total - k * d` is a remainder candidate at least `r`, then `k` is no
/// more than `total / d`.
proof fn lemma_div_bound_from_remainder(total: int, d: int, k: int, r: int)
    requires
        d > 0,
        0 <= k,
        0 <= r,
        total == k * d + r,
    ensures
        k <= total / d,
{
    lemma_div_multiples_vanish(k, d);
    lemma_div_is_ordered(k * d, total, d);
    assert(k * d <= total) by (nonlinear_arith)
        requires
            total == k * d + r,
            0 <= r,
    ;
}

/// An animator that cycles through `max` frames forever.
#[derive(Debug, Clone, Copy)]
pub struct Animator {
    pub max: u32,
    pub duration: Duration,
    pub frame: Frame,
}

impl Animator {
    pub fn new(max: u32, duration: Duration) -> (r: Animator)
        ensures
            r.max == max,
            r.duration == duration,
            r.frame.index == 0,
            r.frame.elapsed@ == 0,
    {
        Animator { max, duration, frame: Frame::default() }
    }

    /// The current frame index.
    pub fn frame(&self) -> (r: u32)
        ensures
            r == self.frame.index,
    {
        self.frame.index
    }

    /// How many frames the animation has.
    pub fn num_frames(&self) -> (r: u32)
        ensures
            r == self.max,
    {
        self.max
    }

    /// Advances by `delta` and returns the new frame index, wrapped around
    /// the frame count.
    pub fn animate(&mut self, delta: Duration) -> (r: u32)
        requires
            old(self).max > 0,
            old(self).duration@ > 0,
            old(self).frame.elapsed@ + delta@ <= max_duration_nanos(),
            old(self).frame.advanced_index(delta, old(self).duration) <= u32::MAX,
        ensures
            final(self).max == old(self).max,
            final(self).duration == old(self).duration,
            r == final(self).frame.index,
            final(self).frame.index == old(self).frame.advanced_index(delta, old(self).duration)
                % (old(self).max as int),
            final(self).frame.elapsed@ == (old(self).frame.elapsed@ + delta@) % old(
                self,
            ).duration@,
    {
        self.frame.advance(delta, self.duration);
        self.frame.index = self.frame.index % self.max;
        self.frame.index
    }

    /// Returns to frame zero.
    pub fn restart(&mut self)
        ensures
            final(self).max == old(self).max,
            final(self).duration == old(self).duration,
            final(self).frame.index == 0,
            final(self).frame.elapsed@ == 0,
    {
        self.frame = Frame::default();
    }

    /// Gives the configuration back, dropping the progress.
    pub fn stop(self) -> (r: Data)
        ensures
            r.max == self.max,
            r.duration == self.duration,
    {
        Data { max: self.max, duration: self.duration }
    }
}

/// An animator that cycles through `max` frames for a bounded number of
/// loops, then reports no frame at all.
#[derive(Debug, Clone, Copy)]
pub struct LimitRun {
    pub max: u32,
    pub duration: Duration,
    pub frame: Frame,
    pub remaining_loops: u32,
}

/// The former name of `LimitRun`; kept for callers that construct it from
/// `AnimatorData`.
pub type LimitRunAnimator = LimitRun;

impl LimitRun {
    pub fn new(max: u32, duration: Duration, loops: u32) -> (r: LimitRun)
        ensures
            r.max == max,
            r.duration == duration,
            r.remaining_loops == loops,
            r.frame.index == 0,
            r.frame.elapsed@ == 0,
    {
        LimitRun { max, duration, remaining_loops: loops, frame: Frame::default() }
    }

    /// The current frame index, or `None` once the loops have run out.
    pub fn frame(&self) -> (r: Option<u32>)
        ensures
            self.remaining_loops > 0 ==> r == Some(self.frame.index),
            self.remaining_loops == 0 ==> r is None,
    {
        if self.remaining_loops > 0 {
            Some(self.frame.index)
        } else {
            None
        }
    }

    /// How many frames one loop has.
    pub fn num_frames(&self) -> (r: u32)
        ensures
            r == self.max,
    {
        self.max
    }

    /// Advances by `delta`.  Whole loops spent by the advance are taken off
    /// the remaining count; when they use it up, the animation stops and
    /// reports no frame, now and on every later call.
    pub fn animate(&mut self, delta: Duration) -> (r: Option<u32>)
        requires
            old(self).remaining_loops > 0 ==> old(self).max > 0 && old(self).duration@ > 0 && old(
                self,
            ).frame.elapsed@ + delta@ <= max_duration_nanos() && old(self).frame.advanced_index(
                delta,
                old(self).duration,
            ) <= u32::MAX,
        ensures
            final(self).max == old(self).max,
            final(self).duration == old(self).duration,
            old(self).remaining_loops == 0 ==> *final(self) == *old(self) && r is None,
            old(self).remaining_loops > 0 ==> {
                let raw = old(self).frame.advanced_index(delta, old(self).duration);
                let spent = raw / (old(self).max as int);
                &&& final(self).frame.elapsed@ == (old(self).frame.elapsed@ + delta@) % old(
                    self,
                ).duration@
                &&& (spent >= old(self).remaining_loops ==> final(self).remaining_loops == 0 && r
                    is None)
                &&& (spent < old(self).remaining_loops ==> final(self).frame.index == raw % (old(
                    self,
                ).max as int) && final(self).remaining_loops == old(self).remaining_loops - spent
                    && r == Some(final(self).frame.index))
            },
    {
        if self.remaining_loops > 0 {
            self.frame.advance(delta, self.duration);
            let elapsed_loops: u32 = self.frame.index / self.max;
            if elapsed_loops >= self.remaining_loops {
                self.remaining_loops = 0;
                None
            } else {
                self.frame.index = self.frame.index % self.max;
                self.remaining_loops = self.remaining_loops - elapsed_loops;
                Some(self.frame.index)
            }
        } else {
            None
        }
    }

    /// Starts over with `loops` fresh loops at frame zero.
    pub fn restart(&mut self, loops: u32)
        ensures
            final(self).max == old(self).max,
            final(self).duration == old(self).duration,
            final(self).remaining_loops == loops,
            final(self).frame.index == 0,
            final(self).frame.elapsed@ == 0,
    {
        self.remaining_loops = loops;
        self.frame = Frame::default();
    }
}

} // verus!
