use vstd::prelude::*;

verus! {

/// Abstract value of an [`AnimationState`]: indices and durations as
/// mathematical integers, durations counted in nanoseconds.
pub struct AnimationModel {
    pub first_index: nat,
    pub last_index: nat,
    pub current_index: nat,
    pub elapsed: nat,
    pub interval: nat,
}

impl AnimationModel {
    /// The frame range is non-empty, the interval positive and the current
    /// frame inside the range.
    pub open spec fn wf(self) -> bool {
        &&& self.first_index <= self.current_index
        &&& self.current_index <= self.last_index
        &&& self.interval > 0
    }
}

/// The index that follows `current` in the cyclic range `first..=last`.
pub open spec fn next_index(current: nat, first: nat, last: nat) -> nat {
    if current == last {
        first
    } else {
        current + 1
    }
}

/// One tick of the animator: the new state, and whether the frame changed.
///
/// The tick's time is added to the accumulated time. Once that reaches the
/// interval, one interval is taken off (the rest carries over) and the frame
/// moves on, wrapping from the last index to the first.
pub open spec fn step(m: AnimationModel, delta: nat) -> (AnimationModel, bool) {
    let total = m.elapsed + delta;
    if total < m.interval {
        (AnimationModel { elapsed: total, ..m }, false)
    } else {
        (
            AnimationModel {
                elapsed: (total - m.interval) as nat,
                current_index: next_index(m.current_index, m.first_index, m.last_index),
                ..m
            },
            true,
        )
    }
}

/// Whether a frame range and interval form a usable animation.
pub open spec fn valid_config(first_index: nat, last_index: nat, interval: nat) -> bool {
    first_index <= last_index && interval > 0
}

/// Error raised when an animation is configured with an empty frame range
/// or a zero interval.
#[derive(Debug, Clone, Copy, PartialEq, Eq, Structural)]
pub enum AnimationError {
    InvalidConfiguration,
}

/// A sprite's animation: a cyclic frame range, the frame shown, and a
/// repeating timer (accumulated time and interval, in nanoseconds).
#[derive(Debug, Clone, Copy)]
pub struct AnimationState {
    first_index: usize,
    last_index: usize,
    current_index: usize,
    elapsed: u64,
    interval: u64,
}

impl View for AnimationState {
    type V = AnimationModel;

    closed spec fn view(&self) -> AnimationModel {
        AnimationModel {
            first_index: self.first_index as nat,
            last_index: self.last_index as nat,
            current_index: self.current_index as nat,
            elapsed: self.elapsed as nat,
            interval: self.interval as nat,
        }
    }
}

impl AnimationState {
    /// Starts an animation on `first_index` with no time accumulated.
    /// Fails when the range is empty or the interval is zero.
    pub fn new(first_index: usize, last_index: usize, interval: u64) -> (r: Result<
        AnimationState,
        AnimationError,
    >)
        ensures
            r is Ok <==> valid_config(first_index as nat, last_index as nat, interval as nat),
            r is Err ==> r == Err::<AnimationState, AnimationError>(
                AnimationError::InvalidConfiguration,
            ),
            r matches Ok(s) ==> {
                &&& s@.wf()
                &&& s@.first_index == first_index
                &&& s@.last_index == last_index
                &&& s@.current_index == first_index
                &&& s@.elapsed == 0
                &&& s@.interval == interval
            },
    {
        if interval == 0 || first_index > last_index {
            Err(AnimationError::InvalidConfiguration)
        } else {
            Ok(AnimationState { first_index, last_index, current_index: first_index, elapsed: 0, interval })
        }
    }

    /// Adds `delta` nanoseconds to the timer and moves to the next frame when
    /// a full interval has accumulated. Returns whether the frame changed.
    pub fn advance(&mut self, delta: u64) -> (changed: bool)
        requires
            old(self)@.wf(),
            old(self)@.elapsed + delta <= u64::MAX,
        ensures
            final(self)@ == step(old(self)@, delta as nat).0,
            changed == step(old(self)@, delta as nat).1,
            final(self)@.wf(),
    {
        self.elapsed = self.elapsed + delta;
        if self.elapsed < self.interval {
            false
        } else {
            self.elapsed = self.elapsed - self.interval;
            self.current_index = if self.current_index == self.last_index {
                self.first_index
            } else {
                self.current_index + 1
            };
            true
        }
    }

    pub fn first_index(&self) -> (r: usize)
        ensures
            r == self@.first_index,
    {
        self.first_index
    }

    pub fn last_index(&self) -> (r: usize)
        ensures
            r == self@.last_index,
    {
        self.last_index
    }

    pub fn current_index(&self) -> (r: usize)
        ensures
            r == self@.current_index,
    {
        self.current_index
    }

    /// Time accumulated towards the next frame, in nanoseconds.
    pub fn elapsed(&self) -> (r: u64)
        ensures
            r == self@.elapsed,
    {
        self.elapsed
    }

    /// Time between two frames, in nanoseconds.
    pub fn interval(&self) -> (r: u64)
        ensures
            r == self@.interval,
    {
        self.interval
    }
}

} // verus!
