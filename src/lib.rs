//! Frame-by-frame sprite animation on a repeating timer.
//!
//! [`animation::AnimationState`] holds a cyclic frame range and a timer;
//! `advance` takes one tick's elapsed time and moves to the next frame each
//! time a full interval has accumulated, carrying any surplus over.
//! [`lemmas`] states what holds over any sequence of ticks.
use vstd::prelude::*;

pub mod animation;
pub mod lemmas;

verus! {

} // verus!
