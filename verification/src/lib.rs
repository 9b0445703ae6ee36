//! A kiosk-style image slideshow engine: a playlist of image paths cycled on
//! a timer, with a linear alpha crossfade between consecutive images and a
//! queue of newly discovered images that is folded into the rotation.

pub mod cli;
pub mod engine;
pub mod frame;
pub mod playlist;

use vstd::prelude::*;

verus! {

/// Default alpha increment applied on each fade step.
pub const FADE_ITERATION_STEPS: u8 = 5;

/// Default number of milliseconds between two fade steps.
pub const FADE_ITERATION_DURATION: u64 = 50;

} // verus!
