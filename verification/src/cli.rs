//! The slideshow's command line surface, as plain values.

use vstd::prelude::*;

verus! {

/// The command line: its single subcommand.
pub enum Cli {
    /// Start the diashow.
    Start(Start),
}

/// Parameters of the `start` subcommand.
pub struct Start {
    /// Folder where to search for images.
    pub images: String,
    /// Duration that one image is displayed, in seconds.
    pub duration: u64,
    /// Index where to start; a negative number counts from the end.
    pub start_index: Option<i64>,
    /// Duration of one fade iteration, in milliseconds.
    pub fade_iteration_duration: Option<u64>,
    /// Step size of one fade iteration.
    pub fade_iteration_step: Option<u8>,
}

impl Start {
    /// The configured interval between fade steps, or the default.
    pub fn effective_fade_iteration_duration(&self) -> (r: u64)
        ensures
            r == match self.fade_iteration_duration {
                Some(d) => d,
                None => crate::FADE_ITERATION_DURATION,
            },
    {
        match self.fade_iteration_duration {
            Some(d) => d,
            None => crate::FADE_ITERATION_DURATION,
        }
    }

    /// The configured alpha increment per fade step, or the default.
    pub fn effective_fade_iteration_step(&self) -> (r: u8)
        ensures
            r == match self.fade_iteration_step {
                Some(k) => k,
                None => crate::FADE_ITERATION_STEPS,
            },
    {
        match self.fade_iteration_step {
            Some(k) => k,
            None => crate::FADE_ITERATION_STEPS,
        }
    }
}

} // verus!
