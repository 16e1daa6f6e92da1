use vstd::prelude::*;
use crate::output::Output;

verus! {

/// Per-output rotation timer: the duration between wallpaper swaps and
/// whether that interval has elapsed. An external scheduler sets `expired`;
/// only the surface controller clears it, when it consumes it for a redraw
/// decision.
#[derive(Clone, Copy)]
pub struct Timer {
    /// Time one wallpaper is shown, if the output configures one.
    pub duration: Option<u32>,
    /// Whether the rotation interval has elapsed since the last draw.
    pub expired: bool,
}

impl Timer {
    /// A fresh timer for one output: not yet expired.
    pub fn new(output: &Output) -> (r: Timer)
        ensures
            r.duration == output.duration,
            r.expired == false,
    {
        Timer { duration: output.duration, expired: false }
    }

    /// Reconfigure for a replaced output: adopt its duration and start over.
    pub fn update_output(&mut self, output: &Output)
        ensures
            final(self).duration == output.duration,
            final(self).expired == false,
    {
        self.duration = output.duration;
        self.expired = false;
    }

    /// The external scheduler reports that the rotation interval elapsed.
    pub fn set_expired(&mut self)
        ensures
            final(self).duration == old(self).duration,
            final(self).expired == true,
    {
        self.expired = true;
    }
}

} // verus!
