use vstd::prelude::*;
use crate::errors::DrawError;
use crate::event::RenderEvent;
use crate::output::Output;
use crate::timer::Timer;

verus! {

/// Everything one draw pass needs, fixed before any I/O is performed:
/// the geometry and pool size of the buffer, the image source to resolve,
/// and what to report on success.
pub struct DrawRequest {
    /// Buffer width in pixels.
    pub width: u32,
    /// Buffer height in pixels.
    pub height: u32,
    /// Bytes per row: four bytes per pixel.
    pub stride: usize,
    /// Bytes the pixel pool must hold: stride times height.
    pub size: usize,
    /// Image source to resolve: a single file, or a directory to pick from.
    pub path: String,
    /// Reported on a completed draw so the caller can schedule the next
    /// rotation tick: the output's configured display duration, if any.
    pub duration: Option<u32>,
}

/// Per-output surface controller: reconciles compositor events, dirty
/// flags and timer expiry into the decision of whether to redraw this
/// tick, and fixes the parameters of each draw pass.
pub struct Surface {
    /// Current width, 0 while the compositor has not configured one.
    pub width: u32,
    /// Current height, 0 while the compositor has not configured one.
    pub height: u32,
    /// Set on every accepted Configure and on output change; cleared only
    /// when a draw pass is admitted.
    pub need_redraw: bool,
    /// The rotation timer for this output.
    pub timer: Timer,
    /// The configuration this surface draws from.
    pub output: Output,
}

/// The number of bytes the pixel pool must hold for a surface of the given
/// dimensions: four bytes per pixel.
pub open spec fn pool_bytes(width: u32, height: u32) -> int {
    4 * width * height
}

/// The state a controller reaches by handling one drained mailbox event:
/// a Configure stores its dimensions verbatim — even zero ones — and marks
/// a redraw; anything else leaves the state alone.
pub open spec fn handle_events_post(s: Surface, event: Option<RenderEvent>) -> Surface {
    match event {
        Some(RenderEvent::Configure { width, height }) => (Surface {
            width,
            height,
            need_redraw: true,
            ..s
        }),
        _ => s,
    }
}

/// Whether a draw request fixes exactly what the given controller state
/// asks for.
pub open spec fn request_matches(req: DrawRequest, s: Surface) -> bool {
    &&& req.width == s.width
    &&& req.height == s.height
    &&& req.stride == 4 * s.width
    &&& req.size == pool_bytes(s.width, s.height)
    &&& req.path@ == s.output.path@
    &&& req.duration == s.output.duration
}

impl Surface {
    /// Whether a redraw is due: something asked for one and the compositor
    /// has assigned a usable width.
    pub open spec fn redraw_due(self) -> bool {
        (self.need_redraw || self.timer.expired) && self.width > 0
    }

    /// The controller right after a redraw is admitted: both the dirty flag and
    /// the timer expiry are consumed, before any I/O is attempted.
    pub open spec fn cleared(self) -> Surface {
        Surface {
            need_redraw: false,
            timer: Timer { expired: false, ..self.timer },
            ..self
        }
    }

    /// A controller for a newly discovered output: dimensions unknown,
    /// nothing dirty, timer fresh. The protocol negotiation that
    /// accompanies creation is `crate::protocol::init_plan`.
    pub fn new(output: Output) -> (r: Surface)
        ensures
            r.width == 0,
            r.height == 0,
            r.need_redraw == false,
            r.timer.duration == output.duration,
            r.timer.expired == false,
            r.output == output,
    {
        let timer = Timer::new(&output);
        Surface { width: 0, height: 0, need_redraw: false, timer, output }
    }

    /// Reconcile one drained mailbox event. Returns true exactly when the
    /// event is `Closed` — the surface is defunct and the caller must drop
    /// it. A Configure stores its dimensions (zero ones included: some
    /// compositors configure to zero during negotiation) and marks a
    /// redraw.
    pub fn handle_events(&mut self, event: Option<RenderEvent>) -> (defunct: bool)
        ensures
            *final(self) == handle_events_post(*old(self), event),
            defunct == (event == Some(RenderEvent::Closed)),
    {
        match event {
            Some(RenderEvent::Closed) => true,
            Some(RenderEvent::Configure { width, height }) => {
                self.width = width;
                self.height = height;
                self.need_redraw = true;
                false
            }
            None => false,
        }
    }

    /// Decide whether this tick draws. While no redraw is due this is a no-op
    /// returning Ok(None) — in particular whenever width is 0, whatever
    /// the flags say. When a redraw is admitted, the dirty flag and the timer
    /// expiry are cleared first, so a failing pipeline does not retry on
    /// every subsequent tick, and the returned request fixes geometry,
    /// pool size and image source for the whole pass.
    pub fn draw(&mut self) -> (r: Result<Option<DrawRequest>, DrawError>)
        ensures
            !old(self).redraw_due() ==> (r matches Ok(o) && o is None && *final(self) == *old(self)),
            old(self).redraw_due() ==> *final(self) == old(self).cleared(),
            old(self).redraw_due() && 4 * old(self).width <= usize::MAX && pool_bytes(
                old(self).width,
                old(self).height,
            ) <= usize::MAX ==> (r matches Ok(o) && o matches Some(req) && request_matches(
                req,
                *old(self),
            )),
            old(self).redraw_due() && (4 * old(self).width > usize::MAX || pool_bytes(
                old(self).width,
                old(self).height,
            ) > usize::MAX) ==> r == Err::<Option<DrawRequest>, DrawError>(
                DrawError::PoolSizeOverflow,
            ),
    {
        if !((self.need_redraw || self.timer.expired) && self.width > 0) {
            return Ok(None);
        }
        self.timer.expired = false;
        self.need_redraw = false;

        let width = self.width;
        let height = self.height;
        let stride_wide: u128 = 4u128 * (width as u128);
        proof {
            assert(stride_wide * (height as u128) < 0x100000000000000000 as u128)
                by (nonlinear_arith)
                requires
                    stride_wide <= 0x400000000 as u128,
                    height as u128 <= 0xffffffff as u128,
            ;
        }
        let size_wide: u128 = stride_wide * (height as u128);
        if stride_wide > (usize::MAX as u128) || size_wide > (usize::MAX as u128) {
            return Err(DrawError::PoolSizeOverflow);
        }
        let stride: usize = stride_wide as usize;
        let size: usize = size_wide as usize;
        let path = self.output.path.clone();
        Ok(Some(DrawRequest { width, height, stride, size, path, duration: self.output.duration }))
    }

    /// Replace the output configuration: the timer follows the new output,
    /// and the dirty flag is forced so the next tick redraws promptly,
    /// regardless of timer state.
    pub fn update_output(&mut self, output: Output)
        ensures
            final(self).output == output,
            final(self).need_redraw == true,
            final(self).timer.duration == output.duration,
            final(self).timer.expired == false,
            final(self).width == old(self).width,
            final(self).height == old(self).height,
    {
        self.timer.update_output(&output);
        self.output = output;
        self.need_redraw = true;
    }

    /// The external scheduler reports that this output's rotation interval
    /// elapsed: only the expiry flag moves.
    pub fn notify_timer_expired(&mut self)
        ensures
            *final(self) == (Surface {
                timer: Timer { expired: true, ..old(self).timer },
                ..*old(self)
            }),
    {
        self.timer.set_expired();
    }
}

/// A draw is never admitted while the width is zero — the surface is not
/// yet usable — whatever the dirty flag and the timer say.
pub proof fn lemma_no_draw_without_width(s: Surface)
    requires
        s.width == 0,
    ensures
        !s.redraw_due(),
{
}

/// The controller after a run of ticks, each handling one drained mailbox
/// event.
pub open spec fn run_events(s: Surface, evs: Seq<Option<RenderEvent>>) -> Surface
    decreases evs.len(),
{
    if evs.len() == 0 {
        s
    } else {
        run_events(handle_events_post(s, evs[0]), evs.skip(1))
    }
}

/// While neither a Configure, an output update nor a timer expiry arrives,
/// a controller whose flags are down keeps them down: ticks that drain an
/// empty mailbox or a Closed never make a redraw due again.
pub proof fn lemma_quiet_run_keeps_flags_down(s: Surface, evs: Seq<Option<RenderEvent>>)
    requires
        !s.need_redraw,
        !s.timer.expired,
        forall|i: int|
            0 <= i < evs.len() ==> !(#[trigger] evs[i] matches Some(
                RenderEvent::Configure { .. },
            )),
    ensures
        !run_events(s, evs).need_redraw,
        !run_events(s, evs).timer.expired,
    decreases evs.len(),
{
    if evs.len() > 0 {
        assert(handle_events_post(s, evs[0]) == s);
        lemma_quiet_run_keeps_flags_down(s, evs.skip(1));
    }
}

/// After any admitted draw, need-redraw and the timer expiry are both
/// false, and they stay false across every following tick until a new
/// Configure arrives — or an output update or external timer expiry sets
/// them again.
pub proof fn lemma_flags_rest_after_draw(s: Surface, evs: Seq<Option<RenderEvent>>)
    requires
        forall|i: int|
            0 <= i < evs.len() ==> !(#[trigger] evs[i] matches Some(
                RenderEvent::Configure { .. },
            )),
    ensures
        !run_events(s.cleared(), evs).need_redraw,
        !run_events(s.cleared(), evs).timer.expired,
{
    lemma_quiet_run_keeps_flags_down(s.cleared(), evs);
}

} // verus!
