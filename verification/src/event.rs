use vstd::prelude::*;

verus! {

/// A notification from the compositor for one surface: new dimensions were
/// assigned, or the surface was closed.
#[derive(Clone, Copy, PartialEq, Eq, Structural, Debug)]
pub enum RenderEvent {
    Configure { width: u32, height: u32 },
    Closed,
}

/// What the single-slot mailbox holds after one event is recorded into it:
/// the latest event wins, except that `Closed` is terminal and is never
/// overwritten.
pub open spec fn record_spec(slot: Option<RenderEvent>, ev: RenderEvent) -> Option<RenderEvent> {
    if slot == Some(RenderEvent::Closed) {
        slot
    } else {
        Some(ev)
    }
}

/// The slot after a whole sequence of events is recorded, oldest first.
pub open spec fn recorded_after(slot: Option<RenderEvent>, evs: Seq<RenderEvent>) -> Option<RenderEvent>
    decreases evs.len(),
{
    if evs.len() == 0 {
        slot
    } else {
        recorded_after(record_spec(slot, evs[0]), evs.skip(1))
    }
}

/// Single-slot mailbox between the protocol callback (producer) and the
/// per-tick render pass (consumer). At most one event pends at a time.
pub struct EventCell {
    slot: Option<RenderEvent>,
}

impl EventCell {
    /// The event pending in the mailbox, if any.
    pub closed spec fn pending(self) -> Option<RenderEvent> {
        self.slot
    }

    /// A fresh, empty mailbox.
    pub fn new() -> (r: EventCell)
        ensures
            r.pending() == None::<RenderEvent>,
    {
        EventCell { slot: None }
    }

    /// Record one event: latest wins, except that a pending `Closed` is
    /// preserved. Returns whether the event was stored, which is false only
    /// when `Closed` already pends — the callback's cue that a `Configure`
    /// must not be acknowledged any more.
    pub fn record(&mut self, ev: RenderEvent) -> (accepted: bool)
        ensures
            final(self).pending() == record_spec(old(self).pending(), ev),
            accepted == (old(self).pending() != Some(RenderEvent::Closed)),
    {
        if matches!(self.slot, Some(RenderEvent::Closed)) {
            false
        } else {
            self.slot = Some(ev);
            true
        }
    }

    /// Read and clear: the render pass drains the mailbox each tick.
    pub fn take(&mut self) -> (r: Option<RenderEvent>)
        ensures
            r == old(self).pending(),
            final(self).pending() == None::<RenderEvent>,
    {
        let r = self.slot;
        self.slot = None;
        r
    }
}

/// Recording a concatenated history is recording the first part, then the
/// second.
pub proof fn lemma_recorded_after_concat(
    slot: Option<RenderEvent>,
    a: Seq<RenderEvent>,
    b: Seq<RenderEvent>,
)
    ensures
        recorded_after(slot, a + b) == recorded_after(recorded_after(slot, a), b),
    decreases a.len(),
{
    if a.len() == 0 {
        assert(a + b =~= b);
    } else {
        assert((a + b).skip(1) =~= a.skip(1) + b);
        assert((a + b)[0] == a[0]);
        lemma_recorded_after_concat(record_spec(slot, a[0]), a.skip(1), b);
    }
}

/// `Closed` is terminal: once the mailbox holds it, no sequence of later
/// events changes it.
pub proof fn lemma_closed_terminal(evs: Seq<RenderEvent>)
    ensures
        recorded_after(Some(RenderEvent::Closed), evs) == Some(RenderEvent::Closed),
    decreases evs.len(),
{
    if evs.len() > 0 {
        lemma_closed_terminal(evs.skip(1));
    }
}

/// Helper for the drain law below, generalized over the starting slot.
proof fn lemma_closed_pends_iff_closed_arrived_from(
    slot: Option<RenderEvent>,
    evs: Seq<RenderEvent>,
)
    requires
        slot != Some(RenderEvent::Closed),
    ensures
        recorded_after(slot, evs) == Some(RenderEvent::Closed) <==> (exists|i: int|
            0 <= i < evs.len() && evs[i] == RenderEvent::Closed),
    decreases evs.len(),
{
    if evs.len() > 0 {
        if evs[0] == RenderEvent::Closed {
            lemma_closed_terminal(evs.skip(1));
        } else {
            lemma_closed_pends_iff_closed_arrived_from(Some(evs[0]), evs.skip(1));
            assert forall|i: int| 0 <= i < evs.len() && evs[i] == RenderEvent::Closed implies
                exists|j: int| 0 <= j < evs.skip(1).len() && evs.skip(1)[j]
                == RenderEvent::Closed by {
                assert(evs.skip(1)[i - 1] == evs[i]);
            }
            assert forall|j: int|
                0 <= j < evs.skip(1).len() && evs.skip(1)[j] == RenderEvent::Closed implies
                exists|i: int| 0 <= i < evs.len() && evs[i] == RenderEvent::Closed by {
                assert(evs[j + 1] == evs.skip(1)[j]);
            }
        }
    }
}

/// What draining the mailbox reports: starting from an empty slot, the
/// pending event is `Closed` — and with it the tick's "drop this surface"
/// answer is true — exactly when some recorded event of the history was
/// `Closed`, however many Configures came before or after it.
pub proof fn lemma_closed_pends_iff_closed_arrived(evs: Seq<RenderEvent>)
    ensures
        recorded_after(None::<RenderEvent>, evs) == Some(RenderEvent::Closed) <==> (exists|i: int|
            0 <= i < evs.len() && evs[i] == RenderEvent::Closed),
{
    lemma_closed_pends_iff_closed_arrived_from(None, evs);
}

/// For every history of recorded events: once `Closed` has been recorded,
/// no later events — `Configure` included — ever overturn it.
pub proof fn lemma_closed_never_overturned(
    slot: Option<RenderEvent>,
    a: Seq<RenderEvent>,
    b: Seq<RenderEvent>,
)
    requires
        recorded_after(slot, a) == Some(RenderEvent::Closed),
    ensures
        recorded_after(slot, a + b) == Some(RenderEvent::Closed),
{
    lemma_recorded_after_concat(slot, a, b);
    lemma_closed_terminal(b);
}

} // verus!
