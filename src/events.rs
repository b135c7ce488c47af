use vstd::prelude::*;

verus! {

/// What the frame loop needs to know of an input event.
#[derive(Clone, Copy, Debug, PartialEq, Eq, Structural)]
pub enum EventKind {
    /// The user asked to close the window.
    Quit,
    /// Any other event (keyboard, mouse, window change, ...).
    Other,
}

/// Where one polled event goes.
#[derive(Clone, Copy, Debug, PartialEq, Eq, Structural)]
pub enum Dispatch {
    /// To the overlay's input layer only.
    OverlayOnly,
    /// To the overlay's input layer, then to the caller's handler.
    OverlayAndHandler,
}

impl Dispatch {
    /// Whether the caller's handler receives the event.
    pub open spec fn reaches_handler(self) -> bool {
        self is OverlayAndHandler
    }
}

/// Every event reaches the overlay; only a close request is kept from the handler.
pub open spec fn dispatch_of(e: EventKind) -> Dispatch {
    match e {
        EventKind::Quit => Dispatch::OverlayOnly,
        EventKind::Other => Dispatch::OverlayAndHandler,
    }
}

/// The routing of a whole batch, in the order the events were polled.
pub open spec fn dispatches_of(events: Seq<EventKind>) -> Seq<Dispatch> {
    events.map_values(|e: EventKind| dispatch_of(e))
}

/// The quit flag after a batch: set when it was set, or when the batch holds a close request.
pub open spec fn quit_after(quit: bool, events: Seq<EventKind>) -> bool {
    quit || exists|i: int| 0 <= i < events.len() && events[i] == EventKind::Quit
}

/// Routes one event.
pub fn route_event(e: EventKind) -> (r: Dispatch)
    ensures
        r == dispatch_of(e),
{
    match e {
        EventKind::Quit => Dispatch::OverlayOnly,
        EventKind::Other => Dispatch::OverlayAndHandler,
    }
}

/// Routes a batch of polled events in order, and returns the quit flag after it.
pub fn route_events(quit: bool, events: &Vec<EventKind>) -> (r: (Vec<Dispatch>, bool))
    ensures
        r.0@ == dispatches_of(events@),
        r.1 == quit_after(quit, events@),
{
    let mut out: Vec<Dispatch> = Vec::new();
    let mut q = quit;
    let mut i: usize = 0;
    while i < events.len()
        invariant
            i <= events@.len(),
            out@ == dispatches_of(events@.take(i as int)),
            q == quit_after(quit, events@.take(i as int)),
        decreases events@.len() - i,
    {
        let e = events[i];
        out.push(route_event(e));
        if e == EventKind::Quit {
            q = true;
        }
        proof {
            let prev = events@.take(i as int);
            let next = events@.take(i as int + 1);
            assert(next == prev.push(e));
            assert(next[i as int] == e);
            if q && !quit_after(quit, prev) {
                assert(next[i as int] == EventKind::Quit);
            }
            if quit_after(quit, next) && !quit {
                let j = choose|j: int| 0 <= j < next.len() && next[j] == EventKind::Quit;
                if j < i {
                    assert(prev[j] == next[j]);
                }
            }
        }
        i = i + 1;
    }
    assert(events@.take(events@.len() as int) == events@);
    (out, q)
}

} // verus!
