use vstd::prelude::*;
use crate::events::{Dispatch, EventKind, dispatches_of, quit_after, route_events};
use crate::init::{InitError, first_failure, first_failure_at, init_succeeds, stage_at, stage_of, INIT_STAGES};

verus! {

/// Where the current iteration of the loop stands.
#[derive(Clone, Copy, Debug, PartialEq, Eq, Structural)]
pub enum Phase {
    /// Nothing done since the last render (or since start-up).
    Idle,
    /// Events were polled in this iteration.
    Polled,
    /// The input layer computed this frame's derived state.
    Prepared,
}

/// What the caller does to obtain the overlay frame.
#[derive(Clone, Copy, Debug, PartialEq, Eq, Structural)]
pub enum AcquirePlan {
    /// A frame is open already: hand out that one.
    Reuse,
    /// Start a new overlay frame.
    Open,
    /// The input layer never computed frame state: do so first, then start a new frame.
    PrepareThenOpen,
}

/// What the caller does to finish the iteration. Each plan ends in exactly one
/// finalize of the overlay frame followed by one clear, submit and present.
#[derive(Clone, Copy, Debug, PartialEq, Eq, Structural)]
pub enum RenderPlan {
    /// Finalize the open frame.
    Finalize,
    /// No frame is open: finalize the last frame again.
    RepeatPrevious,
    /// No frame was ever finalized: open an empty one (after preparing the
    /// input layer if `prepare_first`), then finalize it.
    EmptyFrame { prepare_first: bool },
}

/// A misuse of the loop order that the window refuses.
#[derive(Clone, Copy, Debug, PartialEq, Eq, Structural)]
pub enum FrameError {
    /// Frame state is computed once per iteration, after the events are polled.
    EventsNotPolled,
    /// Frame state cannot be computed while an overlay frame is being built.
    FrameOpen,
}

/// The abstract state of the frame loop.
pub struct FrameModel {
    /// The quit flag.
    pub should_quit: bool,
    pub phase: Phase,
    pub overlay_open: bool,
    pub ever_prepared: bool,
    pub ever_finalized: bool,
    /// Overlay frames started so far.
    pub opened: nat,
    /// Started overlay frames finalized so far.
    pub closed: nat,
    /// Frames presented so far.
    pub presented: nat,
}

impl FrameModel {
    /// Every started frame is finalized once, the open one excepted; a frame
    /// was presented exactly when one was finalized.
    pub open spec fn wf(self) -> bool {
        &&& self.opened == self.closed + (if self.overlay_open { 1nat } else { 0nat })
        &&& self.closed <= self.presented
        &&& (self.ever_finalized <==> self.presented > 0)
        &&& (self.opened > 0 ==> self.ever_prepared)
    }

    pub open spec fn fresh() -> FrameModel {
        FrameModel {
            should_quit: false,
            phase: Phase::Idle,
            overlay_open: false,
            ever_prepared: false,
            ever_finalized: false,
            opened: 0,
            closed: 0,
            presented: 0,
        }
    }

    /// After polling a batch of events.
    pub open spec fn polled(self, events: Seq<EventKind>) -> FrameModel {
        FrameModel { should_quit: quit_after(self.should_quit, events), phase: Phase::Polled, ..self }
    }

    pub open spec fn may_prepare(self) -> bool {
        self.phase == Phase::Polled && !self.overlay_open
    }

    /// After a request to compute frame state; unchanged when refused.
    pub open spec fn prepared(self) -> FrameModel {
        if self.may_prepare() {
            FrameModel { phase: Phase::Prepared, ever_prepared: true, ..self }
        } else {
            self
        }
    }

    pub open spec fn acquire_plan(self) -> AcquirePlan {
        if self.overlay_open {
            AcquirePlan::Reuse
        } else if !self.ever_prepared {
            AcquirePlan::PrepareThenOpen
        } else {
            AcquirePlan::Open
        }
    }

    /// After acquiring the overlay frame.
    pub open spec fn acquired(self) -> FrameModel {
        if self.overlay_open {
            self
        } else {
            FrameModel { overlay_open: true, ever_prepared: true, opened: self.opened + 1, ..self }
        }
    }

    pub open spec fn render_plan(self) -> RenderPlan {
        if self.overlay_open {
            RenderPlan::Finalize
        } else if self.ever_finalized {
            RenderPlan::RepeatPrevious
        } else {
            RenderPlan::EmptyFrame { prepare_first: !self.ever_prepared }
        }
    }

    /// After rendering and presenting.
    pub open spec fn rendered(self) -> FrameModel {
        let fresh_frame = !self.overlay_open && !self.ever_finalized;
        FrameModel {
            should_quit: self.should_quit,
            phase: Phase::Idle,
            overlay_open: false,
            ever_prepared: true,
            ever_finalized: true,
            opened: if fresh_frame { self.opened + 1 } else { self.opened },
            closed: if self.overlay_open || fresh_frame { self.closed + 1 } else { self.closed },
            presented: self.presented + 1,
        }
    }
}

/// The frame-loop state of the application window: poll, prepare, acquire, render.
pub struct Window {
    /// Set once a close request was polled. Advisory: the driving loop reads it.
    pub should_quit: bool,
    phase: Phase,
    overlay_open: bool,
    ever_prepared: bool,
    ever_finalized: bool,
    opened: Ghost<nat>,
    closed: Ghost<nat>,
    presented: Ghost<nat>,
}

impl View for Window {
    type V = FrameModel;

    closed spec fn view(&self) -> FrameModel {
        FrameModel {
            should_quit: self.should_quit,
            phase: self.phase,
            overlay_open: self.overlay_open,
            ever_prepared: self.ever_prepared,
            ever_finalized: self.ever_finalized,
            opened: self.opened@,
            closed: self.closed@,
            presented: self.presented@,
        }
    }
}

impl Window {
    /// Decides start-up from the outcome of each step, in order (a step not
    /// tried counts as failed). A window comes out only when every step
    /// succeeded; otherwise the error names the first step that failed.
    pub fn init(outcomes: &Vec<bool>) -> (r: Result<Window, InitError>)
        ensures
            r is Ok <==> init_succeeds(outcomes@),
            r matches Ok(w) ==> w@ == FrameModel::fresh(),
            r matches Err(e) ==> exists|i: int|
                first_failure_at(outcomes@, i) && e.stage == stage_at(i),
    {
        let f = first_failure(outcomes);
        if f < INIT_STAGES {
            Err(InitError { stage: stage_of(f) })
        } else {
            Ok(Window {
                should_quit: false,
                phase: Phase::Idle,
                overlay_open: false,
                ever_prepared: false,
                ever_finalized: false,
                opened: Ghost(0),
                closed: Ghost(0),
                presented: Ghost(0),
            })
        }
    }

    /// Whether the driving loop goes on: until a close request was polled.
    pub fn keep_running(&self) -> (r: bool)
        ensures
            r == !self@.should_quit,
    {
        !self.should_quit
    }

    /// Takes a drained batch of events. Every event goes to the overlay; a close
    /// request sets the quit flag and is kept from the handler; every other
    /// event then goes to the handler. The result gives each event's route, in order.
    pub fn handle_events(&mut self, events: &Vec<EventKind>) -> (r: Vec<Dispatch>)
        ensures
            r@ == dispatches_of(events@),
            final(self)@ == old(self)@.polled(events@),
    {
        let (routes, q) = route_events(self.should_quit, events);
        self.should_quit = q;
        self.phase = Phase::Polled;
        routes
    }

    /// Begins a frame: allowed once per iteration, after the events are polled
    /// and before the overlay frame is acquired. On `Ok` the caller lets the
    /// input layer compute this frame's state.
    pub fn prepare_frame(&mut self) -> (r: Result<(), FrameError>)
        ensures
            r is Ok <==> old(self)@.may_prepare(),
            r matches Err(e) ==> (e == FrameError::FrameOpen <==> old(self)@.overlay_open),
            final(self)@ == old(self)@.prepared(),
    {
        if self.overlay_open {
            Err(FrameError::FrameOpen)
        } else if self.phase != Phase::Polled {
            Err(FrameError::EventsNotPolled)
        } else {
            self.phase = Phase::Prepared;
            self.ever_prepared = true;
            Ok(())
        }
    }

    /// Acquires the overlay frame that UI calls of this iteration go to.
    pub fn new_imgui_frame(&mut self) -> (r: AcquirePlan)
        ensures
            r == old(self)@.acquire_plan(),
            final(self)@ == old(self)@.acquired(),
    {
        if self.overlay_open {
            AcquirePlan::Reuse
        } else {
            let plan = if self.ever_prepared {
                AcquirePlan::Open
            } else {
                AcquirePlan::PrepareThenOpen
            };
            self.overlay_open = true;
            self.ever_prepared = true;
            self.opened = Ghost(self.opened@ + 1);
            plan
        }
    }

    /// Ends the iteration: finalize the overlay frame, clear, submit and present.
    /// The overlay frame handed out before is no longer valid afterwards.
    pub fn render(&mut self) -> (r: RenderPlan)
        ensures
            r == old(self)@.render_plan(),
            final(self)@ == old(self)@.rendered(),
    {
        let plan = if self.overlay_open {
            self.closed = Ghost(self.closed@ + 1);
            RenderPlan::Finalize
        } else if self.ever_finalized {
            RenderPlan::RepeatPrevious
        } else {
            let prepare_first = !self.ever_prepared;
            self.opened = Ghost(self.opened@ + 1);
            self.closed = Ghost(self.closed@ + 1);
            RenderPlan::EmptyFrame { prepare_first }
        };
        self.phase = Phase::Idle;
        self.overlay_open = false;
        self.ever_prepared = true;
        self.ever_finalized = true;
        self.presented = Ghost(self.presented@ + 1);
        plan
    }
}

} // verus!
