use vstd::prelude::*;
use crate::events::{EventKind, dispatches_of, quit_after};
use crate::init::{InitStage, first_failure_at, init_succeeds, stage_at, stage_ok};
use crate::window::{AcquirePlan, FrameModel, Phase, RenderPlan};

verus! {

/// When the display subsystem cannot start, every start-up attempt fails, and
/// its error names the display step as the first failure: no window state is
/// handed out, whatever the later steps did.
pub proof fn lemma_no_display_never_starts(attempts: Seq<Seq<bool>>)
    requires
        forall|k: int| 0 <= k < attempts.len() ==> !stage_ok(#[trigger] attempts[k], 0),
    ensures
        forall|k: int| 0 <= k < attempts.len() ==> !init_succeeds(#[trigger] attempts[k]),
        forall|k: int, i: int|
            0 <= k < attempts.len() && #[trigger] first_failure_at(attempts[k], i) ==> i == 0,
        forall|k: int| 0 <= k < attempts.len() ==> first_failure_at(#[trigger] attempts[k], 0),
        stage_at(0) == InitStage::Display,
{
    assert forall|k: int, i: int|
        0 <= k < attempts.len() && #[trigger] first_failure_at(attempts[k], i) implies i == 0 by {
        if i > 0 {
            assert(stage_ok(attempts[k], 0));
        }
    }
}

/// A close request never reaches the caller's handler; every other event does.
pub proof fn lemma_close_kept_from_handler(events: Seq<EventKind>)
    ensures
        dispatches_of(events).len() == events.len(),
        forall|i: int| 0 <= i < events.len() ==>
            (#[trigger] dispatches_of(events)[i].reaches_handler() <==> events[i] != EventKind::Quit),
{
}

/// The quit flag is set exactly when a close request is polled, and once set it
/// stays set through every later poll; two polls act as one poll of both batches.
pub proof fn lemma_quit_flag_is_sticky(m: FrameModel, a: Seq<EventKind>, b: Seq<EventKind>)
    ensures
        !m.should_quit ==> (m.polled(a).should_quit <==> exists|i: int|
            0 <= i < a.len() && a[i] == EventKind::Quit),
        m.should_quit ==> m.polled(a).should_quit,
        m.polled(a).polled(b).should_quit == quit_after(m.should_quit, a + b),
{
    let ab = a + b;
    if quit_after(m.should_quit, ab) && !m.should_quit {
        let j = choose|j: int| 0 <= j < ab.len() && ab[j] == EventKind::Quit;
        if j < a.len() {
            assert(a[j] == ab[j]);
        } else {
            assert(b[j - a.len()] == ab[j]);
        }
    }
    if m.polled(a).polled(b).should_quit && !m.should_quit {
        if exists|i: int| 0 <= i < a.len() && a[i] == EventKind::Quit {
            let j = choose|j: int| 0 <= j < a.len() && a[j] == EventKind::Quit;
            assert(ab[j] == a[j]);
        } else {
            let j = choose|j: int| 0 <= j < b.len() && b[j] == EventKind::Quit;
            assert(ab[a.len() + j] == b[j]);
        }
    }
}

/// Frame state is computed only right after a poll in the same iteration, and
/// only while no overlay frame is open; otherwise the request changes nothing.
pub proof fn lemma_prepare_follows_poll(m: FrameModel, events: Seq<EventKind>)
    ensures
        m.phase != Phase::Polled ==> m.prepared() == m,
        m.rendered().prepared() == m.rendered(),
        !m.overlay_open ==> m.polled(events).may_prepare(),
        m.polled(events).prepared().prepared() == m.polled(events).prepared(),
{
}

/// An overlay frame acquired before the input layer ever computed frame state
/// is still valid: the plan computes that state first.
pub proof fn lemma_first_acquire_is_valid(events: Seq<EventKind>)
    ensures
        FrameModel::fresh().acquire_plan() == AcquirePlan::PrepareThenOpen,
        FrameModel::fresh().polled(events).acquire_plan() == AcquirePlan::PrepareThenOpen,
        FrameModel::fresh().polled(events).acquired().overlay_open,
        FrameModel::fresh().polled(events).acquired().ever_prepared,
{
}

/// Each step of the loop keeps the model well formed.
pub proof fn lemma_steps_keep_wf(m: FrameModel, events: Seq<EventKind>)
    requires
        m.wf(),
    ensures
        m.polled(events).wf(),
        m.prepared().wf(),
        m.acquired().wf(),
        m.rendered().wf(),
        FrameModel::fresh().wf(),
{
}

/// Every render presents exactly once and finalizes exactly once: the open
/// frame, else the last one again, else a fresh empty frame. No frame stays
/// open after it, and every frame started so far has been finalized once.
pub proof fn lemma_render_pairs_frames(m: FrameModel)
    requires
        m.wf(),
    ensures
        m.rendered().presented == m.presented + 1,
        !m.rendered().overlay_open,
        m.rendered().opened == m.rendered().closed,
        m.overlay_open ==> m.render_plan() == RenderPlan::Finalize
            && m.rendered().closed == m.closed + 1,
        !m.overlay_open ==> m.render_plan() != RenderPlan::Finalize,
        !m.overlay_open && m.ever_finalized ==> m.render_plan() == RenderPlan::RepeatPrevious
            && m.rendered().opened == m.opened,
        !m.overlay_open ==> m.acquired().rendered().opened == m.opened + 1
            && m.acquired().rendered().closed == m.closed + 1
            && m.acquired().rendered().presented == m.presented + 1,
{
}

/// The state after `n` full iterations: poll (no events), prepare, acquire, render.
pub open spec fn after_iterations(m: FrameModel, n: nat) -> FrameModel
    decreases n,
{
    if n == 0 {
        m
    } else {
        after_iterations(m, (n - 1) as nat).polled(Seq::empty()).prepared().acquired().rendered()
    }
}

/// Full iterations never leave an overlay frame open: after any number of them
/// the loop is idle, one frame was presented per iteration, and each was
/// started and finalized once.
pub proof fn lemma_iterations_leave_no_open_frame(m: FrameModel, n: nat)
    requires
        m.wf(),
        !m.overlay_open,
    ensures
        after_iterations(m, n).wf(),
        !after_iterations(m, n).overlay_open,
        after_iterations(m, n).presented == m.presented + n,
        after_iterations(m, n).opened == m.opened + n,
        after_iterations(m, n).closed == m.closed + n,
        after_iterations(m, n).should_quit == m.should_quit,
        n > 0 ==> after_iterations(m, n).phase == Phase::Idle,
    decreases n,
{
    if n > 0 {
        lemma_iterations_leave_no_open_frame(m, (n - 1) as nat);
        let p = after_iterations(m, (n - 1) as nat);
        assert(quit_after(p.should_quit, Seq::<EventKind>::empty()) == p.should_quit);
    }
}

} // verus!
