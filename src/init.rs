use vstd::prelude::*;

verus! {

/// The steps of start-up, in the order they are taken. Each needs the ones before it.
#[derive(Clone, Copy, Debug, PartialEq, Eq, Structural)]
pub enum InitStage {
    /// The display subsystem and its video part.
    Display,
    /// The window with a GPU-capable surface.
    Surface,
    /// The GPU context, created and made current.
    GpuContext,
    /// The overlay's renderer on that context.
    Renderer,
    /// The source of input events.
    EventSource,
}

/// Number of start-up steps.
pub const INIT_STAGES: usize = 5;

/// Start-up failed at the given step; no window state is handed out.
#[derive(Clone, Copy, Debug, PartialEq, Eq, Structural)]
pub struct InitError {
    pub stage: InitStage,
}

/// The step at a position of the start-up order.
pub open spec fn stage_at(i: int) -> InitStage {
    if i <= 0 {
        InitStage::Display
    } else if i == 1 {
        InitStage::Surface
    } else if i == 2 {
        InitStage::GpuContext
    } else if i == 3 {
        InitStage::Renderer
    } else {
        InitStage::EventSource
    }
}

/// Whether the step at position `i` succeeded; a step never tried did not.
pub open spec fn stage_ok(outcomes: Seq<bool>, i: int) -> bool {
    i < outcomes.len() && outcomes[i]
}

/// Whether every step succeeded.
pub open spec fn init_succeeds(outcomes: Seq<bool>) -> bool {
    forall|i: int| 0 <= i < INIT_STAGES ==> stage_ok(outcomes, i)
}

/// Whether the step at position `i` is the first that did not succeed.
pub open spec fn first_failure_at(outcomes: Seq<bool>, i: int) -> bool {
    &&& 0 <= i < INIT_STAGES
    &&& !stage_ok(outcomes, i)
    &&& forall|j: int| 0 <= j < i ==> stage_ok(outcomes, j)
}

/// The position of the first step that did not succeed, or `INIT_STAGES` when all did.
pub fn first_failure(outcomes: &Vec<bool>) -> (r: usize)
    ensures
        r <= INIT_STAGES,
        r == INIT_STAGES <==> init_succeeds(outcomes@),
        r < INIT_STAGES ==> first_failure_at(outcomes@, r as int),
{
    let mut i: usize = 0;
    while i < INIT_STAGES
        invariant
            i <= INIT_STAGES,
            forall|j: int| 0 <= j < i ==> stage_ok(outcomes@, j),
        decreases INIT_STAGES - i,
    {
        if i >= outcomes.len() || !outcomes[i] {
            assert(!stage_ok(outcomes@, i as int));
            return i;
        }
        i = i + 1;
    }
    i
}

/// The step at position `i` of the start-up order.
pub fn stage_of(i: usize) -> (r: InitStage)
    requires
        i < INIT_STAGES,
    ensures
        r == stage_at(i as int),
{
    if i == 0 {
        InitStage::Display
    } else if i == 1 {
        InitStage::Surface
    } else if i == 2 {
        InitStage::GpuContext
    } else if i == 3 {
        InitStage::Renderer
    } else {
        InitStage::EventSource
    }
}

} // verus!
