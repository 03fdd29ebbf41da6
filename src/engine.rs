//! The order in which engine construction runs, and how a failure ends it.
use vstd::prelude::*;

use crate::errors::EngineError;

verus! {

/// The step of engine construction to perform next, or its end.
#[derive(Clone, Copy, Debug, PartialEq, Eq, Structural)]
pub enum Stage {
    CreateInstance,
    CreateSurface,
    SelectDevice,
    OpenDevice,
    BuildSwapchain,
    Ready,
    Failed(EngineError),
}

/// How the step just performed went.
#[derive(Clone, Copy, Debug, PartialEq, Eq, Structural)]
pub enum StepOutcome {
    Succeeded,
    Failed(EngineError),
}

/// Construction has ended, either complete or aborted.
pub open spec fn is_terminal(s: Stage) -> bool {
    s is Ready || s is Failed
}

/// The stage after `s` when its step succeeds.
pub open spec fn successor(s: Stage) -> Stage {
    match s {
        Stage::CreateInstance => Stage::CreateSurface,
        Stage::CreateSurface => Stage::SelectDevice,
        Stage::SelectDevice => Stage::OpenDevice,
        Stage::OpenDevice => Stage::BuildSwapchain,
        Stage::BuildSwapchain => Stage::Ready,
        _ => s,
    }
}

/// One transition: a terminal stage stays; a success moves on; a failure
/// aborts with its error.
pub open spec fn step(s: Stage, o: StepOutcome) -> Stage {
    if is_terminal(s) {
        s
    } else {
        match o {
            StepOutcome::Succeeded => successor(s),
            StepOutcome::Failed(e) => Stage::Failed(e),
        }
    }
}

/// The stage reached from `s` after the outcomes `outs`, in order.
pub open spec fn run(s: Stage, outs: Seq<StepOutcome>) -> Stage
    decreases outs.len(),
{
    if outs.len() == 0 {
        s
    } else {
        run(step(s, outs[0]), outs.drop_first())
    }
}

/// The stage that follows `stage` once its step has had `outcome`.
pub fn next_stage(stage: Stage, outcome: StepOutcome) -> (r: Stage)
    ensures
        r == step(stage, outcome),
        is_terminal(stage) ==> r == stage,
        !is_terminal(stage) && outcome is Succeeded ==> r == successor(stage),
        !is_terminal(stage) ==> (outcome matches StepOutcome::Failed(e) ==> r == Stage::Failed(e)),
{
    match stage {
        Stage::Ready | Stage::Failed(_) => stage,
        _ => match outcome {
            StepOutcome::Succeeded => match stage {
                Stage::CreateInstance => Stage::CreateSurface,
                Stage::CreateSurface => Stage::SelectDevice,
                Stage::SelectDevice => Stage::OpenDevice,
                Stage::OpenDevice => Stage::BuildSwapchain,
                _ => Stage::Ready,
            },
            StepOutcome::Failed(e) => Stage::Failed(e),
        },
    }
}

/// Once construction has failed, no later outcome resumes it.
pub proof fn lemma_failure_is_final(e: EngineError, outs: Seq<StepOutcome>)
    ensures
        run(Stage::Failed(e), outs) == Stage::Failed(e),
    decreases outs.len(),
{
    if outs.len() > 0 {
        lemma_failure_is_final(e, outs.drop_first());
    }
}

/// When opening the logical device fails, construction ends with that
/// error and never reaches the step that builds the presentation chain.
pub proof fn lemma_no_swapchain_after_device_failure(
    e: crate::errors::DeviceCreationError,
    outs: Seq<StepOutcome>,
)
    ensures
        forall|k: int|
            0 <= k <= outs.len() ==> #[trigger] run(
                step(Stage::OpenDevice, StepOutcome::Failed(EngineError::DeviceCreation(e))),
                outs.take(k),
            ) == Stage::Failed(EngineError::DeviceCreation(e)),
{
    assert forall|k: int| 0 <= k <= outs.len() implies #[trigger] run(
        step(Stage::OpenDevice, StepOutcome::Failed(EngineError::DeviceCreation(e))),
        outs.take(k),
    ) == Stage::Failed(EngineError::DeviceCreation(e)) by {
        lemma_failure_is_final(EngineError::DeviceCreation(e), outs.take(k));
    }
}

/// Construction is all or nothing: it is complete only after each of its
/// five steps has succeeded, in order.
pub proof fn lemma_ready_only_after_all_steps(outs: Seq<StepOutcome>)
    requires
        run(Stage::CreateInstance, outs) == Stage::Ready,
    ensures
        outs.len() >= 5,
        forall|k: int| 0 <= k < 5 ==> #[trigger] outs[k] is Succeeded,
{
    reveal_with_fuel(run, 6);
    assert(outs.len() >= 1);
    if let StepOutcome::Failed(e) = outs[0] {
        lemma_failure_is_final(e, outs.drop_first());
    }
    let o1 = outs.drop_first();
    assert(o1.len() >= 1);
    if let StepOutcome::Failed(e) = o1[0] {
        lemma_failure_is_final(e, o1.drop_first());
    }
    let o2 = o1.drop_first();
    assert(o2.len() >= 1);
    if let StepOutcome::Failed(e) = o2[0] {
        lemma_failure_is_final(e, o2.drop_first());
    }
    let o3 = o2.drop_first();
    assert(o3.len() >= 1);
    if let StepOutcome::Failed(e) = o3[0] {
        lemma_failure_is_final(e, o3.drop_first());
    }
    let o4 = o3.drop_first();
    assert(o4.len() >= 1);
    if let StepOutcome::Failed(e) = o4[0] {
        lemma_failure_is_final(e, o4.drop_first());
    }
    assert(outs[1] == o1[0]);
    assert(outs[2] == o2[0]);
    assert(outs[3] == o3[0]);
    assert(outs[4] == o4[0]);
}

} // verus!
