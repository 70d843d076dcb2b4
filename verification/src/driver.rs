//! The order in which the runtime is started and the payload is executed.

use vstd::prelude::*;
use crate::status::HostError;

verus! {

/// The version of the runtime that is asked for.
pub const RUNTIME_VERSION: &'static str = "v4.0.30319";

/// The number of steps of an execution.
pub const STEPS: usize = 14;

/// The steps of an execution, in their order.
#[derive(Clone, Copy, Debug, PartialEq, Eq, Structural)]
pub enum DriverStep {
    LocateRuntimes,
    SelectRuntime,
    AcquireRuntimeHost,
    InstallHostControl,
    StartRuntime,
    AcquireClassicHost,
    DefaultDomain,
    QueryDomain,
    MarshalPayload,
    LoadPayload,
    ResolveEntryPoint,
    MarshalArguments,
    InvokeEntryPoint,
    ReleaseArrays,
}

/// Where an execution stands.
#[derive(Clone, Copy, Debug, PartialEq, Eq, Structural)]
pub enum DriverState {
    /// This step is to be performed next.
    Pending(DriverStep),
    /// Every step succeeded.
    Completed,
    /// A step failed with this error, and nothing was done after it.
    Failed(HostError),
}

/// The position of a step in the order of the execution, from zero.
pub open spec fn spec_position(step: DriverStep) -> nat {
    match step {
        DriverStep::LocateRuntimes => 0,
        DriverStep::SelectRuntime => 1,
        DriverStep::AcquireRuntimeHost => 2,
        DriverStep::InstallHostControl => 3,
        DriverStep::StartRuntime => 4,
        DriverStep::AcquireClassicHost => 5,
        DriverStep::DefaultDomain => 6,
        DriverStep::QueryDomain => 7,
        DriverStep::MarshalPayload => 8,
        DriverStep::LoadPayload => 9,
        DriverStep::ResolveEntryPoint => 10,
        DriverStep::MarshalArguments => 11,
        DriverStep::InvokeEntryPoint => 12,
        DriverStep::ReleaseArrays => 13,
    }
}

/// The state after a step succeeded: the step that follows is pending, or the
/// execution is complete after the last step.
pub open spec fn spec_successor(step: DriverStep) -> DriverState {
    match step {
        DriverStep::LocateRuntimes => DriverState::Pending(DriverStep::SelectRuntime),
        DriverStep::SelectRuntime => DriverState::Pending(DriverStep::AcquireRuntimeHost),
        DriverStep::AcquireRuntimeHost => DriverState::Pending(DriverStep::InstallHostControl),
        DriverStep::InstallHostControl => DriverState::Pending(DriverStep::StartRuntime),
        DriverStep::StartRuntime => DriverState::Pending(DriverStep::AcquireClassicHost),
        DriverStep::AcquireClassicHost => DriverState::Pending(DriverStep::DefaultDomain),
        DriverStep::DefaultDomain => DriverState::Pending(DriverStep::QueryDomain),
        DriverStep::QueryDomain => DriverState::Pending(DriverStep::MarshalPayload),
        DriverStep::MarshalPayload => DriverState::Pending(DriverStep::LoadPayload),
        DriverStep::LoadPayload => DriverState::Pending(DriverStep::ResolveEntryPoint),
        DriverStep::ResolveEntryPoint => DriverState::Pending(DriverStep::MarshalArguments),
        DriverStep::MarshalArguments => DriverState::Pending(DriverStep::InvokeEntryPoint),
        DriverStep::InvokeEntryPoint => DriverState::Pending(DriverStep::ReleaseArrays),
        DriverStep::ReleaseArrays => DriverState::Completed,
    }
}

/// The state after the pending step ended with `outcome`. A state that is
/// complete or failed stays as it is.
pub open spec fn spec_advance(state: DriverState, outcome: Result<(), HostError>) -> DriverState {
    match state {
        DriverState::Pending(step) => match outcome {
            Ok(_) => spec_successor(step),
            Err(e) => DriverState::Failed(e),
        },
        _ => state,
    }
}

/// The state after the steps ended with `outcomes`, one after the other.
pub open spec fn spec_run(state: DriverState, outcomes: Seq<Result<(), HostError>>) -> DriverState
    decreases outcomes.len(),
{
    if outcomes.len() == 0 {
        state
    } else {
        spec_run(spec_advance(state, outcomes[0]), outcomes.drop_first())
    }
}

/// The state in which an execution starts.
pub fn start() -> (state: DriverState)
    ensures
        state == DriverState::Pending(DriverStep::LocateRuntimes),
{
    DriverState::Pending(DriverStep::LocateRuntimes)
}

/// The state after a step succeeded.
pub fn successor(step: DriverStep) -> (state: DriverState)
    ensures
        state == spec_successor(step),
{
    match step {
        DriverStep::LocateRuntimes => DriverState::Pending(DriverStep::SelectRuntime),
        DriverStep::SelectRuntime => DriverState::Pending(DriverStep::AcquireRuntimeHost),
        DriverStep::AcquireRuntimeHost => DriverState::Pending(DriverStep::InstallHostControl),
        DriverStep::InstallHostControl => DriverState::Pending(DriverStep::StartRuntime),
        DriverStep::StartRuntime => DriverState::Pending(DriverStep::AcquireClassicHost),
        DriverStep::AcquireClassicHost => DriverState::Pending(DriverStep::DefaultDomain),
        DriverStep::DefaultDomain => DriverState::Pending(DriverStep::QueryDomain),
        DriverStep::QueryDomain => DriverState::Pending(DriverStep::MarshalPayload),
        DriverStep::MarshalPayload => DriverState::Pending(DriverStep::LoadPayload),
        DriverStep::LoadPayload => DriverState::Pending(DriverStep::ResolveEntryPoint),
        DriverStep::ResolveEntryPoint => DriverState::Pending(DriverStep::MarshalArguments),
        DriverStep::MarshalArguments => DriverState::Pending(DriverStep::InvokeEntryPoint),
        DriverStep::InvokeEntryPoint => DriverState::Pending(DriverStep::ReleaseArrays),
        DriverStep::ReleaseArrays => DriverState::Completed,
    }
}

/// The state after the pending step ended with `outcome`: the first failure
/// ends the execution, and nothing follows a state that is complete or failed.
pub fn advance(state: DriverState, outcome: Result<(), HostError>) -> (next: DriverState)
    ensures
        next == spec_advance(state, outcome),
{
    match state {
        DriverState::Pending(step) => match outcome {
            Ok(_) => successor(step),
            Err(e) => DriverState::Failed(e),
        },
        DriverState::Completed => DriverState::Completed,
        DriverState::Failed(e) => DriverState::Failed(e),
    }
}

/// Whether the tracked allocation may be scrubbed: only once the execution
/// is complete.
pub fn may_scrub(state: DriverState) -> (b: bool)
    ensures
        b == (state == DriverState::Completed),
{
    match state {
        DriverState::Completed => true,
        _ => false,
    }
}

/// Each successful step leads to the step at the next position, and the last
/// one to completion.
pub proof fn lemma_successor_order(step: DriverStep)
    ensures
        spec_position(step) < STEPS,
        spec_position(step) + 1 < STEPS ==> (spec_successor(step) matches DriverState::Pending(
            next,
        ) && spec_position(next) == spec_position(step) + 1),
        spec_position(step) + 1 == STEPS <==> spec_successor(step) == DriverState::Completed,
{
}

/// A state that is complete or failed is final: whatever outcomes follow, it
/// stays as it is.
pub proof fn lemma_final_states(state: DriverState, outcomes: Seq<Result<(), HostError>>)
    requires
        !(state is Pending),
    ensures
        spec_run(state, outcomes) == state,
    decreases outcomes.len(),
{
    if outcomes.len() > 0 {
        lemma_final_states(state, outcomes.drop_first());
    }
}

/// The first failure is what the execution ends with: if the outcomes before
/// position `i` are successes, fewer than the steps that remain, and the
/// outcome at `i` is a failure, the run ends as failed with that error.
pub proof fn lemma_first_failure(
    step: DriverStep,
    outcomes: Seq<Result<(), HostError>>,
    i: int,
)
    requires
        0 <= i < outcomes.len(),
        spec_position(step) + i < STEPS,
        forall|j: int| 0 <= j < i ==> (#[trigger] outcomes[j]) is Ok,
        outcomes[i] is Err,
    ensures
        spec_run(DriverState::Pending(step), outcomes) == DriverState::Failed(
            outcomes[i]->Err_0,
        ),
    decreases i,
{
    let rest = outcomes.drop_first();
    if i == 0 {
        lemma_final_states(DriverState::Failed(outcomes[0]->Err_0), rest);
    } else {
        lemma_successor_order(step);
        let next = spec_successor(step)->Pending_0;
        assert forall|j: int| 0 <= j < i - 1 implies (#[trigger] rest[j]) is Ok by {
            assert(rest[j] == outcomes[j + 1]);
        }
        lemma_first_failure(next, rest, i - 1);
    }
}

/// An execution is all or nothing: from the start it is complete exactly
/// when each of its steps succeeded.
pub proof fn lemma_all_or_nothing(step: DriverStep, outcomes: Seq<Result<(), HostError>>)
    requires
        outcomes.len() == STEPS - spec_position(step),
    ensures
        spec_run(DriverState::Pending(step), outcomes) == DriverState::Completed <==> forall|
            j: int,
        |
            0 <= j < outcomes.len() ==> (#[trigger] outcomes[j]) is Ok,
    decreases outcomes.len(),
{
    lemma_successor_order(step);
    let rest = outcomes.drop_first();
    match outcomes[0] {
        Ok(_) => {
            if spec_position(step) + 1 == STEPS {
                assert(rest.len() == 0);
                assert(spec_run(DriverState::Completed, rest) == DriverState::Completed);
            } else {
                let next = spec_successor(step)->Pending_0;
                lemma_all_or_nothing(next, rest);
                if forall|j: int| 0 <= j < rest.len() ==> (#[trigger] rest[j]) is Ok {
                    assert forall|j: int| 0 <= j < outcomes.len() implies (
                    #[trigger] outcomes[j]) is Ok by {
                        if j > 0 {
                            assert(outcomes[j] == rest[j - 1]);
                        }
                    }
                } else {
                    let k = choose|k: int| 0 <= k < rest.len() && !((#[trigger] rest[k]) is Ok);
                    assert(outcomes[k + 1] == rest[k]);
                }
            }
        },
        Err(e) => {
            lemma_final_states(DriverState::Failed(e), rest);
        },
    }
}

} // verus!
