//! What the calls of a host do to the worker behind the bridge, and what they answer.

use super::abi::BridgeOutput;
use super::abi_laws::{lemma_tells, lemma_word, tells_error, tells_success};
use super::config::BridgeInitMode;
use super::config_laws::kind_of;
use super::operation_laws::{is_handed_over, lemma_tells_operation, tells_operation};
use super::operations::OperationState;
use super::state::{
    ensure_supports_activities, ensure_supports_workflows, initialized_worker, read_string,
    utf8_error_text, Bridge, BridgeState, StartOutput,
};
use crate::text::decimal;
use vstd::prelude::*;
use vstd::utf8::{decode_utf8, valid_utf8};

verus! {

/// Nothing of the bridge changed.
pub open spec fn is_untouched<T, W, C, K, R>(
    before: Bridge<T, W, C, K, R>,
    after: Bridge<T, W, C, K, R>,
) -> bool {
    after.state == before.state && after.transport == before.transport
}

/// The bridge has neither a worker nor requests, and goes on with the request ids.
pub open spec fn is_cleared<T, W, C, K, R>(
    before: Bridge<T, W, C, K, R>,
    after: Bridge<T, W, C, K, R>,
) -> bool {
    &&& after.state is None
    &&& after.transport@.queue.len() == 0
    &&& after.transport@.queued_bytes == 0
    &&& forall|id: u64| !#[trigger] after.transport@.responders.contains_key(id)
    &&& after.transport@.next_id == before.transport@.next_id
}

/// The call failed with this text, and starts nothing.
pub open spec fn starts_nothing(res: StartOutput, capacity: usize, text: Seq<char>) -> bool {
    !res.started && tells_error(res.output.word, res.output.bytes@, capacity as int, text)
}

/// A new bridge is empty, and resetting one empties it.
pub proof fn law_bridges_start_empty<T, W, C, K, R>(
    fresh: Bridge<T, W, C, K, R>,
    bridge: &mut Bridge<T, W, C, K, R>,
)
    requires
        call_ensures(Bridge::<T, W, C, K, R>::new, (), fresh),
        call_ensures(Bridge::<T, W, C, K, R>::reset_bridge_state, (bridge,), ()),
    ensures
        fresh.state is None,
        fresh.transport@.queue.len() == 0,
        fresh.transport@.next_id == 0,
        forall|id: u64| !#[trigger] fresh.transport@.responders.contains_key(id),
        is_cleared(*old(bridge), *final(bridge)),
{
}

/// String parameters are taken as the text that they encode, and refused if they encode none.
pub proof fn law_strings_are_read(bytes: Vec<u8>, res: Result<String, String>)
    requires
        call_ensures(read_string, (bytes,), res),
    ensures
        res is Ok <==> valid_utf8(bytes@),
        res matches Ok(text) ==> text@ == decode_utf8(bytes@),
        res matches Err(error) ==> error@ == "bridge string parameter is not UTF-8: "@
            + utf8_error_text(bytes@),
{
}

/// Activities are refused by a worker for workflows only, workflows by one for activities only, and a
/// worker is there once it is made.
pub proof fn law_workers_are_asked_what_they_serve<T, W, C, K>(
    state: &BridgeState<T, W, C, K>,
    activities: Result<(), String>,
    workflows: Result<(), String>,
    worker: Result<&W, String>,
)
    requires
        call_ensures(ensure_supports_activities::<T, W, C, K>, (state,), activities),
        call_ensures(ensure_supports_workflows::<T, W, C, K>, (state,), workflows),
        call_ensures(initialized_worker::<T, W, C, K>, (state,), worker),
    ensures
        activities is Err <==> state.mode == BridgeInitMode::WorkflowOnly,
        activities matches Err(error) ==> error@ == "workflow"@ + " bridge does not support "@
            + "activity operations"@,
        workflows is Err <==> state.mode == BridgeInitMode::ActivityOnly,
        workflows matches Err(error) ==> error@ == "activity"@ + " bridge does not support "@
            + "workflow operations"@,
        worker is Ok <==> state.worker is Some,
        worker matches Ok(w) ==> state.worker == Some(*w),
        worker matches Err(error) ==> error@ == "Core worker initialization is not complete"@,
{
}

/// All of a worker but one part, which `part` names, is the same.
pub open spec fn same_but<T, W, C, K>(
    before: BridgeState<T, W, C, K>,
    after: BridgeState<T, W, C, K>,
    part: Part,
) -> bool {
    &&& after.mode == before.mode
    &&& after.runtime == before.runtime
    &&& after.worker == before.worker
    &&& after.worker_config == before.worker_config
    &&& part == Part::Connection || after.connection_result == before.connection_result
    &&& part == Part::Initialization || after.initialization_result == before.initialization_result
    &&& part == Part::WorkflowPoll || after.workflow_poll_result == before.workflow_poll_result
    &&& part == Part::WorkflowCompletions || after.workflow_completion_results
        == before.workflow_completion_results
    &&& part == Part::ActivityPoll || after.activity_poll_result == before.activity_poll_result
    &&& part == Part::ActivityCompletions || after.activity_completion_results
        == before.activity_completion_results
    &&& part == Part::Shutdown || after.shutdown_result == before.shutdown_result
}

/// The parts of a worker that calls change one at a time.
pub enum Part {
    Connection,
    Initialization,
    WorkflowPoll,
    WorkflowCompletions,
    ActivityPoll,
    ActivityCompletions,
    Shutdown,
}

/// Polling for an activity task is started exactly if it is not under way and the worker is there and serves it; it is under
/// way then. Otherwise the answer tells what is missing.
pub proof fn law_start_poll_activity<T, W, C, K, R>(
    bridge: &mut Bridge<T, W, C, K, R>,
    capacity: usize,
    res: StartOutput,
)
    requires
        call_ensures(Bridge::<T, W, C, K, R>::temporal_core_start_poll_activity, (bridge, capacity), res),
    ensures
        final(bridge).transport == old(bridge).transport,
        old(bridge).state is None ==> final(bridge).state is None && starts_nothing(
            res,
            capacity,
            "Core worker is not initialized"@,
        ),
        old(bridge).state matches Some(state) ==> {
            &&& state.mode == BridgeInitMode::WorkflowOnly ==> final(bridge).state == Some(state)
                && starts_nothing(
                res,
                capacity,
                "workflow"@ + " bridge does not support "@ + "activity operations"@,
            )
            &&& state.mode != BridgeInitMode::WorkflowOnly && !(state.activity_poll_result is Idle) ==> final(bridge).state == Some(
                state,
            ) && starts_nothing(res, capacity, "activity poll"@ + " is already in progress"@)
            &&& state.mode != BridgeInitMode::WorkflowOnly && state.activity_poll_result is Idle ==> {
                &&& final(bridge).state matches Some(after)
                &&& same_but(state, after, Part::ActivityPoll)
                &&& after.activity_poll_result is Pending
                &&& state.worker is Some ==> res.started && tells_success(
                    res.output.word,
                    res.output.bytes@,
                )
                &&& state.worker is None ==> starts_nothing(
                    res,
                    capacity,
                    "Core worker initialization is not complete"@,
                )
            }
        },
{
    lemma_tells(capacity, "Core worker is not initialized"@);
    lemma_tells(capacity, "Core worker initialization is not complete"@);
    lemma_tells(capacity, "activity poll"@ + " is already in progress"@);
    lemma_tells(capacity, "workflow"@ + " bridge does not support "@ + "activity operations"@);
    assert(res.output@.word == res.output.word && res.output@.bytes == res.output.bytes@);
}

/// Polling for a workflow activation is started exactly if it is not under way and the worker is there and serves it; it is under
/// way then. Otherwise the answer tells what is missing.
pub proof fn law_start_poll_workflow_activation<T, W, C, K, R>(
    bridge: &mut Bridge<T, W, C, K, R>,
    capacity: usize,
    res: StartOutput,
)
    requires
        call_ensures(Bridge::<T, W, C, K, R>::temporal_core_start_poll_workflow_activation, (bridge, capacity), res),
    ensures
        final(bridge).transport == old(bridge).transport,
        old(bridge).state is None ==> final(bridge).state is None && starts_nothing(
            res,
            capacity,
            "Core worker is not initialized"@,
        ),
        old(bridge).state matches Some(state) ==> {
            &&& state.mode == BridgeInitMode::ActivityOnly ==> final(bridge).state == Some(state)
                && starts_nothing(
                res,
                capacity,
                "activity"@ + " bridge does not support "@ + "workflow operations"@,
            )
            &&& state.mode != BridgeInitMode::ActivityOnly && !(state.workflow_poll_result is Idle) ==> final(bridge).state == Some(
                state,
            ) && starts_nothing(res, capacity, "workflow activation poll"@ + " is already in progress"@)
            &&& state.mode != BridgeInitMode::ActivityOnly && state.workflow_poll_result is Idle ==> {
                &&& final(bridge).state matches Some(after)
                &&& same_but(state, after, Part::WorkflowPoll)
                &&& after.workflow_poll_result is Pending
                &&& state.worker is Some ==> res.started && tells_success(
                    res.output.word,
                    res.output.bytes@,
                )
                &&& state.worker is None ==> starts_nothing(
                    res,
                    capacity,
                    "Core worker initialization is not complete"@,
                )
            }
        },
{
    lemma_tells(capacity, "Core worker is not initialized"@);
    lemma_tells(capacity, "Core worker initialization is not complete"@);
    lemma_tells(capacity, "workflow activation poll"@ + " is already in progress"@);
    lemma_tells(capacity, "activity"@ + " bridge does not support "@ + "workflow operations"@);
    assert(res.output@.word == res.output.word && res.output@.bytes == res.output.bytes@);
}

/// Shutting the worker down is started exactly if it is not under way and the worker is there and serves it; it is under
/// way then. Otherwise the answer tells what is missing.
pub proof fn law_start_shutdown<T, W, C, K, R>(
    bridge: &mut Bridge<T, W, C, K, R>,
    capacity: usize,
    res: StartOutput,
)
    requires
        call_ensures(Bridge::<T, W, C, K, R>::temporal_core_start_shutdown, (bridge, capacity), res),
    ensures
        final(bridge).transport == old(bridge).transport,
        old(bridge).state is None ==> final(bridge).state is None && starts_nothing(
            res,
            capacity,
            "Core worker is not initialized"@,
        ),
        old(bridge).state matches Some(state) ==> {
            &&& !(state.shutdown_result is Idle) ==> final(bridge).state == Some(
                state,
            ) && starts_nothing(res, capacity, "worker shutdown"@ + " is already in progress"@)
            &&& state.shutdown_result is Idle ==> {
                &&& final(bridge).state matches Some(after)
                &&& same_but(state, after, Part::Shutdown)
                &&& after.shutdown_result is Pending
                &&& state.worker is Some ==> res.started && tells_success(
                    res.output.word,
                    res.output.bytes@,
                )
                &&& state.worker is None ==> starts_nothing(
                    res,
                    capacity,
                    "Core worker initialization is not complete"@,
                )
            }
        },
{
    lemma_tells(capacity, "Core worker is not initialized"@);
    lemma_tells(capacity, "Core worker initialization is not complete"@);
    lemma_tells(capacity, "worker shutdown"@ + " is already in progress"@);
    assert(res.output@.word == res.output.word && res.output@.bytes == res.output.bytes@);
}

/// Taking the polled activity task tells where the poll stands; what is told whole is gone then.
pub proof fn law_take_poll_activity<T, W, C, K, R>(
    bridge: &mut Bridge<T, W, C, K, R>,
    capacity: usize,
    res: BridgeOutput,
)
    requires
        call_ensures(Bridge::<T, W, C, K, R>::temporal_core_take_poll_activity, (bridge, capacity), res),
    ensures
        final(bridge).transport == old(bridge).transport,
        old(bridge).state is None ==> final(bridge).state is None && tells_error(
            res.word,
            res.bytes@,
            capacity as int,
            "Core worker is not initialized"@,
        ),
        old(bridge).state matches Some(state) ==> {
            &&& tells_operation(
                res.word,
                res.bytes@,
                capacity as int,
                state.activity_poll_result,
                "operation has not been started"@,
            )
            &&& final(bridge).state matches Some(after)
            &&& same_but(state, after, Part::ActivityPoll)
            &&& is_handed_over(state.activity_poll_result, capacity as int) ==> after.activity_poll_result is Idle
            &&& !is_handed_over(state.activity_poll_result, capacity as int) ==> after.activity_poll_result
                == state.activity_poll_result
        },
{
    lemma_tells(capacity, "Core worker is not initialized"@);
    if let Some(state) = old(bridge).state {
        lemma_tells_operation(
            state.activity_poll_result,
            capacity as int,
            "operation has not been started"@,
            "operation has not been started"@,
        );
    }
    assert(res@.word == res.word && res@.bytes == res.bytes@);
}

/// Taking the polled workflow activation tells where the poll stands; what is told whole is gone then.
pub proof fn law_take_poll_workflow_activation<T, W, C, K, R>(
    bridge: &mut Bridge<T, W, C, K, R>,
    capacity: usize,
    res: BridgeOutput,
)
    requires
        call_ensures(Bridge::<T, W, C, K, R>::temporal_core_take_poll_workflow_activation, (bridge, capacity), res),
    ensures
        final(bridge).transport == old(bridge).transport,
        old(bridge).state is None ==> final(bridge).state is None && tells_error(
            res.word,
            res.bytes@,
            capacity as int,
            "Core worker is not initialized"@,
        ),
        old(bridge).state matches Some(state) ==> {
            &&& tells_operation(
                res.word,
                res.bytes@,
                capacity as int,
                state.workflow_poll_result,
                "operation has not been started"@,
            )
            &&& final(bridge).state matches Some(after)
            &&& same_but(state, after, Part::WorkflowPoll)
            &&& is_handed_over(state.workflow_poll_result, capacity as int) ==> after.workflow_poll_result is Idle
            &&& !is_handed_over(state.workflow_poll_result, capacity as int) ==> after.workflow_poll_result
                == state.workflow_poll_result
        },
{
    lemma_tells(capacity, "Core worker is not initialized"@);
    if let Some(state) = old(bridge).state {
        lemma_tells_operation(
            state.workflow_poll_result,
            capacity as int,
            "operation has not been started"@,
            "operation has not been started"@,
        );
    }
    assert(res@.word == res.word && res@.bytes == res.bytes@);
}

/// Completing an activity task is started, and pending under its id, exactly if it could be decoded, the worker
/// is there and serves it, its id is free, and fewer than 1024 completions are under way. Otherwise
/// nothing changes, and the answer tells why.
pub proof fn law_start_complete_activity_with_id<T, W, C, K, R>(
    bridge: &mut Bridge<T, W, C, K, R>,
    id: u64,
    decoded: Result<(), String>,
    capacity: usize,
    res: StartOutput,
)
    requires
        call_ensures(
            Bridge::<T, W, C, K, R>::temporal_core_start_complete_activity_with_id,
            (bridge, id, decoded, capacity),
            res,
        ),
    ensures
        final(bridge).transport == old(bridge).transport,
        decoded matches Err(error) ==> final(bridge).state == old(bridge).state && starts_nothing(
            res,
            capacity,
            "invalid ActivityTaskCompletion protobuf: "@ + error@,
        ),
        decoded is Ok && old(bridge).state is None ==> final(bridge).state is None
            && starts_nothing(res, capacity, "Core worker is not initialized"@),
        decoded is Ok ==> (old(bridge).state matches Some(state) ==> {
            let registry = state.activity_completion_results@;
            &&& final(bridge).state matches Some(after)
            &&& same_but(state, after, Part::ActivityCompletions)
            &&& res.started <==> state.mode != BridgeInitMode::WorkflowOnly && state.worker is Some
                && registry.len() < 1024 && !registry.contains_key(id)
            &&& res.started ==> {
                &&& tells_success(res.output.word, res.output.bytes@)
                &&& after.activity_completion_results@.contains_key(id)
                &&& after.activity_completion_results@[id] is Pending
                &&& after.activity_completion_results@.remove(id) =~= registry
            }
            &&& !res.started ==> after.activity_completion_results@ == registry
            &&& state.mode == BridgeInitMode::WorkflowOnly ==> starts_nothing(
                res,
                capacity,
                "workflow"@ + " bridge does not support "@ + "activity operations"@,
            )
            &&& state.mode != BridgeInitMode::WorkflowOnly && state.worker is None
                ==> starts_nothing(res, capacity, "Core worker initialization is not complete"@)
            &&& state.mode != BridgeInitMode::WorkflowOnly && state.worker is Some
                && registry.len() >= 1024 ==> starts_nothing(
                res,
                capacity,
                "activity completion"@ + " registry limit of "@ + decimal(1024)
                    + " in-flight operations reached"@,
            )
            &&& state.mode != BridgeInitMode::WorkflowOnly && state.worker is Some
                && registry.len() < 1024 && registry.contains_key(id) ==> starts_nothing(
                res,
                capacity,
                "activity completion"@ + " operation ID "@ + decimal(id as nat)
                    + " is already in progress"@,
            )
        }),
{
    lemma_tells(capacity, "Core worker is not initialized"@);
    lemma_tells(capacity, "Core worker initialization is not complete"@);
    lemma_tells(capacity, "workflow"@ + " bridge does not support "@ + "activity operations"@);
    lemma_tells(
        capacity,
        "activity completion"@ + " registry limit of "@ + decimal(1024) + " in-flight operations reached"@,
    );
    lemma_tells(
        capacity,
        "activity completion"@ + " operation ID "@ + decimal(id as nat) + " is already in progress"@,
    );
    if let Err(error) = decoded {
        lemma_tells(capacity, "invalid ActivityTaskCompletion protobuf: "@ + error@);
    }
    assert(res.output@.word == res.output.word && res.output@.bytes == res.output.bytes@);
}

/// Completing a workflow activation is started, and pending under its id, exactly if it could be decoded, the worker
/// is there and serves it, its id is free, and fewer than 1024 completions are under way. Otherwise
/// nothing changes, and the answer tells why.
pub proof fn law_start_complete_workflow_activation_with_id<T, W, C, K, R>(
    bridge: &mut Bridge<T, W, C, K, R>,
    id: u64,
    decoded: Result<(), String>,
    capacity: usize,
    res: StartOutput,
)
    requires
        call_ensures(
            Bridge::<T, W, C, K, R>::temporal_core_start_complete_workflow_activation_with_id,
            (bridge, id, decoded, capacity),
            res,
        ),
    ensures
        final(bridge).transport == old(bridge).transport,
        decoded matches Err(error) ==> final(bridge).state == old(bridge).state && starts_nothing(
            res,
            capacity,
            "invalid WorkflowActivationCompletion protobuf: "@ + error@,
        ),
        decoded is Ok && old(bridge).state is None ==> final(bridge).state is None
            && starts_nothing(res, capacity, "Core worker is not initialized"@),
        decoded is Ok ==> (old(bridge).state matches Some(state) ==> {
            let registry = state.workflow_completion_results@;
            &&& final(bridge).state matches Some(after)
            &&& same_but(state, after, Part::WorkflowCompletions)
            &&& res.started <==> state.mode != BridgeInitMode::ActivityOnly && state.worker is Some
                && registry.len() < 1024 && !registry.contains_key(id)
            &&& res.started ==> {
                &&& tells_success(res.output.word, res.output.bytes@)
                &&& after.workflow_completion_results@.contains_key(id)
                &&& after.workflow_completion_results@[id] is Pending
                &&& after.workflow_completion_results@.remove(id) =~= registry
            }
            &&& !res.started ==> after.workflow_completion_results@ == registry
            &&& state.mode == BridgeInitMode::ActivityOnly ==> starts_nothing(
                res,
                capacity,
                "activity"@ + " bridge does not support "@ + "workflow operations"@,
            )
            &&& state.mode != BridgeInitMode::ActivityOnly && state.worker is None
                ==> starts_nothing(res, capacity, "Core worker initialization is not complete"@)
            &&& state.mode != BridgeInitMode::ActivityOnly && state.worker is Some
                && registry.len() >= 1024 ==> starts_nothing(
                res,
                capacity,
                "workflow activation completion"@ + " registry limit of "@ + decimal(1024)
                    + " in-flight operations reached"@,
            )
            &&& state.mode != BridgeInitMode::ActivityOnly && state.worker is Some
                && registry.len() < 1024 && registry.contains_key(id) ==> starts_nothing(
                res,
                capacity,
                "workflow activation completion"@ + " operation ID "@ + decimal(id as nat)
                    + " is already in progress"@,
            )
        }),
{
    lemma_tells(capacity, "Core worker is not initialized"@);
    lemma_tells(capacity, "Core worker initialization is not complete"@);
    lemma_tells(capacity, "activity"@ + " bridge does not support "@ + "workflow operations"@);
    lemma_tells(
        capacity,
        "workflow activation completion"@ + " registry limit of "@ + decimal(1024) + " in-flight operations reached"@,
    );
    lemma_tells(
        capacity,
        "workflow activation completion"@ + " operation ID "@ + decimal(id as nat) + " is already in progress"@,
    );
    if let Err(error) = decoded {
        lemma_tells(capacity, "invalid WorkflowActivationCompletion protobuf: "@ + error@);
    }
    assert(res.output@.word == res.output.word && res.output@.bytes == res.output.bytes@);
}

/// Taking the outcome of completing an activity task tells where that very completion stands; an outcome that is
/// told whole is gone then, and no other completion is touched.
pub proof fn law_take_complete_activity_with_id<T, W, C, K, R>(
    bridge: &mut Bridge<T, W, C, K, R>,
    id: u64,
    capacity: usize,
    res: BridgeOutput,
)
    requires
        call_ensures(
            Bridge::<T, W, C, K, R>::temporal_core_take_complete_activity_with_id,
            (bridge, id, capacity),
            res,
        ),
    ensures
        final(bridge).transport == old(bridge).transport,
        old(bridge).state is None ==> final(bridge).state is None && tells_error(
            res.word,
            res.bytes@,
            capacity as int,
            "Core worker is not initialized"@,
        ),
        old(bridge).state matches Some(state) ==> {
            let registry = state.activity_completion_results@;
            &&& final(bridge).state matches Some(after)
            &&& same_but(state, after, Part::ActivityCompletions)
            &&& !registry.contains_key(id) ==> after.activity_completion_results@ == registry && tells_error(
                res.word,
                res.bytes@,
                capacity as int,
                "activity completion"@ + " operation ID "@ + decimal(id as nat) + " has not been started"@,
            )
            &&& registry.contains_key(id) ==> {
                &&& tells_operation(
                    res.word,
                    res.bytes@,
                    capacity as int,
                    registry[id],
                    "activity completion"@ + " operation ID "@ + decimal(id as nat)
                        + " is in an invalid state"@,
                )
                &&& is_handed_over(registry[id], capacity as int) ==> after.activity_completion_results@
                    =~= registry.remove(id)
                &&& !is_handed_over(registry[id], capacity as int) ==> after.activity_completion_results@
                    == registry
            }
        },
{
    lemma_tells(capacity, "Core worker is not initialized"@);
    if let Some(state) = old(bridge).state {
        let registry = state.activity_completion_results@;
        lemma_tells_operation(
            if registry.contains_key(id) {
                registry[id]
            } else {
                OperationState::Idle
            },
            capacity as int,
            "activity completion"@ + " operation ID "@ + decimal(id as nat) + " has not been started"@,
            "activity completion"@ + " operation ID "@ + decimal(id as nat) + " is in an invalid state"@,
        );
    }
    assert(res@.word == res.word && res@.bytes == res.bytes@);
}

/// Taking the outcome of completing a workflow activation tells where that very completion stands; an outcome that is
/// told whole is gone then, and no other completion is touched.
pub proof fn law_take_complete_workflow_activation_with_id<T, W, C, K, R>(
    bridge: &mut Bridge<T, W, C, K, R>,
    id: u64,
    capacity: usize,
    res: BridgeOutput,
)
    requires
        call_ensures(
            Bridge::<T, W, C, K, R>::temporal_core_take_complete_workflow_activation_with_id,
            (bridge, id, capacity),
            res,
        ),
    ensures
        final(bridge).transport == old(bridge).transport,
        old(bridge).state is None ==> final(bridge).state is None && tells_error(
            res.word,
            res.bytes@,
            capacity as int,
            "Core worker is not initialized"@,
        ),
        old(bridge).state matches Some(state) ==> {
            let registry = state.workflow_completion_results@;
            &&& final(bridge).state matches Some(after)
            &&& same_but(state, after, Part::WorkflowCompletions)
            &&& !registry.contains_key(id) ==> after.workflow_completion_results@ == registry && tells_error(
                res.word,
                res.bytes@,
                capacity as int,
                "workflow activation completion"@ + " operation ID "@ + decimal(id as nat) + " has not been started"@,
            )
            &&& registry.contains_key(id) ==> {
                &&& tells_operation(
                    res.word,
                    res.bytes@,
                    capacity as int,
                    registry[id],
                    "workflow activation completion"@ + " operation ID "@ + decimal(id as nat)
                        + " is in an invalid state"@,
                )
                &&& is_handed_over(registry[id], capacity as int) ==> after.workflow_completion_results@
                    =~= registry.remove(id)
                &&& !is_handed_over(registry[id], capacity as int) ==> after.workflow_completion_results@
                    == registry
            }
        },
{
    lemma_tells(capacity, "Core worker is not initialized"@);
    if let Some(state) = old(bridge).state {
        let registry = state.workflow_completion_results@;
        lemma_tells_operation(
            if registry.contains_key(id) {
                registry[id]
            } else {
                OperationState::Idle
            },
            capacity as int,
            "workflow activation completion"@ + " operation ID "@ + decimal(id as nat) + " has not been started"@,
            "workflow activation completion"@ + " operation ID "@ + decimal(id as nat) + " is in an invalid state"@,
        );
    }
    assert(res@.word == res.word && res@.bytes == res.bytes@);
}

/// A heartbeat is recorded exactly if it could be decoded and the worker is there and serves
/// activities; otherwise the answer tells why not.
pub proof fn law_record_activity_heartbeat<T, W, C, K, R>(
    bridge: &Bridge<T, W, C, K, R>,
    decoded: Result<(), String>,
    capacity: usize,
    res: StartOutput,
)
    requires
        call_ensures(
            Bridge::<T, W, C, K, R>::temporal_core_record_activity_heartbeat,
            (bridge, decoded, capacity),
            res,
        ),
    ensures
        res.started <==> decoded is Ok && bridge.state is Some && bridge.state->Some_0.mode
            != BridgeInitMode::WorkflowOnly && bridge.state->Some_0.worker is Some,
        res.started ==> tells_success(res.output.word, res.output.bytes@),
        decoded matches Err(error) ==> starts_nothing(
            res,
            capacity,
            "invalid ActivityHeartbeat protobuf: "@ + error@,
        ),
        decoded is Ok && bridge.state is None ==> starts_nothing(
            res,
            capacity,
            "Core worker is not initialized"@,
        ),
        decoded is Ok && bridge.state is Some && bridge.state->Some_0.mode
            == BridgeInitMode::WorkflowOnly ==> starts_nothing(
            res,
            capacity,
            "workflow"@ + " bridge does not support "@ + "activity operations"@,
        ),
        decoded is Ok && bridge.state is Some && bridge.state->Some_0.mode
            != BridgeInitMode::WorkflowOnly && bridge.state->Some_0.worker is None
            ==> starts_nothing(res, capacity, "Core worker initialization is not complete"@),
{
    lemma_tells(capacity, "Core worker is not initialized"@);
    lemma_tells(capacity, "Core worker initialization is not complete"@);
    lemma_tells(capacity, "workflow"@ + " bridge does not support "@ + "activity operations"@);
    if let Err(error) = decoded {
        lemma_tells(capacity, "invalid ActivityHeartbeat protobuf: "@ + error@);
    }
    assert(res.output@.word == res.output.word && res.output@.bytes == res.output.bytes@);
}

/// Ready tasks are drained exactly if there is a worker, made or not.
pub proof fn law_drain_ready_tasks<T, W, C, K, R>(
    bridge: &Bridge<T, W, C, K, R>,
    capacity: usize,
    res: StartOutput,
)
    requires
        call_ensures(
            Bridge::<T, W, C, K, R>::temporal_core_drain_ready_tasks,
            (bridge, capacity),
            res,
        ),
    ensures
        bridge.state is Some ==> res.started && tells_success(res.output.word, res.output.bytes@),
        bridge.state is None ==> starts_nothing(res, capacity, "Core worker is not initialized"@),
{
    lemma_tells(capacity, "Core worker is not initialized"@);
    assert(res.output@.word == res.output.word && res.output@.bytes == res.output.bytes@);
}

/// Taking the outcome of shutting down tells where that stands. Once it is told that the worker is shut
/// down, the bridge is cleared; otherwise the worker stays.
pub proof fn law_take_shutdown<T, W, C, K, R>(
    bridge: &mut Bridge<T, W, C, K, R>,
    capacity: usize,
    res: BridgeOutput,
)
    requires
        call_ensures(
            Bridge::<T, W, C, K, R>::temporal_core_take_shutdown,
            (bridge, capacity),
            res,
        ),
    ensures
        old(bridge).state is None ==> is_untouched(*old(bridge), *final(bridge)) && tells_error(
            res.word,
            res.bytes@,
            capacity as int,
            "Core worker is not initialized"@,
        ),
        old(bridge).state matches Some(state) ==> {
            &&& tells_operation(
                res.word,
                res.bytes@,
                capacity as int,
                state.shutdown_result,
                "operation has not been started"@,
            )
            &&& 0 <= res.word < 0x1_0000_0000 ==> is_cleared(*old(bridge), *final(bridge))
            &&& !(0 <= res.word < 0x1_0000_0000) ==> {
                &&& final(bridge).transport == old(bridge).transport
                &&& final(bridge).state matches Some(after)
                &&& same_but(state, after, Part::Shutdown)
                &&& is_handed_over(state.shutdown_result, capacity as int)
                    ==> after.shutdown_result is Idle
                &&& !is_handed_over(state.shutdown_result, capacity as int)
                    ==> after.shutdown_result == state.shutdown_result
            }
        },
{
    lemma_tells(capacity, "Core worker is not initialized"@);
    if let Some(state) = old(bridge).state {
        lemma_tells_operation(
            state.shutdown_result,
            capacity as int,
            "operation has not been started"@,
            "operation has not been started"@,
        );
    }
    assert(res@.word == res.word && res@.bytes == res.bytes@);
    lemma_code_of(res.word);
}

proof fn lemma_code_of(word: i64)
    ensures
        super::abi::code_of(word) == 0 <==> 0 <= word < 0x1_0000_0000,
        super::abi::code_of(word) == -1 <==> -0x1_0000_0000 <= word < 0,
{
    super::abi::law_pack_undoes_unpack(word);
    lemma_word(super::abi::code_of(word), super::abi::len_of(word));
}

/// The outcome of polling for an activity task is stored whole, and an error is told in its context. Without a worker it is
/// ignored.
pub proof fn law_activity_poll_finished<T, W, C, K, R>(
    bridge: &mut Bridge<T, W, C, K, R>,
    result: Result<Vec<u8>, String>,
)
    requires
        call_ensures(Bridge::<T, W, C, K, R>::activity_poll_finished, (bridge, result), ()),
    ensures
        final(bridge).transport == old(bridge).transport,
        old(bridge).state is None ==> final(bridge).state is None,
        old(bridge).state matches Some(state) ==> {
            &&& final(bridge).state matches Some(after)
            &&& same_but(state, after, Part::ActivityPoll)
            &&& after.activity_poll_result matches OperationState::Ready(stored)
            &&& result matches Ok(output) ==> (stored matches Ok(kept) && kept@ == output@)
            &&& result matches Err(error) ==> (stored matches Err(text) && text@ == "activity poll failed: "@
                + error@)
        },
{
}

/// The outcome of polling for a workflow activation is stored whole, and an error is told in its context. Without a worker it is
/// ignored.
pub proof fn law_workflow_poll_finished<T, W, C, K, R>(
    bridge: &mut Bridge<T, W, C, K, R>,
    result: Result<Vec<u8>, String>,
)
    requires
        call_ensures(Bridge::<T, W, C, K, R>::workflow_poll_finished, (bridge, result), ()),
    ensures
        final(bridge).transport == old(bridge).transport,
        old(bridge).state is None ==> final(bridge).state is None,
        old(bridge).state matches Some(state) ==> {
            &&& final(bridge).state matches Some(after)
            &&& same_but(state, after, Part::WorkflowPoll)
            &&& after.workflow_poll_result matches OperationState::Ready(stored)
            &&& result matches Ok(output) ==> (stored matches Ok(kept) && kept@ == output@)
            &&& result matches Err(error) ==> (stored matches Err(text) && text@ == "workflow activation poll failed: "@
                + error@)
        },
{
}

/// The outcome of validating the worker is stored whole, and an error is told in its context. Without a worker it is
/// ignored.
pub proof fn law_validation_finished<T, W, C, K, R>(
    bridge: &mut Bridge<T, W, C, K, R>,
    result: Result<Vec<u8>, String>,
)
    requires
        call_ensures(Bridge::<T, W, C, K, R>::validation_finished, (bridge, result), ()),
    ensures
        final(bridge).transport == old(bridge).transport,
        old(bridge).state is None ==> final(bridge).state is None,
        old(bridge).state matches Some(state) ==> {
            &&& final(bridge).state matches Some(after)
            &&& same_but(state, after, Part::Initialization)
            &&& after.initialization_result matches OperationState::Ready(stored)
            &&& result matches Ok(output) ==> (stored matches Ok(kept) && kept@ == output@)
            &&& result matches Err(error) ==> (stored matches Err(text) && text@ == kind_of(state.mode) + " worker validation failed: "@
                + error@)
        },
{
}

/// The outcome of completing an activity task is stored whole under the id of that completion, and an error is
/// told in its context. No other completion is touched, and one that is not registered is ignored.
pub proof fn law_activity_completion_finished<T, W, C, K, R>(
    bridge: &mut Bridge<T, W, C, K, R>,
    id: u64,
    result: Result<Vec<u8>, String>,
)
    requires
        call_ensures(Bridge::<T, W, C, K, R>::activity_completion_finished, (bridge, id, result), ()),
    ensures
        final(bridge).transport == old(bridge).transport,
        old(bridge).state is None ==> final(bridge).state is None,
        old(bridge).state matches Some(state) ==> {
            let registry = state.activity_completion_results@;
            &&& final(bridge).state matches Some(after)
            &&& same_but(state, after, Part::ActivityCompletions)
            &&& after.activity_completion_results@.contains_key(id) == registry.contains_key(id)
            &&& after.activity_completion_results@.remove(id) =~= registry.remove(id)
            &&& registry.contains_key(id) ==> {
                &&& after.activity_completion_results@[id] is Ready
                &&& result matches Ok(output) ==> (after.activity_completion_results@[id]->Ready_0 matches Ok(
                    kept,
                ) && kept@ == output@)
                &&& result matches Err(error) ==> (after.activity_completion_results@[id]->Ready_0 matches Err(
                    text,
                ) && text@ == "activity completion failed: "@ + error@)
            }
        },
{
}

/// The outcome of completing a workflow activation is stored whole under the id of that completion, and an error is
/// told in its context. No other completion is touched, and one that is not registered is ignored.
pub proof fn law_workflow_completion_finished<T, W, C, K, R>(
    bridge: &mut Bridge<T, W, C, K, R>,
    id: u64,
    result: Result<Vec<u8>, String>,
)
    requires
        call_ensures(Bridge::<T, W, C, K, R>::workflow_completion_finished, (bridge, id, result), ()),
    ensures
        final(bridge).transport == old(bridge).transport,
        old(bridge).state is None ==> final(bridge).state is None,
        old(bridge).state matches Some(state) ==> {
            let registry = state.workflow_completion_results@;
            &&& final(bridge).state matches Some(after)
            &&& same_but(state, after, Part::WorkflowCompletions)
            &&& after.workflow_completion_results@.contains_key(id) == registry.contains_key(id)
            &&& after.workflow_completion_results@.remove(id) =~= registry.remove(id)
            &&& registry.contains_key(id) ==> {
                &&& after.workflow_completion_results@[id] is Ready
                &&& result matches Ok(output) ==> (after.workflow_completion_results@[id]->Ready_0 matches Ok(
                    kept,
                ) && kept@ == output@)
                &&& result matches Err(error) ==> (after.workflow_completion_results@[id]->Ready_0 matches Err(
                    text,
                ) && text@ == "workflow activation completion failed: "@ + error@)
            }
        },
{
}

/// The outcome of connecting is stored whole, and an error is told in its context. Without a worker it
/// is ignored.
pub proof fn law_connection_finished<T, W, C, K, R>(
    bridge: &mut Bridge<T, W, C, K, R>,
    result: Result<C, String>,
)
    requires
        call_ensures(Bridge::<T, W, C, K, R>::connection_finished, (bridge, result), ()),
    ensures
        final(bridge).transport == old(bridge).transport,
        old(bridge).state is None ==> final(bridge).state is None,
        old(bridge).state matches Some(state) ==> {
            &&& final(bridge).state matches Some(after)
            &&& same_but(state, after, Part::Connection)
            &&& after.connection_result matches Some(stored)
            &&& result matches Ok(connection) ==> (stored matches Ok(kept) && kept == connection)
            &&& result matches Err(error) ==> (stored matches Err(text) && text@
                == "failed to initialize callback gRPC client: "@ + error@)
        },
{
}

/// That the worker was shut down is stored as success without output.
pub proof fn law_shutdown_finished<T, W, C, K, R>(bridge: &mut Bridge<T, W, C, K, R>)
    requires
        call_ensures(Bridge::<T, W, C, K, R>::shutdown_finished, (bridge,), ()),
    ensures
        final(bridge).transport == old(bridge).transport,
        old(bridge).state is None ==> final(bridge).state is None,
        old(bridge).state matches Some(state) ==> {
            &&& final(bridge).state matches Some(after)
            &&& same_but(state, after, Part::Shutdown)
            &&& after.shutdown_result matches OperationState::Ready(Ok(output))
            &&& output@.len() == 0
        },
{
}

} // verus!
