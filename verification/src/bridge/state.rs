//! The calls by which a host drives one worker.
//!
//! Work that only the asynchronous side can do is handed in or handed out: a call that starts such
//! work says so in its result, and the result of the work comes back through the operation slots.

use super::abi::{
    bare_output, code_of, packed, result_output, result_view, unpack_result_code, write_result,
    BridgeOutput, Output, BRIDGE_ERROR, BRIDGE_PENDING,
};
use super::config::{
    config_built, decode_worker_init_options, worker_config_for_mode, BridgeInitMode, WorkerConfig,
    WorkerInitOptions, DEFAULT_MAX_EAGER_ACTIVITY_RESERVATIONS_PER_WORKFLOW_TASK,
};
use super::metadata::{
    converts_to, encodable_response, into_grpc_response, BridgeGrpcResponse, HostGrpcResponse,
};
use super::operations::{
    entries_after_take, mark_operation_pending, mark_pending, operation_registry, operation_slot,
    operation_text, registered, registry_full, set_operation_ready, set_ready, slot_after_take,
    slot_not_started, take_answer, take_operation_slot_result, take_registered_operation_output,
    OperationRegistry, OperationState, MAX_OPERATION_REGISTRY_ENTRIES,
};
use super::transport::{
    ensure_host_transport_response_size, over_message_limit, request_handed_over,
    take_next_grpc_request_output, HostTransport, PendingGrpcRequest, TransportState,
    MAX_HOST_TRANSPORT_MESSAGE_BYTES,
};
use crate::text::{decimal, join2, join4};
use vstd::prelude::*;
use vstd::utf8::{decode_utf8, valid_utf8};

verus! {

/// How often ready tasks get a turn when they are drained.
pub const READY_TASK_DRAIN_TURNS: usize = 16;

/// An initialized, or initializing, worker. `T` is the runtime that it runs on, `W` the worker itself,
/// `C` its connection and `K` its configuration.
#[derive(Debug)]
pub struct BridgeState<T, W, C, K> {
    pub mode: BridgeInitMode,
    pub runtime: T,
    /// There once the connection is made.
    pub worker: Option<W>,
    /// There until the worker is made.
    pub worker_config: Option<K>,
    /// There once connecting is over, until the worker is made.
    pub connection_result: Option<Result<C, String>>,
    pub initialization_result: OperationState,
    pub workflow_poll_result: OperationState,
    pub workflow_completion_results: OperationRegistry,
    pub activity_poll_result: OperationState,
    pub activity_completion_results: OperationRegistry,
    pub shutdown_result: OperationState,
}

/// A bridge: at most one worker, and the transport of its requests. `R` is the handle by which a
/// response reaches the core.
#[derive(Debug)]
pub struct Bridge<T, W, C, K, R> {
    pub state: Option<BridgeState<T, W, C, K>>,
    pub transport: HostTransport<R>,
}

/// What a call that starts an operation hands back.
#[derive(Debug)]
pub struct StartOutput {
    pub output: BridgeOutput,
    /// Whether the operation is to be run.
    pub started: bool,
}

/// The display text of the error that bytes give which are not UTF-8.
pub uninterp spec fn utf8_error_text(bytes: Seq<u8>) -> Seq<char>;

/// `String::from_utf8`: the text that the bytes encode, or the display text of the error.
#[verifier::external_body]
fn string_from_utf8(bytes: Vec<u8>) -> (res: Result<String, String>)
    ensures
        res is Ok <==> valid_utf8(bytes@),
        res matches Ok(text) ==> text@ == decode_utf8(bytes@),
        res matches Err(error) ==> error@ == utf8_error_text(bytes@),
{
    String::from_utf8(bytes).map_err(|e| e.to_string())
}

/// The error text for a string parameter that is not UTF-8.
pub open spec fn not_utf8(bytes: Seq<u8>) -> Seq<char> {
    "bridge string parameter is not UTF-8: "@ + utf8_error_text(bytes)
}

/// Reads a string parameter.
pub fn read_string(bytes: Vec<u8>) -> (res: Result<String, String>)
    ensures
        match res {
            Ok(text) => valid_utf8(bytes@) && text@ == decode_utf8(bytes@),
            Err(error) => !valid_utf8(bytes@) && error@ == not_utf8(bytes@),
        },
{
    match string_from_utf8(bytes) {
        Ok(text) => Ok(text),
        Err(error) => Err(join2("bridge string parameter is not UTF-8: ", error.as_str())),
    }
}

/// The error text for a bridge without a worker.
pub open spec fn not_initialized() -> Seq<char> {
    "Core worker is not initialized"@
}

/// The error text for a worker that is not made yet.
pub open spec fn not_complete() -> Seq<char> {
    "Core worker initialization is not complete"@
}

/// The error text for operations that the mode does not support.
pub open spec fn unsupported(mode: BridgeInitMode, operations: Seq<char>) -> Seq<char> {
    mode.kind_name() + " bridge does not support "@ + operations
}

/// Refuses activity operations where the worker serves none.
pub fn ensure_supports_activities<T, W, C, K>(state: &BridgeState<T, W, C, K>) -> (res: Result<(), String>)
    ensures
        match res {
            Ok(_) => state.mode != BridgeInitMode::WorkflowOnly,
            Err(error) => state.mode == BridgeInitMode::WorkflowOnly && error@ == unsupported(
                state.mode,
                "activity operations"@,
            ),
        },
{
    if state.mode.supports_activities() {
        Ok(())
    } else {
        Err(
            state.mode.worker_kind().to_owned().concat(" bridge does not support ").concat(
                "activity operations",
            ),
        )
    }
}

/// Refuses workflow operations where the worker serves none.
pub fn ensure_supports_workflows<T, W, C, K>(state: &BridgeState<T, W, C, K>) -> (res: Result<(), String>)
    ensures
        match res {
            Ok(_) => state.mode != BridgeInitMode::ActivityOnly,
            Err(error) => state.mode == BridgeInitMode::ActivityOnly && error@ == unsupported(
                state.mode,
                "workflow operations"@,
            ),
        },
{
    if state.mode.supports_workflows() {
        Ok(())
    } else {
        Err(
            state.mode.worker_kind().to_owned().concat(" bridge does not support ").concat(
                "workflow operations",
            ),
        )
    }
}

/// The worker, once it is made.
pub fn initialized_worker<T, W, C, K>(state: &BridgeState<T, W, C, K>) -> (res: Result<&W, String>)
    ensures
        match res {
            Ok(worker) => state.worker == Some(*worker),
            Err(error) => state.worker is None && error@ == not_complete(),
        },
{
    match &state.worker {
        Some(worker) => Ok(worker),
        None => Err("Core worker initialization is not complete".to_owned()),
    }
}

/// The answer for a call that failed.
pub open spec fn failed(capacity: usize, error: Seq<char>) -> Output {
    result_output(capacity as int, Err(error))
}

/// The answer for a call that succeeded without output.
pub open spec fn succeeded(capacity: usize) -> Output {
    result_output(capacity as int, Ok(Seq::empty()))
}

fn start_failed(error_capacity: usize, error: String) -> (res: StartOutput)
    ensures
        res.output@ == failed(error_capacity, error@),
        !res.started,
{
    StartOutput { output: write_result(error_capacity, Err(error)), started: false }
}

fn start_succeeded(error_capacity: usize) -> (res: StartOutput)
    ensures
        res.output@ == succeeded(error_capacity),
        res.started,
{
    StartOutput { output: write_result(error_capacity, Ok(Vec::new())), started: true }
}

impl<T, W, C, K> BridgeState<T, W, C, K> {
    /// A worker that waits for its connection.
    pub open spec fn is_fresh(self, mode: BridgeInitMode, runtime: T, config: K) -> bool {
        &&& self.mode == mode
        &&& self.runtime == runtime
        &&& self.worker is None
        &&& self.worker_config == Some(config)
        &&& self.connection_result is None
        &&& self.initialization_result is Pending
        &&& self.workflow_poll_result is Idle
        &&& self.workflow_completion_results@ == Map::<u64, OperationState>::empty()
        &&& self.activity_poll_result is Idle
        &&& self.activity_completion_results@ == Map::<u64, OperationState>::empty()
        &&& self.shutdown_result is Idle
        &&& self.wf()
    }

    /// The registries are in order.
    pub open spec fn wf(self) -> bool {
        self.workflow_completion_results.wf() && self.activity_completion_results.wf()
    }
}

impl<T, W, C, K, R> Bridge<T, W, C, K, R> {
    /// The parts of the bridge are in order.
    pub open spec fn wf(self) -> bool {
        &&& self.transport@.wf()
        &&& self.state matches Some(state) ==> state.wf()
    }

    /// A bridge without a worker.
    pub fn new() -> (res: Self)
        ensures
            res.state is None,
            res.transport@.next_id == 0,
            res.transport@.queue.len() == 0,
            res.transport@.responders == Map::<u64, R>::empty(),
            res.wf(),
    {
        Bridge { state: None, transport: HostTransport::new() }
    }

    /// The bridge was reset: it has no worker and no requests.
    pub open spec fn is_reset(self, before: Self) -> bool {
        &&& self.state is None
        &&& self.transport@.next_id == before.transport@.next_id
        &&& self.transport@.queue.len() == 0
        &&& self.transport@.queued_bytes == 0
        &&& self.transport@.responders == Map::<u64, R>::empty()
        &&& self.wf()
    }

    /// Drops the worker with all its operations, and all requests.
    pub fn reset_bridge_state(&mut self)
        ensures
            final(self).is_reset(*old(self)),
    {
        self.state = None;
        self.transport.reset();
    }

    /// Starts polling for an activity task.
    pub fn temporal_core_start_poll_activity(&mut self, error_capacity: usize) -> (res: StartOutput)
        ensures
            final(self).transport == old(self).transport,
            old(self).wf() ==> final(self).wf(),
            match old(self).state {
                None => final(self).state is None && !res.started && res.output@ == failed(
                    error_capacity,
                    not_initialized(),
                ),
                Some(state) => if state.mode == BridgeInitMode::WorkflowOnly {
                    &&& final(self).state == Some(state)
                    &&& !res.started
                    &&& res.output@ == failed(
                        error_capacity,
                        unsupported(state.mode, "activity operations"@),
                    )
                } else if !(state.activity_poll_result is Idle) {
                    &&& final(self).state == Some(state)
                    &&& !res.started
                    &&& res.output@ == failed(
                        error_capacity,
                        "activity poll"@ + " is already in progress"@,
                    )
                } else {
                    &&& final(self).state == Some(
                        BridgeState { activity_poll_result: OperationState::Pending, ..state },
                    )
                    &&& res.started == state.worker is Some
                    &&& res.output@ == if state.worker is Some {
                        succeeded(error_capacity)
                    } else {
                        failed(error_capacity, not_complete())
                    }
                },
            },
    {
        match &mut self.state {
            None => start_failed(error_capacity, "Core worker is not initialized".to_owned()),
            Some(state) => {
                if let Err(error) = ensure_supports_activities(state) {
                    return start_failed(error_capacity, error);
                }
                if let Err(error) = mark_pending(&mut state.activity_poll_result, "activity poll") {
                    return start_failed(error_capacity, error);
                }
                match initialized_worker(state) {
                    Ok(_) => start_succeeded(error_capacity),
                    Err(error) => start_failed(error_capacity, error),
                }
            },
        }
    }

    /// Takes the polled activity task.
    pub fn temporal_core_take_poll_activity(&mut self, output_capacity: usize) -> (res: BridgeOutput)
        ensures
            final(self).transport == old(self).transport,
            old(self).wf() ==> final(self).wf(),
            match old(self).state {
                None => final(self).state is None && res@ == failed(
                    output_capacity,
                    not_initialized(),
                ),
                Some(state) => res@ == take_answer(
                    Some(state.activity_poll_result),
                    output_capacity as int,
                    slot_not_started(),
                    slot_not_started(),
                ) && final(self).state == Some(
                    BridgeState {
                        activity_poll_result: slot_after_take(state.activity_poll_result, output_capacity as int),
                        ..state
                    },
                ),
            },
    {
        match &mut self.state {
            None => write_result(
                output_capacity,
                Err("Core worker is not initialized".to_owned()),
            ),
            Some(state) => take_operation_slot_result(&mut state.activity_poll_result, output_capacity),
        }
    }

    /// Starts completing an activity task under an id of the host.
    ///
    /// `decoded` tells whether the completion could be decoded.
    pub fn temporal_core_start_complete_activity_with_id(
        &mut self,
        operation_id: u64,
        decoded: Result<(), String>,
        error_capacity: usize,
    ) -> (res: StartOutput)
        ensures
            final(self).transport == old(self).transport,
            old(self).wf() ==> final(self).wf(),
            match decoded {
                Err(error) => final(self).state == old(self).state && !res.started && res.output@
                    == failed(error_capacity, "invalid ActivityTaskCompletion protobuf: "@ + error@),
                Ok(_) => match old(self).state {
                    None => final(self).state is None && !res.started && res.output@ == failed(
                        error_capacity,
                        not_initialized(),
                    ),
                    Some(state) => if state.mode == BridgeInitMode::WorkflowOnly {
                        &&& final(self).state == Some(state)
                        &&& !res.started
                        &&& res.output@ == failed(
                            error_capacity,
                            unsupported(state.mode, "activity operations"@),
                        )
                    } else if state.worker is None {
                        &&& final(self).state == Some(state)
                        &&& !res.started
                        &&& res.output@ == failed(error_capacity, not_complete())
                    } else {
                        &&& final(self).state matches Some(after)
                        &&& after == (BridgeState {
                            activity_completion_results: after.activity_completion_results,
                            ..state
                        })
                        &&& if state.activity_completion_results@.len()
                            >= MAX_OPERATION_REGISTRY_ENTRIES {
                            &&& after.activity_completion_results@ == state.activity_completion_results@
                            &&& !res.started
                            &&& res.output@ == failed(
                                error_capacity,
                                registry_full("activity completion"@),
                            )
                        } else if state.activity_completion_results@.contains_key(operation_id) {
                            &&& after.activity_completion_results@ == state.activity_completion_results@
                            &&& !res.started
                            &&& res.output@ == failed(
                                error_capacity,
                                operation_text(
                                    "activity completion"@,
                                    operation_id,
                                    " is already in progress"@,
                                ),
                            )
                        } else {
                            &&& after.activity_completion_results@ == state.activity_completion_results@.insert(
                                operation_id,
                                OperationState::Pending,
                            )
                            &&& res.started
                            &&& res.output@ == succeeded(error_capacity)
                        }
                    },
                },
            },
    {
        if let Err(error) = decoded {
            return start_failed(
                error_capacity,
                join2("invalid ActivityTaskCompletion protobuf: ", error.as_str()),
            );
        }
        match &mut self.state {
            None => start_failed(error_capacity, "Core worker is not initialized".to_owned()),
            Some(state) => {
                if let Err(error) = ensure_supports_activities(state) {
                    return start_failed(error_capacity, error);
                }
                if let Err(error) = initialized_worker(state) {
                    return start_failed(error_capacity, error);
                }
                match mark_operation_pending(
                    &mut state.activity_completion_results,
                    operation_id,
                    "activity completion",
                ) {
                    Ok(_) => start_succeeded(error_capacity),
                    Err(error) => start_failed(error_capacity, error),
                }
            },
        }
    }

    /// Takes the outcome of completing an activity task.
    pub fn temporal_core_take_complete_activity_with_id(&mut self, operation_id: u64, error_capacity: usize) -> (res: BridgeOutput)
        ensures
            final(self).transport == old(self).transport,
            old(self).wf() ==> final(self).wf(),
            match old(self).state {
                None => final(self).state is None && res@ == failed(
                    error_capacity,
                    not_initialized(),
                ),
                Some(state) => {
                    &&& final(self).state matches Some(after)
                    &&& after == (BridgeState {
                        activity_completion_results: after.activity_completion_results,
                        ..state
                    })
                    &&& res@ == take_answer(
                        registered(state.activity_completion_results@, operation_id),
                        error_capacity as int,
                        operation_text(
                            "activity completion"@,
                            operation_id,
                            " has not been started"@,
                        ),
                        operation_text(
                            "activity completion"@,
                            operation_id,
                            " is in an invalid state"@,
                        ),
                    )
                    &&& after.activity_completion_results@ == entries_after_take(
                        state.activity_completion_results@,
                        operation_id,
                        error_capacity as int,
                    )
                },
            },
    {
        match &mut self.state {
            None => write_result(error_capacity, Err("Core worker is not initialized".to_owned())),
            Some(state) => take_registered_operation_output(
                &mut state.activity_completion_results,
                operation_id,
                error_capacity,
                "activity completion",
            ),
        }
    }

    /// Starts polling for a workflow activation.
    pub fn temporal_core_start_poll_workflow_activation(&mut self, error_capacity: usize) -> (res: StartOutput)
        ensures
            final(self).transport == old(self).transport,
            old(self).wf() ==> final(self).wf(),
            match old(self).state {
                None => final(self).state is None && !res.started && res.output@ == failed(
                    error_capacity,
                    not_initialized(),
                ),
                Some(state) => if state.mode == BridgeInitMode::ActivityOnly {
                    &&& final(self).state == Some(state)
                    &&& !res.started
                    &&& res.output@ == failed(
                        error_capacity,
                        unsupported(state.mode, "workflow operations"@),
                    )
                } else if !(state.workflow_poll_result is Idle) {
                    &&& final(self).state == Some(state)
                    &&& !res.started
                    &&& res.output@ == failed(
                        error_capacity,
                        "workflow activation poll"@ + " is already in progress"@,
                    )
                } else {
                    &&& final(self).state == Some(
                        BridgeState { workflow_poll_result: OperationState::Pending, ..state },
                    )
                    &&& res.started == state.worker is Some
                    &&& res.output@ == if state.worker is Some {
                        succeeded(error_capacity)
                    } else {
                        failed(error_capacity, not_complete())
                    }
                },
            },
    {
        match &mut self.state {
            None => start_failed(error_capacity, "Core worker is not initialized".to_owned()),
            Some(state) => {
                if let Err(error) = ensure_supports_workflows(state) {
                    return start_failed(error_capacity, error);
                }
                if let Err(error) = mark_pending(&mut state.workflow_poll_result, "workflow activation poll") {
                    return start_failed(error_capacity, error);
                }
                match initialized_worker(state) {
                    Ok(_) => start_succeeded(error_capacity),
                    Err(error) => start_failed(error_capacity, error),
                }
            },
        }
    }

    /// Takes the polled workflow activation.
    pub fn temporal_core_take_poll_workflow_activation(&mut self, output_capacity: usize) -> (res: BridgeOutput)
        ensures
            final(self).transport == old(self).transport,
            old(self).wf() ==> final(self).wf(),
            match old(self).state {
                None => final(self).state is None && res@ == failed(
                    output_capacity,
                    not_initialized(),
                ),
                Some(state) => res@ == take_answer(
                    Some(state.workflow_poll_result),
                    output_capacity as int,
                    slot_not_started(),
                    slot_not_started(),
                ) && final(self).state == Some(
                    BridgeState {
                        workflow_poll_result: slot_after_take(state.workflow_poll_result, output_capacity as int),
                        ..state
                    },
                ),
            },
    {
        match &mut self.state {
            None => write_result(
                output_capacity,
                Err("Core worker is not initialized".to_owned()),
            ),
            Some(state) => take_operation_slot_result(&mut state.workflow_poll_result, output_capacity),
        }
    }

    /// Starts completing a workflow activation under an id of the host.
    ///
    /// `decoded` tells whether the completion could be decoded.
    pub fn temporal_core_start_complete_workflow_activation_with_id(
        &mut self,
        operation_id: u64,
        decoded: Result<(), String>,
        error_capacity: usize,
    ) -> (res: StartOutput)
        ensures
            final(self).transport == old(self).transport,
            old(self).wf() ==> final(self).wf(),
            match decoded {
                Err(error) => final(self).state == old(self).state && !res.started && res.output@
                    == failed(error_capacity, "invalid WorkflowActivationCompletion protobuf: "@ + error@),
                Ok(_) => match old(self).state {
                    None => final(self).state is None && !res.started && res.output@ == failed(
                        error_capacity,
                        not_initialized(),
                    ),
                    Some(state) => if state.mode == BridgeInitMode::ActivityOnly {
                        &&& final(self).state == Some(state)
                        &&& !res.started
                        &&& res.output@ == failed(
                            error_capacity,
                            unsupported(state.mode, "workflow operations"@),
                        )
                    } else if state.worker is None {
                        &&& final(self).state == Some(state)
                        &&& !res.started
                        &&& res.output@ == failed(error_capacity, not_complete())
                    } else {
                        &&& final(self).state matches Some(after)
                        &&& after == (BridgeState {
                            workflow_completion_results: after.workflow_completion_results,
                            ..state
                        })
                        &&& if state.workflow_completion_results@.len()
                            >= MAX_OPERATION_REGISTRY_ENTRIES {
                            &&& after.workflow_completion_results@ == state.workflow_completion_results@
                            &&& !res.started
                            &&& res.output@ == failed(
                                error_capacity,
                                registry_full("workflow activation completion"@),
                            )
                        } else if state.workflow_completion_results@.contains_key(operation_id) {
                            &&& after.workflow_completion_results@ == state.workflow_completion_results@
                            &&& !res.started
                            &&& res.output@ == failed(
                                error_capacity,
                                operation_text(
                                    "workflow activation completion"@,
                                    operation_id,
                                    " is already in progress"@,
                                ),
                            )
                        } else {
                            &&& after.workflow_completion_results@ == state.workflow_completion_results@.insert(
                                operation_id,
                                OperationState::Pending,
                            )
                            &&& res.started
                            &&& res.output@ == succeeded(error_capacity)
                        }
                    },
                },
            },
    {
        if let Err(error) = decoded {
            return start_failed(
                error_capacity,
                join2("invalid WorkflowActivationCompletion protobuf: ", error.as_str()),
            );
        }
        match &mut self.state {
            None => start_failed(error_capacity, "Core worker is not initialized".to_owned()),
            Some(state) => {
                if let Err(error) = ensure_supports_workflows(state) {
                    return start_failed(error_capacity, error);
                }
                if let Err(error) = initialized_worker(state) {
                    return start_failed(error_capacity, error);
                }
                match mark_operation_pending(
                    &mut state.workflow_completion_results,
                    operation_id,
                    "workflow activation completion",
                ) {
                    Ok(_) => start_succeeded(error_capacity),
                    Err(error) => start_failed(error_capacity, error),
                }
            },
        }
    }

    /// Takes the outcome of completing a workflow activation.
    pub fn temporal_core_take_complete_workflow_activation_with_id(&mut self, operation_id: u64, error_capacity: usize) -> (res: BridgeOutput)
        ensures
            final(self).transport == old(self).transport,
            old(self).wf() ==> final(self).wf(),
            match old(self).state {
                None => final(self).state is None && res@ == failed(
                    error_capacity,
                    not_initialized(),
                ),
                Some(state) => {
                    &&& final(self).state matches Some(after)
                    &&& after == (BridgeState {
                        workflow_completion_results: after.workflow_completion_results,
                        ..state
                    })
                    &&& res@ == take_answer(
                        registered(state.workflow_completion_results@, operation_id),
                        error_capacity as int,
                        operation_text(
                            "workflow activation completion"@,
                            operation_id,
                            " has not been started"@,
                        ),
                        operation_text(
                            "workflow activation completion"@,
                            operation_id,
                            " is in an invalid state"@,
                        ),
                    )
                    &&& after.workflow_completion_results@ == entries_after_take(
                        state.workflow_completion_results@,
                        operation_id,
                        error_capacity as int,
                    )
                },
            },
    {
        match &mut self.state {
            None => write_result(error_capacity, Err("Core worker is not initialized".to_owned())),
            Some(state) => take_registered_operation_output(
                &mut state.workflow_completion_results,
                operation_id,
                error_capacity,
                "workflow activation completion",
            ),
        }
    }

    /// Checks that an activity heartbeat can be recorded, which is then to be done.
    ///
    /// `decoded` tells whether the heartbeat could be decoded.
    pub fn temporal_core_record_activity_heartbeat(
        &self,
        decoded: Result<(), String>,
        error_capacity: usize,
    ) -> (res: StartOutput)
        ensures
            match decoded {
                Err(error) => !res.started && res.output@ == failed(
                    error_capacity,
                    "invalid ActivityHeartbeat protobuf: "@ + error@,
                ),
                Ok(_) => match self.state {
                    None => !res.started && res.output@ == failed(error_capacity, not_initialized()),
                    Some(state) => if state.mode == BridgeInitMode::WorkflowOnly {
                        !res.started && res.output@ == failed(
                            error_capacity,
                            unsupported(state.mode, "activity operations"@),
                        )
                    } else if state.worker is None {
                        !res.started && res.output@ == failed(error_capacity, not_complete())
                    } else {
                        res.started && res.output@ == succeeded(error_capacity)
                    },
                },
            },
    {
        if let Err(error) = decoded {
            return start_failed(
                error_capacity,
                join2("invalid ActivityHeartbeat protobuf: ", error.as_str()),
            );
        }
        match &self.state {
            None => start_failed(error_capacity, "Core worker is not initialized".to_owned()),
            Some(state) => {
                if let Err(error) = ensure_supports_activities(state) {
                    return start_failed(error_capacity, error);
                }
                match initialized_worker(state) {
                    Ok(_) => start_succeeded(error_capacity),
                    Err(error) => start_failed(error_capacity, error),
                }
            },
        }
    }

    /// Checks that ready tasks can be drained, which is then to be done in
    /// [`READY_TASK_DRAIN_TURNS`] turns.
    pub fn temporal_core_drain_ready_tasks(&self, error_capacity: usize) -> (res: StartOutput)
        ensures
            res.started == self.state is Some,
            res.output@ == if self.state is Some {
                succeeded(error_capacity)
            } else {
                failed(error_capacity, not_initialized())
            },
    {
        match &self.state {
            None => start_failed(error_capacity, "Core worker is not initialized".to_owned()),
            Some(_) => start_succeeded(error_capacity),
        }
    }

    /// Takes the first queued request. `encode` encodes a request.
    pub fn temporal_core_take_grpc_request<F: Fn(&PendingGrpcRequest) -> Vec<u8>>(
        &mut self,
        output_capacity: usize,
        encode: &F,
    ) -> (res: BridgeOutput)
        requires
            old(self).transport@.queue.len() > 0 ==> call_requires(
                *encode,
                (&old(self).transport@.queue[0],),
            ),
        ensures
            final(self).state == old(self).state,
            if old(self).transport@.queue.len() == 0 {
                res@ == bare_output(packed(BRIDGE_PENDING, 0)) && final(self).transport@
                    == old(self).transport@
            } else {
                request_handed_over(
                    old(self).transport@,
                    final(self).transport@,
                    *encode,
                    output_capacity as int,
                    res@,
                )
            },
            old(self).wf() ==> final(self).wf(),
    {
        take_next_grpc_request_output(&mut self.transport, output_capacity, encode)
    }

    /// Takes in the response of the host to request `id`, and hands out the responder that it goes
    /// to. `decode` decodes a response.
    pub fn temporal_core_complete_grpc_request<
        F: FnOnce(&[u8]) -> Result<BridgeGrpcResponse, String>,
    >(&mut self, id: u64, response: &[u8], error_capacity: usize, decode: F) -> (res:
        CompleteOutput<R>)
        requires
            response@.len() <= MAX_HOST_TRANSPORT_MESSAGE_BYTES ==> call_requires(
                decode,
                (response,),
            ),
            forall|decoded: BridgeGrpcResponse| #[trigger]
                call_ensures(decode, (response,), Ok(decoded)) ==> encodable_response(decoded),
        ensures
            final(self).state == old(self).state,
            old(self).wf() ==> final(self).wf(),
            if response@.len() > MAX_HOST_TRANSPORT_MESSAGE_BYTES {
                &&& final(self).transport@ == old(self).transport@
                &&& res.delivery is None
                &&& res.output@ == failed(
                    error_capacity,
                    over_message_limit("host transport response payload"@, response@.len()),
                )
            } else {
                exists|decoded: Result<BridgeGrpcResponse, String>| #[trigger]
                    call_ensures(decode, (response,), decoded) && response_taken_in(
                        old(self).transport@,
                        final(self).transport@,
                        id,
                        decoded,
                        error_capacity,
                        res,
                    )
            },
    {
        if let Err(error) = ensure_host_transport_response_size(response.len()) {
            return CompleteOutput {
                output: write_result(error_capacity, Err(error)),
                delivery: None,
            };
        }
        let decoded = decode(response);
        let ghost outcome = decoded;
        let bridged = match decoded {
            Ok(bridged) => bridged,
            Err(error) => {
                let error = join2("invalid host gRPC response protobuf: ", error.as_str());
                return CompleteOutput {
                    output: write_result(error_capacity, Err(error)),
                    delivery: None,
                };
            },
        };
        assert(outcome == Ok::<_, String>(bridged));
        let converted = into_grpc_response(bridged);
        assert(converts_to(bridged, converted));
        let delivered = match converted {
            Ok(delivered) => delivered,
            Err(error) => {
                return CompleteOutput {
                    output: write_result(error_capacity, Err(error)),
                    delivery: None,
                };
            },
        };
        match self.transport.complete(id) {
            Ok(responder) => CompleteOutput {
                output: write_result(error_capacity, Ok(Vec::new())),
                delivery: Some((responder, delivered)),
            },
            Err(error) => CompleteOutput {
                output: write_result(error_capacity, Err(error)),
                delivery: None,
            },
        }
    }

    /// Starts shutting the worker down.
    pub fn temporal_core_start_shutdown(&mut self, error_capacity: usize) -> (res: StartOutput)
        ensures
            final(self).transport == old(self).transport,
            old(self).wf() ==> final(self).wf(),
            match old(self).state {
                None => final(self).state is None && !res.started && res.output@ == failed(
                    error_capacity,
                    not_initialized(),
                ),
                Some(state) => if !(state.shutdown_result is Idle) {
                    &&& final(self).state == Some(state)
                    &&& !res.started
                    &&& res.output@ == failed(
                        error_capacity,
                        "worker shutdown"@ + " is already in progress"@,
                    )
                } else {
                    &&& final(self).state == Some(
                        BridgeState { shutdown_result: OperationState::Pending, ..state },
                    )
                    &&& res.started == state.worker is Some
                    &&& res.output@ == if state.worker is Some {
                        succeeded(error_capacity)
                    } else {
                        failed(error_capacity, not_complete())
                    }
                },
            },
    {
        match &mut self.state {
            None => start_failed(error_capacity, "Core worker is not initialized".to_owned()),
            Some(state) => {
                if let Err(error) = mark_pending(&mut state.shutdown_result, "worker shutdown") {
                    return start_failed(error_capacity, error);
                }
                match initialized_worker(state) {
                    Ok(_) => start_succeeded(error_capacity),
                    Err(error) => start_failed(error_capacity, error),
                }
            },
        }
    }

    /// Takes the outcome of shutting the worker down. Success resets the bridge.
    pub fn temporal_core_take_shutdown(&mut self, error_capacity: usize) -> (res: BridgeOutput)
        ensures
            old(self).wf() ==> final(self).wf(),
            match old(self).state {
                None => *final(self) == *old(self) && res@ == failed(
                    error_capacity,
                    not_initialized(),
                ),
                Some(state) => {
                    &&& res@ == take_answer(
                        Some(state.shutdown_result),
                        error_capacity as int,
                        slot_not_started(),
                        slot_not_started(),
                    )
                    &&& if code_of(res.word) == 0 {
                        final(self).is_reset(*old(self))
                    } else {
                        &&& final(self).transport == old(self).transport
                        &&& final(self).state == Some(
                            BridgeState {
                                shutdown_result: slot_after_take(state.shutdown_result, error_capacity as int),
                                ..state
                            },
                        )
                    }
                },
            },
    {
        let res = match &mut self.state {
            None => {
                return write_result(
                    error_capacity,
                    Err("Core worker is not initialized".to_owned()),
                );
            },
            Some(state) => take_operation_slot_result(&mut state.shutdown_result, error_capacity),
        };
        if unpack_result_code(res.word) == 0 {
            self.reset_bridge_state();
        }
        res
    }

    /// Starts initializing a worker with the limits that the host sets.
    ///
    /// `create_runtime` makes the runtime of the worker, and `build_config` has the core make a
    /// configuration from the settings. On success the result holds the identity with which to
    /// connect.
    pub fn temporal_core_init_with_worker_options<
        F: FnOnce() -> Result<T, String>,
        G: FnOnce(WorkerConfig) -> Result<K, String>,
    >(
        &mut self,
        namespace: Vec<u8>,
        task_queue: Vec<u8>,
        identity: Vec<u8>,
        max_concurrent_activity_executions: usize,
        max_concurrent_activity_task_pollers: usize,
        max_concurrent_workflow_task_executions: usize,
        max_concurrent_workflow_task_pollers: usize,
        max_cached_workflows: usize,
        max_eager_activity_reservations_per_workflow_task: usize,
        mode: u32,
        error_capacity: usize,
        create_runtime: F,
        build_config: G,
    ) -> (res: InitOutput)
        requires
            parameter_error(mode, namespace@, task_queue@, identity@) is None && old(
                self,
            ).state is None ==> call_requires(create_runtime, ()),
            // A configuration is made only for a runtime that is there.
            forall|runtime: T, config: WorkerConfig|
                #![trigger call_ensures(create_runtime, (), Ok(runtime)), call_requires(build_config, (config,))]
                parameter_error(mode, namespace@, task_queue@, identity@) is None && old(
                    self,
                ).state is None && call_ensures(create_runtime, (), Ok(runtime)) ==> call_requires(
                    build_config,
                    (config,),
                ),
        ensures
            old(self).wf() ==> final(self).wf(),
            match parameter_error(mode, namespace@, task_queue@, identity@) {
                Some(error) => *final(self) == *old(self) && res.identity is None && res.output@
                    == failed(error_capacity, error),
                None => if old(self).state is Some {
                    *final(self) == *old(self) && res.identity is None && res.output@ == failed(
                        error_capacity,
                        "Core worker is already initialized"@,
                    )
                } else {
                    exists|runtime: Result<T, String>| #[trigger]
                        call_ensures(create_runtime, (), runtime) && init_begun(
                            *old(self),
                            *final(self),
                            runtime,
                            mode_of(mode),
                            decode_utf8(namespace@),
                            decode_utf8(task_queue@),
                            decode_utf8(identity@),
                            (WorkerInitOptions {
                                max_concurrent_activity_executions,
                                max_concurrent_activity_task_pollers,
                                max_concurrent_workflow_task_executions,
                                max_concurrent_workflow_task_pollers,
                                max_cached_workflows,
                                max_eager_activity_reservations_per_workflow_task: if mode_of(mode)
                                    == BridgeInitMode::Combined
                                    && max_eager_activity_reservations_per_workflow_task != 0 {
                                    max_eager_activity_reservations_per_workflow_task
                                } else {
                                    DEFAULT_MAX_EAGER_ACTIVITY_RESERVATIONS_PER_WORKFLOW_TASK
                                },
                            }),
                            build_config,
                            error_capacity,
                            res,
                        )
                },
            },
    {
        let mode = match BridgeInitMode::try_from(mode) {
            Ok(mode) => mode,
            Err(error) => {
                return init_failed(error_capacity, error);
            },
        };
        let namespace = match read_string(namespace) {
            Ok(text) => text,
            Err(error) => {
                return init_failed(error_capacity, error);
            },
        };
        let task_queue = match read_string(task_queue) {
            Ok(text) => text,
            Err(error) => {
                return init_failed(error_capacity, error);
            },
        };
        let identity = match read_string(identity) {
            Ok(text) => text,
            Err(error) => {
                return init_failed(error_capacity, error);
            },
        };
        let options = match decode_worker_init_options(
            mode,
            max_concurrent_activity_executions,
            max_concurrent_activity_task_pollers,
            max_concurrent_workflow_task_executions,
            max_concurrent_workflow_task_pollers,
            max_cached_workflows,
            max_eager_activity_reservations_per_workflow_task,
        ) {
            Ok(options) => options,
            Err(error) => {
                return init_failed(error_capacity, error);
            },
        };
        if self.state.is_some() {
            return init_failed(error_capacity, "Core worker is already initialized".to_owned());
        }
        self.transport.reset();
        let created = create_runtime();
        let ghost outcome = created;
        let runtime = match created {
            Ok(runtime) => runtime,
            Err(error) => {
                return init_failed(error_capacity, error);
            },
        };
        assert(outcome == Ok::<_, String>(runtime));
        assert(call_ensures(create_runtime, (), Ok(runtime)));
        let built = worker_config_for_mode(mode, namespace, task_queue, options, build_config);
        let ghost verdict = built;
        assert(config_built(mode, namespace@, task_queue@, options, build_config, verdict));
        let worker_config = match built {
            Ok(worker_config) => worker_config,
            Err(error) => {
                return init_failed(error_capacity, error);
            },
        };
        let mut initialization_result = operation_slot();
        if let Err(error) = mark_pending(&mut initialization_result, "worker initialization") {
            return init_failed(error_capacity, error);
        }
        self.state = Some(
            BridgeState {
                mode,
                runtime,
                worker: None,
                worker_config: Some(worker_config),
                connection_result: None,
                initialization_result,
                workflow_poll_result: operation_slot(),
                workflow_completion_results: operation_registry(),
                activity_poll_result: operation_slot(),
                activity_completion_results: operation_registry(),
                shutdown_result: operation_slot(),
            },
        );
        InitOutput {
            output: write_result(error_capacity, Ok(Vec::new())),
            identity: Some(identity),
        }
    }

    /// Makes the worker once it is connected, and takes the outcome of the initialization.
    ///
    /// `init_worker` makes a worker. If the result says so, the worker is made and is to be
    /// validated. A failed initialization resets the bridge.
    pub fn temporal_core_take_init<F: FnOnce(&T, K, C) -> Result<W, String>>(
        &mut self,
        error_capacity: usize,
        init_worker: F,
    ) -> (res: StartOutput)
        requires
            old(self).state matches Some(state) ==> is_ready_for(state, init_worker),
        ensures
            old(self).wf() ==> final(self).wf(),
            match old(self).state {
                None => final(self).is_reset(*old(self)) && !res.started && res.output@ == failed(
                    error_capacity,
                    not_initialized(),
                ),
                Some(state) => exists|after: BridgeState<T, W, C, K>, made: Result<bool, String>|
                    #[trigger] worker_made(state, after, init_worker, made) && init_taken(
                        *old(self),
                        *final(self),
                        after,
                        made,
                        error_capacity,
                        res,
                    ),
            },
    {
        let prepared = match &mut self.state {
            None => Err("Core worker is not initialized".to_owned()),
            Some(state) => make_worker(state, init_worker),
        };
        let ghost mid = self.state;
        let started = match prepared {
            Ok(started) => started,
            Err(error) => {
                let output = write_result(error_capacity, Err(error));
                self.reset_bridge_state();
                return StartOutput { output, started: false };
            },
        };
        let output = match &mut self.state {
            None => write_result(error_capacity, Err("Core worker is not initialized".to_owned())),
            Some(state) => take_operation_slot_result(
                &mut state.initialization_result,
                error_capacity,
            ),
        };
        if unpack_result_code(output.word) == BRIDGE_ERROR {
            self.reset_bridge_state();
        }
        StartOutput { output, started }
    }
}

/// What taking in a response of the host hands back.
#[derive(Debug)]
pub struct CompleteOutput<R> {
    pub output: BridgeOutput,
    /// The responder, and what it is to send to the core.
    pub delivery: Option<(R, HostGrpcResponse)>,
}

/// A response that was decoded as told went to the responder of request `id`, or was refused.
pub open spec fn response_taken_in<R>(
    before: TransportState<R>,
    after: TransportState<R>,
    id: u64,
    decoded: Result<BridgeGrpcResponse, String>,
    capacity: usize,
    res: CompleteOutput<R>,
) -> bool {
    match decoded {
        Err(error) => {
            &&& after == before
            &&& res.delivery is None
            &&& res.output@ == failed(
                capacity,
                "invalid host gRPC response protobuf: "@ + error@,
            )
        },
        Ok(response) => exists|converted: Result<HostGrpcResponse, String>| #[trigger]
            converts_to(response, converted) && match converted {
                Err(error) => {
                    &&& after == before
                    &&& res.delivery is None
                    &&& res.output@ == failed(capacity, error@)
                },
                Ok(delivered) => if before.responders.contains_key(id) {
                    &&& after == (TransportState {
                        responders: before.responders.remove(id),
                        ..before
                    })
                    &&& res.delivery == Some((before.responders[id], delivered))
                    &&& res.output@ == succeeded(capacity)
                } else {
                    &&& after == before
                    &&& res.delivery is None
                    &&& res.output@ == failed(
                        capacity,
                        "unknown host transport request id "@ + decimal(id as nat),
                    )
                },
            },
    }
}

/// What starting an initialization hands back.
#[derive(Debug)]
pub struct InitOutput {
    pub output: BridgeOutput,
    /// The identity with which to connect, if the initialization started.
    pub identity: Option<String>,
}

fn init_failed(error_capacity: usize, error: String) -> (res: InitOutput)
    ensures
        res.output@ == failed(error_capacity, error@),
        res.identity is None,
{
    InitOutput { output: write_result(error_capacity, Err(error)), identity: None }
}

/// The mode that hosts name by a number up to 2.
pub open spec fn mode_of(number: u32) -> BridgeInitMode {
    if number == 0 {
        BridgeInitMode::ActivityOnly
    } else if number == 1 {
        BridgeInitMode::WorkflowOnly
    } else {
        BridgeInitMode::Combined
    }
}

/// What is wrong with the parameters of an initialization, if anything.
pub open spec fn parameter_error(
    mode: u32,
    namespace: Seq<u8>,
    task_queue: Seq<u8>,
    identity: Seq<u8>,
) -> Option<Seq<char>> {
    if mode > 2 {
        Some("unsupported bridge init mode "@ + decimal(mode as nat))
    } else if !valid_utf8(namespace) {
        Some(not_utf8(namespace))
    } else if !valid_utf8(task_queue) {
        Some(not_utf8(task_queue))
    } else if !valid_utf8(identity) {
        Some(not_utf8(identity))
    } else {
        None
    }
}

/// An initialization with parameters in order began on the runtime that was created, with the
/// configuration that the core built, or failed. Either way all requests are forgotten.
pub open spec fn init_begun<T, W, C, K, R, G: FnOnce(WorkerConfig) -> Result<K, String>>(
    before: Bridge<T, W, C, K, R>,
    after: Bridge<T, W, C, K, R>,
    runtime: Result<T, String>,
    mode: BridgeInitMode,
    namespace: Seq<char>,
    task_queue: Seq<char>,
    identity: Seq<char>,
    options: WorkerInitOptions,
    build_config: G,
    capacity: usize,
    res: InitOutput,
) -> bool {
    match runtime {
        Err(error) => {
            &&& after.is_reset(before)
            &&& res.identity is None
            &&& res.output@ == failed(capacity, error@)
        },
        Ok(runtime) => exists|config: Result<K, String>| #[trigger]
            config_built(mode, namespace, task_queue, options, build_config, config)
                && match config {
                Err(error) => {
                    &&& after.is_reset(before)
                    &&& res.identity is None
                    &&& res.output@ == failed(capacity, error@)
                },
                Ok(config) => {
                    &&& (Bridge { state: None, ..after }).is_reset(before)
                    &&& after.state matches Some(state) && state.is_fresh(mode, runtime, config)
                    &&& res.identity matches Some(text) && text@ == identity
                    &&& res.output@ == succeeded(capacity)
                },
            },
    }
}

/// If the state has what a worker is made of and none was made, the function may make it. In any other
/// state it is not called.
pub open spec fn is_ready_for<T, W, C, K, F: FnOnce(&T, K, C) -> Result<W, String>>(
    state: BridgeState<T, W, C, K>,
    init_worker: F,
) -> bool {
    match (state.worker, state.connection_result, state.worker_config) {
        (None, Some(Ok(connection)), Some(config)) => call_requires(
            init_worker,
            (&state.runtime, config, connection),
        ),
        _ => true,
    }
}

/// What happens on the way to a worker: once the connection is there it is used up, and gives a
/// worker or a failed initialization.
pub open spec fn worker_made<T, W, C, K, F: FnOnce(&T, K, C) -> Result<W, String>>(
    before: BridgeState<T, W, C, K>,
    after: BridgeState<T, W, C, K>,
    init_worker: F,
    made: Result<bool, String>,
) -> bool {
    if before.worker is Some || before.connection_result is None {
        made == Ok::<_, String>(false) && after == before
    } else {
        match before.connection_result->Some_0 {
            Err(error) => {
                &&& made == Ok::<_, String>(false)
                &&& after == (BridgeState {
                    connection_result: None,
                    initialization_result: OperationState::Ready(Err(error)),
                    ..before
                })
            },
            Ok(connection) => match before.worker_config {
                None => {
                    &&& made matches Err(error) && error@ == "worker configuration is missing"@
                    &&& after == (BridgeState { connection_result: None, ..before })
                },
                Some(config) => exists|worker: Result<W, String>| #[trigger]
                    call_ensures(init_worker, (&before.runtime, config, connection), worker)
                        && match worker {
                        Ok(worker) => {
                            &&& made == Ok::<_, String>(true)
                            &&& after == (BridgeState {
                                connection_result: None,
                                worker_config: None,
                                worker: Some(worker),
                                ..before
                            })
                        },
                        Err(error) => {
                            &&& made == Ok::<_, String>(false)
                            &&& after == (BridgeState {
                                connection_result: None,
                                worker_config: None,
                                initialization_result: after.initialization_result,
                                ..before
                            })
                            &&& after.initialization_result matches OperationState::Ready(
                                Err(text),
                            ) && text@ == "failed to initialize "@ + before.mode.kind_name()
                                + " worker: "@ + error@
                        },
                    },
            },
        }
    }
}

/// Makes the worker of a state, once it is connected. Says whether it was made now.
fn make_worker<T, W, C, K, F: FnOnce(&T, K, C) -> Result<W, String>>(
    state: &mut BridgeState<T, W, C, K>,
    init_worker: F,
) -> (res: Result<bool, String>)
    requires
        is_ready_for(*old(state), init_worker),
    ensures
        worker_made(*old(state), *final(state), init_worker, res),
{
    if state.worker.is_some() {
        return Ok(false);
    }
    let connection = match state.connection_result.take() {
        None => {
            return Ok(false);
        },
        Some(Err(error)) => {
            set_ready(&mut state.initialization_result, Err(error));
            return Ok(false);
        },
        Some(Ok(connection)) => connection,
    };
    let config = match state.worker_config.take() {
        None => {
            return Err("worker configuration is missing".to_owned());
        },
        Some(config) => config,
    };
    let made = init_worker(&state.runtime, config, connection);
    let ghost outcome = made;
    assert(call_ensures(init_worker, (&old(state).runtime, config, connection), outcome));
    match made {
        Ok(worker) => {
            state.worker = Some(worker);
            Ok(true)
        },
        Err(error) => {
            let text = join4(
                "failed to initialize ",
                state.mode.worker_kind(),
                " worker: ",
                error.as_str(),
            );
            set_ready(&mut state.initialization_result, Err(text));
            Ok(false)
        },
    }
}

/// The outcome of an initialization was taken from a state that became `after` on the way.
pub open spec fn init_taken<T, W, C, K, R>(
    before: Bridge<T, W, C, K, R>,
    last: Bridge<T, W, C, K, R>,
    after: BridgeState<T, W, C, K>,
    made: Result<bool, String>,
    capacity: usize,
    res: StartOutput,
) -> bool {
    match made {
        Err(error) => {
            &&& last.is_reset(before)
            &&& !res.started
            &&& res.output@ == failed(capacity, error@)
        },
        Ok(started) => {
            &&& res.started == started
            &&& res.output@ == take_answer(
                Some(after.initialization_result),
                capacity as int,
                slot_not_started(),
                slot_not_started(),
            )
            &&& if code_of(res.output.word) == BRIDGE_ERROR {
                last.is_reset(before)
            } else {
                &&& last.transport == before.transport
                &&& last.state == Some(
                    BridgeState {
                        initialization_result: slot_after_take(after.initialization_result, capacity as int),
                        ..after
                    },
                )
            }
        },
    }
}

/// The operation is over with this result.
pub open spec fn is_ready(operation: OperationState, result: Result<Seq<u8>, Seq<char>>) -> bool {
    operation matches OperationState::Ready(value) && result_view(value) == result
}

/// A result whose error is told in context.
pub open spec fn in_context(
    result: Result<Vec<u8>, String>,
    context: Seq<char>,
) -> Result<Seq<u8>, Seq<char>> {
    match result {
        Ok(output) => Ok(output@),
        Err(error) => Err(context + error@),
    }
}

fn add_context(result: Result<Vec<u8>, String>, context: &str) -> (res: Result<Vec<u8>, String>)
    ensures
        result_view(res) == in_context(result, context@),
{
    match result {
        Ok(output) => Ok(output),
        Err(error) => Err(join2(context, error.as_str())),
    }
}

impl<T, W, C, K, R> Bridge<T, W, C, K, R> {
    /// Takes in the outcome of connecting.
    pub fn connection_finished(&mut self, result: Result<C, String>)
        ensures
            final(self).transport == old(self).transport,
            old(self).wf() ==> final(self).wf(),
            match old(self).state {
                None => final(self).state is None,
                Some(state) => {
                    &&& final(self).state matches Some(after)
                    &&& after == (BridgeState {
                        connection_result: after.connection_result,
                        ..state
                    })
                    &&& match result {
                        Ok(connection) => after.connection_result == Some(
                            Ok::<_, String>(connection),
                        ),
                        Err(error) => after.connection_result matches Some(Err(text)) && text@
                            == "failed to initialize callback gRPC client: "@ + error@,
                    }
                },
            },
    {
        if let Some(state) = &mut self.state {
            state.connection_result = Some(
                match result {
                    Ok(connection) => Ok(connection),
                    Err(error) => Err(
                        join2("failed to initialize callback gRPC client: ", error.as_str()),
                    ),
                },
            );
        }
    }

    /// Takes in the outcome of validating the worker.
    pub fn validation_finished(&mut self, result: Result<Vec<u8>, String>)
        ensures
            final(self).transport == old(self).transport,
            old(self).wf() ==> final(self).wf(),
            match old(self).state {
                None => final(self).state is None,
                Some(state) => {
                    &&& final(self).state matches Some(after)
                    &&& after == (BridgeState {
                        initialization_result: after.initialization_result,
                        ..state
                    })
                    &&& is_ready(
                        after.initialization_result,
                        in_context(
                            result,
                            state.mode.kind_name() + " worker validation failed: "@,
                        ),
                    )
                },
            },
    {
        if let Some(state) = &mut self.state {
            let context = join2(state.mode.worker_kind(), " worker validation failed: ");
            set_ready(&mut state.initialization_result, add_context(result, context.as_str()));
        }
    }

    /// Takes in the outcome of polling for an activity task.
    pub fn activity_poll_finished(&mut self, result: Result<Vec<u8>, String>)
        ensures
            final(self).transport == old(self).transport,
            old(self).wf() ==> final(self).wf(),
            match old(self).state {
                None => final(self).state is None,
                Some(state) => {
                    &&& final(self).state matches Some(after)
                    &&& after == (BridgeState {
                        activity_poll_result: after.activity_poll_result,
                        ..state
                    })
                    &&& is_ready(after.activity_poll_result, in_context(result, "activity poll failed: "@))
                },
            },
    {
        if let Some(state) = &mut self.state {
            set_ready(&mut state.activity_poll_result, add_context(result, "activity poll failed: "));
        }
    }

    /// Takes in the outcome of completing an activity task. An operation that is not registered any more is ignored.
    pub fn activity_completion_finished(&mut self, operation_id: u64, result: Result<Vec<u8>, String>)
        ensures
            final(self).transport == old(self).transport,
            old(self).wf() ==> final(self).wf(),
            match old(self).state {
                None => final(self).state is None,
                Some(state) => {
                    &&& final(self).state matches Some(after)
                    &&& after == (BridgeState {
                        activity_completion_results: after.activity_completion_results,
                        ..state
                    })
                    &&& if state.activity_completion_results@.contains_key(operation_id) {
                        &&& after.activity_completion_results@ == state.activity_completion_results@.insert(
                            operation_id,
                            after.activity_completion_results@[operation_id],
                        )
                        &&& is_ready(
                            after.activity_completion_results@[operation_id],
                            in_context(result, "activity completion failed: "@),
                        )
                    } else {
                        after.activity_completion_results@ == state.activity_completion_results@
                    }
                },
            },
    {
        if let Some(state) = &mut self.state {
            set_operation_ready(
                &mut state.activity_completion_results,
                operation_id,
                add_context(result, "activity completion failed: "),
            );
        }
    }

    /// Takes in the outcome of polling for a workflow activation.
    pub fn workflow_poll_finished(&mut self, result: Result<Vec<u8>, String>)
        ensures
            final(self).transport == old(self).transport,
            old(self).wf() ==> final(self).wf(),
            match old(self).state {
                None => final(self).state is None,
                Some(state) => {
                    &&& final(self).state matches Some(after)
                    &&& after == (BridgeState {
                        workflow_poll_result: after.workflow_poll_result,
                        ..state
                    })
                    &&& is_ready(after.workflow_poll_result, in_context(result, "workflow activation poll failed: "@))
                },
            },
    {
        if let Some(state) = &mut self.state {
            set_ready(&mut state.workflow_poll_result, add_context(result, "workflow activation poll failed: "));
        }
    }

    /// Takes in the outcome of completing a workflow activation. An operation that is not registered any more is ignored.
    pub fn workflow_completion_finished(&mut self, operation_id: u64, result: Result<Vec<u8>, String>)
        ensures
            final(self).transport == old(self).transport,
            old(self).wf() ==> final(self).wf(),
            match old(self).state {
                None => final(self).state is None,
                Some(state) => {
                    &&& final(self).state matches Some(after)
                    &&& after == (BridgeState {
                        workflow_completion_results: after.workflow_completion_results,
                        ..state
                    })
                    &&& if state.workflow_completion_results@.contains_key(operation_id) {
                        &&& after.workflow_completion_results@ == state.workflow_completion_results@.insert(
                            operation_id,
                            after.workflow_completion_results@[operation_id],
                        )
                        &&& is_ready(
                            after.workflow_completion_results@[operation_id],
                            in_context(result, "workflow activation completion failed: "@),
                        )
                    } else {
                        after.workflow_completion_results@ == state.workflow_completion_results@
                    }
                },
            },
    {
        if let Some(state) = &mut self.state {
            set_operation_ready(
                &mut state.workflow_completion_results,
                operation_id,
                add_context(result, "workflow activation completion failed: "),
            );
        }
    }

    /// Takes in that the worker was shut down.
    pub fn shutdown_finished(&mut self)
        ensures
            final(self).transport == old(self).transport,
            old(self).wf() ==> final(self).wf(),
            match old(self).state {
                None => final(self).state is None,
                Some(state) => {
                    &&& final(self).state matches Some(after)
                    &&& after == (BridgeState { shutdown_result: after.shutdown_result, ..state })
                    &&& is_ready(after.shutdown_result, Ok(Seq::empty()))
                },
            },
    {
        if let Some(state) = &mut self.state {
            set_ready(&mut state.shutdown_result, Ok(Vec::new()));
        }
    }
}

} // verus!
