//! How a worker comes to be behind the bridge.

use super::abi_laws::{lemma_tells, lemma_word, tells_error, tells_success};
use super::config::{config_built, BridgeInitMode, WorkerConfig, WorkerInitOptions};
use super::config_laws::{configured, kind_of, lemma_configured};
use super::operation_laws::{is_handed_over, lemma_tells_operation, size_of_result, tells_operation};
use super::operations::OperationState;
use super::state::{utf8_error_text, worker_made, Bridge, BridgeState, InitOutput, StartOutput};
use super::state_laws::{is_cleared, is_untouched, starts_nothing};
use crate::text::decimal;
use vstd::prelude::*;
use vstd::utf8::{decode_utf8, valid_utf8};

verus! {

/// The mode that a host names by this number.
pub open spec fn is_named(mode: BridgeInitMode, number: u32) -> bool {
    match mode {
        BridgeInitMode::ActivityOnly => number == 0,
        BridgeInitMode::WorkflowOnly => number == 1,
        BridgeInitMode::Combined => number == 2,
    }
}

/// A worker that waits for its connection, and of which nothing was asked yet.
pub open spec fn waits_for_connection<T, W, C, K>(
    state: BridgeState<T, W, C, K>,
    mode: BridgeInitMode,
    runtime: T,
    config: K,
) -> bool {
    &&& state.mode == mode
    &&& state.runtime == runtime
    &&& state.worker_config == Some(config)
    &&& state.worker is None
    &&& state.connection_result is None
    &&& state.initialization_result is Pending
    &&& state.workflow_poll_result is Idle
    &&& state.activity_poll_result is Idle
    &&& state.shutdown_result is Idle
    &&& forall|id: u64| !#[trigger] state.workflow_completion_results@.contains_key(id)
    &&& forall|id: u64| !#[trigger] state.activity_completion_results@.contains_key(id)
}

/// What an initialization gives when this runtime was made for it.
pub open spec fn initializes<T, W, C, K, R, G: FnOnce(WorkerConfig) -> Result<K, String>>(
    before: Bridge<T, W, C, K, R>,
    after: Bridge<T, W, C, K, R>,
    made: Result<T, String>,
    mode: BridgeInitMode,
    namespace: Seq<char>,
    task_queue: Seq<char>,
    identity: Seq<char>,
    options: WorkerInitOptions,
    build: G,
    capacity: usize,
    res: InitOutput,
) -> bool {
    match made {
        Err(error) => {
            &&& is_cleared(before, after)
            &&& res.identity is None
            &&& tells_error(res.output.word, res.output.bytes@, capacity as int, error@)
        },
        Ok(runtime) => exists|config: Result<K, String>| #[trigger]
            configured(mode, namespace, task_queue, options, build, config) && match config {
                Err(error) => {
                    &&& is_cleared(before, after)
                    &&& res.identity is None
                    &&& tells_error(res.output.word, res.output.bytes@, capacity as int, error@)
                },
                Ok(config) => {
                    &&& is_cleared(before, Bridge { state: None, ..after })
                    &&& after.state is Some
                    &&& waits_for_connection(after.state->Some_0, mode, runtime, config)
                    &&& res.identity is Some
                    &&& res.identity->Some_0@ == identity
                    &&& tells_success(res.output.word, res.output.bytes@)
                },
            },
    }
}

/// The initialization is refused because these bytes, which are to be a name, are no text.
pub open spec fn is_refused_as_no_text<T, W, C, K, R>(
    before: Bridge<T, W, C, K, R>,
    after: Bridge<T, W, C, K, R>,
    bytes: Seq<u8>,
    capacity: usize,
    res: InitOutput,
) -> bool {
    &&& is_untouched(before, after)
    &&& res.identity is None
    &&& tells_error(
        res.output.word,
        res.output.bytes@,
        capacity as int,
        "bridge string parameter is not UTF-8: "@ + utf8_error_text(bytes),
    )
}

/// An initialization is refused, without touching the bridge, if the host names no mode, if a name is
/// no text, or if a worker is there. Otherwise the bridge is cleared and a worker set up in the mode
/// that the host named, for its namespace and task queue, by its limits; it waits for the connection
/// that the identity of the host is to make. If that fails, the bridge stays cleared.
pub proof fn law_initializations_set_up_a_worker<
    T,
    W,
    C,
    K,
    R,
    F: FnOnce() -> Result<T, String>,
    G: FnOnce(WorkerConfig) -> Result<K, String>,
>(
    bridge: &mut Bridge<T, W, C, K, R>,
    namespace: Vec<u8>,
    task_queue: Vec<u8>,
    identity: Vec<u8>,
    activities: usize,
    activity_pollers: usize,
    workflows: usize,
    workflow_pollers: usize,
    cached: usize,
    eager: usize,
    number: u32,
    capacity: usize,
    create_runtime: F,
    build: G,
    res: InitOutput,
    mode: BridgeInitMode,
    options: WorkerInitOptions,
)
    requires
        call_ensures(
            Bridge::<T, W, C, K, R>::temporal_core_init_with_worker_options::<F, G>,
            (
                bridge,
                namespace,
                task_queue,
                identity,
                activities,
                activity_pollers,
                workflows,
                workflow_pollers,
                cached,
                eager,
                number,
                capacity,
                create_runtime,
                build,
            ),
            res,
        ),
        number <= 2 ==> is_named(mode, number),
        options.max_concurrent_activity_executions == activities,
        options.max_concurrent_activity_task_pollers == activity_pollers,
        options.max_concurrent_workflow_task_executions == workflows,
        options.max_concurrent_workflow_task_pollers == workflow_pollers,
        options.max_cached_workflows == cached,
        options.max_eager_activity_reservations_per_workflow_task == if mode
            == BridgeInitMode::Combined && eager > 0 {
            eager
        } else {
            3
        },
    ensures
        number > 2 ==> is_untouched(*old(bridge), *final(bridge)) && res.identity is None
            && tells_error(
            res.output.word,
            res.output.bytes@,
            capacity as int,
            "unsupported bridge init mode "@ + decimal(number as nat),
        ),
        number <= 2 && !valid_utf8(namespace@) ==> is_refused_as_no_text(
            *old(bridge),
            *final(bridge),
            namespace@,
            capacity,
            res,
        ),
        number <= 2 && valid_utf8(namespace@) && !valid_utf8(task_queue@) ==> is_refused_as_no_text(
            *old(bridge),
            *final(bridge),
            task_queue@,
            capacity,
            res,
        ),
        number <= 2 && valid_utf8(namespace@) && valid_utf8(task_queue@) && !valid_utf8(identity@)
            ==> is_refused_as_no_text(*old(bridge), *final(bridge), identity@, capacity, res),
        number <= 2 && valid_utf8(namespace@) && valid_utf8(task_queue@) && valid_utf8(identity@)
            ==> {
            &&& old(bridge).state is Some ==> is_untouched(*old(bridge), *final(bridge))
                && res.identity is None && tells_error(
                res.output.word,
                res.output.bytes@,
                capacity as int,
                "Core worker is already initialized"@,
            )
            &&& old(bridge).state is None ==> exists|made: Result<T, String>| #[trigger]
                call_ensures(create_runtime, (), made) && initializes(
                    *old(bridge),
                    *final(bridge),
                    made,
                    mode,
                    decode_utf8(namespace@),
                    decode_utf8(task_queue@),
                    decode_utf8(identity@),
                    options,
                    build,
                    capacity,
                    res,
                )
        },
{
    assert(res.output@.word == res.output.word && res.output@.bytes == res.output.bytes@);
    lemma_tells(capacity, "unsupported bridge init mode "@ + decimal(number as nat));
    lemma_tells(capacity, "Core worker is already initialized"@);
    lemma_tells(capacity, super::state::not_utf8(namespace@));
    lemma_tells(capacity, super::state::not_utf8(task_queue@));
    lemma_tells(capacity, super::state::not_utf8(identity@));
    if number <= 2 && valid_utf8(namespace@) && valid_utf8(task_queue@) && valid_utf8(identity@)
        && old(bridge).state is None {
        let ns = decode_utf8(namespace@);
        let tq = decode_utf8(task_queue@);
        let id = decode_utf8(identity@);
        assert(super::state::mode_of(number) == mode);
        let made = choose|made: Result<T, String>| #[trigger]
            call_ensures(create_runtime, (), made) && super::state::init_begun(
                *old(bridge),
                *final(bridge),
                made,
                mode,
                ns,
                tq,
                id,
                options,
                build,
                capacity,
                res,
            );
        match made {
            Err(error) => {
                lemma_tells(capacity, error@);
            },
            Ok(runtime) => {
                let config = choose|config: Result<K, String>| #[trigger]
                    config_built(mode, ns, tq, options, build, config) && match config {
                        Err(error) => {
                            &&& final(bridge).is_reset(*old(bridge))
                            &&& res.identity is None
                            &&& res.output@ == super::state::failed(capacity, error@)
                        },
                        Ok(config) => {
                            &&& (Bridge { state: None, ..*final(bridge) }).is_reset(*old(bridge))
                            &&& final(bridge).state matches Some(state) && state.is_fresh(
                                mode,
                                runtime,
                                config,
                            )
                            &&& res.identity matches Some(text) && text@ == id
                            &&& res.output@ == super::state::succeeded(capacity)
                        },
                    };
                lemma_configured(mode, ns, tq, options, build, config);
                if let Err(error) = config {
                    lemma_tells(capacity, error@);
                }
                assert(configured(mode, ns, tq, options, build, config));
            },
        }
        assert(initializes(
            *old(bridge),
            *final(bridge),
            made,
            mode,
            ns,
            tq,
            id,
            options,
            build,
            capacity,
            res,
        ));
    }
}

/// The outcome of an initialization is told from this state of it. If it is told to have failed, the
/// bridge is cleared; otherwise the worker stays, and `rest` is how it stands but for the
/// initialization, from which an outcome that was told whole is gone.
pub open spec fn tells_initialization<T, W, C, K, R>(
    before: Bridge<T, W, C, K, R>,
    after: Bridge<T, W, C, K, R>,
    rest: BridgeState<T, W, C, K>,
    outcome: OperationState,
    capacity: usize,
    res: StartOutput,
) -> bool {
    &&& tells_operation(
        res.output.word,
        res.output.bytes@,
        capacity as int,
        outcome,
        "operation has not been started"@,
    )
    &&& res.output.word < 0 ==> is_cleared(before, after)
    &&& res.output.word >= 0 ==> {
        &&& after.transport == before.transport
        &&& after.state is Some
        &&& after.state->Some_0 == (BridgeState {
            initialization_result: after.state->Some_0.initialization_result,
            ..rest
        })
        &&& is_handed_over(outcome, capacity as int)
            ==> after.state->Some_0.initialization_result is Idle
        &&& !is_handed_over(outcome, capacity as int)
            ==> after.state->Some_0.initialization_result == outcome
    }
}

/// The initialization failed with this text.
pub open spec fn is_failure(outcome: OperationState, text: Seq<char>) -> bool {
    outcome matches OperationState::Ready(Err(told)) && told@ == text
}

/// What taking the outcome of an initialization gives when this worker was made for it.
pub open spec fn makes_worker<T, W, C, K, R>(
    before: Bridge<T, W, C, K, R>,
    after: Bridge<T, W, C, K, R>,
    state: BridgeState<T, W, C, K>,
    made: Result<W, String>,
    capacity: usize,
    res: StartOutput,
) -> bool {
    match made {
        Ok(worker) => {
            &&& res.started
            &&& tells_initialization(
                before,
                after,
                BridgeState {
                    connection_result: None,
                    worker_config: None,
                    worker: Some(worker),
                    ..state
                },
                state.initialization_result,
                capacity,
                res,
            )
        },
        Err(error) => {
            &&& !res.started
            &&& exists|outcome: OperationState| #[trigger]
                is_failure(
                    outcome,
                    "failed to initialize "@ + kind_of(state.mode) + " worker: "@ + error@,
                ) && tells_initialization(
                    before,
                    after,
                    BridgeState { connection_result: None, worker_config: None, ..state },
                    outcome,
                    capacity,
                    res,
                )
        },
    }
}

/// Once the connection is there, taking the outcome of an initialization makes the worker, from the
/// runtime, the configuration and the connection of the initialization; the worker is then to be
/// validated. A connection or a worker that could not be made is a failed initialization, and one that
/// is told clears the bridge. While there is no connection, or once there is a worker, nothing is made,
/// and it is told where the initialization stands.
pub proof fn law_connected_workers_are_made<T, W, C, K, R, F: FnOnce(&T, K, C) -> Result<W, String>>(
    bridge: &mut Bridge<T, W, C, K, R>,
    capacity: usize,
    init_worker: F,
    res: StartOutput,
)
    requires
        call_ensures(
            Bridge::<T, W, C, K, R>::temporal_core_take_init::<F>,
            (bridge, capacity, init_worker),
            res,
        ),
    ensures
        old(bridge).state is None ==> is_cleared(*old(bridge), *final(bridge)) && starts_nothing(
            res,
            capacity,
            "Core worker is not initialized"@,
        ),
        old(bridge).state matches Some(state) ==> {
            &&& state.worker is Some || state.connection_result is None ==> !res.started
                && tells_initialization(
                *old(bridge),
                *final(bridge),
                state,
                state.initialization_result,
                capacity,
                res,
            )
            &&& state.worker is None && state.connection_result is Some ==> {
                &&& state.connection_result->Some_0 matches Err(error) ==> !res.started
                    && tells_initialization(
                    *old(bridge),
                    *final(bridge),
                    BridgeState { connection_result: None, ..state },
                    OperationState::Ready(Err(error)),
                    capacity,
                    res,
                )
                &&& state.connection_result->Some_0 is Ok && state.worker_config is None
                    ==> is_cleared(*old(bridge), *final(bridge)) && starts_nothing(
                    res,
                    capacity,
                    "worker configuration is missing"@,
                )
                &&& state.connection_result->Some_0 is Ok && state.worker_config is Some
                    ==> exists|made: Result<W, String>|
                    #![trigger call_ensures(init_worker, (&state.runtime, state.worker_config->Some_0, state.connection_result->Some_0->Ok_0), made)]
                    call_ensures(
                        init_worker,
                        (
                            &state.runtime,
                            state.worker_config->Some_0,
                            state.connection_result->Some_0->Ok_0,
                        ),
                        made,
                    ) && makes_worker(*old(bridge), *final(bridge), state, made, capacity, res)
            }
        },
{
    assert(res.output@.word == res.output.word && res.output@.bytes == res.output.bytes@);
    lemma_tells(capacity, "Core worker is not initialized"@);
    lemma_tells(capacity, "worker configuration is missing"@);
    if let Some(state) = old(bridge).state {
        let (after, outcome) = choose|
            after: BridgeState<T, W, C, K>,
            outcome: Result<bool, String>,
        | #[trigger]
            worker_made(state, after, init_worker, outcome) && super::state::init_taken(
                *old(bridge),
                *final(bridge),
                after,
                outcome,
                capacity,
                res,
            );
        lemma_tells_operation(
            after.initialization_result,
            capacity as int,
            "operation has not been started"@,
            "operation has not been started"@,
        );
        super::abi::law_pack_undoes_unpack(res.output.word);
        lemma_word(
            super::abi::code_of(res.output.word),
            super::abi::len_of(res.output.word),
        );
        if let Ok(started) = outcome {
            lemma_told_sign(after.initialization_result, capacity, res);
            assert(tells_initialization(
                *old(bridge),
                *final(bridge),
                after,
                after.initialization_result,
                capacity,
                res,
            ));
        }
        if state.worker is None && state.connection_result is Some {
            if let Ok(connection) = state.connection_result->Some_0 {
                if let Some(config) = state.worker_config {
                    let made = choose|made: Result<W, String>| #[trigger]
                        call_ensures(init_worker, (&state.runtime, config, connection), made)
                            && match made {
                            Ok(worker) => {
                                &&& outcome == Ok::<_, String>(true)
                                &&& after == (BridgeState {
                                    connection_result: None,
                                    worker_config: None,
                                    worker: Some(worker),
                                    ..state
                                })
                            },
                            Err(error) => {
                                &&& outcome == Ok::<_, String>(false)
                                &&& after == (BridgeState {
                                    connection_result: None,
                                    worker_config: None,
                                    initialization_result: after.initialization_result,
                                    ..state
                                })
                                &&& after.initialization_result matches OperationState::Ready(
                                    Err(text),
                                ) && text@ == "failed to initialize "@ + state.mode.kind_name()
                                    + " worker: "@ + error@
                            },
                        };
                    if let Err(error) = made {
                        assert(is_failure(
                            after.initialization_result,
                            "failed to initialize "@ + kind_of(state.mode) + " worker: "@ + error@,
                        ));
                    }
                    assert(makes_worker(
                        *old(bridge),
                        *final(bridge),
                        state,
                        made,
                        capacity,
                        res,
                    ));
                }
            }
        }
    }
}

/// A word that tells an operation is negative exactly if it carries the code of an error.
proof fn lemma_told_sign(outcome: OperationState, capacity: usize, res: StartOutput)
    requires
        res.output@ == super::operations::take_answer(
            Some(outcome),
            capacity as int,
            "operation has not been started"@,
            "operation has not been started"@,
        ),
    ensures
        super::abi::code_of(res.output.word) == -1 <==> res.output.word < 0,
{
    let word = res.output.word;
    super::abi::law_pack_undoes_unpack(word);
    lemma_word(super::abi::code_of(word), super::abi::len_of(word));
    lemma_tells_operation(
        outcome,
        capacity as int,
        "operation has not been started"@,
        "operation has not been started"@,
    );
    if let OperationState::Ready(result) = outcome {
        let n = size_of_result(result);
        super::abi_laws::lemma_tells_error(
            capacity as int,
            super::abi::over_abi_limit("bridge output"@, n),
        );
    }
    assert(word >= -0x1_0000_0000);
}

} // verus!
