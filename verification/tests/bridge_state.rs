use temporal_worker::bridge::abi::{
    unpack_result, BridgeOutput, BRIDGE_BUFFER_TOO_SMALL, BRIDGE_ERROR, BRIDGE_PENDING,
};
use temporal_worker::bridge::config::{
    activity_worker_config, decode_worker_init_options, worker_config_for_mode,
    workflow_worker_config, BridgeInitMode, PollerBehavior, WorkerConfig, WorkerInitOptions,
    WorkerTaskTypes,
};
use temporal_worker::bridge::metadata::BridgeGrpcResponse;
use temporal_worker::bridge::operations::OperationState;
use temporal_worker::bridge::state::{read_string, Bridge};
use temporal_worker::bridge::transport::{GrpcRequest, PendingGrpcRequest};

type TestBridge = Bridge<&'static str, &'static str, &'static str, WorkerConfig, &'static str>;

fn options() -> WorkerInitOptions {
    WorkerInitOptions {
        max_concurrent_activity_executions: 12,
        max_concurrent_activity_task_pollers: 3,
        max_concurrent_workflow_task_executions: 2,
        max_concurrent_workflow_task_pollers: 2,
        max_cached_workflows: 1,
        max_eager_activity_reservations_per_workflow_task: 3,
    }
}

/// What the core makes of settings: it refuses a cache without slots for it.
fn built(config: WorkerConfig) -> Result<WorkerConfig, String> {
    let slots = config.max_outstanding_workflow_tasks;
    if config.max_cached_workflows > Some(0) && slots < Some(2) {
        return Err("max_outstanding_workflow_tasks must be at least 2".to_owned());
    }
    Ok(config)
}

fn text(output: &BridgeOutput) -> (i32, &str) {
    let (code, len) = unpack_result(output.word);
    assert_eq!(len, output.bytes.len());
    (code, std::str::from_utf8(&output.bytes).unwrap())
}

fn init(bridge: &mut TestBridge, mode: u32) -> BridgeOutput {
    let started = bridge.temporal_core_init_with_worker_options(
        b"namespace".to_vec(),
        b"queue".to_vec(),
        b"me".to_vec(),
        4,
        2,
        8,
        6,
        5,
        7,
        mode,
        200,
        || Ok("runtime"),
        Ok,
    );
    assert_eq!(started.identity.is_some(), unpack_result(started.output.word).0 == 0);
    started.output
}

fn initialized(mode: u32) -> TestBridge {
    let mut bridge = TestBridge::new();
    assert_eq!(text(&init(&mut bridge, mode)), (0, ""));
    bridge.connection_finished(Ok("connection"));
    let started = bridge.temporal_core_take_init(200, |runtime, _, connection| {
        assert_eq!((*runtime, connection), ("runtime", "connection"));
        Ok("worker")
    });
    assert!(started.started);
    assert_eq!(unpack_result(started.output.word), (BRIDGE_PENDING, 0));
    bridge.validation_finished(Ok(Vec::new()));
    let done = bridge.temporal_core_take_init(200, |_, _, _| Err("made already".to_owned()));
    assert!(!done.started);
    assert_eq!(text(&done.output), (0, ""));
    bridge
}

#[test]
fn worker_config_uses_core_activity_concurrency() {
    let config = activity_worker_config("namespace".to_owned(), "queue".to_owned(), 12, 3, built)
        .expect("worker config is valid");
    assert_eq!(config.max_outstanding_activities, Some(12));
    assert_eq!(
        config.activity_task_poller_behavior,
        Some(PollerBehavior::SimpleMaximum(3))
    );
}

#[test]
fn worker_config_leaves_default_poller_behavior_to_core() {
    let config = activity_worker_config("namespace".to_owned(), "queue".to_owned(), 12, 0, built)
        .expect("worker config is valid");
    assert_eq!(config.activity_task_poller_behavior, None);
}

#[test]
fn workflow_worker_config_enables_cached_state_and_evictions() {
    let config = workflow_worker_config("namespace".to_owned(), "queue".to_owned(), options(), built)
        .expect("worker config is valid");
    assert_eq!(config.task_types, WorkerTaskTypes::workflow_only());
    assert_eq!(config.max_cached_workflows, Some(1));
    assert_eq!(config.max_outstanding_workflow_tasks, Some(2));
    assert_eq!(
        config.workflow_task_poller_behavior,
        Some(PollerBehavior::SimpleMaximum(2))
    );
}

#[test]
fn workflow_worker_config_uses_explicit_workflow_concurrency() {
    let config = workflow_worker_config(
        "namespace".to_owned(),
        "queue".to_owned(),
        WorkerInitOptions {
            max_concurrent_activity_executions: 7,
            max_concurrent_activity_task_pollers: 0,
            max_concurrent_workflow_task_executions: 8,
            max_concurrent_workflow_task_pollers: 5,
            max_cached_workflows: 3,
            max_eager_activity_reservations_per_workflow_task: 3,
        },
        built,
    )
    .expect("worker config is valid");
    assert_eq!(config.max_cached_workflows, Some(3));
    assert_eq!(config.max_outstanding_workflow_tasks, Some(8));
    assert_eq!(
        config.workflow_task_poller_behavior,
        Some(PollerBehavior::SimpleMaximum(5))
    );
}

#[test]
fn workflow_worker_config_leaves_default_poller_behavior_to_core() {
    let config = workflow_worker_config(
        "namespace".to_owned(),
        "queue".to_owned(),
        WorkerInitOptions {
            max_concurrent_activity_executions: 7,
            max_concurrent_activity_task_pollers: 0,
            max_concurrent_workflow_task_executions: 8,
            max_concurrent_workflow_task_pollers: 0,
            max_cached_workflows: 1,
            max_eager_activity_reservations_per_workflow_task: 3,
        },
        built,
    )
    .expect("worker config is valid");
    assert_eq!(config.workflow_task_poller_behavior, None);
}

#[test]
fn workflow_worker_config_rejects_core_cache_minimum_violations() {
    let error = workflow_worker_config(
        "namespace".to_owned(),
        "queue".to_owned(),
        WorkerInitOptions {
            max_concurrent_activity_executions: 7,
            max_concurrent_activity_task_pollers: 0,
            max_concurrent_workflow_task_executions: 1,
            max_concurrent_workflow_task_pollers: 1,
            max_cached_workflows: 1,
            max_eager_activity_reservations_per_workflow_task: 3,
        },
        built,
    )
    .err()
    .expect("config should fail validation");
    assert!(error.contains("max_outstanding_workflow_tasks"));
    assert!(error.starts_with("invalid workflow worker configuration: "));
}

#[test]
fn worker_config_for_mode_routes_all_bridge_modes() {
    let config = |mode: BridgeInitMode, eager: usize| -> WorkerConfig {
        worker_config_for_mode(
            mode,
            "namespace".to_owned(),
            "queue".to_owned(),
            WorkerInitOptions {
                max_concurrent_activity_executions: 4,
                max_concurrent_activity_task_pollers: 2,
                max_concurrent_workflow_task_executions: 8,
                max_concurrent_workflow_task_pollers: 6,
                max_cached_workflows: 5,
                max_eager_activity_reservations_per_workflow_task: eager,
            },
            built,
        )
        .expect("config is valid")
    };
    let activity = config(BridgeInitMode::ActivityOnly, 3);
    let workflow = config(BridgeInitMode::WorkflowOnly, 3);
    let combined = config(BridgeInitMode::Combined, 7);
    assert_eq!(activity.task_types, WorkerTaskTypes::activity_only());
    assert_eq!(workflow.task_types, WorkerTaskTypes::workflow_only());
    assert_eq!(combined.task_types, WorkerTaskTypes::all());
    assert_eq!(activity.max_outstanding_activities, Some(4));
    assert_eq!(workflow.max_cached_workflows, Some(5));
    assert_eq!(combined.max_outstanding_activities, Some(4));
    assert_eq!(
        combined.max_eager_activity_reservations_per_workflow_task,
        Some(7)
    );
    assert_eq!(workflow.max_outstanding_activities, None);
    assert_eq!(activity.max_cached_workflows, None);
    assert_eq!(
        (combined.namespace.as_str(), combined.task_queue.as_str()),
        ("namespace", "queue")
    );
    assert_eq!(combined.build_id, "go-wasm-core-prototype");
}

#[test]
fn init_modes_are_stable_for_hosts() {
    assert_eq!(
        BridgeInitMode::try_from(BridgeInitMode::ActivityOnly as u32).expect("mode is valid"),
        BridgeInitMode::ActivityOnly
    );
    assert_eq!(
        BridgeInitMode::try_from(BridgeInitMode::WorkflowOnly as u32).expect("mode is valid"),
        BridgeInitMode::WorkflowOnly
    );
    assert_eq!(
        BridgeInitMode::try_from(BridgeInitMode::Combined as u32).expect("mode is valid"),
        BridgeInitMode::Combined
    );
    assert!(BridgeInitMode::try_from(99).is_err());
    assert_eq!(
        BridgeInitMode::try_from(99).unwrap_err(),
        "unsupported bridge init mode 99"
    );
}

#[test]
fn decode_worker_init_options_uses_explicit_combined_eager_settings() {
    let options = decode_worker_init_options(BridgeInitMode::Combined, 9, 2, 8, 3, 17, 5)
        .expect("combined worker settings decode");
    assert_eq!(options.max_cached_workflows, 17);
    assert_eq!(options.max_eager_activity_reservations_per_workflow_task, 5);
    let eager = |mode, n| {
        decode_worker_init_options(mode, 9, 2, 8, 3, 17, n)
            .unwrap()
            .max_eager_activity_reservations_per_workflow_task
    };
    assert_eq!(eager(BridgeInitMode::Combined, 0), 3);
    assert_eq!(eager(BridgeInitMode::WorkflowOnly, 5), 3);
    assert_eq!(eager(BridgeInitMode::ActivityOnly, 5), 3);
}

#[test]
fn strings_are_read_as_utf8() {
    assert_eq!(read_string(b"caf\xc3\xa9".to_vec()).unwrap(), "caf\u{e9}");
    assert_eq!(read_string(Vec::new()).unwrap(), "");
    assert_eq!(
        read_string(vec![b'a', 0xff]).unwrap_err(),
        "bridge string parameter is not UTF-8: invalid utf-8 sequence of 1 bytes from index 1"
    );
}

#[test]
fn a_bridge_without_a_worker_says_so() {
    let mut bridge = TestBridge::new();
    let not_initialized = (BRIDGE_ERROR, "Core worker is not initialized");
    let start = bridge.temporal_core_start_poll_activity(100);
    assert_eq!(text(&start.output), not_initialized);
    assert!(!start.started);
    assert_eq!(text(&bridge.temporal_core_take_poll_activity(100)), not_initialized);
    assert_eq!(
        text(&bridge.temporal_core_start_complete_activity_with_id(1, Ok(()), 100).output),
        not_initialized
    );
    assert_eq!(
        text(&bridge.temporal_core_take_complete_workflow_activation_with_id(1, 100)),
        not_initialized
    );
    assert_eq!(text(&bridge.temporal_core_drain_ready_tasks(100).output), not_initialized);
    assert_eq!(text(&bridge.temporal_core_start_shutdown(100).output), not_initialized);
    assert_eq!(text(&bridge.temporal_core_take_shutdown(100)), not_initialized);
    let taken = bridge.temporal_core_take_init(100, |_, _, _| Ok("worker"));
    assert_eq!(text(&taken.output), not_initialized);
}

#[test]
fn initialization_checks_its_parameters_in_order() {
    let mut bridge = TestBridge::new();
    assert_eq!(
        text(&init(&mut bridge, 3)),
        (BRIDGE_ERROR, "unsupported bridge init mode 3")
    );
    let bad = bridge.temporal_core_init_with_worker_options(
        b"ok".to_vec(),
        vec![0xff],
        vec![0xfe],
        1,
        1,
        1,
        1,
        0,
        0,
        0,
        200,
        || Ok("runtime"),
        Ok,
    );
    assert_eq!(
        text(&bad.output).1,
        "bridge string parameter is not UTF-8: invalid utf-8 sequence of 1 bytes from index 0"
    );
    let no_runtime = bridge.temporal_core_init_with_worker_options(
        Vec::new(),
        Vec::new(),
        Vec::new(),
        1,
        1,
        1,
        1,
        0,
        0,
        0,
        200,
        || Err("no runtime".to_owned()),
        Ok,
    );
    assert_eq!(text(&no_runtime.output), (BRIDGE_ERROR, "no runtime"));
    assert!(bridge.state.is_none());
    let refused = bridge.temporal_core_init_with_worker_options(
        Vec::new(),
        Vec::new(),
        Vec::new(),
        1,
        1,
        1,
        1,
        0,
        0,
        2,
        200,
        || Ok("runtime"),
        |_: WorkerConfig| Err("no slots".to_owned()),
    );
    assert_eq!(
        text(&refused.output),
        (BRIDGE_ERROR, "invalid combined worker configuration: no slots")
    );
    assert!(refused.identity.is_none());
    assert!(bridge.state.is_none());
    assert_eq!(text(&init(&mut bridge, 2)), (0, ""));
    assert_eq!(
        text(&init(&mut bridge, 2)),
        (BRIDGE_ERROR, "Core worker is already initialized")
    );
    let state = bridge.state.as_ref().unwrap();
    assert!(matches!(state.initialization_result, OperationState::Pending));
    assert_eq!(
        state
            .worker_config
            .as_ref()
            .unwrap()
            .max_eager_activity_reservations_per_workflow_task,
        Some(7)
    );
}

#[test]
fn failed_initializations_reset_the_bridge() {
    let mut bridge = TestBridge::new();
    init(&mut bridge, 1);
    // Not connected yet.
    let pending = bridge.temporal_core_take_init(200, |_, _, _| Ok("worker"));
    assert_eq!(unpack_result(pending.output.word), (BRIDGE_PENDING, 0));
    bridge.connection_finished(Err("refused".to_owned()));
    let small = bridge.temporal_core_take_init(10, |_, _, _| Ok("worker"));
    assert_eq!(unpack_result(small.output.word), (BRIDGE_BUFFER_TOO_SMALL, 50));
    assert!(bridge.state.is_some());
    let failed = bridge.temporal_core_take_init(200, |_, _, _| Ok("worker"));
    assert_eq!(
        text(&failed.output),
        (BRIDGE_ERROR, "failed to initialize callback gRPC client: refused")
    );
    assert!(bridge.state.is_none());

    init(&mut bridge, 1);
    bridge.connection_finished(Ok("connection"));
    let failed = bridge.temporal_core_take_init(200, |_, _, _| Err("bad config".to_owned()));
    assert_eq!(
        text(&failed.output),
        (BRIDGE_ERROR, "failed to initialize workflow worker: bad config")
    );
    assert!(bridge.state.is_none());

    init(&mut bridge, 0);
    bridge.connection_finished(Ok("connection"));
    assert!(bridge.temporal_core_take_init(200, |_, _, _| Ok("worker")).started);
    bridge.validation_finished(Err("no namespace".to_owned()));
    let failed = bridge.temporal_core_take_init(200, |_, _, _| Ok("worker"));
    assert_eq!(
        text(&failed.output),
        (BRIDGE_ERROR, "activity worker validation failed: no namespace")
    );
    assert!(bridge.state.is_none());

    init(&mut bridge, 0);
    bridge.connection_finished(Ok("connection"));
    bridge.state.as_mut().unwrap().worker_config = None;
    let failed = bridge.temporal_core_take_init(200, |_, _, _| Ok("worker"));
    assert_eq!(
        text(&failed.output),
        (BRIDGE_ERROR, "worker configuration is missing")
    );
    assert!(bridge.state.is_none());
}

#[test]
fn modes_limit_operations() {
    let mut workflow = initialized(1);
    assert_eq!(
        text(&workflow.temporal_core_start_poll_activity(100).output),
        (BRIDGE_ERROR, "workflow bridge does not support activity operations")
    );
    assert_eq!(
        text(&workflow.temporal_core_record_activity_heartbeat(Ok(()), 100).output).0,
        BRIDGE_ERROR
    );
    assert!(workflow.temporal_core_start_poll_workflow_activation(100).started);
    let mut activity = initialized(0);
    assert_eq!(
        text(&activity.temporal_core_start_poll_workflow_activation(100).output),
        (BRIDGE_ERROR, "activity bridge does not support workflow operations")
    );
    assert_eq!(
        text(
            &activity
                .temporal_core_start_complete_workflow_activation_with_id(1, Ok(()), 100)
                .output
        )
        .0,
        BRIDGE_ERROR
    );
    assert!(activity.temporal_core_record_activity_heartbeat(Ok(()), 100).started);
    assert_eq!(
        text(
            &activity
                .temporal_core_record_activity_heartbeat(Err("oops".to_owned()), 100)
                .output
        ),
        (BRIDGE_ERROR, "invalid ActivityHeartbeat protobuf: oops")
    );
}

#[test]
fn polls_and_completions_go_through_their_slots() {
    let mut bridge = initialized(2);
    assert!(bridge.temporal_core_start_poll_activity(100).started);
    assert_eq!(
        text(&bridge.temporal_core_start_poll_activity(100).output),
        (BRIDGE_ERROR, "activity poll is already in progress")
    );
    assert!(bridge.temporal_core_start_poll_workflow_activation(100).started);
    bridge.workflow_poll_finished(Ok(vec![9]));
    assert_eq!(
        unpack_result(bridge.temporal_core_take_poll_activity(100).word),
        (BRIDGE_PENDING, 0)
    );
    assert_eq!(bridge.temporal_core_take_poll_workflow_activation(100).bytes, [9]);
    bridge.activity_poll_finished(Err("shutdown".to_owned()));
    assert_eq!(
        text(&bridge.temporal_core_take_poll_activity(100)),
        (BRIDGE_ERROR, "activity poll failed: shutdown")
    );

    assert!(bridge.temporal_core_start_complete_activity_with_id(1, Ok(()), 100).started);
    assert!(
        bridge
            .temporal_core_start_complete_workflow_activation_with_id(1, Ok(()), 100)
            .started
    );
    assert_eq!(
        text(&bridge.temporal_core_start_complete_activity_with_id(1, Ok(()), 100).output),
        (
            BRIDGE_ERROR,
            "activity completion operation ID 1 is already in progress"
        )
    );
    assert_eq!(
        text(
            &bridge
                .temporal_core_start_complete_activity_with_id(2, Err("eof".to_owned()), 100)
                .output
        ),
        (BRIDGE_ERROR, "invalid ActivityTaskCompletion protobuf: eof")
    );
    bridge.activity_completion_finished(1, Err("not found".to_owned()));
    bridge.workflow_completion_finished(1, Ok(Vec::new()));
    bridge.workflow_completion_finished(8, Ok(Vec::new()));
    assert_eq!(
        text(&bridge.temporal_core_take_complete_activity_with_id(1, 100)),
        (BRIDGE_ERROR, "activity completion failed: not found")
    );
    assert_eq!(
        text(&bridge.temporal_core_take_complete_workflow_activation_with_id(1, 100)),
        (0, "")
    );
    assert_eq!(
        text(&bridge.temporal_core_take_complete_workflow_activation_with_id(8, 100)),
        (
            BRIDGE_ERROR,
            "workflow activation completion operation ID 8 has not been started"
        )
    );
    assert!(bridge.temporal_core_drain_ready_tasks(0).started);
}

#[test]
fn a_poll_before_the_worker_is_made_stays_pending() {
    let mut bridge = TestBridge::new();
    init(&mut bridge, 2);
    let start = bridge.temporal_core_start_poll_activity(100);
    assert!(!start.started);
    assert_eq!(
        text(&start.output),
        (BRIDGE_ERROR, "Core worker initialization is not complete")
    );
    assert_eq!(
        unpack_result(bridge.temporal_core_take_poll_activity(100).word),
        (BRIDGE_PENDING, 0)
    );
    // A completion checks the worker first, and registers nothing.
    let start = bridge.temporal_core_start_complete_activity_with_id(1, Ok(()), 100);
    assert!(!start.started);
    assert!(bridge.state.as_ref().unwrap().activity_completion_results.is_empty());
}

#[test]
fn shutting_down_resets_the_bridge() {
    let mut bridge = initialized(2);
    assert_eq!(
        text(&bridge.temporal_core_take_shutdown(100)),
        (BRIDGE_ERROR, "operation has not been started")
    );
    assert!(bridge.temporal_core_start_shutdown(100).started);
    assert_eq!(
        text(&bridge.temporal_core_start_shutdown(100).output),
        (BRIDGE_ERROR, "worker shutdown is already in progress")
    );
    assert_eq!(
        unpack_result(bridge.temporal_core_take_shutdown(100).word),
        (BRIDGE_PENDING, 0)
    );
    bridge.shutdown_finished();
    assert_eq!(text(&bridge.temporal_core_take_shutdown(100)), (0, ""));
    assert!(bridge.state.is_none());
    assert_eq!(text(&init(&mut bridge, 0)), (0, ""));
}

fn response(code: i32) -> BridgeGrpcResponse {
    BridgeGrpcResponse {
        headers: Vec::new(),
        trailers: Vec::new(),
        status_code: code,
        status_message: "message".to_owned(),
        status_details: Vec::new(),
        proto: vec![1],
    }
}

#[test]
fn responses_reach_their_responders() {
    let mut bridge = TestBridge::new();
    let encoded_len = |_: &PendingGrpcRequest| 1_usize;
    let id = bridge
        .transport
        .call(
            GrpcRequest {
                service: String::new(),
                rpc: String::new(),
                headers: http::HeaderMap::new(),
                proto: Vec::new(),
            },
            "responder",
            &encoded_len,
        )
        .unwrap();
    let output = bridge.temporal_core_take_grpc_request(10, &|_: &PendingGrpcRequest| vec![5]);
    assert_eq!(output.bytes, [5]);

    let too_large = vec![0; 4_194_305];
    let refused =
        bridge.temporal_core_complete_grpc_request(id, &too_large, 100, |_: &[u8]| Ok(response(0)));
    assert_eq!(
        text(&refused.output).1,
        "host transport response payload is 4194305 bytes, exceeds 4194304 byte limit"
    );
    let invalid = bridge
        .temporal_core_complete_grpc_request(id, &[1], 100, |_: &[u8]| Err("eof".to_owned()));
    assert_eq!(
        text(&invalid.output),
        (BRIDGE_ERROR, "invalid host gRPC response protobuf: eof")
    );
    assert!(invalid.delivery.is_none());
    let unknown =
        bridge.temporal_core_complete_grpc_request(77, &[1], 100, |_: &[u8]| Ok(response(0)));
    assert_eq!(
        text(&unknown.output),
        (BRIDGE_ERROR, "unknown host transport request id 77")
    );

    let done = bridge.temporal_core_complete_grpc_request(id, &[1, 2], 100, |bytes: &[u8]| {
        assert_eq!(bytes, [1, 2]);
        Ok(response(5))
    });
    assert_eq!(text(&done.output), (0, ""));
    let (responder, delivered) = done.delivery.unwrap();
    assert_eq!(responder, "responder");
    let status = delivered.unwrap_err();
    assert_eq!((status.code, status.message.as_str()), (5, "message"));
    let again =
        bridge.temporal_core_complete_grpc_request(id, &[1], 100, |_: &[u8]| Ok(response(0)));
    assert!(again.delivery.is_none());
}
