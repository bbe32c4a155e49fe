use std::cell::RefCell;
use std::collections::HashMap;
use temporal_worker::interceptors::types::{
    ExecuteInput, HandleQueryInput, HandleSignalInput, HandleUpdateInput, ValidateUpdateInput,
    WorkflowInterceptorContext, WorkflowOperationContext,
};
use temporal_worker::runtime::activation::incomplete_job;
use temporal_worker::runtime::host::{RecordedHost, WorkflowHost};
use temporal_worker::runtime::instance::{
    apply_resolution, poll_main_routine, terminal_outcome_from_result, GuestWorkflowInstance,
    PolledRoutine, RoutineFuture,
};
use temporal_worker::runtime::model::{
    ActivationJobResult, ActivationVariant, DoUpdate, Failure, MainRoutineCompletion,
    QueryWorkflow, Resolution, RoutineCompletion, RoutineKind, RoutinePollResult, SignalWorkflow,
    TerminalOutcome, TimerResult, UnblockEvent, UpdateDefinition, UpdateRoutineCompletion,
    WorkflowActivation, WorkflowTermination, MAIN_ROUTINE_ID,
};
use temporal_worker::runtime::polling::{PollRound, RoutinePollLoop, RoutinePollState};

type Instance = GuestWorkflowInstance<&'static str, &'static str, String, String, &'static str>;
type Payload = u8;
type JobResult = ActivationJobResult<Payload, &'static str>;
type PollResult = RoutinePollResult<Payload, &'static str, &'static str, &'static str, u8>;

/// A workflow whose answers are set, and what it was told.
struct Host {
    decoded: Result<Option<u32>, &'static str>,
    validation: Option<Result<(), &'static str>>,
    handled: bool,
    answer: Result<Payload, &'static str>,
    metadata: Result<Payload, String>,
    told: RefCell<Vec<String>>,
}

fn host() -> Host {
    Host {
        decoded: Ok(Some(1)),
        validation: Some(Ok(())),
        handled: true,
        answer: Ok(5),
        metadata: Ok(99),
        told: RefCell::new(Vec::new()),
    }
}

impl Host {
    fn note(&self, text: String) {
        self.told.borrow_mut().push(text);
    }
}

impl WorkflowHost for Host {
    type Payload = Payload;
    type Args = u32;
    type View = ();
    type Error = &'static str;
    type Ctx = &'static str;
    type SignalFuture = String;
    type UpdateFuture = String;
    type Resolved = u8;
    type Meta = &'static str;

    fn apply_activation_context(&self, meta: &&'static str) {
        self.note(format!("meta {meta}"));
    }

    fn record_patch(&self, patch_id: String) {
        self.note(format!("patch {patch_id}"));
    }

    fn notify_cancel(&self, reason: String) {
        self.note(format!("cancel {reason}"));
    }

    fn unblock(&self, event: UnblockEvent<u8>) {
        self.note(format!("unblock {event:?}"));
    }

    fn is_replaying(&self) -> bool {
        true
    }

    fn workflow_interceptor_context(&self, is_replaying: bool) -> WorkflowInterceptorContext<()> {
        WorkflowInterceptorContext::new((), WorkflowOperationContext::new(true, is_replaying))
    }

    fn update_definitions(&self) -> Vec<UpdateDefinition> {
        let definition = |name: &str, has_validator: bool| UpdateDefinition {
            name: name.to_owned(),
            has_validator,
        };
        vec![
            definition("plain", false),
            definition("checked", true),
            definition("plain", true),
        ]
    }

    fn decode_signal_input(
        &self,
        _name: &String,
        payloads: Vec<Payload>,
    ) -> Result<Option<u32>, &'static str> {
        assert_eq!(payloads, [1, 2]);
        self.decoded
    }

    fn handle_signal(
        &self,
        ctx: &&'static str,
        input: HandleSignalInput<u32, Payload, ()>,
    ) -> String {
        assert!(input.context().operation.is_replaying_history_events);
        self.note(format!("signal {}", input.signal_name()));
        format!("{ctx}: {}({})", input.signal_name(), input.args_ref())
    }

    fn decode_update_input(
        &self,
        _name: &String,
        payloads: &Vec<Payload>,
    ) -> Result<Option<u32>, &'static str> {
        assert_eq!(*payloads, [3]);
        self.decoded
    }

    fn validate_update(
        &self,
        ctx: &&'static str,
        input: ValidateUpdateInput<u32, Payload, ()>,
    ) -> Option<Result<(), &'static str>> {
        assert!(input.context().operation.is_replaying_history_events);
        assert_eq!(input.headers()["h"], 4);
        self.note(format!("{ctx} validates {}", input.update_name()));
        self.validation
    }

    fn handle_update(
        &self,
        ctx: &&'static str,
        input: HandleUpdateInput<u32, Payload, ()>,
    ) -> Option<String> {
        assert_eq!(input.headers()["h"], 4);
        self.note(format!("update {}", input.update_name()));
        let call = format!("{ctx}: {}({})", input.update_name(), input.args_ref());
        self.handled.then_some(call)
    }

    fn query_metadata(&self) -> Result<Payload, String> {
        self.note("metadata".to_owned());
        self.metadata.clone()
    }

    fn decode_query_input(
        &self,
        name: &String,
        payloads: &Vec<Payload>,
    ) -> Result<Option<u32>, &'static str> {
        assert_eq!(*payloads, [1]);
        self.note(format!("decode {name}"));
        self.decoded
    }

    fn handle_query(
        &self,
        ctx: &&'static str,
        input: HandleQueryInput<u32, Payload, ()>,
    ) -> Result<Payload, &'static str> {
        assert_eq!(*ctx, "ctx");
        assert!(!input.context().operation.is_replaying_history_events);
        self.note(format!("query {}", input.query_name()));
        self.answer
    }
}

fn context() -> WorkflowInterceptorContext<()> {
    WorkflowInterceptorContext::new((), WorkflowOperationContext::new(false, false))
}

fn instance() -> Instance {
    GuestWorkflowInstance::new(
        "wf".to_owned(),
        7,
        HashMap::<String, Payload>::new(),
        context(),
        true,
        |input: ExecuteInput<i32, Payload, ()>| {
            assert_eq!((input.workflow_type(), *input.args_ref()), ("wf", 7));
            ("run", Some("ctx"))
        },
        |_: ExecuteInput<i32, Payload, ()>| panic!("the constructor takes the input"),
    )
}

fn signal(name: &str) -> SignalWorkflow<Payload> {
    SignalWorkflow {
        signal_name: name.to_owned(),
        input: vec![1, 2],
        headers: HashMap::new(),
    }
}

fn update(name: &str, run_validator: bool) -> DoUpdate<Payload> {
    DoUpdate {
        id: "id".to_owned(),
        protocol_instance_id: "pid".to_owned(),
        name: name.to_owned(),
        input: vec![3],
        headers: HashMap::from([("h".to_owned(), 4)]),
        run_validator,
    }
}

fn query(query_type: &str) -> QueryWorkflow<Payload> {
    QueryWorkflow {
        query_type: query_type.to_owned(),
        arguments: vec![1],
        headers: HashMap::new(),
    }
}

fn start_signal(
    instance: &mut Instance,
    name: &str,
    decoded: Result<Option<u32>, &'static str>,
) -> JobResult {
    let host = Host { decoded, ..host() };
    instance.start_signal_routine(signal(name), &mut RecordedHost::new(&host))
}

fn start_update(
    instance: &mut Instance,
    update: DoUpdate<Payload>,
    decoded: Result<Option<u32>, &'static str>,
    validation: Option<Result<(), &'static str>>,
    handled: bool,
) -> JobResult {
    let host = Host {
        decoded,
        validation,
        handled,
        ..host()
    };
    instance.start_update_routine(update, &mut RecordedHost::new(&host))
}

fn started_id(result: JobResult) -> u64 {
    match result {
        ActivationJobResult::StartedRoutine(started) => started.routine_id,
        other => panic!("a routine should start: {other:?}"),
    }
}

fn rejection(result: JobResult) -> String {
    match result {
        ActivationJobResult::UpdateRejected(Failure::Application(text)) => text,
        ActivationJobResult::UpdateRejected(Failure::Workflow(error)) => format!("error {error}"),
        other => panic!("the update should be rejected: {other:?}"),
    }
}

#[test]
fn workflows_start_without_routines() {
    let mut started = instance();
    assert_eq!((started.ctx, started.run_future), ("ctx", "run"));
    assert!(matches!(
        started.routines.take_routine(MAIN_ROUTINE_ID),
        Ok(PolledRoutine::Main)
    ));
    match started.routines.take_routine(1) {
        Err(Failure::Bare(text)) => assert_eq!(text, "No routine registered for id 1"),
        other => panic!("no routine should be there: {other:?}"),
    }
    let other: Instance = GuestWorkflowInstance::new(
        "wf".to_owned(),
        (),
        HashMap::<String, Payload>::new(),
        context(),
        false,
        |_: ExecuteInput<(), Payload, ()>| panic!("the constructor takes no input"),
        |_: ExecuteInput<(), Payload, ()>| ("made before", Some("ctx")),
    );
    assert_eq!(other.run_future, "made before");
}

#[test]
fn signals_start_routines_with_fresh_ids() {
    let mut wf = instance();
    let first = start_signal(&mut wf, "a", Ok(Some(10)));
    match &first {
        ActivationJobResult::StartedRoutine(started) => {
            assert!(matches!(&started.kind, RoutineKind::Signal(name) if name == "a"));
        }
        other => panic!("a routine should start: {other:?}"),
    }
    assert_eq!(started_id(first), 1);
    // Without a handler nothing starts, and no id is used up.
    assert!(matches!(
        start_signal(&mut wf, "unknown", Ok(None)),
        ActivationJobResult::Nothing
    ));
    assert_eq!(started_id(start_signal(&mut wf, "b", Err("bad args"))), 2);
    match wf.routines.take_routine(2) {
        Ok(PolledRoutine::Signal {
            future: RoutineFuture::Failed(error),
        }) => assert_eq!(error, "bad args"),
        other => panic!("the signal should have failed: {other:?}"),
    }
    match wf.routines.take_routine(1) {
        Ok(PolledRoutine::Signal {
            future: RoutineFuture::Running(future),
        }) => assert_eq!(future, "ctx: a(10)"),
        other => panic!("the signal should run: {other:?}"),
    }
    assert_eq!(started_id(start_signal(&mut wf, "c", Ok(Some(1)))), 3);
}

#[test]
fn updates_are_rejected_without_a_handler() {
    let mut wf = instance();
    let text = "No update handler registered for update name other";
    assert_eq!(
        rejection(start_update(&mut wf, update("other", true), Ok(Some(1)), None, true)),
        text
    );
    let text = "No update handler registered for update name plain";
    assert_eq!(
        rejection(start_update(&mut wf, update("plain", true), Ok(None), None, true)),
        text
    );
    assert_eq!(
        rejection(start_update(&mut wf, update("plain", true), Ok(Some(1)), None, false)),
        text
    );
    let text = "No update handler registered for update name checked";
    assert_eq!(
        rejection(start_update(&mut wf, update("checked", true), Ok(None), None, true)),
        text
    );
    assert_eq!(
        rejection(start_update(&mut wf, update("checked", true), Ok(Some(1)), None, true)),
        text
    );
    assert_eq!(started_id(start_signal(&mut wf, "a", Ok(Some(1)))), 1);
}

#[test]
fn updates_are_validated_if_asked_and_possible() {
    let mut wf = instance();
    let invalid = Some(Err("invalid"));
    assert_eq!(
        rejection(start_update(&mut wf, update("checked", true), Ok(Some(1)), invalid, true)),
        "error invalid"
    );
    assert_eq!(
        rejection(start_update(&mut wf, update("checked", true), Err("bad args"), None, true)),
        "error bad args"
    );
    // Not asked for.
    let started = start_update(&mut wf, update("checked", false), Ok(Some(1)), invalid, true);
    match &started {
        ActivationJobResult::StartedRoutine(routine) => match &routine.kind {
            RoutineKind::Update(kind) => assert_eq!(
                (
                    kind.name.as_str(),
                    kind.update_id.as_str(),
                    kind.protocol_instance_id.as_str()
                ),
                ("checked", "id", "pid")
            ),
            other => panic!("an update should start: {other:?}"),
        },
        other => panic!("a routine should start: {other:?}"),
    }
    assert_eq!(started_id(started), 1);
    // The first handler of the name has no validator.
    assert_eq!(
        started_id(start_update(&mut wf, update("plain", true), Ok(Some(1)), invalid, true)),
        2
    );
    let valid = Some(Ok(()));
    assert_eq!(
        started_id(start_update(&mut wf, update("checked", true), Ok(Some(4)), valid, true)),
        3
    );
    match wf.routines.take_routine(3) {
        Ok(PolledRoutine::Update {
            protocol_instance_id,
            future: RoutineFuture::Running(future),
        }) => assert_eq!((protocol_instance_id.as_str(), future.as_str()), ("pid", "ctx: checked(4)")),
        other => panic!("the update should run: {other:?}"),
    }
    // Arguments that do not decode fail the routine of an update that is not validated.
    assert_eq!(
        started_id(start_update(&mut wf, update("plain", false), Err("bad args"), None, true)),
        4
    );
}

#[test]
fn queries_are_answered() {
    let wf = instance();
    let ask = |query_type: &str, decoded: Result<Option<u32>, &'static str>, answer| {
        let host = Host {
            decoded,
            answer,
            ..host()
        };
        wf.query(query(query_type), &mut RecordedHost::new(&host)).result
    };
    assert!(matches!(
        ask("__temporal_workflow_metadata", Ok(None), Ok(1)),
        Ok(99)
    ));
    assert!(matches!(ask("q", Ok(Some(1)), Ok(5)), Ok(5)));
    assert!(matches!(
        ask("q", Ok(Some(1)), Err("broken")),
        Err(Failure::Workflow("broken"))
    ));
    assert!(matches!(
        ask("q", Err("bad args"), Ok(5)),
        Err(Failure::Workflow("bad args"))
    ));
    match ask("q", Ok(None), Ok(5)) {
        Err(Failure::Application(text)) => assert_eq!(text, "No query handler for 'q'"),
        other => panic!("the query should fail: {other:?}"),
    }
    let host = Host {
        metadata: Err("no json".to_owned()),
        ..host()
    };
    let failed = wf.query(query("__temporal_workflow_metadata"), &mut RecordedHost::new(&host));
    assert!(matches!(failed.result, Err(Failure::Bare(text)) if text == "no json"));
}

#[test]
fn resolutions_become_events() {
    assert!(matches!(
        apply_resolution::<u8>(Resolution::FireTimer(1)),
        UnblockEvent::Timer(1, TimerResult::Fired)
    ));
    assert!(matches!(
        apply_resolution(Resolution::ResolveActivity(2, Some(20))),
        UnblockEvent::Activity(2, x) if *x == 20
    ));
    assert!(matches!(
        apply_resolution(Resolution::ResolveChildWorkflowExecutionStart(3, Some(30))),
        UnblockEvent::WorkflowStart(3, x) if *x == 30
    ));
    assert!(matches!(
        apply_resolution(Resolution::ResolveChildWorkflowExecution(4, Some(40))),
        UnblockEvent::WorkflowComplete(4, x) if *x == 40
    ));
    assert!(matches!(
        apply_resolution::<u8>(Resolution::ResolveSignalExternalWorkflow(5, None)),
        UnblockEvent::SignalExternal(5, None)
    ));
    assert!(matches!(
        apply_resolution(Resolution::ResolveRequestCancelExternalWorkflow(6, Some(60))),
        UnblockEvent::CancelExternal(6, Some(60))
    ));
    assert!(matches!(
        apply_resolution(Resolution::ResolveNexusOperationStart(7, Some(70))),
        UnblockEvent::NexusOperationStart(7, x) if *x == 70
    ));
    assert!(matches!(
        apply_resolution(Resolution::ResolveNexusOperation(8, Some(80))),
        UnblockEvent::NexusOperationComplete(8, x) if *x == 80
    ));
}

#[test]
fn results_become_outcomes() {
    type Ended = Result<u8, WorkflowTermination<&'static str, &'static str>>;
    let outcome = |result: Ended| terminal_outcome_from_result(result);
    assert!(matches!(outcome(Ok(3)), TerminalOutcome::Completed(3)));
    assert!(matches!(
        outcome(Err(WorkflowTermination::ContinueAsNew("again"))),
        TerminalOutcome::ContinueAsNew("again")
    ));
    assert!(matches!(
        outcome(Err(WorkflowTermination::Cancelled)),
        TerminalOutcome::Cancelled
    ));
    assert!(matches!(
        outcome(Err(WorkflowTermination::Failed("broken"))),
        TerminalOutcome::Failed("broken")
    ));
}

fn round(result: Option<u8>, state_mutated: bool, runtime_progress: bool) -> PollRound<u8> {
    PollRound {
        result,
        state_mutated,
        runtime_progress,
    }
}

#[test]
fn polling_goes_on_while_there_is_progress() {
    let mut polling = RoutinePollLoop::new();
    assert!(polling.forced_failure::<u8, &str>(None).is_none());
    assert!(polling.polled::<u8, &str>(round(None, true, false)).is_none());
    assert!(polling.polled::<u8, &str>(round(None, false, true)).is_none());
    assert!(matches!(
        polling.polled::<u8, &str>(round(None, false, false)),
        Some(RoutinePollState::Stalled {
            made_progress: true
        })
    ));

    let mut quiet = RoutinePollLoop::new();
    assert!(matches!(
        quiet.polled::<u8, &str>(round(None, false, false)),
        Some(RoutinePollState::Stalled {
            made_progress: false
        })
    ));

    let mut done = RoutinePollLoop::new();
    assert!(matches!(
        done.polled::<u8, &str>(round(Some(4), false, true)),
        Some(RoutinePollState::Ready {
            result: 4,
            made_progress: true
        })
    ));

    let mut forced = RoutinePollLoop::new();
    assert!(forced.polled::<u8, &str>(round(None, true, true)).is_none());
    match forced.forced_failure::<u8, &str>(Some("nondeterminism".to_owned())) {
        Some(RoutinePollState::ForcedFailure {
            failure: Failure::Bare(text),
            made_progress: true,
        }) => assert_eq!(text, "nondeterminism"),
        other => panic!("the failure should be forced: {other:?}"),
    }
}

#[test]
fn the_main_routine_always_completes_or_blocks() {
    let ready: PollResult = poll_main_routine(RoutinePollState::Ready {
        result: Ok(1),
        made_progress: true,
    });
    assert!(ready.made_progress);
    assert!(matches!(
        ready.completion,
        Some(RoutineCompletion::Main(MainRoutineCompletion::Terminal(
            TerminalOutcome::Completed(1)
        )))
    ));
    let forced: PollResult = poll_main_routine(RoutinePollState::ForcedFailure {
        failure: Failure::Bare("nde".to_owned()),
        made_progress: false,
    });
    match forced.completion {
        Some(RoutineCompletion::Main(MainRoutineCompletion::TaskFailed(task))) => {
            assert!(matches!(task.failure, Failure::Bare(text) if text == "nde"));
            assert!(task.force_cause.is_none());
        }
        other => panic!("the task should fail: {other:?}"),
    }
    let stalled: PollResult = poll_main_routine(RoutinePollState::Stalled {
        made_progress: true,
    });
    assert!(matches!(
        stalled.completion,
        Some(RoutineCompletion::Main(MainRoutineCompletion::Blocked))
    ));
}

#[test]
fn waiting_routines_stay_and_done_ones_go() {
    let mut wf = instance();
    let id = started_id(start_signal(&mut wf, "a", Ok(Some(1))));
    for _ in 0..3 {
        let Ok(PolledRoutine::Signal { future }) = wf.routines.take_routine(id) else {
            panic!("the signal should wait");
        };
        let polled: PollResult = wf
            .routines
            .poll_signal_routine(
                id,
                future,
                RoutinePollState::Stalled {
                    made_progress: true,
                },
            )
            .unwrap();
        assert!(polled.completion.is_none());
        assert!(polled.made_progress);
    }
    let Ok(PolledRoutine::Signal { future }) = wf.routines.take_routine(id) else {
        panic!("the signal should wait");
    };
    let polled: PollResult = wf
        .routines
        .poll_signal_routine(
            id,
            future,
            RoutinePollState::Ready {
                result: Err("broken"),
                made_progress: false,
            },
        )
        .unwrap();
    assert!(matches!(
        polled.completion,
        Some(RoutineCompletion::Signal(Err(Failure::Workflow("broken"))))
    ));
    assert!(wf.routines.take_routine(id).is_err());

    let id = started_id(start_update(
        &mut wf,
        update("plain", false),
        Ok(Some(1)),
        None,
        true,
    ));
    let poll = |wf: &mut Instance, state| -> Result<PollResult, Failure<&'static str>> {
        let Ok(PolledRoutine::Update {
            protocol_instance_id,
            future,
        }) = wf.routines.take_routine(id)
        else {
            panic!("the update should wait");
        };
        wf.routines
            .poll_update_routine(id, protocol_instance_id, future, state)
    };
    let waiting = poll(
        &mut wf,
        RoutinePollState::Stalled {
            made_progress: false,
        },
    );
    assert!(waiting.unwrap().completion.is_none());
    let done = poll(
        &mut wf,
        RoutinePollState::Ready {
            result: Ok(8),
            made_progress: true,
        },
    );
    match done.unwrap().completion {
        Some(RoutineCompletion::Update(UpdateRoutineCompletion::Completed {
            protocol_instance_id,
            result,
        })) => assert_eq!((protocol_instance_id.as_str(), result), ("pid", 8)),
        other => panic!("the update should be done: {other:?}"),
    }

    let id = started_id(start_signal(&mut wf, "b", Ok(Some(1))));
    let Ok(PolledRoutine::Signal { future }) = wf.routines.take_routine(id) else {
        panic!("the signal should wait");
    };
    let forced: Result<PollResult, _> = wf.routines.poll_signal_routine(
        id,
        future,
        RoutinePollState::ForcedFailure {
            failure: Failure::Bare("nde".to_owned()),
            made_progress: true,
        },
    );
    assert!(matches!(forced, Err(Failure::Bare(text)) if text == "nde"));
    assert!(wf.routines.take_routine(id).is_err());
}

fn activation(
    jobs: Vec<Option<ActivationVariant<Payload, u8>>>,
) -> WorkflowActivation<Payload, u8, &'static str> {
    WorkflowActivation { meta: "meta", jobs }
}

#[test]
fn activations_are_worked_off_job_by_job() {
    let mut wf = instance();
    let host = host();
    let done = wf
        .activate(
            activation(vec![
                Some(ActivationVariant::InitializeWorkflow),
                Some(ActivationVariant::NotifyHasPatch("p".to_owned())),
                Some(ActivationVariant::CancelWorkflow("why".to_owned())),
                Some(ActivationVariant::SignalWorkflow(signal("s"))),
                Some(ActivationVariant::DoUpdate(update("checked", true))),
                Some(ActivationVariant::DoUpdate(update("other", true))),
                Some(ActivationVariant::QueryWorkflow(query("q"))),
                Some(ActivationVariant::Resolution(Resolution::FireTimer(3))),
                Some(ActivationVariant::UpdateRandomSeed),
                Some(ActivationVariant::RemoveFromCache),
            ]),
            &mut RecordedHost::new(&host),
        )
        .expect("no job is missing");
    let kinds: Vec<String> = done
        .job_results
        .iter()
        .map(|result| match result {
            ActivationJobResult::Nothing => "nothing".to_owned(),
            ActivationJobResult::StartedRoutine(started) => match &started.kind {
                RoutineKind::Signal(name) => format!("{} signal {name}", started.routine_id),
                RoutineKind::Update(kind) => format!("{} update {}", started.routine_id, kind.name),
            },
            ActivationJobResult::UpdateRejected(_) => "rejected".to_owned(),
            ActivationJobResult::QueryResponse(response) => format!("{:?}", response.result),
        })
        .collect();
    assert_eq!(
        kinds,
        [
            "nothing",
            "nothing",
            "nothing",
            "1 signal s",
            "2 update checked",
            "rejected",
            "Ok(5)",
            "nothing",
            "nothing",
            "nothing"
        ]
    );
    assert_eq!(
        *host.told.borrow(),
        [
            "meta meta",
            "patch p",
            "cancel why",
            "signal s",
            "ctx validates checked",
            "update checked",
            "decode q",
            "query q",
            "unblock Timer(3, Fired)"
        ]
    );
}

#[test]
fn a_missing_job_ends_the_activation() {
    let mut wf = instance();
    let host = host();
    let failed = wf.activate(
        activation(vec![
            Some(ActivationVariant::SignalWorkflow(signal("s"))),
            None,
            // Never looked at.
            Some(ActivationVariant::Resolution(Resolution::ResolveActivity(1, None))),
        ]),
        &mut RecordedHost::new(&host),
    );
    match failed {
        Err(Failure::Bare(text)) => assert_eq!(text, "Activation job missing variant"),
        other => panic!("the activation should fail: {other:?}"),
    }
    // The job before it stays applied.
    assert!(wf.routines.take_routine(1).is_ok());

    let mut wf = instance();
    let done = wf
        .activate(activation(Vec::new()), &mut RecordedHost::new(&host))
        .expect("no job is missing");
    assert!(done.job_results.is_empty());
}

#[test]
fn hooks_run_only_where_they_are_due() {
    let mut wf = instance();
    let mut told = |host: Host, job: ActivationVariant<Payload, u8>| {
        wf.apply_job(job, &mut RecordedHost::new(&host));
        host.told.into_inner()
    };
    let update = |name: &str, run_validator: bool| {
        ActivationVariant::DoUpdate(update(name, run_validator))
    };
    let checked = ["ctx validates checked", "update checked"];
    assert_eq!(told(host(), update("checked", true)), checked);
    assert_eq!(told(host(), update("checked", false)), checked[1..]);
    assert_eq!(told(host(), update("plain", true)), ["update plain"]);
    assert!(told(host(), update("other", true)).is_empty());
    for validation in [None, Some(Err("no"))] {
        let refusing = Host { validation, ..host() };
        assert_eq!(told(refusing, update("checked", true)), checked[..1]);
    }

    let ask = |query_type: &str| ActivationVariant::QueryWorkflow(query(query_type));
    assert_eq!(told(host(), ask("__temporal_workflow_metadata")), ["metadata"]);
    assert_eq!(told(host(), ask("q")), ["decode q", "query q"]);
    for decoded in [Ok(None), Err("bad args")] {
        assert_eq!(told(Host { decoded, ..host() }, ask("q")), ["decode q"]);
        let signal = ActivationVariant::SignalWorkflow(signal("s"));
        assert!(told(Host { decoded, ..host() }, signal).is_empty());
    }
    let signal = ActivationVariant::SignalWorkflow(signal("s"));
    assert_eq!(told(host(), signal), ["signal s"]);
}

#[test]
fn incomplete_jobs_are_found_up_to_the_first_missing_one() {
    let whole = || Some(ActivationVariant::Resolution(Resolution::ResolveActivity(1, Some(2))));
    let partial = || Some(ActivationVariant::Resolution(Resolution::ResolveNexusOperation(1, None)));
    let timer = || Some(ActivationVariant::Resolution(Resolution::FireTimer(1)));
    let find = |jobs: Vec<Option<ActivationVariant<Payload, u8>>>| incomplete_job(&jobs);
    assert_eq!(find(vec![]), None);
    assert_eq!(find(vec![whole(), timer()]), None);
    assert_eq!(find(vec![whole(), partial(), partial()]), Some(1));
    assert_eq!(find(vec![whole(), None, partial()]), None);
}

#[test]
fn workflows_start_from_payloads_that_convert() {
    let start = |payloads: Vec<Payload>| -> Result<Instance, String> {
        GuestWorkflowInstance::instantiate(
            payloads,
            |payloads: Vec<Payload>| match payloads.as_slice() {
                [n] => Ok(i32::from(*n)),
                other => Err(format!("{} payloads", other.len())),
            },
            "wf".to_owned(),
            HashMap::new(),
            context(),
            true,
            |input: ExecuteInput<i32, Payload, ()>| {
                assert_eq!(*input.args_ref(), 7);
                ("run", Some("ctx"))
            },
            |_: ExecuteInput<i32, Payload, ()>| panic!("the constructor takes the input"),
        )
    };
    assert_eq!(start(vec![7]).unwrap().run_future, "run");
    assert_eq!(start(vec![]).unwrap_err(), "0 payloads");
}
