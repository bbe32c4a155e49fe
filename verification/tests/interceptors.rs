use std::any::Any;
use std::collections::HashMap;
use std::time::Duration;
use temporal_worker::interceptors::chain::{call_chain, Interceptor, Next, NoopInterceptor};
use temporal_worker::interceptors::instance::{WorkflowInterceptorInstance, WorkflowInterceptors};
use temporal_worker::interceptors::types::{
    ExecuteInput, HandleQueryInput, HandleSignalInput, NamespacedWorkflowExecution,
    ScheduleActivityInput, SignalCommandTarget, SignalWorkflowInput, SignalWorkflowTarget,
    SleepInput, StartChildWorkflowExecutionInput, TimerOptions, WorkflowInterceptorContext,
    WorkflowOperationContext,
};
use temporal_worker::pollers::PollerGroupInfoStoreResolver;

fn context() -> WorkflowInterceptorContext<&'static str> {
    WorkflowInterceptorContext::new("view", WorkflowOperationContext::new(true, false))
}

fn downcast<T: Any>(args: Box<dyn Any>) -> Result<T, Box<dyn Any>> {
    args.downcast::<T>().map(|args| *args)
}

#[test]
fn continuations_run_their_function() {
    let next = Next::new(|n: i32| n + 1);
    assert_eq!(next.run(41), 42);
}

#[test]
fn an_empty_chain_is_the_operation() {
    let none: [NoopInterceptor; 0] = [];
    assert_eq!(call_chain(&none, 3, Next::new(|n: i32| n * 2)), 6);
}

#[test]
fn interceptors_that_do_nothing_change_nothing() {
    for n in [1, 2, 5] {
        let chain = vec![NoopInterceptor; n];
        assert_eq!(call_chain(&chain, 3, Next::new(|n: i32| n * 2)), 6);
    }
}

#[test]
fn instances_run_their_chains() {
    let instance = WorkflowInterceptorInstance::new(vec![
        WorkflowInterceptors::default(),
        WorkflowInterceptors::default(),
    ]);
    let input = SleepInput::new(
        TimerOptions {
            duration: Duration::from_secs(3),
            summary: None,
        },
        context(),
    );
    let slept = instance.sleep(input, |input: SleepInput<&'static str>| input.duration());
    assert_eq!(slept, Duration::from_secs(3));
    let query = HandleQueryInput::new(
        "status".to_owned(),
        (),
        HashMap::<String, Vec<u8>>::new(),
        context(),
    );
    let answer = instance.handle_query(
        query,
        |input: HandleQueryInput<(), Vec<u8>, &'static str>| input.query_name().to_owned(),
    );
    assert_eq!(answer, "status");
}

#[test]
fn execute_arguments_come_back_if_they_have_another_type() {
    let mut input = ExecuteInput::new(
        "wf".to_owned(),
        Box::new(7_u32) as Box<dyn Any>,
        HashMap::<String, Vec<u8>>::new(),
        context(),
    );
    assert_eq!(input.workflow_type(), "wf");
    assert_eq!(input.context().workflow, "view");
    assert!(input.context().operation.is_replaying);
    assert!(!input.context().operation.is_replaying_history_events);
    input.headers_mut().insert("h".to_owned(), vec![1]);
    let input = *input.into_args::<String, _>(downcast::<String>).unwrap_err();
    assert_eq!(input.headers()["h"], [1]);
    assert_eq!(input.args_ref().downcast_ref::<u32>(), Some(&7));
    assert_eq!(input.into_args::<u32, _>(downcast::<u32>).unwrap(), 7);
}

#[test]
fn signal_inputs_fall_into_their_parts() {
    let input = HandleSignalInput::new(
        "sig".to_owned(),
        5,
        HashMap::<String, Vec<u8>>::new(),
        context(),
    );
    assert_eq!(input.signal_name(), "sig");
    let (name, args, headers) = input.into_parts();
    assert_eq!((name.as_str(), args, headers.len()), ("sig", 5, 0));
}

#[test]
fn sleep_inputs_can_be_changed() {
    let input = SleepInput::new(
        TimerOptions {
            duration: Duration::from_millis(5),
            summary: Some("nap".to_owned()),
        },
        context(),
    );
    assert_eq!(input.summary(), Some("nap"));
    let input = input.with_duration(Duration::from_secs(1));
    assert_eq!(input.duration(), Duration::from_secs(1));
    assert_eq!(input.summary(), Some("nap"));
    let input = input.with_summary("rest".to_owned());
    assert_eq!(input.summary(), Some("rest"));
    let options = input.with_summary(None).into_options();
    assert_eq!(options.summary, None);
    assert_eq!(options.duration, Duration::from_secs(1));
}

#[test]
fn scheduling_inputs_can_be_changed_in_place() {
    let mut input = ScheduleActivityInput::new(
        "act".to_owned(),
        Box::new("args") as Box<dyn Any>,
        1_u8,
        context(),
    );
    assert_eq!(input.activity_type(), "act");
    input.activity_type_mut().push_str("ivity");
    *input.options_mut() = 9;
    assert_eq!(*input.options(), 9);
    let input = *input.into_parts::<u32, _>(downcast::<u32>).unwrap_err();
    let (name, args, options) = input.into_parts::<&str, _>(downcast::<&str>).unwrap();
    assert_eq!((name.as_str(), args, options), ("activity", "args", 9));

    let mut child =
        StartChildWorkflowExecutionInput::new("child".to_owned(), 1, "options", context());
    *child.args_mut() = 2;
    child.workflow_type_mut().clear();
    assert_eq!(child.workflow_type(), "");
    assert_eq!(*child.args_ref(), 2);
}

#[test]
fn signal_targets_become_command_targets() {
    let child = SignalWorkflowTarget::ChildWorkflow {
        workflow_id: "c".to_owned(),
    };
    assert_eq!(
        child.clone().into_proto(),
        SignalCommandTarget::ChildWorkflowId("c".to_owned())
    );
    let external = |run_id: Option<&str>| SignalWorkflowTarget::ExternalWorkflow {
        namespace: "n".to_owned(),
        workflow_id: "w".to_owned(),
        run_id: run_id.map(str::to_owned),
    };
    let execution = |run_id: &str| {
        SignalCommandTarget::WorkflowExecution(NamespacedWorkflowExecution {
            namespace: "n".to_owned(),
            workflow_id: "w".to_owned(),
            run_id: run_id.to_owned(),
        })
    };
    assert_eq!(external(Some("r")).into_proto(), execution("r"));
    assert_eq!(external(None).into_proto(), execution(""));

    let mut input = SignalWorkflowInput::new(
        child,
        "sig".to_owned(),
        1,
        HashMap::<String, Vec<u8>>::new(),
        context(),
    );
    *input.target_mut() = external(None);
    input.signal_name_mut().push('!');
    let (target, name, args, headers) = input.into_parts::<i32, _>(Ok).unwrap();
    assert_eq!(target, external(None));
    assert_eq!((name.as_str(), args, headers.len()), ("sig!", 1, 0));
}

#[test]
fn resolvers_ask_for_their_namespace() {
    let resolver = PollerGroupInfoStoreResolver::new("client", "ns".to_owned());
    let found = resolver.current(|client: &&str, namespace: &String| format!("{client}/{namespace}"));
    assert_eq!(found, "client/ns");
}

/// Raises the input to a floor, or answers by itself, and notes both.
struct Floor {
    name: &'static str,
    floor: i32,
    goes_on: bool,
}

impl Interceptor<i32, Vec<String>> for Floor {
    fn intercept<F: FnOnce(i32) -> Vec<String>>(&self, input: i32, next: Next<F>) -> Vec<String> {
        if !self.goes_on {
            return vec![format!("{} stops {input}", self.name)];
        }
        let mut seen = next.run(input.max(self.floor));
        seen.push(format!("{} saw {input}", self.name));
        seen
    }
}

#[test]
fn interceptors_see_inputs_from_the_outside_in() {
    let floor = |name, floor, goes_on| Floor {
        name,
        floor,
        goes_on,
    };
    let operation = |n: i32| vec![format!("ran {n}")];
    let chain = [floor("outer", 5, true), floor("inner", 7, true)];
    assert_eq!(
        call_chain(&chain, 1, Next::new(operation)),
        ["ran 7", "inner saw 5", "outer saw 1"]
    );
    // An interceptor need not go on.
    let chain = [floor("outer", 5, true), floor("inner", 7, false)];
    assert_eq!(
        call_chain(&chain, 1, Next::new(operation)),
        ["inner stops 5", "outer saw 1"]
    );
    // A chain is its front part around its back part.
    let front = [floor("a", 2, true)];
    let back = [floor("b", 3, true), floor("c", 4, true)];
    let nested = call_chain(
        &front,
        1,
        Next::new(|n: i32| call_chain(&back, n, Next::new(operation))),
    );
    let joined = [floor("a", 2, true), floor("b", 3, true), floor("c", 4, true)];
    assert_eq!(nested, call_chain(&joined, 1, Next::new(operation)));
}
