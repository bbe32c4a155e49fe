//! That the operations of a workflow run within its interceptors.

use super::chain::{
    acts_by, call_chain, chain, is_run, law_outcomes_come_of_runs, operation, Act, Interceptor,
    Next, NoopInterceptor,
};
use super::instance::{WorkflowInterceptorInstance, WorkflowInterceptors};
use super::types::{
    ExecuteInput, HandleQueryInput, HandleSignalInput, HandleUpdateInput, ScheduleActivityInput,
    ScheduleLocalActivityInput, SignalWorkflowInput, SleepInput, StartChildWorkflowExecutionInput,
    ValidateUpdateInput,
};
use vstd::prelude::*;

verus! {

/// What a continuation is made of is what it runs, with the input that it is given.
pub proof fn law_continuations_run_what_they_are_made_of<I, O, F: FnOnce(I) -> O>(
    f: F,
    next: Next<F>,
    input: I,
    output: O,
)
    requires
        call_ensures(Next::<F>::new, (f,), next),
        call_ensures(Next::<F>::run::<I, O>, (next, input), output),
    ensures
        call_ensures(f, (input,), output),
{
}

/// An interceptor that does nothing gives what its continuation gives for the same input.
pub proof fn law_noop_interceptors_run_their_continuation<I, O, F: FnOnce(I) -> O>(
    interceptor: &NoopInterceptor,
    input: I,
    f: F,
    next: Next<F>,
    output: O,
)
    requires
        next.function() == f,
        call_ensures(
            <NoopInterceptor as Interceptor<I, O>>::intercept::<F>,
            (interceptor, input, next),
            output,
        ),
    ensures
        call_ensures(f, (input,), output),
{
    assert(operation(next.function())(input, output));
}

/// Inbound and outbound interceptors are kept apart, each in the order of the factories that made them.
pub proof fn law_interceptors_are_kept_in_order<B, U>(
    interceptors: Vec<WorkflowInterceptors<B, U>>,
    res: WorkflowInterceptorInstance<B, U>,
)
    requires
        call_ensures(WorkflowInterceptorInstance::<B, U>::new, (interceptors,), res),
    ensures
        res.inbound().len() == interceptors@.len(),
        res.outbound().len() == interceptors@.len(),
        forall|i: int|
            0 <= i < interceptors@.len() ==> res.inbound()[i] == (
            #[trigger] interceptors@[i]).inbound,
        forall|i: int|
            0 <= i < interceptors@.len() ==> res.outbound()[i] == (
            #[trigger] interceptors@[i]).outbound,
{
}

/// What comes out of a chain comes of one run down its interceptors, from the first to the last, with
/// the operation behind them.
pub proof fn law_calls_run_down_the_chain<I, O, P: Interceptor<I, O>, F: FnOnce(I) -> O>(
    interceptors: &[P],
    input: I,
    f: F,
    next: Next<F>,
    output: O,
    acts: Seq<spec_fn(I, Act<I, O>) -> bool>,
)
    requires
        next.function() == f,
        call_ensures(call_chain::<I, O, P, F>, (interceptors, input, next), output),
        acts.len() == interceptors@.len(),
        forall|k: int| 0 <= k < acts.len() ==> acts_by(interceptors@[k], #[trigger] acts[k]),
    ensures
        exists|calls: Seq<(I, Act<I, O>)>| #[trigger]
            is_run(acts, calls, operation(f), input, output),
{
    let calls = law_outcomes_come_of_runs(
        interceptors@,
        acts,
        operation(f),
        input,
        output,
    );
    assert(is_run(acts, calls, operation(f), input, output));
}

/// `execute` comes of one run down the inbound interceptors, from the first to the last, with the operation
/// behind them.
pub proof fn law_execute_runs_within_inbound_interceptors<
    B,
    U,
    A, P, V,
    O,
    F: FnOnce(ExecuteInput<A, P, V>) -> O,
>(
    instance: &WorkflowInterceptorInstance<B, U>,
    input: ExecuteInput<A, P, V>,
    next: F,
    output: O,
    acts: Seq<spec_fn(ExecuteInput<A, P, V>, Act<ExecuteInput<A, P, V>, O>) -> bool>,
) where B: Interceptor<ExecuteInput<A, P, V>, O>
    requires
        call_ensures(
            WorkflowInterceptorInstance::<B, U>::execute::<A, P, V, O, F>,
            (instance, input, next),
            output,
        ),
        acts.len() == instance.inbound().len(),
        forall|k: int| 0 <= k < acts.len() ==> acts_by(instance.inbound()[k], #[trigger] acts[k]),
    ensures
        exists|calls: Seq<(ExecuteInput<A, P, V>, Act<ExecuteInput<A, P, V>, O>)>| #[trigger]
            is_run(acts, calls, operation(next), input, output),
{
    let calls = law_outcomes_come_of_runs(
        instance.inbound(),
        acts,
        operation(next),
        input,
        output,
    );
    assert(is_run(acts, calls, operation(next), input, output));
}

/// `handle_signal` comes of one run down the inbound interceptors, from the first to the last, with the operation
/// behind them.
pub proof fn law_handle_signal_runs_within_inbound_interceptors<
    B,
    U,
    A, P, V,
    O,
    F: FnOnce(HandleSignalInput<A, P, V>) -> O,
>(
    instance: &WorkflowInterceptorInstance<B, U>,
    input: HandleSignalInput<A, P, V>,
    next: F,
    output: O,
    acts: Seq<spec_fn(HandleSignalInput<A, P, V>, Act<HandleSignalInput<A, P, V>, O>) -> bool>,
) where B: Interceptor<HandleSignalInput<A, P, V>, O>
    requires
        call_ensures(
            WorkflowInterceptorInstance::<B, U>::handle_signal::<A, P, V, O, F>,
            (instance, input, next),
            output,
        ),
        acts.len() == instance.inbound().len(),
        forall|k: int| 0 <= k < acts.len() ==> acts_by(instance.inbound()[k], #[trigger] acts[k]),
    ensures
        exists|calls: Seq<(HandleSignalInput<A, P, V>, Act<HandleSignalInput<A, P, V>, O>)>| #[trigger]
            is_run(acts, calls, operation(next), input, output),
{
    let calls = law_outcomes_come_of_runs(
        instance.inbound(),
        acts,
        operation(next),
        input,
        output,
    );
    assert(is_run(acts, calls, operation(next), input, output));
}

/// `handle_query` comes of one run down the inbound interceptors, from the first to the last, with the operation
/// behind them.
pub proof fn law_handle_query_runs_within_inbound_interceptors<
    B,
    U,
    A, P, V,
    O,
    F: FnOnce(HandleQueryInput<A, P, V>) -> O,
>(
    instance: &WorkflowInterceptorInstance<B, U>,
    input: HandleQueryInput<A, P, V>,
    next: F,
    output: O,
    acts: Seq<spec_fn(HandleQueryInput<A, P, V>, Act<HandleQueryInput<A, P, V>, O>) -> bool>,
) where B: Interceptor<HandleQueryInput<A, P, V>, O>
    requires
        call_ensures(
            WorkflowInterceptorInstance::<B, U>::handle_query::<A, P, V, O, F>,
            (instance, input, next),
            output,
        ),
        acts.len() == instance.inbound().len(),
        forall|k: int| 0 <= k < acts.len() ==> acts_by(instance.inbound()[k], #[trigger] acts[k]),
    ensures
        exists|calls: Seq<(HandleQueryInput<A, P, V>, Act<HandleQueryInput<A, P, V>, O>)>| #[trigger]
            is_run(acts, calls, operation(next), input, output),
{
    let calls = law_outcomes_come_of_runs(
        instance.inbound(),
        acts,
        operation(next),
        input,
        output,
    );
    assert(is_run(acts, calls, operation(next), input, output));
}

/// `validate_update` comes of one run down the inbound interceptors, from the first to the last, with the operation
/// behind them.
pub proof fn law_validate_update_runs_within_inbound_interceptors<
    B,
    U,
    A, P, V,
    O,
    F: FnOnce(ValidateUpdateInput<A, P, V>) -> O,
>(
    instance: &WorkflowInterceptorInstance<B, U>,
    input: ValidateUpdateInput<A, P, V>,
    next: F,
    output: O,
    acts: Seq<spec_fn(ValidateUpdateInput<A, P, V>, Act<ValidateUpdateInput<A, P, V>, O>) -> bool>,
) where B: Interceptor<ValidateUpdateInput<A, P, V>, O>
    requires
        call_ensures(
            WorkflowInterceptorInstance::<B, U>::validate_update::<A, P, V, O, F>,
            (instance, input, next),
            output,
        ),
        acts.len() == instance.inbound().len(),
        forall|k: int| 0 <= k < acts.len() ==> acts_by(instance.inbound()[k], #[trigger] acts[k]),
    ensures
        exists|calls: Seq<(ValidateUpdateInput<A, P, V>, Act<ValidateUpdateInput<A, P, V>, O>)>| #[trigger]
            is_run(acts, calls, operation(next), input, output),
{
    let calls = law_outcomes_come_of_runs(
        instance.inbound(),
        acts,
        operation(next),
        input,
        output,
    );
    assert(is_run(acts, calls, operation(next), input, output));
}

/// `handle_update` comes of one run down the inbound interceptors, from the first to the last, with the operation
/// behind them.
pub proof fn law_handle_update_runs_within_inbound_interceptors<
    B,
    U,
    A, P, V,
    O,
    F: FnOnce(HandleUpdateInput<A, P, V>) -> O,
>(
    instance: &WorkflowInterceptorInstance<B, U>,
    input: HandleUpdateInput<A, P, V>,
    next: F,
    output: O,
    acts: Seq<spec_fn(HandleUpdateInput<A, P, V>, Act<HandleUpdateInput<A, P, V>, O>) -> bool>,
) where B: Interceptor<HandleUpdateInput<A, P, V>, O>
    requires
        call_ensures(
            WorkflowInterceptorInstance::<B, U>::handle_update::<A, P, V, O, F>,
            (instance, input, next),
            output,
        ),
        acts.len() == instance.inbound().len(),
        forall|k: int| 0 <= k < acts.len() ==> acts_by(instance.inbound()[k], #[trigger] acts[k]),
    ensures
        exists|calls: Seq<(HandleUpdateInput<A, P, V>, Act<HandleUpdateInput<A, P, V>, O>)>| #[trigger]
            is_run(acts, calls, operation(next), input, output),
{
    let calls = law_outcomes_come_of_runs(
        instance.inbound(),
        acts,
        operation(next),
        input,
        output,
    );
    assert(is_run(acts, calls, operation(next), input, output));
}

/// `sleep` comes of one run down the outbound interceptors, from the first to the last, with the operation
/// behind them.
pub proof fn law_sleep_runs_within_outbound_interceptors<
    B,
    U,
    V,
    O,
    F: FnOnce(SleepInput<V>) -> O,
>(
    instance: &WorkflowInterceptorInstance<B, U>,
    input: SleepInput<V>,
    next: F,
    output: O,
    acts: Seq<spec_fn(SleepInput<V>, Act<SleepInput<V>, O>) -> bool>,
) where U: Interceptor<SleepInput<V>, O>
    requires
        call_ensures(
            WorkflowInterceptorInstance::<B, U>::sleep::<V, O, F>,
            (instance, input, next),
            output,
        ),
        acts.len() == instance.outbound().len(),
        forall|k: int| 0 <= k < acts.len() ==> acts_by(instance.outbound()[k], #[trigger] acts[k]),
    ensures
        exists|calls: Seq<(SleepInput<V>, Act<SleepInput<V>, O>)>| #[trigger]
            is_run(acts, calls, operation(next), input, output),
{
    let calls = law_outcomes_come_of_runs(
        instance.outbound(),
        acts,
        operation(next),
        input,
        output,
    );
    assert(is_run(acts, calls, operation(next), input, output));
}

/// `schedule_activity` comes of one run down the outbound interceptors, from the first to the last, with the operation
/// behind them.
pub proof fn law_schedule_activity_runs_within_outbound_interceptors<
    B,
    U,
    A, X, V,
    O,
    F: FnOnce(ScheduleActivityInput<A, X, V>) -> O,
>(
    instance: &WorkflowInterceptorInstance<B, U>,
    input: ScheduleActivityInput<A, X, V>,
    next: F,
    output: O,
    acts: Seq<spec_fn(ScheduleActivityInput<A, X, V>, Act<ScheduleActivityInput<A, X, V>, O>) -> bool>,
) where U: Interceptor<ScheduleActivityInput<A, X, V>, O>
    requires
        call_ensures(
            WorkflowInterceptorInstance::<B, U>::schedule_activity::<A, X, V, O, F>,
            (instance, input, next),
            output,
        ),
        acts.len() == instance.outbound().len(),
        forall|k: int| 0 <= k < acts.len() ==> acts_by(instance.outbound()[k], #[trigger] acts[k]),
    ensures
        exists|calls: Seq<(ScheduleActivityInput<A, X, V>, Act<ScheduleActivityInput<A, X, V>, O>)>| #[trigger]
            is_run(acts, calls, operation(next), input, output),
{
    let calls = law_outcomes_come_of_runs(
        instance.outbound(),
        acts,
        operation(next),
        input,
        output,
    );
    assert(is_run(acts, calls, operation(next), input, output));
}

/// `schedule_local_activity` comes of one run down the outbound interceptors, from the first to the last, with the operation
/// behind them.
pub proof fn law_schedule_local_activity_runs_within_outbound_interceptors<
    B,
    U,
    A, X, V,
    O,
    F: FnOnce(ScheduleLocalActivityInput<A, X, V>) -> O,
>(
    instance: &WorkflowInterceptorInstance<B, U>,
    input: ScheduleLocalActivityInput<A, X, V>,
    next: F,
    output: O,
    acts: Seq<spec_fn(ScheduleLocalActivityInput<A, X, V>, Act<ScheduleLocalActivityInput<A, X, V>, O>) -> bool>,
) where U: Interceptor<ScheduleLocalActivityInput<A, X, V>, O>
    requires
        call_ensures(
            WorkflowInterceptorInstance::<B, U>::schedule_local_activity::<A, X, V, O, F>,
            (instance, input, next),
            output,
        ),
        acts.len() == instance.outbound().len(),
        forall|k: int| 0 <= k < acts.len() ==> acts_by(instance.outbound()[k], #[trigger] acts[k]),
    ensures
        exists|calls: Seq<(ScheduleLocalActivityInput<A, X, V>, Act<ScheduleLocalActivityInput<A, X, V>, O>)>| #[trigger]
            is_run(acts, calls, operation(next), input, output),
{
    let calls = law_outcomes_come_of_runs(
        instance.outbound(),
        acts,
        operation(next),
        input,
        output,
    );
    assert(is_run(acts, calls, operation(next), input, output));
}

/// `signal_workflow` comes of one run down the outbound interceptors, from the first to the last, with the operation
/// behind them.
pub proof fn law_signal_workflow_runs_within_outbound_interceptors<
    B,
    U,
    A, P, V,
    O,
    F: FnOnce(SignalWorkflowInput<A, P, V>) -> O,
>(
    instance: &WorkflowInterceptorInstance<B, U>,
    input: SignalWorkflowInput<A, P, V>,
    next: F,
    output: O,
    acts: Seq<spec_fn(SignalWorkflowInput<A, P, V>, Act<SignalWorkflowInput<A, P, V>, O>) -> bool>,
) where U: Interceptor<SignalWorkflowInput<A, P, V>, O>
    requires
        call_ensures(
            WorkflowInterceptorInstance::<B, U>::signal_workflow::<A, P, V, O, F>,
            (instance, input, next),
            output,
        ),
        acts.len() == instance.outbound().len(),
        forall|k: int| 0 <= k < acts.len() ==> acts_by(instance.outbound()[k], #[trigger] acts[k]),
    ensures
        exists|calls: Seq<(SignalWorkflowInput<A, P, V>, Act<SignalWorkflowInput<A, P, V>, O>)>| #[trigger]
            is_run(acts, calls, operation(next), input, output),
{
    let calls = law_outcomes_come_of_runs(
        instance.outbound(),
        acts,
        operation(next),
        input,
        output,
    );
    assert(is_run(acts, calls, operation(next), input, output));
}

/// `start_child_workflow_execution` comes of one run down the outbound interceptors, from the first to the last, with the operation
/// behind them.
pub proof fn law_start_child_workflow_execution_runs_within_outbound_interceptors<
    B,
    U,
    A, X, V,
    O,
    F: FnOnce(StartChildWorkflowExecutionInput<A, X, V>) -> O,
>(
    instance: &WorkflowInterceptorInstance<B, U>,
    input: StartChildWorkflowExecutionInput<A, X, V>,
    next: F,
    output: O,
    acts: Seq<spec_fn(StartChildWorkflowExecutionInput<A, X, V>, Act<StartChildWorkflowExecutionInput<A, X, V>, O>) -> bool>,
) where U: Interceptor<StartChildWorkflowExecutionInput<A, X, V>, O>
    requires
        call_ensures(
            WorkflowInterceptorInstance::<B, U>::start_child_workflow_execution::<A, X, V, O, F>,
            (instance, input, next),
            output,
        ),
        acts.len() == instance.outbound().len(),
        forall|k: int| 0 <= k < acts.len() ==> acts_by(instance.outbound()[k], #[trigger] acts[k]),
    ensures
        exists|calls: Seq<(StartChildWorkflowExecutionInput<A, X, V>, Act<StartChildWorkflowExecutionInput<A, X, V>, O>)>| #[trigger]
            is_run(acts, calls, operation(next), input, output),
{
    let calls = law_outcomes_come_of_runs(
        instance.outbound(),
        acts,
        operation(next),
        input,
        output,
    );
    assert(is_run(acts, calls, operation(next), input, output));
}

} // verus!
