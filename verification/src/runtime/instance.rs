//! The routines of one workflow instance: how the main one starts, and how they are polled.

use super::model::{
    Failure, MainRoutineCompletion, Resolution, RoutineCompletion, RoutineId, RoutinePollResult,
    TaskFailure, TerminalOutcome, TimerResult, UnblockEvent, UpdateRoutineCompletion,
    WorkflowTermination, MAIN_ROUTINE_ID,
};
use super::polling::RoutinePollState;
use crate::interceptors::types::{ExecuteInput, WorkflowInterceptorContext};
use crate::text::{decimal, decimal_string, join2};
use std::collections::HashMap;
use vstd::prelude::*;

verus! {

broadcast use vstd::std_specs::hash::group_hash_axioms;

/// A routine of a handler: it runs, or it failed before it could.
#[derive(Debug)]
pub enum RoutineFuture<F, E> {
    Running(F),
    Failed(E),
}

/// A routine beside the main one. `S` runs a signal handler and `U` an update handler.
#[derive(Debug)]
pub enum GuestRoutine<S, U, E> {
    Signal { future: RoutineFuture<S, E> },
    Update { protocol_instance_id: String, future: RoutineFuture<U, E> },
}

/// The routines beside the main one.
#[derive(Debug)]
pub struct RoutineTable<S, U, E> {
    next_routine_id: RoutineId,
    routines: HashMap<RoutineId, GuestRoutine<S, U, E>>,
}

/// Mathematical counterpart of [`RoutineTable`].
pub struct Routines<S, U, E> {
    /// The id of the next routine.
    pub next_id: RoutineId,
    /// The routines that wait to be polled.
    pub waiting: Map<RoutineId, GuestRoutine<S, U, E>>,
}

impl<S, U, E> View for RoutineTable<S, U, E> {
    type V = Routines<S, U, E>;

    closed spec fn view(&self) -> Routines<S, U, E> {
        Routines { next_id: self.next_routine_id, waiting: self.routines@ }
    }
}

/// A running workflow. `C` is its context and `R` runs its main routine.
#[derive(Debug)]
pub struct GuestWorkflowInstance<C, R, S, U, E> {
    pub ctx: C,
    pub run_future: R,
    pub routines: RoutineTable<S, U, E>,
}

impl<C, R, S, U, E> GuestWorkflowInstance<C, R, S, U, E> {
    /// The routines beside the main one.
    pub open spec fn table(&self) -> Routines<S, U, E> {
        self.routines@
    }

    /// The workflow is what the execute chain gave for the input, and has no routines yet.
    pub open spec fn is_started_by<A, P, V, X: FnOnce(ExecuteInput<A, P, V>) -> (R, Option<C>)>(
        &self,
        execute: X,
        input: ExecuteInput<A, P, V>,
    ) -> bool {
        &&& call_ensures(execute, (input,), (self.run_future, Some(self.ctx)))
        &&& self.table().next_id == MAIN_ROUTINE_ID + 1
        &&& self.table().waiting == Map::<RoutineId, GuestRoutine<S, U, E>>::empty()
        &&& self.table().wf()
    }

    /// Only the routines of the workflow changed.
    pub open spec fn same_workflow(&self, before: Self) -> bool {
        self.ctx == before.ctx && self.run_future == before.run_future
    }
}

/// The chain takes the input, and gets to its end, where the context is made.
pub open spec fn is_run_by<A, P, V, R, C, X: FnOnce(ExecuteInput<A, P, V>) -> (R, Option<C>)>(
    execute: X,
    input: ExecuteInput<A, P, V>,
) -> bool {
    &&& call_requires(execute, (input,))
    &&& forall|out: (R, Option<C>)| #[trigger]
        call_ensures(execute, (input,), out) ==> out.1 is Some
}

impl<S, U, E> Routines<S, U, E> {
    /// All routines were given an id before the next one, and none has that of the main routine.
    pub open spec fn wf(self) -> bool {
        &&& MAIN_ROUTINE_ID < self.next_id
        &&& forall|id: RoutineId| #[trigger]
            self.waiting.contains_key(id) ==> MAIN_ROUTINE_ID < id < self.next_id
    }

    /// The routines with one more.
    pub open spec fn started(self, routine: GuestRoutine<S, U, E>) -> Routines<S, U, E> {
        Routines {
            next_id: (self.next_id + 1) as u64,
            waiting: self.waiting.insert(self.next_id, routine),
        }
    }
}

impl<S, U, E> RoutineTable<S, U, E> {
    /// A table without routines.
    pub fn new() -> (res: Self)
        ensures
            res@.next_id == MAIN_ROUTINE_ID + 1,
            res@.waiting == Map::<RoutineId, GuestRoutine<S, U, E>>::empty(),
            res@.wf(),
    {
        RoutineTable { next_routine_id: MAIN_ROUTINE_ID + 1, routines: HashMap::new() }
    }

    /// The id of the next routine.
    pub fn next_id(&self) -> (res: RoutineId)
        ensures
            res == self@.next_id,
    {
        self.next_routine_id
    }

    /// Gives out the next routine id.
    fn next_routine_id(&mut self) -> (res: RoutineId)
        requires
            old(self)@.next_id < u64::MAX,
        ensures
            res == old(self)@.next_id,
            final(self)@ == (Routines { next_id: (res + 1) as u64, ..old(self)@ }),
    {
        let id: RoutineId = self.next_routine_id;
        self.next_routine_id = id + 1;
        id
    }

    /// Registers a routine under the next id.
    pub fn register(&mut self, routine: GuestRoutine<S, U, E>) -> (res: RoutineId)
        requires
            old(self)@.next_id < u64::MAX,
        ensures
            res == old(self)@.next_id,
            final(self)@ == old(self)@.started(routine),
            old(self)@.wf() ==> final(self)@.wf(),
    {
        let routine_id: RoutineId = self.next_routine_id();
        self.routines.insert(routine_id, routine);
        routine_id
    }
}

/// The value, which must be there.
pub fn expect_resolution<T>(value: Option<T>) -> (res: T)
    requires
        value is Some,
    ensures
        value == Some(res),
{
    value.unwrap()
}

/// The resolution has what it was resolved with, where it needs that.
pub open spec fn is_complete<X>(resolution: Resolution<X>) -> bool {
    match resolution {
        Resolution::ResolveActivity(_, x)
        | Resolution::ResolveChildWorkflowExecutionStart(_, x)
        | Resolution::ResolveChildWorkflowExecution(_, x)
        | Resolution::ResolveNexusOperationStart(_, x)
        | Resolution::ResolveNexusOperation(_, x) => x is Some,
        _ => true,
    }
}

/// Whether the resolution has what it was resolved with, where it needs that.
pub fn has_what_it_needs<X>(resolution: &Resolution<X>) -> (res: bool)
    ensures
        res == is_complete(*resolution),
{
    match resolution {
        Resolution::ResolveActivity(_, x)
        | Resolution::ResolveChildWorkflowExecutionStart(_, x)
        | Resolution::ResolveChildWorkflowExecution(_, x)
        | Resolution::ResolveNexusOperationStart(_, x)
        | Resolution::ResolveNexusOperation(_, x) => x.is_some(),
        _ => true,
    }
}

/// The event by which a resolution unblocks a workflow.
pub open spec fn event_of<X>(resolution: Resolution<X>) -> UnblockEvent<X> {
    match resolution {
        Resolution::FireTimer(seq) => UnblockEvent::Timer(seq, TimerResult::Fired),
        Resolution::ResolveActivity(seq, x) => UnblockEvent::Activity(seq, Box::new(x->Some_0)),
        Resolution::ResolveChildWorkflowExecutionStart(seq, x) => UnblockEvent::WorkflowStart(
            seq,
            Box::new(x->Some_0),
        ),
        Resolution::ResolveChildWorkflowExecution(seq, x) => UnblockEvent::WorkflowComplete(
            seq,
            Box::new(x->Some_0),
        ),
        Resolution::ResolveSignalExternalWorkflow(seq, failure) => UnblockEvent::SignalExternal(
            seq,
            failure,
        ),
        Resolution::ResolveRequestCancelExternalWorkflow(
            seq,
            failure,
        ) => UnblockEvent::CancelExternal(seq, failure),
        Resolution::ResolveNexusOperationStart(seq, x) => UnblockEvent::NexusOperationStart(
            seq,
            Box::new(x->Some_0),
        ),
        Resolution::ResolveNexusOperation(seq, x) => UnblockEvent::NexusOperationComplete(
            seq,
            Box::new(x->Some_0),
        ),
    }
}

/// The event by which a resolution unblocks a workflow.
pub fn apply_resolution<X>(resolution: Resolution<X>) -> (res: UnblockEvent<X>)
    requires
        is_complete(resolution),
    ensures
        res == event_of(resolution),
{
    match resolution {
        Resolution::FireTimer(seq) => UnblockEvent::Timer(seq, TimerResult::Fired),
        Resolution::ResolveActivity(seq, result) => UnblockEvent::Activity(
            seq,
            Box::new(expect_resolution(result)),
        ),
        Resolution::ResolveChildWorkflowExecutionStart(seq, status) => UnblockEvent::WorkflowStart(
            seq,
            Box::new(expect_resolution(status)),
        ),
        Resolution::ResolveChildWorkflowExecution(seq, result) => UnblockEvent::WorkflowComplete(
            seq,
            Box::new(expect_resolution(result)),
        ),
        Resolution::ResolveSignalExternalWorkflow(seq, failure) => UnblockEvent::SignalExternal(
            seq,
            failure,
        ),
        Resolution::ResolveRequestCancelExternalWorkflow(
            seq,
            failure,
        ) => UnblockEvent::CancelExternal(seq, failure),
        Resolution::ResolveNexusOperationStart(seq, status) => UnblockEvent::NexusOperationStart(
            seq,
            Box::new(expect_resolution(status)),
        ),
        Resolution::ResolveNexusOperation(seq, result) => UnblockEvent::NexusOperationComplete(
            seq,
            Box::new(expect_resolution(result)),
        ),
    }
}

/// How a workflow ended, by its result. A workflow never ends by eviction.
pub fn terminal_outcome_from_result<P, N, X>(result: Result<P, WorkflowTermination<N, X>>) -> (res:
    TerminalOutcome<P, N, X>)
    requires
        !(result matches Err(WorkflowTermination::Evicted)),
    ensures
        match result {
            Ok(payload) => res == TerminalOutcome::<P, N, X>::Completed(payload),
            Err(WorkflowTermination::ContinueAsNew(request)) => res
                == TerminalOutcome::<P, N, X>::ContinueAsNew(request),
            Err(WorkflowTermination::Failed(error)) => res == TerminalOutcome::<P, N, X>::Failed(
                error,
            ),
            _ => res == TerminalOutcome::<P, N, X>::Cancelled,
        },
{
    match result {
        Ok(payload) => TerminalOutcome::Completed(payload),
        Err(WorkflowTermination::ContinueAsNew(request)) => TerminalOutcome::ContinueAsNew(request),
        Err(WorkflowTermination::Failed(error)) => TerminalOutcome::Failed(error),
        Err(WorkflowTermination::Cancelled) | Err(
            WorkflowTermination::Evicted,
        ) => TerminalOutcome::Cancelled,
    }
}

impl<C, R, S, U, E> GuestWorkflowInstance<C, R, S, U, E> {
    /// Starts a workflow within the execute chain.
    ///
    /// `execute` runs the chain. It gives what runs the main routine, and the context that the
    /// workflow was made with, which is there if the chain got to its end.
    pub fn with_interceptors<A, P, V, X: FnOnce(ExecuteInput<A, P, V>) -> (R, Option<C>)>(
        workflow_type: String,
        input: A,
        headers: HashMap<String, P>,
        context: WorkflowInterceptorContext<V>,
        execute: X,
    ) -> (res: Self)
        requires
            is_run_by(execute, (ExecuteInput { workflow_type, args: input, headers, context })),
        ensures
            res.is_started_by(
                execute,
                (ExecuteInput { workflow_type, args: input, headers, context }),
            ),
    {
        let input = ExecuteInput::new(workflow_type, input, headers, context);
        let (run_future, ctx) = execute(input);
        let ctx = ctx.unwrap();
        GuestWorkflowInstance { ctx, run_future, routines: RoutineTable::new() }
    }

    /// Starts a workflow that was made before the execute chain runs.
    ///
    /// `execute` runs the chain, at whose end the workflow runs with its input.
    pub fn new_with_workflow<A, P, V, X: FnOnce(ExecuteInput<A, P, V>) -> (R, Option<C>)>(
        workflow_type: String,
        run_input: A,
        headers: HashMap<String, P>,
        context: WorkflowInterceptorContext<V>,
        execute: X,
    ) -> (res: Self)
        requires
            is_run_by(
                execute,
                (ExecuteInput { workflow_type, args: run_input, headers, context }),
            ),
        ensures
            res.is_started_by(
                execute,
                (ExecuteInput { workflow_type, args: run_input, headers, context }),
            ),
    {
        GuestWorkflowInstance::with_interceptors(
            workflow_type,
            run_input,
            headers,
            context,
            execute,
        )
    }

    /// Starts a workflow. If its constructor takes the input, the workflow is made at the end of the
    /// execute chain, from the input that got there; otherwise it is made before.
    ///
    /// `execute_and_init` runs the chain and makes the workflow at its end; `init_and_execute` makes
    /// the workflow and then runs the chain.
    pub fn new<
        A,
        P,
        V,
        X: FnOnce(ExecuteInput<A, P, V>) -> (R, Option<C>),
        Y: FnOnce(ExecuteInput<A, P, V>) -> (R, Option<C>),
    >(
        workflow_type: String,
        chain_input: A,
        headers: HashMap<String, P>,
        context: WorkflowInterceptorContext<V>,
        init_takes_input: bool,
        execute_and_init: X,
        init_and_execute: Y,
    ) -> (res: Self)
        requires
            init_takes_input ==> is_run_by(
                execute_and_init,
                (ExecuteInput { workflow_type, args: chain_input, headers, context }),
            ),
            !init_takes_input ==> is_run_by(
                init_and_execute,
                (ExecuteInput { workflow_type, args: chain_input, headers, context }),
            ),
        ensures
            init_takes_input ==> res.is_started_by(
                execute_and_init,
                (ExecuteInput { workflow_type, args: chain_input, headers, context }),
            ),
            !init_takes_input ==> res.is_started_by(
                init_and_execute,
                (ExecuteInput { workflow_type, args: chain_input, headers, context }),
            ),
    {
        if init_takes_input {
            GuestWorkflowInstance::with_interceptors(
                workflow_type,
                chain_input,
                headers,
                context,
                execute_and_init,
            )
        } else {
            GuestWorkflowInstance::new_with_workflow(
                workflow_type,
                chain_input,
                headers,
                context,
                init_and_execute,
            )
        }
    }

    /// Starts a workflow from the payloads of its input. `convert` turns the payloads into the input.
    ///
    /// For `execute_and_init` and `init_and_execute` see [`Self::new`].
    pub fn instantiate<
        A,
        P,
        V,
        D,
        N: FnOnce(Vec<P>) -> Result<A, D>,
        X: FnOnce(ExecuteInput<A, P, V>) -> (R, Option<C>),
        Y: FnOnce(ExecuteInput<A, P, V>) -> (R, Option<C>),
    >(
        payloads: Vec<P>,
        convert: N,
        workflow_type: String,
        headers: HashMap<String, P>,
        context: WorkflowInterceptorContext<V>,
        init_takes_input: bool,
        execute_and_init: X,
        init_and_execute: Y,
    ) -> (res: Result<Self, D>)
        requires
            call_requires(convert, (payloads,)),
            forall|input: A|
                #![trigger call_ensures(convert, (payloads,), Ok(input))]
                call_ensures(convert, (payloads,), Ok(input)) ==> if init_takes_input {
                    is_run_by(
                        execute_and_init,
                        (ExecuteInput { workflow_type, args: input, headers, context }),
                    )
                } else {
                    is_run_by(
                        init_and_execute,
                        (ExecuteInput { workflow_type, args: input, headers, context }),
                    )
                },
        ensures
            match res {
                Err(error) => call_ensures(convert, (payloads,), Err(error)),
                Ok(instance) => exists|input: A|
                    #![trigger call_ensures(convert, (payloads,), Ok(input))]
                    call_ensures(convert, (payloads,), Ok(input)) && if init_takes_input {
                        instance.is_started_by(
                            execute_and_init,
                            (ExecuteInput { workflow_type, args: input, headers, context }),
                        )
                    } else {
                        instance.is_started_by(
                            init_and_execute,
                            (ExecuteInput { workflow_type, args: input, headers, context }),
                        )
                    },
            },
    {
        let input = match convert(payloads) {
            Ok(input) => input,
            Err(error) => {
                return Err(error);
            },
        };
        assert(call_ensures(convert, (payloads,), Ok(input)));
        Ok(
            GuestWorkflowInstance::new(
                workflow_type,
                input,
                headers,
                context,
                init_takes_input,
                execute_and_init,
                init_and_execute,
            ),
        )
    }
}

/// A routine that is to be polled.
#[derive(Debug)]
pub enum PolledRoutine<S, U, E> {
    Main,
    Signal { future: RoutineFuture<S, E> },
    Update { protocol_instance_id: String, future: RoutineFuture<U, E> },
}

/// What came of polling the main routine.
pub fn poll_main_routine<P, N, X, E, K>(
    state: RoutinePollState<Result<P, WorkflowTermination<N, X>>, E>,
) -> (res: RoutinePollResult<P, N, X, E, K>)
    requires
        !(state matches RoutinePollState::Ready {
            result: Err(WorkflowTermination::Evicted),
            made_progress: _,
        }),
    ensures
        match state {
            RoutinePollState::Ready { result, made_progress } => {
                &&& res.made_progress == made_progress
                &&& res.completion matches Some(
                    RoutineCompletion::Main(MainRoutineCompletion::Terminal(outcome)),
                )
                &&& call_ensures(terminal_outcome_from_result::<P, N, X>, (result,), outcome)
            },
            RoutinePollState::ForcedFailure { failure, made_progress } => {
                &&& res.made_progress == made_progress
                &&& res.completion matches Some(
                    RoutineCompletion::Main(MainRoutineCompletion::TaskFailed(task)),
                )
                &&& task.failure == failure
                &&& task.force_cause is None
            },
            RoutinePollState::Stalled { made_progress } => {
                &&& res.made_progress == made_progress
                &&& res.completion matches Some(
                    RoutineCompletion::Main(MainRoutineCompletion::Blocked),
                )
            },
        },
{
    match state {
        RoutinePollState::Ready { result, made_progress } => RoutinePollResult {
            completion: Some(
                RoutineCompletion::Main(
                    MainRoutineCompletion::Terminal(terminal_outcome_from_result(result)),
                ),
            ),
            made_progress,
        },
        RoutinePollState::ForcedFailure { failure, made_progress } => RoutinePollResult {
            completion: Some(
                RoutineCompletion::Main(
                    MainRoutineCompletion::TaskFailed(TaskFailure { failure, force_cause: None }),
                ),
            ),
            made_progress,
        },
        RoutinePollState::Stalled { made_progress } => RoutinePollResult {
            completion: Some(RoutineCompletion::Main(MainRoutineCompletion::Blocked)),
            made_progress,
        },
    }
}

/// The message for a routine that does not exist.
pub open spec fn no_routine(id: RoutineId) -> Seq<char> {
    "No routine registered for id "@ + decimal(id as nat)
}

impl<S, U, E> Routines<S, U, E> {
    /// The routines with one that waits again.
    pub open spec fn with_waiting(
        self,
        id: RoutineId,
        routine: GuestRoutine<S, U, E>,
    ) -> Routines<S, U, E> {
        Routines { waiting: self.waiting.insert(id, routine), ..self }
    }
}

impl<S, U, E> RoutineTable<S, U, E> {
    /// Takes the routine that is to be polled out of the table. Once polled it goes back, if it
    /// waits.
    pub fn take_routine(&mut self, routine_id: RoutineId) -> (res: Result<
        PolledRoutine<S, U, E>,
        Failure<E>,
    >)
        ensures
            if routine_id == MAIN_ROUTINE_ID {
                res == Ok::<_, Failure<E>>(PolledRoutine::<S, U, E>::Main) && final(self)@
                    == old(self)@
            } else if old(self)@.waiting.contains_key(routine_id) {
                &&& final(self)@ == (Routines {
                    waiting: old(self)@.waiting.remove(routine_id),
                    ..old(self)@
                })
                &&& match old(self)@.waiting[routine_id] {
                    GuestRoutine::Signal { future } => res == Ok::<_, Failure<E>>(
                        PolledRoutine::<S, U, E>::Signal { future },
                    ),
                    GuestRoutine::Update { protocol_instance_id, future } => res == Ok::<
                        _,
                        Failure<E>,
                    >(PolledRoutine::<S, U, E>::Update { protocol_instance_id, future }),
                }
            } else {
                &&& final(self)@ == old(self)@
                &&& res matches Err(failure)
                &&& failure.is_bare(no_routine(routine_id))
            },
            old(self)@.wf() ==> final(self)@.wf(),
    {
        if routine_id == MAIN_ROUTINE_ID {
            return Ok(PolledRoutine::Main);
        }
        match self.routines.remove(&routine_id) {
            Some(GuestRoutine::Signal { future }) => Ok(PolledRoutine::Signal { future }),
            Some(GuestRoutine::Update { protocol_instance_id, future }) => Ok(
                PolledRoutine::Update { protocol_instance_id, future },
            ),
            None => {
                assert(self@.waiting =~= old(self)@.waiting);
                Err(
                    Failure::Bare(
                        join2(
                            "No routine registered for id ",
                            decimal_string(routine_id).as_str(),
                        ),
                    ),
                )
            },
        }
    }

    /// What came of polling a signal routine. One that waits goes back to the table.
    pub fn poll_signal_routine<P, N, X, K>(
        &mut self,
        routine_id: RoutineId,
        future: RoutineFuture<S, E>,
        state: RoutinePollState<Result<(), E>, E>,
    ) -> (res: Result<RoutinePollResult<P, N, X, E, K>, Failure<E>>)
        requires
            MAIN_ROUTINE_ID < routine_id < old(self)@.next_id,
        ensures
            match state {
                RoutinePollState::Ready { result, made_progress } => {
                    &&& final(self)@ == old(self)@
                    &&& res matches Ok(polled)
                    &&& polled.made_progress == made_progress
                    &&& polled.completion == Some(
                        RoutineCompletion::<P, N, X, E, K>::Signal(
                            match result {
                                Ok(_) => Ok(()),
                                Err(error) => Err(Failure::Workflow(error)),
                            },
                        ),
                    )
                },
                RoutinePollState::ForcedFailure { failure, made_progress: _ } => final(self)@
                    == old(self)@ && res == Err::<RoutinePollResult<P, N, X, E, K>, _>(failure),
                RoutinePollState::Stalled { made_progress } => {
                    &&& final(self)@ == old(self)@.with_waiting(
                        routine_id,
                        GuestRoutine::Signal { future },
                    )
                    &&& res matches Ok(polled)
                    &&& polled.made_progress == made_progress
                    &&& polled.completion is None
                },
            },
            old(self)@.wf() ==> final(self)@.wf(),
    {
        match state {
            RoutinePollState::Ready { result, made_progress } => {
                let result = match result {
                    Ok(_) => Ok(()),
                    Err(error) => Err(Failure::Workflow(error)),
                };
                Ok(
                    RoutinePollResult {
                        completion: Some(RoutineCompletion::Signal(result)),
                        made_progress,
                    },
                )
            },
            RoutinePollState::ForcedFailure { failure, made_progress: _ } => Err(failure),
            RoutinePollState::Stalled { made_progress } => {
                self.routines.insert(routine_id, GuestRoutine::Signal { future });
                Ok(RoutinePollResult { completion: None, made_progress })
            },
        }
    }

    /// What came of polling an update routine. One that waits goes back to the table.
    pub fn poll_update_routine<P, N, X, K>(
        &mut self,
        routine_id: RoutineId,
        protocol_instance_id: String,
        future: RoutineFuture<U, E>,
        state: RoutinePollState<Result<P, E>, E>,
    ) -> (res: Result<RoutinePollResult<P, N, X, E, K>, Failure<E>>)
        requires
            MAIN_ROUTINE_ID < routine_id < old(self)@.next_id,
        ensures
            match state {
                RoutinePollState::Ready { result, made_progress } => {
                    &&& final(self)@ == old(self)@
                    &&& res matches Ok(polled)
                    &&& polled.made_progress == made_progress
                    &&& polled.completion == Some(
                        RoutineCompletion::<P, N, X, E, K>::Update(
                            match result {
                                Ok(payload) => UpdateRoutineCompletion::Completed {
                                    protocol_instance_id,
                                    result: payload,
                                },
                                Err(error) => UpdateRoutineCompletion::Rejected {
                                    protocol_instance_id,
                                    failure: Failure::Workflow(error),
                                },
                            },
                        ),
                    )
                },
                RoutinePollState::ForcedFailure { failure, made_progress: _ } => final(self)@
                    == old(self)@ && res == Err::<RoutinePollResult<P, N, X, E, K>, _>(failure),
                RoutinePollState::Stalled { made_progress } => {
                    &&& final(self)@ == old(self)@.with_waiting(
                        routine_id,
                        GuestRoutine::Update { protocol_instance_id, future },
                    )
                    &&& res matches Ok(polled)
                    &&& polled.made_progress == made_progress
                    &&& polled.completion is None
                },
            },
            old(self)@.wf() ==> final(self)@.wf(),
    {
        match state {
            RoutinePollState::Ready { result, made_progress } => {
                let completion = match result {
                    Ok(result) => UpdateRoutineCompletion::Completed {
                        protocol_instance_id,
                        result,
                    },
                    Err(error) => UpdateRoutineCompletion::Rejected {
                        protocol_instance_id,
                        failure: Failure::Workflow(error),
                    },
                };
                Ok(
                    RoutinePollResult {
                        completion: Some(RoutineCompletion::Update(completion)),
                        made_progress,
                    },
                )
            },
            RoutinePollState::ForcedFailure { failure, made_progress: _ } => Err(failure),
            RoutinePollState::Stalled { made_progress } => {
                self.routines.insert(
                    routine_id,
                    GuestRoutine::Update { protocol_instance_id, future },
                );
                Ok(RoutinePollResult { completion: None, made_progress })
            },
        }
    }
}

/// Routine ids are never given out twice: the next one is neither that of the main routine nor that
/// of one that waits, and giving it out keeps this so.
pub proof fn law_routine_ids_are_fresh<S, U, E>(
    routines: Routines<S, U, E>,
    routine: GuestRoutine<S, U, E>,
)
    requires
        routines.wf(),
        routines.next_id < u64::MAX,
    ensures
        routines.next_id != MAIN_ROUTINE_ID,
        !routines.waiting.contains_key(routines.next_id),
        routines.started(routine).wf(),
        routines.started(routine).next_id > routines.next_id,
{
}

/// Taking a routine to poll it and putting it back because it waits changes nothing.
pub proof fn law_waiting_routine_is_kept<S, U, E>(routines: Routines<S, U, E>, id: RoutineId)
    requires
        routines.waiting.contains_key(id),
    ensures
        (Routines { waiting: routines.waiting.remove(id), ..routines }).with_waiting(
            id,
            routines.waiting[id],
        ) == routines,
{
    assert(routines.waiting.remove(id).insert(id, routines.waiting[id]) =~= routines.waiting);
}

} // verus!
