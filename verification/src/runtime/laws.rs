//! What a running workflow is told, what it is asked, and what becomes of its routines.

use super::activation::incomplete_job;
use super::handlers::rejection_for_missing_update_handler;
use super::instance::{
    apply_resolution, expect_resolution, has_what_it_needs, poll_main_routine,
    terminal_outcome_from_result, GuestRoutine, PolledRoutine, RoutineFuture, RoutineTable,
};
use super::model::{
    ActivationJobResult, ActivationVariant, Failure, MainRoutineCompletion, Resolution,
    RoutineCompletion, RoutineId, RoutinePollResult, TerminalOutcome, TimerResult, UnblockEvent,
    UpdateRoutineCompletion, WorkflowTermination,
};
use super::polling::{PollRound, RoutinePollLoop, RoutinePollState};
use vstd::prelude::*;

verus! {

/// A resolution unblocks by an event of its own kind, under its sequence number, with exactly what it
/// was resolved with. Of external signals and cancellations that is the failure, if there was one.
pub proof fn law_resolutions_unblock_with_what_they_carry<X>(
    resolution: Resolution<X>,
    event: UnblockEvent<X>,
)
    requires
        call_ensures(apply_resolution::<X>, (resolution,), event),
    ensures
        match resolution {
            Resolution::FireTimer(seq) => event matches UnblockEvent::Timer(s, how) && s == seq
                && how == TimerResult::Fired,
            Resolution::ResolveActivity(seq, x) => x is Some ==> (event matches UnblockEvent::Activity(
                s,
                y,
            ) && s == seq && x == Some(*y)),
            Resolution::ResolveChildWorkflowExecutionStart(seq, x) => x is Some ==> (
            event matches UnblockEvent::WorkflowStart(s, y) && s == seq && x == Some(*y)),
            Resolution::ResolveChildWorkflowExecution(seq, x) => x is Some ==> (
            event matches UnblockEvent::WorkflowComplete(s, y) && s == seq && x == Some(*y)),
            Resolution::ResolveSignalExternalWorkflow(
                seq,
                failure,
            ) => event matches UnblockEvent::SignalExternal(s, y) && s == seq && y == failure,
            Resolution::ResolveRequestCancelExternalWorkflow(
                seq,
                failure,
            ) => event matches UnblockEvent::CancelExternal(s, y) && s == seq && y == failure,
            Resolution::ResolveNexusOperationStart(seq, x) => x is Some ==> (
            event matches UnblockEvent::NexusOperationStart(s, y) && s == seq && x == Some(*y)),
            Resolution::ResolveNexusOperation(seq, x) => x is Some ==> (
            event matches UnblockEvent::NexusOperationComplete(s, y) && s == seq && x == Some(*y)),
        },
{
}

/// Different resolutions unblock by different events.
pub proof fn law_different_resolutions_unblock_differently<X>(
    a: Resolution<X>,
    b: Resolution<X>,
    event: UnblockEvent<X>,
)
    requires
        call_ensures(has_what_it_needs::<X>, (&a,), true),
        call_ensures(has_what_it_needs::<X>, (&b,), true),
        call_ensures(apply_resolution::<X>, (a,), event),
        call_ensures(apply_resolution::<X>, (b,), event),
    ensures
        a == b,
{
    law_resolutions_unblock_with_what_they_carry(a, event);
    law_resolutions_unblock_with_what_they_carry(b, event);
}

/// A resolution of an activity, a child workflow or a Nexus operation needs what it was resolved with;
/// a fired timer, and an external signal or cancellation, which carry at most a failure, need nothing.
pub open spec fn lacks_its_result<X>(resolution: Resolution<X>) -> bool {
    match resolution {
        Resolution::ResolveActivity(_, x) => x is None,
        Resolution::ResolveChildWorkflowExecutionStart(_, x) => x is None,
        Resolution::ResolveChildWorkflowExecution(_, x) => x is None,
        Resolution::ResolveNexusOperationStart(_, x) => x is None,
        Resolution::ResolveNexusOperation(_, x) => x is None,
        Resolution::FireTimer(_) => false,
        Resolution::ResolveSignalExternalWorkflow(_, _) => false,
        Resolution::ResolveRequestCancelExternalWorkflow(_, _) => false,
    }
}

/// Exactly the resolutions that lack their result are told to be incomplete.
pub proof fn law_incomplete_resolutions_are_told<X>(resolution: &Resolution<X>, res: bool)
    requires
        call_ensures(has_what_it_needs::<X>, (resolution,), res),
    ensures
        res == !lacks_its_result(*resolution),
{
}

/// The job is a resolution that lacks its result.
pub open spec fn is_lacking_job<P, X>(job: Option<ActivationVariant<P, X>>) -> bool {
    job matches Some(ActivationVariant::Resolution(resolution)) && lacks_its_result(resolution)
}

/// The first job that lacks its result is found, unless one that says nothing comes before it.
pub proof fn law_first_incomplete_job_is_found<P, X>(
    jobs: &Vec<Option<ActivationVariant<P, X>>>,
    res: Option<usize>,
    k: int,
)
    requires
        call_ensures(incomplete_job::<P, X>, (jobs,), res),
        0 <= k <= jobs@.len(),
        forall|j: int| 0 <= j < k ==> (#[trigger] jobs@[j]) is Some && !is_lacking_job(jobs@[j]),
    ensures
        k < jobs@.len() && is_lacking_job(jobs@[k]) ==> (res matches Some(at) && at == k),
        k < jobs@.len() && jobs@[k] is None ==> res is None,
        k == jobs@.len() ==> res is None,
{
    super::activation::lemma_first_missing(jobs@, k);
    assert forall|j: int| 0 <= j < k implies super::activation::is_applicable(
        #[trigger] jobs@[j],
    ) by {
        assert(jobs@[j] is Some && !is_lacking_job(jobs@[j]));
    }
    if k < jobs@.len() && is_lacking_job(jobs@[k]) {
        assert(!super::activation::is_applicable(jobs@[k]));
        if let Some(at) = res {
            if at > k {
                assert(super::activation::is_applicable(jobs@[k]));
            }
        }
    }
}

/// How a workflow ended is told by its result; one that asks to be continued, was cancelled or failed
/// ended that way, and with that value.
pub proof fn law_outcomes_tell_how_the_workflow_ended<P, N, X>(
    result: Result<P, WorkflowTermination<N, X>>,
    res: TerminalOutcome<P, N, X>,
)
    requires
        call_ensures(terminal_outcome_from_result::<P, N, X>, (result,), res),
    ensures
        result matches Ok(payload) ==> (res matches TerminalOutcome::Completed(p) && p == payload),
        result matches Err(WorkflowTermination::ContinueAsNew(request)) ==> (
        res matches TerminalOutcome::ContinueAsNew(r) && r == request),
        result matches Err(WorkflowTermination::Failed(error)) ==> (
        res matches TerminalOutcome::Failed(e) && e == error),
        result matches Err(WorkflowTermination::Cancelled) ==> res is Cancelled,
{
}

/// The main routine is done with the outcome of the workflow, failed with the forced failure, or is
/// blocked; progress is passed on.
pub proof fn law_main_routine_is_reported<P, N, X, E, K>(
    state: RoutinePollState<Result<P, WorkflowTermination<N, X>>, E>,
    res: RoutinePollResult<P, N, X, E, K>,
)
    requires
        call_ensures(poll_main_routine::<P, N, X, E, K>, (state,), res),
    ensures
        res.completion matches Some(RoutineCompletion::Main(completion)) && match state {
            RoutinePollState::Ready { result, made_progress } => {
                &&& res.made_progress == made_progress
                &&& completion matches MainRoutineCompletion::Terminal(outcome)
                &&& result matches Ok(payload) ==> (outcome matches TerminalOutcome::Completed(p)
                    && p == payload)
                &&& result matches Err(WorkflowTermination::ContinueAsNew(request)) ==> (
                outcome matches TerminalOutcome::ContinueAsNew(r) && r == request)
                &&& result matches Err(WorkflowTermination::Failed(error)) ==> (
                outcome matches TerminalOutcome::Failed(e) && e == error)
                &&& result matches Err(WorkflowTermination::Cancelled) ==> outcome is Cancelled
            },
            RoutinePollState::ForcedFailure { failure, made_progress } => {
                &&& res.made_progress == made_progress
                &&& completion matches MainRoutineCompletion::TaskFailed(task)
                &&& task.failure == failure
                &&& task.force_cause is None
            },
            RoutinePollState::Stalled { made_progress } => {
                &&& res.made_progress == made_progress
                &&& completion is Blocked
            },
        },
{
}

/// A routine that is registered gets the next id, beside all that were there, and can be taken under
/// that id; what is taken is what was registered.
pub proof fn law_registered_routines_can_be_taken<S, U, E>(
    table: &mut RoutineTable<S, U, E>,
    routine: GuestRoutine<S, U, E>,
    id: RoutineId,
    later: &mut RoutineTable<S, U, E>,
    taken: Result<PolledRoutine<S, U, E>, Failure<E>>,
)
    requires
        call_ensures(RoutineTable::<S, U, E>::register, (table, routine), id),
        old(table)@.next_id > 0,
        old(table)@.next_id < u64::MAX,
        *old(later) == *final(table),
        call_ensures(RoutineTable::<S, U, E>::take_routine, (later, id), taken),
    ensures
        id == old(table)@.next_id,
        final(table)@.next_id == id + 1,
        forall|other: RoutineId|
            other != id ==> (#[trigger] final(table)@.waiting.contains_key(other) == old(
                table,
            )@.waiting.contains_key(other)),
        forall|other: RoutineId|
            other != id && old(table)@.waiting.contains_key(other) ==> (
            #[trigger] final(table)@.waiting[other]) == old(table)@.waiting[other],
        routine matches GuestRoutine::Signal { future } ==> (taken matches Ok(
            PolledRoutine::Signal { future: f },
        ) && f == future),
        routine matches GuestRoutine::Update { protocol_instance_id, future } ==> (
        taken matches Ok(PolledRoutine::Update { protocol_instance_id: p, future: f })
            && p == protocol_instance_id && f == future),
        !final(later)@.waiting.contains_key(id),
        final(later)@.next_id == final(table)@.next_id,
{
}

/// The main routine is never in the table, and a routine that does not wait is told to be missing; in
/// both cases the table stays as it is.
pub proof fn law_only_waiting_routines_are_taken<S, U, E>(
    table: &mut RoutineTable<S, U, E>,
    id: RoutineId,
    taken: Result<PolledRoutine<S, U, E>, Failure<E>>,
)
    requires
        call_ensures(RoutineTable::<S, U, E>::take_routine, (table, id), taken),
    ensures
        id == 0 ==> (taken matches Ok(PolledRoutine::Main)) && final(table)@ == old(table)@,
        id != 0 && !old(table)@.waiting.contains_key(id) ==> {
            &&& taken matches Err(Failure::Bare(text))
            &&& text@ == "No routine registered for id "@ + crate::text::decimal(id as nat)
            &&& final(table)@ == old(table)@
        },
        id != 0 && old(table)@.waiting.contains_key(id) ==> {
            &&& taken is Ok
            &&& final(table)@.next_id == old(table)@.next_id
            &&& !final(table)@.waiting.contains_key(id)
            &&& forall|other: RoutineId|
                other != id ==> (#[trigger] final(table)@.waiting.contains_key(other) == old(
                    table,
                )@.waiting.contains_key(other))
        },
{
}

/// A signal routine that is done reports its result; one that waits goes back as it was, under its id;
/// a forced failure ends it.
pub proof fn law_signal_routines_are_reported<S, U, E, P, N, X, K>(
    table: &mut RoutineTable<S, U, E>,
    id: RoutineId,
    future: RoutineFuture<S, E>,
    state: RoutinePollState<Result<(), E>, E>,
    res: Result<RoutinePollResult<P, N, X, E, K>, Failure<E>>,
)
    requires
        call_ensures(
            RoutineTable::<S, U, E>::poll_signal_routine::<P, N, X, K>,
            (table, id, future, state),
            res,
        ),
    ensures
        match state {
            RoutinePollState::Ready { result, made_progress } => {
                &&& res matches Ok(polled)
                &&& polled.made_progress == made_progress
                &&& polled.completion matches Some(RoutineCompletion::Signal(told))
                &&& result is Ok ==> told is Ok
                &&& result matches Err(error) ==> told == Err::<(), _>(Failure::Workflow(error))
                &&& final(table)@ == old(table)@
            },
            RoutinePollState::ForcedFailure { failure, made_progress: _ } => {
                &&& res matches Err(told)
                &&& told == failure
                &&& final(table)@ == old(table)@
            },
            RoutinePollState::Stalled { made_progress } => {
                &&& res matches Ok(polled)
                &&& polled.made_progress == made_progress
                &&& polled.completion is None
                &&& final(table)@.next_id == old(table)@.next_id
                &&& final(table)@.waiting == old(table)@.waiting.insert(
                    id,
                    GuestRoutine::Signal { future },
                )
            },
        },
{
}

/// An update routine that is done reports its result under the id of its update; one that waits goes
/// back as it was, under its id; a forced failure ends it.
pub proof fn law_update_routines_are_reported<S, U, E, P, N, X, K>(
    table: &mut RoutineTable<S, U, E>,
    id: RoutineId,
    protocol_instance_id: String,
    future: RoutineFuture<U, E>,
    state: RoutinePollState<Result<P, E>, E>,
    res: Result<RoutinePollResult<P, N, X, E, K>, Failure<E>>,
)
    requires
        call_ensures(
            RoutineTable::<S, U, E>::poll_update_routine::<P, N, X, K>,
            (table, id, protocol_instance_id, future, state),
            res,
        ),
    ensures
        match state {
            RoutinePollState::Ready { result, made_progress } => {
                &&& res matches Ok(polled)
                &&& polled.made_progress == made_progress
                &&& polled.completion matches Some(RoutineCompletion::Update(told))
                &&& result matches Ok(payload) ==> told == (UpdateRoutineCompletion::<
                    P,
                    E,
                >::Completed { protocol_instance_id, result: payload })
                &&& result matches Err(error) ==> told == (UpdateRoutineCompletion::<
                    P,
                    E,
                >::Rejected { protocol_instance_id, failure: Failure::Workflow(error) })
                &&& final(table)@ == old(table)@
            },
            RoutinePollState::ForcedFailure { failure, made_progress: _ } => {
                &&& res matches Err(told)
                &&& told == failure
                &&& final(table)@ == old(table)@
            },
            RoutinePollState::Stalled { made_progress } => {
                &&& res matches Ok(polled)
                &&& polled.made_progress == made_progress
                &&& polled.completion is None
                &&& final(table)@.next_id == old(table)@.next_id
                &&& final(table)@.waiting == old(table)@.waiting.insert(
                    id,
                    GuestRoutine::Update { protocol_instance_id, future },
                )
            },
        },
{
}

/// A new table is empty, and its first id is the one behind that of the main routine.
pub proof fn law_tables_start_empty<S, U, E>(
    table: RoutineTable<S, U, E>,
    asked: &RoutineTable<S, U, E>,
    next: RoutineId,
)
    requires
        call_ensures(RoutineTable::<S, U, E>::new, (), table),
        call_ensures(RoutineTable::<S, U, E>::next_id, (asked,), next),
    ensures
        table@.next_id == 1,
        forall|id: RoutineId| !#[trigger] table@.waiting.contains_key(id),
        next == asked@.next_id,
{
}

/// Polling goes on exactly as long as the routine waits and the workflow changes. Progress is ever
/// made once any poll changed the workflow.
pub proof fn law_polling_goes_on_while_the_workflow_changes<T, E>(
    polling: &mut RoutinePollLoop,
    round: PollRound<T>,
    res: Option<RoutinePollState<T, E>>,
)
    requires
        call_ensures(RoutinePollLoop::polled::<T, E>, (polling, round), res),
    ensures
        res is None <==> round.result is None && (round.state_mutated || round.runtime_progress),
        final(polling).has_progressed() == (old(polling).has_progressed() || round.state_mutated
            || round.runtime_progress),
        round.result matches Some(result) ==> (res matches Some(
            RoutinePollState::Ready { result: told, made_progress },
        ) && told == result && made_progress == final(polling).has_progressed()),
        round.result is None && !round.state_mutated && !round.runtime_progress ==> (
        res matches Some(RoutinePollState::Stalled { made_progress }) && made_progress == old(
            polling,
        ).has_progressed()),
{
}

/// A forced failure ends polling with its text, and with the progress made before; without one polling
/// goes on. A loop starts without progress.
pub proof fn law_forced_failures_end_polling<T, E>(
    fresh: RoutinePollLoop,
    polling: &RoutinePollLoop,
    forced: Option<String>,
    res: Option<RoutinePollState<T, E>>,
)
    requires
        call_ensures(RoutinePollLoop::new, (), fresh),
        call_ensures(RoutinePollLoop::forced_failure::<T, E>, (polling, forced), res),
    ensures
        !fresh.has_progressed(),
        forced is None <==> res is None,
        forced matches Some(text) ==> (res matches Some(
            RoutinePollState::ForcedFailure { failure: Failure::Bare(told), made_progress },
        ) && told == text && made_progress == polling.has_progressed()),
{
}

/// An update without a handler is rejected by its name.
pub proof fn law_unknown_updates_are_rejected_by_name<P, E>(
    name: String,
    res: ActivationJobResult<P, E>,
)
    requires
        call_ensures(rejection_for_missing_update_handler::<P, E>, (name,), res),
    ensures
        res matches ActivationJobResult::UpdateRejected(Failure::Application(text)) && text@
            == "No update handler registered for update name "@ + name@,
{
}

/// A result that is there is given as it is.
pub proof fn law_results_that_are_there_are_given<T>(value: Option<T>, res: T)
    requires
        value is Some,
        call_ensures(expect_resolution::<T>, (value,), res),
    ensures
        value == Some(res),
{
}

} // verus!
