//! Which calls the jobs of an activation make to the workflow, with what, and what comes of them.

use super::activation::{job_applied, jobs_applied, last_job_applied};
use super::handlers::validator_of;
use super::host::{HostCall, RecordedHost, WorkflowHost};
use super::instance::{GuestRoutine, GuestWorkflowInstance, RoutineFuture, Routines};
use super::model::{
    ActivationJobResult, ActivationResult, ActivationVariant, DoUpdate, Failure, QueryResponse,
    QueryWorkflow, Resolution, RoutineKind, SignalWorkflow, TimerResult, UnblockEvent,
    UpdateDefinition, WorkflowActivation,
};
use crate::interceptors::types::{ExecuteInput, WorkflowInterceptorContext};
use std::collections::HashMap;
use vstd::prelude::*;

verus! {

/// A call of the host that asked whether it replays and one that took the context by the answer.
pub open spec fn took_context<H: WorkflowHost>(
    log: Seq<HostCall<H>>,
    at: int,
    context: WorkflowInterceptorContext<H::View>,
) -> bool {
    &&& at + 1 < log.len()
    &&& log[at] matches HostCall::IsReplaying { replaying }
    &&& log[at + 1] matches HostCall::InterceptorContext { replaying: by, context: given }
    &&& by == replaying
    &&& given == context
}

/// What a signal leads to by these calls: it is decoded by its name and input. If that gives arguments,
/// its handler is called, once and last, with them, the name, the headers and a context by whether the
/// host replays, and runs in a routine of its own; if it fails, a routine fails with the error; without
/// a handler nothing comes of it.
pub open spec fn handles_signal<S, U, E, H: WorkflowHost<
    SignalFuture = S,
    UpdateFuture = U,
    Error = E,
>>(
    before: Routines<S, U, E>,
    after: Routines<S, U, E>,
    ctx: H::Ctx,
    signal: SignalWorkflow<H::Payload>,
    calls: Seq<HostCall<H>>,
    res: ActivationJobResult<H::Payload, E>,
) -> bool {
    &&& calls.len() > 0
    &&& calls[0] matches HostCall::DecodeSignal { name, payloads, decoded }
    &&& name == signal.signal_name && payloads == signal.input
    &&& match decoded {
        Ok(None) => {
            &&& calls.len() == 1
            &&& res is Nothing
            &&& after == before
        },
        Err(error) => {
            &&& calls.len() == 1
            &&& res matches ActivationJobResult::StartedRoutine(started)
            &&& started.routine_id == before.next_id
            &&& started.kind == RoutineKind::Signal(signal.signal_name)
            &&& after.next_id == (before.next_id + 1) as u64
            &&& after.waiting == before.waiting.insert(
                before.next_id,
                GuestRoutine::Signal { future: RoutineFuture::Failed(error) },
            )
        },
        Ok(Some(args)) => {
            &&& calls.len() == 4
            &&& calls[3] matches HostCall::HandleSignal { ctx: with, signal: input, future }
            &&& with == ctx
            &&& input.signal_name == signal.signal_name
            &&& input.args == args
            &&& input.headers == signal.headers
            &&& took_context(calls, 1, input.context)
            &&& res matches ActivationJobResult::StartedRoutine(started)
            &&& started.routine_id == before.next_id
            &&& started.kind == RoutineKind::Signal(signal.signal_name)
            &&& after.next_id == (before.next_id + 1) as u64
            &&& after.waiting == before.waiting.insert(
                before.next_id,
                GuestRoutine::Signal { future: RoutineFuture::Running(future) },
            )
        },
    }
}

/// The calls behind those of the old log.
pub open spec fn made_since<H: WorkflowHost>(
    old_log: Seq<HostCall<H>>,
    log: Seq<HostCall<H>>,
) -> Seq<HostCall<H>> {
    log.subrange(old_log.len() as int, log.len() as int)
}

/// The old log is kept.
pub open spec fn keeps_log<H: WorkflowHost>(
    old_log: Seq<HostCall<H>>,
    log: Seq<HostCall<H>>,
) -> bool {
    &&& old_log.len() <= log.len()
    &&& forall|i: int| 0 <= i < old_log.len() ==> (#[trigger] log[i]) == old_log[i]
}

/// A signal is handled by exactly the calls that are due for it.
pub proof fn law_signals_are_handled<
    C,
    R,
    S,
    U,
    E,
    H: WorkflowHost<Ctx = C, SignalFuture = S, UpdateFuture = U, Error = E>,
>(
    wf: &mut GuestWorkflowInstance<C, R, S, U, E>,
    signal: SignalWorkflow<H::Payload>,
    host: &mut RecordedHost<H>,
    res: ActivationJobResult<H::Payload, E>,
)
    requires
        call_ensures(
            GuestWorkflowInstance::<C, R, S, U, E>::start_signal_routine::<H>,
            (wf, signal, host),
            res,
        ),
    ensures
        handles_signal(
            old(wf).routines@,
            final(wf).routines@,
            old(wf).ctx,
            signal,
            made_since(old(host).log(), final(host).log()),
            res,
        ),
        keeps_log(old(host).log(), final(host).log()),
        final(wf).ctx == old(wf).ctx,
        final(wf).run_future == old(wf).run_future,
{
    let calls = final(host).since(*old(host));
    assert(calls =~= made_since(old(host).log(), final(host).log()));
}

/// What a query is answered by these calls: one for the metadata by the metadata alone. Any other is
/// decoded by its name and arguments: an error is the answer, without a handler the answer says so, and
/// arguments go, with the name, the headers and a context that does not replay, to the handler, once
/// and last, whose answer is the answer.
pub open spec fn answers_query<H: WorkflowHost>(
    ctx: H::Ctx,
    query: QueryWorkflow<H::Payload>,
    calls: Seq<HostCall<H>>,
    res: QueryResponse<H::Payload, H::Error>,
) -> bool {
    &&& calls.len() > 0
    &&& if query.query_type@ == "__temporal_workflow_metadata"@ {
        &&& calls.len() == 1
        &&& calls[0] matches HostCall::QueryMetadata { metadata }
        &&& metadata matches Ok(payload) ==> (res.result matches Ok(p) && p == payload)
        &&& metadata matches Err(text) ==> (res.result matches Err(Failure::Bare(t)) && t == text)
    } else {
        &&& calls[0] matches HostCall::DecodeQuery { name, payloads, decoded }
        &&& name == query.query_type && payloads == query.arguments
        &&& match decoded {
            Err(error) => {
                &&& calls.len() == 1
                &&& res.result matches Err(Failure::Workflow(e))
                &&& e == error
            },
            Ok(None) => {
                &&& calls.len() == 1
                &&& res.result matches Err(Failure::Application(text))
                &&& text@ == "No query handler for '"@ + query.query_type@ + "'"@
            },
            Ok(Some(args)) => {
                &&& calls.len() == 3
                &&& calls[1] matches HostCall::InterceptorContext { replaying, context }
                &&& !replaying
                &&& calls[2] matches HostCall::HandleQuery { ctx: with, query: input, answer }
                &&& with == ctx
                &&& input.query_name == query.query_type
                &&& input.args == args
                &&& input.headers == query.headers
                &&& input.context == context
                &&& answer matches Ok(payload) ==> (res.result matches Ok(p) && p == payload)
                &&& answer matches Err(error) ==> (res.result matches Err(Failure::Workflow(e)) && e
                    == error)
            },
        }
    }
}

/// A query is answered by exactly the calls that are due for it.
pub proof fn law_queries_are_answered<
    C,
    R,
    S,
    U,
    E,
    H: WorkflowHost<Ctx = C, SignalFuture = S, UpdateFuture = U, Error = E>,
>(
    wf: &GuestWorkflowInstance<C, R, S, U, E>,
    query: QueryWorkflow<H::Payload>,
    host: &mut RecordedHost<H>,
    res: QueryResponse<H::Payload, E>,
)
    requires
        call_ensures(
            GuestWorkflowInstance::<C, R, S, U, E>::query::<H>,
            (wf, query, host),
            res,
        ),
    ensures
        answers_query(wf.ctx, query, made_since(old(host).log(), final(host).log()), res),
        keeps_log(old(host).log(), final(host).log()),
{
    let calls = final(host).since(*old(host));
    assert(calls =~= made_since(old(host).log(), final(host).log()));
}

/// The first definition of this name is at `k`, or there is none and `k` is their number.
pub open spec fn first_named(
    definitions: Seq<UpdateDefinition>,
    name: Seq<char>,
    k: int,
) -> bool {
    &&& 0 <= k <= definitions.len()
    &&& k < definitions.len() ==> definitions[k].name@ == name
    &&& forall|j: int| 0 <= j < k ==> (#[trigger] definitions[j]).name@ != name
}

proof fn lemma_first_named(definitions: Seq<UpdateDefinition>, name: Seq<char>) -> (k: int)
    ensures
        first_named(definitions, name, k),
        validator_of(definitions, name) == if k < definitions.len() {
            Some(definitions[k].has_validator)
        } else {
            None
        },
    decreases definitions.len(),
{
    if definitions.len() == 0 || definitions[0].name@ == name {
        0
    } else {
        let rest = definitions.drop_first();
        let k = lemma_first_named(rest, name);
        assert forall|j: int| 0 <= j < k + 1 implies (#[trigger] definitions[j]).name@ != name by {
            if j > 0 {
                assert(rest[j - 1] == definitions[j]);
            }
        }
        k + 1
    }
}

/// The update is rejected because no handler for it is there.
pub open spec fn is_rejected_as_unknown<P, E>(
    res: ActivationJobResult<P, E>,
    name: Seq<char>,
) -> bool {
    &&& res matches ActivationJobResult::UpdateRejected(Failure::Application(text))
    &&& text@ == "No update handler registered for update name "@ + name
}

/// A routine for the update was started, under the next id, for its name and its two ids.
pub open spec fn runs_update<P, S, U, E>(
    before: Routines<S, U, E>,
    after: Routines<S, U, E>,
    update: DoUpdate<P>,
    future: RoutineFuture<U, E>,
    res: ActivationJobResult<P, E>,
) -> bool {
    &&& res matches ActivationJobResult::StartedRoutine(started)
    &&& started.routine_id == before.next_id
    &&& started.kind matches RoutineKind::Update(kind)
    &&& kind.name == update.name
    &&& kind.update_id == update.id
    &&& kind.protocol_instance_id == update.protocol_instance_id
    &&& after.next_id == (before.next_id + 1) as u64
    &&& after.waiting == before.waiting.insert(
        before.next_id,
        GuestRoutine::Update { protocol_instance_id: update.protocol_instance_id, future },
    )
}

/// From the call at `at` on, the update is decoded by its name and input, and its handler is called,
/// once and last, with the arguments, the name, the headers and a context by whether the host replays.
pub open spec fn runs_from<S, U, E, H: WorkflowHost<
    SignalFuture = S,
    UpdateFuture = U,
    Error = E,
>>(
    before: Routines<S, U, E>,
    after: Routines<S, U, E>,
    ctx: H::Ctx,
    update: DoUpdate<H::Payload>,
    calls: Seq<HostCall<H>>,
    at: int,
    res: ActivationJobResult<H::Payload, E>,
) -> bool {
    &&& at < calls.len()
    &&& calls[at] matches HostCall::DecodeUpdate { name, payloads, decoded }
    &&& name == update.name && payloads == update.input
    &&& match decoded {
        Err(error) => calls.len() == at + 1 && runs_update(
            before,
            after,
            update,
            RoutineFuture::Failed(error),
            res,
        ),
        Ok(None) => calls.len() == at + 1 && after == before && is_rejected_as_unknown(
            res,
            update.name@,
        ),
        Ok(Some(args)) => {
            &&& calls.len() == at + 4
            &&& calls[at + 3] matches HostCall::HandleUpdate { ctx: with, update: input, handled }
            &&& with == ctx
            &&& input.update_name == update.name
            &&& input.args == args
            &&& input.headers == update.headers
            &&& took_context(calls, at + 1, input.context)
            &&& match handled {
                Some(future) => runs_update(
                    before,
                    after,
                    update,
                    RoutineFuture::Running(future),
                    res,
                ),
                None => after == before && is_rejected_as_unknown(res, update.name@),
            }
        },
    }
}

/// From the second call on, the update is decoded by its name and input, and its validator is called
/// with the arguments, the name, the headers and a context by whether the host replays; only if that
/// finds it valid, it runs.
pub open spec fn validates_and_runs<S, U, E, H: WorkflowHost<
    SignalFuture = S,
    UpdateFuture = U,
    Error = E,
>>(
    before: Routines<S, U, E>,
    after: Routines<S, U, E>,
    ctx: H::Ctx,
    update: DoUpdate<H::Payload>,
    calls: Seq<HostCall<H>>,
    res: ActivationJobResult<H::Payload, E>,
) -> bool {
    &&& 1 < calls.len()
    &&& calls[1] matches HostCall::DecodeUpdate { name, payloads, decoded }
    &&& name == update.name && payloads == update.input
    &&& match decoded {
        Err(error) => {
            &&& calls.len() == 2
            &&& after == before
            &&& res matches ActivationJobResult::UpdateRejected(Failure::Workflow(e))
            &&& e == error
        },
        Ok(None) => calls.len() == 2 && after == before && is_rejected_as_unknown(
            res,
            update.name@,
        ),
        Ok(Some(args)) => {
            &&& 4 < calls.len()
            &&& calls[4] matches HostCall::ValidateUpdate { ctx: with, validation, verdict }
            &&& with == ctx
            &&& validation.update_name == update.name
            &&& validation.args == args
            &&& validation.headers@ == update.headers@
            &&& took_context(calls, 2, validation.context)
            &&& match verdict {
                Some(Ok(_)) => runs_from(before, after, ctx, update, calls, 5, res),
                Some(Err(error)) => {
                    &&& calls.len() == 5
                    &&& after == before
                    &&& res matches ActivationJobResult::UpdateRejected(Failure::Workflow(e))
                    &&& e == error
                },
                None => calls.len() == 5 && after == before && is_rejected_as_unknown(
                    res,
                    update.name@,
                ),
            }
        },
    }
}

/// What an update leads to by these calls: it is looked up first, and one that the workflow does not
/// define is rejected. If validation is asked for and the first definition of its name has a validator,
/// it is validated before it runs; otherwise it runs at once.
pub open spec fn handles_update<S, U, E, H: WorkflowHost<
    SignalFuture = S,
    UpdateFuture = U,
    Error = E,
>>(
    before: Routines<S, U, E>,
    after: Routines<S, U, E>,
    ctx: H::Ctx,
    update: DoUpdate<H::Payload>,
    calls: Seq<HostCall<H>>,
    k: int,
    res: ActivationJobResult<H::Payload, E>,
) -> bool {
    &&& calls.len() > 0
    &&& calls[0] matches HostCall::UpdateDefinitions { definitions }
    &&& first_named(definitions@, update.name@, k)
    &&& if k == definitions@.len() {
        calls.len() == 1 && after == before && is_rejected_as_unknown(res, update.name@)
    } else if update.run_validator && definitions@[k].has_validator {
        validates_and_runs(before, after, ctx, update, calls, res)
    } else {
        runs_from(before, after, ctx, update, calls, 1, res)
    }
}

proof fn lemma_update<S, U, E, H: WorkflowHost<SignalFuture = S, UpdateFuture = U, Error = E>>(
    before: Routines<S, U, E>,
    after: Routines<S, U, E>,
    ctx: H::Ctx,
    update: DoUpdate<H::Payload>,
    calls: Seq<HostCall<H>>,
    res: ActivationJobResult<H::Payload, E>,
) -> (k: int)
    requires
        super::handlers::update_started(before, after, ctx, update, calls, res),
    ensures
        handles_update(before, after, ctx, update, calls, k, res),
{
    let behind = calls.skip(1);
    let last = behind.skip(4);
    assert forall|i: int| 0 <= i < behind.len() implies (#[trigger] behind[i]) == calls[1 + i] by {}
    if behind.len() >= 4 {
        assert forall|i: int| 0 <= i < last.len() implies (#[trigger] last[i]) == calls[5 + i] by {}
    }
    if behind.len() > 0 {
        assert(behind[0] == calls[1]);
    }
    if behind.len() >= 4 {
        assert(behind[1] == calls[2] && behind[2] == calls[3] && behind[3] == calls[4]);
        if last.len() > 0 {
            assert(last[0] == calls[5]);
        }
        if last.len() >= 4 {
            assert(last[1] == calls[6] && last[2] == calls[7] && last[3] == calls[8]);
        }
    }
    lemma_first_named(calls[0]->definitions@, update.name@)
}

/// An update is handled by exactly the calls that are due for it.
pub proof fn law_updates_are_validated_and_run<
    C,
    R,
    S,
    U,
    E,
    H: WorkflowHost<Ctx = C, SignalFuture = S, UpdateFuture = U, Error = E>,
>(
    wf: &mut GuestWorkflowInstance<C, R, S, U, E>,
    update: DoUpdate<H::Payload>,
    host: &mut RecordedHost<H>,
    res: ActivationJobResult<H::Payload, E>,
)
    requires
        call_ensures(
            GuestWorkflowInstance::<C, R, S, U, E>::start_update_routine::<H>,
            (wf, update, host),
            res,
        ),
    ensures
        exists|k: int| #[trigger]
            handles_update(
                old(wf).routines@,
                final(wf).routines@,
                old(wf).ctx,
                update,
                made_since(old(host).log(), final(host).log()),
                k,
                res,
            ),
        keeps_log(old(host).log(), final(host).log()),
        final(wf).ctx == old(wf).ctx,
        final(wf).run_future == old(wf).run_future,
{
    let calls = final(host).since(*old(host));
    assert(calls =~= made_since(old(host).log(), final(host).log()));
    let k = lemma_update(
        old(wf).routines@,
        final(wf).routines@,
        old(wf).ctx,
        update,
        calls,
        res,
    );
}

/// The event unblocks by what the resolution carries.
pub open spec fn unblocks_by<X>(resolution: Resolution<X>, event: UnblockEvent<X>) -> bool {
    match resolution {
        Resolution::FireTimer(seq) => event matches UnblockEvent::Timer(s, how) && s == seq && how
            == TimerResult::Fired,
        Resolution::ResolveActivity(seq, x) => x is Some ==> (event matches UnblockEvent::Activity(
            s,
            y,
        ) && s == seq && x == Some(*y)),
        Resolution::ResolveChildWorkflowExecutionStart(seq, x) => x is Some ==> (
        event matches UnblockEvent::WorkflowStart(s, y) && s == seq && x == Some(*y)),
        Resolution::ResolveChildWorkflowExecution(seq, x) => x is Some ==> (
        event matches UnblockEvent::WorkflowComplete(s, y) && s == seq && x == Some(*y)),
        Resolution::ResolveSignalExternalWorkflow(
            seq,
            failure,
        ) => event matches UnblockEvent::SignalExternal(s, y) && s == seq && y == failure,
        Resolution::ResolveRequestCancelExternalWorkflow(
            seq,
            failure,
        ) => event matches UnblockEvent::CancelExternal(s, y) && s == seq && y == failure,
        Resolution::ResolveNexusOperationStart(seq, x) => x is Some ==> (
        event matches UnblockEvent::NexusOperationStart(s, y) && s == seq && x == Some(*y)),
        Resolution::ResolveNexusOperation(seq, x) => x is Some ==> (
        event matches UnblockEvent::NexusOperationComplete(s, y) && s == seq && x == Some(*y)),
    }
}

/// What a job leads to by these calls. A patch is recorded, a cancellation notified and a resolution
/// unblocked by its event, with what the job carries and by that one call; signals, updates and queries
/// are handled; any other job makes no call. Only signals and updates start routines.
pub open spec fn does_job<S, U, E, H: WorkflowHost<
    SignalFuture = S,
    UpdateFuture = U,
    Error = E,
>>(
    before: Routines<S, U, E>,
    after: Routines<S, U, E>,
    ctx: H::Ctx,
    job: ActivationVariant<H::Payload, H::Resolved>,
    calls: Seq<HostCall<H>>,
    result: ActivationJobResult<H::Payload, E>,
) -> bool {
    match job {
        ActivationVariant::InitializeWorkflow => calls.len() == 0 && after == before
            && result is Nothing,
        ActivationVariant::UpdateRandomSeed => calls.len() == 0 && after == before
            && result is Nothing,
        ActivationVariant::RemoveFromCache => calls.len() == 0 && after == before
            && result is Nothing,
        ActivationVariant::NotifyHasPatch(id) => {
            &&& calls.len() == 1
            &&& calls[0] matches HostCall::RecordPatch { patch_id }
            &&& patch_id == id
            &&& after == before && result is Nothing
        },
        ActivationVariant::CancelWorkflow(why) => {
            &&& calls.len() == 1
            &&& calls[0] matches HostCall::NotifyCancel { reason }
            &&& reason == why
            &&& after == before && result is Nothing
        },
        ActivationVariant::Resolution(resolution) => {
            &&& calls.len() == 1
            &&& calls[0] matches HostCall::Unblock { event }
            &&& unblocks_by(resolution, event)
            &&& after == before && result is Nothing
        },
        ActivationVariant::SignalWorkflow(signal) => handles_signal(
            before,
            after,
            ctx,
            signal,
            calls,
            result,
        ),
        ActivationVariant::DoUpdate(update) => exists|k: int| #[trigger]
            handles_update(before, after, ctx, update, calls, k, result),
        ActivationVariant::QueryWorkflow(query) => {
            &&& after == before
            &&& result matches ActivationJobResult::QueryResponse(response)
            &&& answers_query(ctx, query, calls, response)
        },
    }
}

proof fn lemma_job<S, U, E, H: WorkflowHost<SignalFuture = S, UpdateFuture = U, Error = E>>(
    before: Routines<S, U, E>,
    after: Routines<S, U, E>,
    ctx: H::Ctx,
    job: ActivationVariant<H::Payload, H::Resolved>,
    calls: Seq<HostCall<H>>,
    result: ActivationJobResult<H::Payload, E>,
)
    requires
        job_applied(before, after, ctx, job, calls, result),
    ensures
        does_job(before, after, ctx, job, calls, result),
{
    if let ActivationVariant::DoUpdate(update) = job {
        let k = lemma_update(before, after, ctx, update, calls, result);
        assert(handles_update(before, after, ctx, update, calls, k, result));
    }
}

/// One job makes exactly the calls that are due for it, and leads to what they lead to.
pub proof fn law_jobs_are_applied<
    C,
    R,
    S,
    U,
    E,
    H: WorkflowHost<Ctx = C, SignalFuture = S, UpdateFuture = U, Error = E>,
>(
    wf: &mut GuestWorkflowInstance<C, R, S, U, E>,
    job: ActivationVariant<H::Payload, H::Resolved>,
    host: &mut RecordedHost<H>,
    res: ActivationJobResult<H::Payload, E>,
)
    requires
        call_ensures(
            GuestWorkflowInstance::<C, R, S, U, E>::apply_job::<H>,
            (wf, job, host),
            res,
        ),
    ensures
        does_job(
            old(wf).routines@,
            final(wf).routines@,
            old(wf).ctx,
            job,
            made_since(old(host).log(), final(host).log()),
            res,
        ),
        keeps_log(old(host).log(), final(host).log()),
        final(wf).ctx == old(wf).ctx,
        final(wf).run_future == old(wf).run_future,
{
    let calls = final(host).since(*old(host));
    assert(calls =~= made_since(old(host).log(), final(host).log()));
    lemma_job::<S, U, E, H>(
        old(wf).routines@,
        final(wf).routines@,
        old(wf).ctx,
        job,
        calls,
        res,
    );
}

/// The calls are, cut at these positions, those of the jobs in their order, and the routines went
/// through these states.
pub open spec fn are_worked_off<S, U, E, H: WorkflowHost<
    SignalFuture = S,
    UpdateFuture = U,
    Error = E,
>>(
    ctx: H::Ctx,
    jobs: Seq<Option<ActivationVariant<H::Payload, H::Resolved>>>,
    calls: Seq<HostCall<H>>,
    results: Seq<ActivationJobResult<H::Payload, E>>,
    cuts: Seq<int>,
    states: Seq<Routines<S, U, E>>,
) -> bool {
    &&& results.len() == jobs.len()
    &&& cuts.len() == jobs.len() + 1
    &&& states.len() == jobs.len() + 1
    &&& cuts[0] == 0
    &&& cuts.last() == calls.len()
    &&& forall|i: int|
        #![trigger jobs[i]]
        0 <= i < jobs.len() ==> {
            &&& jobs[i] is Some
            &&& 0 <= cuts[i] <= cuts[i + 1] <= calls.len()
            &&& does_job(
                states[i],
                states[i + 1],
                ctx,
                jobs[i]->Some_0,
                calls.subrange(cuts[i], cuts[i + 1]),
                results[i],
            )
        }
}

/// The jobs are worked off in their order, with these results, from one state of the routines to
/// another.
pub open spec fn is_worked_off<S, U, E, H: WorkflowHost<
    SignalFuture = S,
    UpdateFuture = U,
    Error = E,
>>(
    ctx: H::Ctx,
    jobs: Seq<Option<ActivationVariant<H::Payload, H::Resolved>>>,
    calls: Seq<HostCall<H>>,
    results: Seq<ActivationJobResult<H::Payload, E>>,
    before: Routines<S, U, E>,
    after: Routines<S, U, E>,
) -> bool {
    exists|cuts: Seq<int>, states: Seq<Routines<S, U, E>>| #[trigger]
        are_worked_off(ctx, jobs, calls, results, cuts, states) && states[0] == before
            && states.last() == after
}

proof fn lemma_jobs<S, U, E, H: WorkflowHost<SignalFuture = S, UpdateFuture = U, Error = E>>(
    before: Routines<S, U, E>,
    after: Routines<S, U, E>,
    ctx: H::Ctx,
    jobs: Seq<Option<ActivationVariant<H::Payload, H::Resolved>>>,
    calls: Seq<HostCall<H>>,
    results: Seq<ActivationJobResult<H::Payload, E>>,
) -> (found: (Seq<int>, Seq<Routines<S, U, E>>))
    requires
        jobs_applied(before, after, ctx, jobs, calls, results),
    ensures
        are_worked_off(ctx, jobs, calls, results, found.0, found.1),
        found.1[0] == before,
        found.1.last() == after,
    decreases jobs.len(),
{
    if jobs.len() == 0 {
        (seq![0int], seq![before])
    } else {
        let (mid, n) = choose|mid: Routines<S, U, E>, n: int| #[trigger]
            last_job_applied(mid, after, ctx, jobs, calls, n, results) && jobs_applied(
                before,
                mid,
                ctx,
                jobs.drop_last(),
                calls.take(n),
                results.drop_last(),
            );
        let (cuts, states) = lemma_jobs(
            before,
            mid,
            ctx,
            jobs.drop_last(),
            calls.take(n),
            results.drop_last(),
        );
        lemma_job::<S, U, E, H>(
            mid,
            after,
            ctx,
            jobs.last()->Some_0,
            calls.skip(n),
            results.last(),
        );
        let all_cuts = cuts.push(calls.len() as int);
        let all_states = states.push(after);
        let m = jobs.len() - 1;
        assert(calls.subrange(all_cuts[m], all_cuts[m + 1]) =~= calls.skip(n));
        assert forall|i: int|
            #![trigger jobs[i]]
            0 <= i < jobs.len() implies {
            &&& jobs[i] is Some
            &&& 0 <= all_cuts[i] <= all_cuts[i + 1] <= calls.len()
            &&& does_job(
                all_states[i],
                all_states[i + 1],
                ctx,
                jobs[i]->Some_0,
                calls.subrange(all_cuts[i], all_cuts[i + 1]),
                results[i],
            )
        } by {
            if i < m {
                assert(jobs.drop_last()[i] == jobs[i]);
                assert(results.drop_last()[i] == results[i]);
                assert(calls.take(n).subrange(cuts[i], cuts[i + 1]) =~= calls.subrange(
                    cuts[i],
                    cuts[i + 1],
                ));
            }
        }
        (all_cuts, all_states)
    }
}

/// An activation first has the workflow take over what it says beside its jobs; then its jobs are
/// worked off in their order, each with its own calls and its own result. It fails exactly if a job
/// says nothing, and then the jobs before that one are worked off all the same.
pub proof fn law_activations_are_worked_off_in_order<
    C,
    R,
    S,
    U,
    E,
    H: WorkflowHost<Ctx = C, SignalFuture = S, UpdateFuture = U, Error = E>,
>(
    wf: &mut GuestWorkflowInstance<C, R, S, U, E>,
    activation: WorkflowActivation<H::Payload, H::Resolved, H::Meta>,
    host: &mut RecordedHost<H>,
    res: Result<ActivationResult<H::Payload, E>, Failure<E>>,
    k: int,
)
    requires
        call_ensures(
            GuestWorkflowInstance::<C, R, S, U, E>::activate::<H>,
            (wf, activation, host),
            res,
        ),
        0 <= k <= activation.jobs@.len(),
        k < activation.jobs@.len() ==> activation.jobs@[k] is None,
        forall|j: int| 0 <= j < k ==> (#[trigger] activation.jobs@[j]) is Some,
    ensures
        made_since(old(host).log(), final(host).log()).len() > 0,
        made_since(old(host).log(), final(host).log())[0]
            == (HostCall::<H>::ApplyActivationContext { meta: activation.meta }),
        k == activation.jobs@.len() ==> (res matches Ok(done) && is_worked_off(
            old(wf).ctx,
            activation.jobs@,
            made_since(old(host).log(), final(host).log()).drop_first(),
            done.job_results@,
            old(wf).routines@,
            final(wf).routines@,
        )),
        k < activation.jobs@.len() ==> (res matches Err(Failure::Bare(text)) && text@
            == "Activation job missing variant"@ && exists|
            results: Seq<ActivationJobResult<H::Payload, E>>,
        | #[trigger]
            is_worked_off(
                old(wf).ctx,
                activation.jobs@.subrange(0, k),
                made_since(old(host).log(), final(host).log()).drop_first(),
                results,
                old(wf).routines@,
                final(wf).routines@,
            )),
        keeps_log(old(host).log(), final(host).log()),
        final(wf).ctx == old(wf).ctx,
        final(wf).run_future == old(wf).run_future,
{
    let jobs = activation.jobs@;
    super::activation::lemma_first_missing(jobs, k);
    let calls = final(host).since(*old(host)).skip(1);
    assert(final(host).since(*old(host)) =~= made_since(old(host).log(), final(host).log()));
    assert(calls =~= made_since(old(host).log(), final(host).log()).drop_first());
    assert(jobs.subrange(0, k) =~= jobs.take(k));
    assert(k == jobs.len() ==> jobs.take(k) =~= jobs);
    match res {
        Ok(done) => {
            if k < jobs.len() {
                assert(jobs[k] is Some);
            }
            let (cuts, states) = lemma_jobs(
                old(wf).routines@,
                final(wf).routines@,
                old(wf).ctx,
                jobs,
                calls,
                done.job_results@,
            );
            assert(are_worked_off(old(wf).ctx, jobs, calls, done.job_results@, cuts, states));
        },
        Err(failure) => {
            if k == jobs.len() {
                assert(jobs[super::activation::first_missing(jobs)] is Some);
            }
            let results = choose|results: Seq<ActivationJobResult<H::Payload, E>>| #[trigger]
                jobs_applied(
                    old(wf).routines@,
                    final(wf).routines@,
                    old(wf).ctx,
                    jobs.take(k),
                    calls,
                    results,
                );
            let (cuts, states) = lemma_jobs(
                old(wf).routines@,
                final(wf).routines@,
                old(wf).ctx,
                jobs.take(k),
                calls,
                results,
            );
            assert(are_worked_off(old(wf).ctx, jobs.take(k), calls, results, cuts, states));
            assert(is_worked_off(
                old(wf).ctx,
                jobs.subrange(0, k),
                calls,
                results,
                old(wf).routines@,
                final(wf).routines@,
            ));
        },
    }
}

/// A workflow starts within the execute chain, which gets its type, its input, its headers and its
/// context as they are; what comes out runs it, and it has no routines yet.
pub proof fn law_workflows_start_within_the_chain<
    C,
    R,
    S,
    U,
    E,
    A,
    P,
    V,
    X: FnOnce(ExecuteInput<A, P, V>) -> (R, Option<C>),
>(
    workflow_type: String,
    input: A,
    headers: HashMap<String, P>,
    context: WorkflowInterceptorContext<V>,
    execute: X,
    within: GuestWorkflowInstance<C, R, S, U, E>,
    made: GuestWorkflowInstance<C, R, S, U, E>,
)
    requires
        call_ensures(
            GuestWorkflowInstance::<C, R, S, U, E>::with_interceptors::<A, P, V, X>,
            (workflow_type, input, headers, context, execute),
            within,
        ),
        call_ensures(
            GuestWorkflowInstance::<C, R, S, U, E>::new_with_workflow::<A, P, V, X>,
            (workflow_type, input, headers, context, execute),
            made,
        ),
    ensures
        call_ensures(
            execute,
            (ExecuteInput { workflow_type, args: input, headers, context },),
            (within.run_future, Some(within.ctx)),
        ),
        call_ensures(
            execute,
            (ExecuteInput { workflow_type, args: input, headers, context },),
            (made.run_future, Some(made.ctx)),
        ),
        within.routines@.next_id == 1,
        made.routines@.next_id == 1,
        forall|id: u64| !#[trigger] within.routines@.waiting.contains_key(id),
        forall|id: u64| !#[trigger] made.routines@.waiting.contains_key(id),
{
}

/// A workflow whose constructor takes the input is made at the end of the chain, and any other before
/// it; the chain gets the same in both cases.
pub proof fn law_constructors_decide_when_workflows_are_made<
    C,
    R,
    S,
    U,
    E,
    A,
    P,
    V,
    X: FnOnce(ExecuteInput<A, P, V>) -> (R, Option<C>),
    Y: FnOnce(ExecuteInput<A, P, V>) -> (R, Option<C>),
>(
    workflow_type: String,
    input: A,
    headers: HashMap<String, P>,
    context: WorkflowInterceptorContext<V>,
    init_takes_input: bool,
    execute_and_init: X,
    init_and_execute: Y,
    res: GuestWorkflowInstance<C, R, S, U, E>,
)
    requires
        call_ensures(
            GuestWorkflowInstance::<C, R, S, U, E>::new::<A, P, V, X, Y>,
            (
                workflow_type,
                input,
                headers,
                context,
                init_takes_input,
                execute_and_init,
                init_and_execute,
            ),
            res,
        ),
    ensures
        init_takes_input ==> call_ensures(
            execute_and_init,
            (ExecuteInput { workflow_type, args: input, headers, context },),
            (res.run_future, Some(res.ctx)),
        ),
        !init_takes_input ==> call_ensures(
            init_and_execute,
            (ExecuteInput { workflow_type, args: input, headers, context },),
            (res.run_future, Some(res.ctx)),
        ),
        res.routines@.next_id == 1,
        forall|id: u64| !#[trigger] res.routines@.waiting.contains_key(id),
{
}

/// A workflow starts from payloads that convert, with the input that they convert to; an error of the
/// conversion is passed on, and nothing starts.
pub proof fn law_workflows_start_from_their_payloads<
    C,
    R,
    S,
    U,
    E,
    A,
    P,
    V,
    D,
    N: FnOnce(Vec<P>) -> Result<A, D>,
    X: FnOnce(ExecuteInput<A, P, V>) -> (R, Option<C>),
    Y: FnOnce(ExecuteInput<A, P, V>) -> (R, Option<C>),
>(
    payloads: Vec<P>,
    convert: N,
    workflow_type: String,
    headers: HashMap<String, P>,
    context: WorkflowInterceptorContext<V>,
    init_takes_input: bool,
    execute_and_init: X,
    init_and_execute: Y,
    res: Result<GuestWorkflowInstance<C, R, S, U, E>, D>,
)
    requires
        call_ensures(
            GuestWorkflowInstance::<C, R, S, U, E>::instantiate::<A, P, V, D, N, X, Y>,
            (
                payloads,
                convert,
                workflow_type,
                headers,
                context,
                init_takes_input,
                execute_and_init,
                init_and_execute,
            ),
            res,
        ),
    ensures
        res matches Err(error) ==> call_ensures(convert, (payloads,), Err(error)),
        res matches Ok(instance) ==> instance.routines@.next_id == 1 && exists|input: A|
            #![trigger call_ensures(convert, (payloads,), Ok(input))]
            call_ensures(convert, (payloads,), Ok(input)) && if init_takes_input {
                call_ensures(
                    execute_and_init,
                    (ExecuteInput { workflow_type, args: input, headers, context },),
                    (instance.run_future, Some(instance.ctx)),
                )
            } else {
                call_ensures(
                    init_and_execute,
                    (ExecuteInput { workflow_type, args: input, headers, context },),
                    (instance.run_future, Some(instance.ctx)),
                )
            },
{
}

} // verus!
