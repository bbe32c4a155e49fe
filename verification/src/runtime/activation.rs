//! Applying an activation to a workflow, job by job.

use super::handlers::{query_answered, signal_started, update_started};
use super::host::{HostCall, RecordedHost, WorkflowHost};
use super::instance::{
    apply_resolution, event_of, has_what_it_needs, is_complete, GuestWorkflowInstance, Routines,
};
use super::model::{
    ActivationJobResult, ActivationResult, ActivationVariant, Failure, RoutineKind,
    WorkflowActivation,
};
use vstd::prelude::*;

verus! {

/// A job was applied by these calls, and led to this result.
pub open spec fn job_applied<S, U, E, H: WorkflowHost<
    SignalFuture = S,
    UpdateFuture = U,
    Error = E,
>>(
    before: Routines<S, U, E>,
    after: Routines<S, U, E>,
    ctx: H::Ctx,
    job: ActivationVariant<H::Payload, H::Resolved>,
    calls: Seq<HostCall<H>>,
    result: ActivationJobResult<H::Payload, E>,
) -> bool {
    match job {
        ActivationVariant::InitializeWorkflow
        | ActivationVariant::UpdateRandomSeed
        | ActivationVariant::RemoveFromCache => {
            &&& calls.len() == 0
            &&& after == before
            &&& result is Nothing
        },
        ActivationVariant::NotifyHasPatch(patch_id) => {
            &&& calls =~= seq![HostCall::<H>::RecordPatch { patch_id }]
            &&& after == before
            &&& result is Nothing
        },
        ActivationVariant::CancelWorkflow(reason) => {
            &&& calls =~= seq![HostCall::<H>::NotifyCancel { reason }]
            &&& after == before
            &&& result is Nothing
        },
        ActivationVariant::Resolution(resolution) => {
            &&& calls =~= seq![HostCall::<H>::Unblock { event: event_of(resolution) }]
            &&& after == before
            &&& result is Nothing
        },
        ActivationVariant::SignalWorkflow(signal) => signal_started(
            before,
            after,
            ctx,
            signal,
            calls,
            result,
        ),
        ActivationVariant::DoUpdate(update) => update_started(
            before,
            after,
            ctx,
            update,
            calls,
            result,
        ),
        ActivationVariant::QueryWorkflow(query) => {
            &&& after == before
            &&& result matches ActivationJobResult::QueryResponse(response)
            &&& query_answered(ctx, query, calls, response)
        },
    }
}

/// The jobs were applied one behind the other by these calls, and led to these results.
pub open spec fn jobs_applied<S, U, E, H: WorkflowHost<
    SignalFuture = S,
    UpdateFuture = U,
    Error = E,
>>(
    before: Routines<S, U, E>,
    after: Routines<S, U, E>,
    ctx: H::Ctx,
    jobs: Seq<Option<ActivationVariant<H::Payload, H::Resolved>>>,
    calls: Seq<HostCall<H>>,
    results: Seq<ActivationJobResult<H::Payload, E>>,
) -> bool
    decreases jobs.len(),
{
    if jobs.len() == 0 {
        after == before && calls.len() == 0 && results.len() == 0
    } else {
        &&& results.len() == jobs.len()
        &&& jobs.last() is Some
        &&& exists|mid: Routines<S, U, E>, n: int| #[trigger]
            last_job_applied(mid, after, ctx, jobs, calls, n, results) && jobs_applied(
                before,
                mid,
                ctx,
                jobs.drop_last(),
                calls.take(n),
                results.drop_last(),
            )
    }
}

/// The last job was applied by the calls from position `n` on.
pub open spec fn last_job_applied<S, U, E, H: WorkflowHost<
    SignalFuture = S,
    UpdateFuture = U,
    Error = E,
>>(
    mid: Routines<S, U, E>,
    after: Routines<S, U, E>,
    ctx: H::Ctx,
    jobs: Seq<Option<ActivationVariant<H::Payload, H::Resolved>>>,
    calls: Seq<HostCall<H>>,
    n: int,
    results: Seq<ActivationJobResult<H::Payload, E>>,
) -> bool {
    &&& 0 <= n <= calls.len()
    &&& job_applied(mid, after, ctx, jobs.last()->Some_0, calls.skip(n), results.last())
}

/// A job of this kind can lead to this result: a query to an answer, a signal to a routine of its own
/// or to nothing, an update to a routine of its own or to a rejection, and any other to nothing.
pub open spec fn fits<P, X, E>(
    job: ActivationVariant<P, X>,
    result: ActivationJobResult<P, E>,
) -> bool {
    match job {
        ActivationVariant::QueryWorkflow(_) => result is QueryResponse,
        ActivationVariant::SignalWorkflow(signal) => {
            ||| result is Nothing
            ||| result matches ActivationJobResult::StartedRoutine(started) && started.kind
                == RoutineKind::Signal(signal.signal_name)
        },
        ActivationVariant::DoUpdate(update) => {
            ||| result is UpdateRejected
            ||| result matches ActivationJobResult::StartedRoutine(started)
                && started.kind matches RoutineKind::Update(kind) && kind.name == update.name
                && kind.update_id == update.id && kind.protocol_instance_id
                == update.protocol_instance_id
        },
        _ => result is Nothing,
    }
}

/// The resolution that a job carries, if it carries one, is complete.
pub open spec fn is_applicable<P, X>(job: Option<ActivationVariant<P, X>>) -> bool {
    job matches Some(ActivationVariant::Resolution(resolution)) ==> is_complete(resolution)
}

/// Position of the first job that says nothing, or the number of jobs.
pub open spec fn first_missing<P, X>(jobs: Seq<Option<ActivationVariant<P, X>>>) -> int
    decreases jobs.len(),
{
    if jobs.len() == 0 || jobs[0] is None {
        0
    } else {
        1 + first_missing(jobs.drop_first())
    }
}

pub(crate) proof fn lemma_first_missing<P, X>(jobs: Seq<Option<ActivationVariant<P, X>>>, k: int)
    requires
        0 <= k <= jobs.len(),
        forall|i: int| 0 <= i < k ==> (#[trigger] jobs[i]) is Some,
    ensures
        k <= first_missing(jobs) <= jobs.len(),
        k < jobs.len() && jobs[k] is None ==> first_missing(jobs) == k,
        k < jobs.len() && jobs[k] is Some ==> k < first_missing(jobs),
    decreases jobs.len(),
{
    if jobs.len() > 0 {
        let rest = jobs.drop_first();
        if k > 0 {
            assert(jobs[0] is Some);
            assert forall|i: int| 0 <= i < k - 1 implies (#[trigger] rest[i]) is Some by {
                assert(rest[i] == jobs[i + 1]);
            }
            lemma_first_missing(rest, k - 1);
            if k < jobs.len() {
                assert(rest[k - 1] == jobs[k]);
            }
        } else if jobs[0] is Some {
            lemma_first_missing(rest, 0);
        }
    }
}

/// Position of the first job whose resolution is incomplete, unless a job that says nothing comes
/// before it. Without one the jobs can be applied.
pub fn incomplete_job<P, X>(jobs: &Vec<Option<ActivationVariant<P, X>>>) -> (res: Option<usize>)
    ensures
        res is None <==> forall|i: int|
            0 <= i < first_missing(jobs@) ==> is_applicable(#[trigger] jobs@[i]),
        res matches Some(at) ==> {
            &&& at < first_missing(jobs@) <= jobs@.len()
            &&& !is_applicable(jobs@[at as int])
            &&& forall|i: int| 0 <= i < at ==> is_applicable(#[trigger] jobs@[i])
        },
{
    let mut at: usize = 0;
    while at < jobs.len()
        invariant
            at <= jobs@.len(),
            forall|i: int|
                0 <= i < at ==> (#[trigger] jobs@[i]) is Some && is_applicable(jobs@[i]),
        decreases jobs@.len() - at,
    {
        proof {
            lemma_first_missing(jobs@, at as int);
        }
        match &jobs[at] {
            None => {
                return None;
            },
            Some(ActivationVariant::Resolution(resolution)) => {
                if !has_what_it_needs(resolution) {
                    assert(!is_applicable(jobs@[at as int]));
                    return Some(at);
                }
            },
            Some(_) => {},
        }
        at += 1;
    }
    proof {
        lemma_first_missing(jobs@, at as int);
    }
    None
}

/// Jobs that were applied gave one result each, of a kind that fits.
pub proof fn law_one_fitting_result_per_job<S, U, E, H: WorkflowHost<
    SignalFuture = S,
    UpdateFuture = U,
    Error = E,
>>(
    before: Routines<S, U, E>,
    after: Routines<S, U, E>,
    ctx: H::Ctx,
    jobs: Seq<Option<ActivationVariant<H::Payload, H::Resolved>>>,
    calls: Seq<HostCall<H>>,
    results: Seq<ActivationJobResult<H::Payload, E>>,
)
    requires
        jobs_applied(before, after, ctx, jobs, calls, results),
    ensures
        results.len() == jobs.len(),
        forall|i: int|
            0 <= i < jobs.len() ==> (#[trigger] jobs[i]) is Some && fits(
                jobs[i]->Some_0,
                results[i],
            ),
    decreases jobs.len(),
{
    if jobs.len() > 0 {
        let (mid, n) = choose|mid: Routines<S, U, E>, n: int| #[trigger]
            last_job_applied(mid, after, ctx, jobs, calls, n, results) && jobs_applied(
                before,
                mid,
                ctx,
                jobs.drop_last(),
                calls.take(n),
                results.drop_last(),
            );
        law_one_fitting_result_per_job(
            before,
            mid,
            ctx,
            jobs.drop_last(),
            calls.take(n),
            results.drop_last(),
        );
        assert forall|i: int| 0 <= i < jobs.len() implies (#[trigger] jobs[i]) is Some && fits(
            jobs[i]->Some_0,
            results[i],
        ) by {
            if i < jobs.len() - 1 {
                assert(jobs.drop_last()[i] == jobs[i]);
                assert(results.drop_last()[i] == results[i]);
            }
        }
    }
}

impl<C, R, S, U, E> GuestWorkflowInstance<C, R, S, U, E> {
    /// Applies one job.
    pub fn apply_job<H: WorkflowHost<Ctx = C, SignalFuture = S, UpdateFuture = U, Error = E>>(
        &mut self,
        job: ActivationVariant<H::Payload, H::Resolved>,
        host: &mut RecordedHost<H>,
    ) -> (res: ActivationJobResult<H::Payload, E>)
        requires
            is_applicable(Some(job)),
            old(self).table().next_id < u64::MAX,
        ensures
            final(host).continues(*old(host)),
            job_applied(
                old(self).table(),
                final(self).table(),
                old(self).ctx,
                job,
                final(host).since(*old(host)),
                res,
            ),
            final(self).table().next_id <= old(self).table().next_id + 1,
            final(self).same_workflow(*old(self)),
            old(self).table().wf() ==> final(self).table().wf(),
    {
        match job {
            ActivationVariant::InitializeWorkflow
            | ActivationVariant::UpdateRandomSeed
            | ActivationVariant::RemoveFromCache => ActivationJobResult::Nothing,
            ActivationVariant::NotifyHasPatch(patch_id) => {
                host.record_patch(patch_id);
                ActivationJobResult::Nothing
            },
            ActivationVariant::CancelWorkflow(reason) => {
                host.notify_cancel(reason);
                ActivationJobResult::Nothing
            },
            ActivationVariant::SignalWorkflow(signal) => self.start_signal_routine(signal, host),
            ActivationVariant::DoUpdate(update) => self.start_update_routine(update, host),
            ActivationVariant::QueryWorkflow(query) => ActivationJobResult::QueryResponse(
                self.query(query, host),
            ),
            ActivationVariant::Resolution(resolution) => {
                host.unblock(apply_resolution(resolution));
                ActivationJobResult::Nothing
            },
        }
    }

    /// Applies an activation: first what it says beside its jobs, then job by job. A job that says
    /// nothing ends it; the jobs before it stay applied.
    pub fn activate<H: WorkflowHost<Ctx = C, SignalFuture = S, UpdateFuture = U, Error = E>>(
        &mut self,
        activation: WorkflowActivation<H::Payload, H::Resolved, H::Meta>,
        host: &mut RecordedHost<H>,
    ) -> (res: Result<ActivationResult<H::Payload, E>, Failure<E>>)
        requires
            forall|i: int|
                0 <= i < first_missing(activation.jobs@) ==> is_applicable(
                    #[trigger] activation.jobs@[i],
                ),
            old(self).table().next_id + activation.jobs@.len() <= u64::MAX,
        ensures
            final(host).continues(*old(host)),
            final(host).since(*old(host)).len() > 0,
            final(host).since(*old(host))[0] == (HostCall::<H>::ApplyActivationContext {
                meta: activation.meta,
            }),
            match res {
                Ok(done) => {
                    &&& forall|i: int|
                        0 <= i < activation.jobs@.len() ==> (#[trigger] activation.jobs@[i]) is Some
                    &&& done.job_results@.len() == activation.jobs@.len()
                    &&& forall|i: int|
                        0 <= i < activation.jobs@.len() ==> fits(
                            (#[trigger] activation.jobs@[i])->Some_0,
                            done.job_results@[i],
                        )
                    &&& jobs_applied(
                        old(self).table(),
                        final(self).table(),
                        old(self).ctx,
                        activation.jobs@,
                        final(host).since(*old(host)).skip(1),
                        done.job_results@,
                    )
                },
                Err(failure) => {
                    &&& first_missing(activation.jobs@) < activation.jobs@.len()
                    &&& activation.jobs@[first_missing(activation.jobs@)] is None
                    &&& failure.is_bare("Activation job missing variant"@)
                    &&& some_jobs_applied(
                        old(self).table(),
                        final(self).table(),
                        old(self).ctx,
                        activation.jobs@.take(first_missing(activation.jobs@)),
                        final(host).since(*old(host)).skip(1),
                    )
                },
            },
            final(self).same_workflow(*old(self)),
            old(self).table().wf() ==> final(self).table().wf(),
    {
        host.apply_activation_context(&activation.meta);
        let ghost jobs = activation.jobs@;
        let mut job_results: Vec<ActivationJobResult<H::Payload, E>> = Vec::new();
        proof {
            lemma_first_missing(jobs, 0);
            assert(jobs.take(0).len() == 0);
            assert(host.since(*old(host)).skip(1).len() == 0);
        }
        for variant in it: activation.jobs
            invariant
                it.seq() == jobs,
                jobs == activation.jobs@,
                job_results@.len() == it.index(),
                forall|i: int| 0 <= i < it.index() ==> (#[trigger] jobs[i]) is Some,
                forall|i: int|
                    0 <= i < first_missing(jobs) ==> is_applicable(#[trigger] jobs[i]),
                old(self).table().next_id + jobs.len() <= u64::MAX,
                self.table().next_id <= old(self).table().next_id + it.index(),
                host.continues(*old(host)),
                host.since(*old(host)).len() > 0,
                host.since(*old(host))[0] == (HostCall::<H>::ApplyActivationContext {
                    meta: activation.meta,
                }),
                jobs_applied(
                    old(self).table(),
                    self.table(),
                    old(self).ctx,
                    jobs.take(it.index() as int),
                    host.since(*old(host)).skip(1),
                    job_results@,
                ),
                self.same_workflow(*old(self)),
                old(self).table().wf() ==> self.table().wf(),
        {
            let ghost n = it.index() as int;
            proof {
                lemma_first_missing(jobs, n);
            }
            assert(variant == jobs[n]);
            let job = match variant {
                Some(job) => job,
                None => {
                    assert(jobs_applied(
                        old(self).table(),
                        self.table(),
                        old(self).ctx,
                        jobs.take(n),
                        host.since(*old(host)).skip(1),
                        job_results@,
                    ));
                    return Err(Failure::Bare("Activation job missing variant".to_owned()));
                },
            };
            let ghost before = self.table();
            let ghost done = job_results@;
            let ghost made = host.since(*old(host)).skip(1);
            let ghost host_before = *host;
            let result = self.apply_job(job, host);
            job_results.push(result);
            proof {
                let next = jobs.take(n + 1);
                let calls = host.since(*old(host)).skip(1);
                assert(next.drop_last() == jobs.take(n));
                assert(next.last() == jobs[n]);
                assert(job_results@.drop_last() == done);
                assert(calls.take(made.len() as int) =~= made);
                assert(calls.skip(made.len() as int) =~= host.since(host_before));
                assert(last_job_applied(
                    before,
                    self.table(),
                    old(self).ctx,
                    next,
                    calls,
                    made.len() as int,
                    job_results@,
                ));
            }
        }
        proof {
            assert(jobs.take(jobs.len() as int) == jobs);
            law_one_fitting_result_per_job(
                old(self).table(),
                self.table(),
                old(self).ctx,
                jobs,
                host.since(*old(host)).skip(1),
                job_results@,
            );
        }
        Ok(ActivationResult { job_results })
    }
}

/// The jobs were applied one behind the other by these calls; their results are not reported.
pub open spec fn some_jobs_applied<S, U, E, H: WorkflowHost<
    SignalFuture = S,
    UpdateFuture = U,
    Error = E,
>>(
    before: Routines<S, U, E>,
    after: Routines<S, U, E>,
    ctx: H::Ctx,
    jobs: Seq<Option<ActivationVariant<H::Payload, H::Resolved>>>,
    calls: Seq<HostCall<H>>,
) -> bool {
    exists|results: Seq<ActivationJobResult<H::Payload, E>>| #[trigger]
        jobs_applied(before, after, ctx, jobs, calls, results)
}

} // verus!
