//! What the handlers of a workflow do with signals, updates and queries.

use super::host::{HostCall, RecordedHost, WorkflowHost};
use super::instance::{GuestRoutine, GuestWorkflowInstance, RoutineFuture, Routines};
use super::model::{
    ActivationJobResult, DoUpdate, Failure, QueryResponse, QueryWorkflow, RoutineId, RoutineKind,
    SignalWorkflow, StartedRoutine, UpdateDefinition, UpdateRoutineKind,
};
use crate::interceptors::types::{
    HandleQueryInput, HandleSignalInput, HandleUpdateInput, ValidateUpdateInput,
    WorkflowInterceptorContext,
};
use crate::text::{join2, join3};
use vstd::prelude::*;

verus! {

/// The host was asked whether it replays, and then gave this context for a handler.
pub open spec fn gave_context<H: WorkflowHost>(
    first: HostCall<H>,
    second: HostCall<H>,
    context: WorkflowInterceptorContext<H::View>,
) -> bool {
    &&& first matches HostCall::IsReplaying { replaying }
    &&& second == HostCall::<H>::InterceptorContext { replaying, context }
}

fn handler_context<H: WorkflowHost>(host: &mut RecordedHost<H>) -> (res: WorkflowInterceptorContext<
    H::View,
>)
    ensures
        final(host).continues(*old(host)),
        final(host).since(*old(host)).len() == 2,
        gave_context(
            final(host).since(*old(host))[0],
            final(host).since(*old(host))[1],
            res,
        ),
{
    let replaying = host.is_replaying();
    host.workflow_interceptor_context(replaying)
}

/// Whether the first update handler of this name has a validator, or `None` without one.
pub open spec fn validator_of(definitions: Seq<UpdateDefinition>, name: Seq<char>) -> Option<bool>
    decreases definitions.len(),
{
    if definitions.len() == 0 {
        None
    } else if definitions[0].name@ == name {
        Some(definitions[0].has_validator)
    } else {
        validator_of(definitions.drop_first(), name)
    }
}

/// Whether the first update handler of this name has a validator, or `None` without one.
fn find_validator(definitions: &Vec<UpdateDefinition>, name: &String) -> (res: Option<bool>)
    ensures
        res == validator_of(definitions@, name@),
{
    let mut i: usize = 0;
    assert(definitions@.skip(0) == definitions@);
    while i < definitions.len()
        invariant
            i <= definitions@.len(),
            validator_of(definitions@, name@) == validator_of(definitions@.skip(i as int), name@),
        decreases definitions@.len() - i,
    {
        assert(definitions@.skip(i as int)[0] == definitions@[i as int]);
        assert(definitions@.skip(i as int).drop_first() == definitions@.skip(i + 1));
        if definitions[i].name == *name {
            return Some(definitions[i].has_validator);
        }
        i += 1;
    }
    None
}

/// The message for an update without a handler.
pub open spec fn no_update_handler(name: Seq<char>) -> Seq<char> {
    "No update handler registered for update name "@ + name
}

/// The job was rejected because the update has no handler.
pub open spec fn rejects_missing_handler<P, E>(
    res: ActivationJobResult<P, E>,
    name: Seq<char>,
) -> bool {
    res matches ActivationJobResult::UpdateRejected(failure) && failure.is_application(
        no_update_handler(name),
    )
}

/// The rejection of an update without a handler.
pub fn rejection_for_missing_update_handler<P, E>(name: String) -> (res: ActivationJobResult<P, E>)
    ensures
        rejects_missing_handler(res, name@),
{
    ActivationJobResult::UpdateRejected(
        Failure::Application(
            join2("No update handler registered for update name ", name.as_str()),
        ),
    )
}

/// A routine for the signal was started.
pub open spec fn signal_routine_started<P, S, U, E>(
    before: Routines<S, U, E>,
    after: Routines<S, U, E>,
    name: String,
    future: RoutineFuture<S, E>,
    res: ActivationJobResult<P, E>,
) -> bool {
    &&& after == before.started(GuestRoutine::Signal { future })
    &&& res == ActivationJobResult::<P, E>::StartedRoutine(
        StartedRoutine { routine_id: before.next_id, kind: RoutineKind::Signal(name) },
    )
}

/// What became of a signal, by these calls: its arguments are decoded, and if there is a handler for
/// them, it is run once.
pub open spec fn signal_started<S, U, E, H: WorkflowHost<
    SignalFuture = S,
    UpdateFuture = U,
    Error = E,
>>(
    before: Routines<S, U, E>,
    after: Routines<S, U, E>,
    ctx: H::Ctx,
    signal: SignalWorkflow<H::Payload>,
    calls: Seq<HostCall<H>>,
    res: ActivationJobResult<H::Payload, E>,
) -> bool {
    &&& calls.len() > 0
    &&& calls[0] matches HostCall::DecodeSignal { name, payloads, decoded }
    &&& name == signal.signal_name && payloads == signal.input
    &&& match decoded {
        Ok(None) => calls.len() == 1 && after == before && res is Nothing,
        Err(error) => calls.len() == 1 && signal_routine_started(
            before,
            after,
            signal.signal_name,
            RoutineFuture::Failed(error),
            res,
        ),
        Ok(Some(args)) => {
            &&& calls.len() == 4
            &&& calls[3] matches HostCall::HandleSignal { ctx: run_with, signal: input, future }
            &&& run_with == ctx
            &&& input.signal_name == signal.signal_name
            &&& input.args == args
            &&& input.headers == signal.headers
            &&& gave_context(calls[1], calls[2], input.context)
            &&& signal_routine_started(
                before,
                after,
                signal.signal_name,
                RoutineFuture::Running(future),
                res,
            )
        },
    }
}

/// A routine for the update was started.
pub open spec fn update_routine_started<P, S, U, E>(
    before: Routines<S, U, E>,
    after: Routines<S, U, E>,
    update: DoUpdate<P>,
    future: RoutineFuture<U, E>,
    res: ActivationJobResult<P, E>,
) -> bool {
    &&& after == before.started(
        GuestRoutine::Update { protocol_instance_id: update.protocol_instance_id, future },
    )
    &&& res == ActivationJobResult::<P, E>::StartedRoutine(
        StartedRoutine {
            routine_id: before.next_id,
            kind: RoutineKind::Update(
                UpdateRoutineKind {
                    name: update.name,
                    update_id: update.id,
                    protocol_instance_id: update.protocol_instance_id,
                },
            ),
        },
    )
}

/// The update was refused, and nothing was started.
pub open spec fn update_refused<P, S, U, E>(
    before: Routines<S, U, E>,
    after: Routines<S, U, E>,
    res: ActivationJobResult<P, E>,
    error: E,
) -> bool {
    after == before && res == ActivationJobResult::<P, E>::UpdateRejected(Failure::Workflow(error))
}

/// What became of an update that is not to be validated, or was found valid, by these calls: its
/// arguments are decoded, and its handler is run once.
pub open spec fn update_accepted<S, U, E, H: WorkflowHost<
    SignalFuture = S,
    UpdateFuture = U,
    Error = E,
>>(
    before: Routines<S, U, E>,
    after: Routines<S, U, E>,
    ctx: H::Ctx,
    update: DoUpdate<H::Payload>,
    calls: Seq<HostCall<H>>,
    res: ActivationJobResult<H::Payload, E>,
) -> bool {
    &&& calls.len() > 0
    &&& calls[0] matches HostCall::DecodeUpdate { name, payloads, decoded }
    &&& name == update.name && payloads == update.input
    &&& match decoded {
        Ok(None) => {
            &&& calls.len() == 1
            &&& after == before
            &&& rejects_missing_handler(res, update.name@)
        },
        Err(error) => calls.len() == 1 && update_routine_started(
            before,
            after,
            update,
            RoutineFuture::Failed(error),
            res,
        ),
        Ok(Some(args)) => {
            &&& calls.len() == 4
            &&& calls[3] matches HostCall::HandleUpdate { ctx: run_with, update: input, handled }
            &&& run_with == ctx
            &&& input.update_name == update.name
            &&& input.args == args
            &&& input.headers == update.headers
            &&& gave_context(calls[1], calls[2], input.context)
            &&& match handled {
                Some(future) => update_routine_started(
                    before,
                    after,
                    update,
                    RoutineFuture::Running(future),
                    res,
                ),
                None => after == before && rejects_missing_handler(res, update.name@),
            }
        },
    }
}

/// What became of an update that is to be validated, by these calls: its arguments are decoded, its
/// validator is run once, and only if that finds it valid the update is accepted.
pub open spec fn update_validated<S, U, E, H: WorkflowHost<
    SignalFuture = S,
    UpdateFuture = U,
    Error = E,
>>(
    before: Routines<S, U, E>,
    after: Routines<S, U, E>,
    ctx: H::Ctx,
    update: DoUpdate<H::Payload>,
    calls: Seq<HostCall<H>>,
    res: ActivationJobResult<H::Payload, E>,
) -> bool {
    &&& calls.len() > 0
    &&& calls[0] matches HostCall::DecodeUpdate { name, payloads, decoded }
    &&& name == update.name && payloads == update.input
    &&& match decoded {
        Ok(None) => {
            &&& calls.len() == 1
            &&& after == before
            &&& rejects_missing_handler(res, update.name@)
        },
        Err(error) => calls.len() == 1 && update_refused(before, after, res, error),
        Ok(Some(args)) => {
            &&& calls.len() >= 4
            &&& calls[3] matches HostCall::ValidateUpdate {
                ctx: run_with,
                validation: input,
                verdict,
            }
            &&& run_with == ctx
            &&& input.update_name == update.name
            &&& input.args == args
            &&& input.headers@ == update.headers@
            &&& gave_context(calls[1], calls[2], input.context)
            &&& match verdict {
                None => {
                    &&& calls.len() == 4
                    &&& after == before
                    &&& rejects_missing_handler(res, update.name@)
                },
                Some(Err(error)) => calls.len() == 4 && update_refused(before, after, res, error),
                Some(Ok(_)) => update_accepted(before, after, ctx, update, calls.skip(4), res),
            }
        },
    }
}

/// What became of an update, by these calls: it is looked up, and only if the workflow defines it
/// more is done.
pub open spec fn update_started<S, U, E, H: WorkflowHost<
    SignalFuture = S,
    UpdateFuture = U,
    Error = E,
>>(
    before: Routines<S, U, E>,
    after: Routines<S, U, E>,
    ctx: H::Ctx,
    update: DoUpdate<H::Payload>,
    calls: Seq<HostCall<H>>,
    res: ActivationJobResult<H::Payload, E>,
) -> bool {
    &&& calls.len() > 0
    &&& calls[0] matches HostCall::UpdateDefinitions { definitions }
    &&& match validator_of(definitions@, update.name@) {
        None => {
            &&& calls.len() == 1
            &&& after == before
            &&& rejects_missing_handler(res, update.name@)
        },
        Some(has_validator) => if update.run_validator && has_validator {
            update_validated(before, after, ctx, update, calls.skip(1), res)
        } else {
            update_accepted(before, after, ctx, update, calls.skip(1), res)
        },
    }
}

/// The query that every workflow answers by itself.
pub open spec fn is_metadata_query(query_type: Seq<char>) -> bool {
    query_type == "__temporal_workflow_metadata"@
}

/// What a query is answered, by these calls: the workflow tells its metadata, or the arguments are
/// decoded and, if there is a handler for them, it is run once.
pub open spec fn query_answered<H: WorkflowHost>(
    ctx: H::Ctx,
    query: QueryWorkflow<H::Payload>,
    calls: Seq<HostCall<H>>,
    res: QueryResponse<H::Payload, H::Error>,
) -> bool {
    &&& calls.len() > 0
    &&& if is_metadata_query(query.query_type@) {
        &&& calls.len() == 1
        &&& calls[0] matches HostCall::QueryMetadata { metadata }
        &&& match metadata {
            Ok(payload) => res.result == Ok::<_, Failure<H::Error>>(payload),
            Err(text) => res.result == Err::<H::Payload, _>(Failure::<H::Error>::Bare(text)),
        }
    } else {
        &&& calls[0] matches HostCall::DecodeQuery { name, payloads, decoded }
        &&& name == query.query_type && payloads == query.arguments
        &&& match decoded {
            Err(error) => {
                &&& calls.len() == 1
                &&& res.result == Err::<H::Payload, _>(Failure::Workflow(error))
            },
            Ok(None) => {
                &&& calls.len() == 1
                &&& res.result matches Err(failure)
                &&& failure.is_application(
                    "No query handler for '"@ + query.query_type@ + "'"@,
                )
            },
            Ok(Some(args)) => {
                &&& calls.len() == 3
                &&& calls[1] matches HostCall::InterceptorContext { replaying, context }
                &&& !replaying
                &&& calls[2] matches HostCall::HandleQuery { ctx: run_with, query: input, answer }
                &&& run_with == ctx
                &&& input == HandleQueryInput {
                    query_name: query.query_type,
                    args,
                    headers: query.headers,
                    context,
                }
                &&& match answer {
                    Ok(payload) => res.result == Ok::<_, Failure<H::Error>>(payload),
                    Err(error) => res.result == Err::<H::Payload, _>(Failure::Workflow(error)),
                }
            },
        }
    }
}

impl<C, R, S, U, E> GuestWorkflowInstance<C, R, S, U, E> {
    /// Starts the handler of a signal. A signal without a handler leads to nothing.
    pub fn start_signal_routine<
        H: WorkflowHost<Ctx = C, SignalFuture = S, UpdateFuture = U, Error = E>,
    >(&mut self, signal: SignalWorkflow<H::Payload>, host: &mut RecordedHost<H>) -> (res:
        ActivationJobResult<H::Payload, E>)
        requires
            old(self).table().next_id < u64::MAX,
        ensures
            final(host).continues(*old(host)),
            signal_started(
                old(self).table(),
                final(self).table(),
                old(self).ctx,
                signal,
                final(host).since(*old(host)),
                res,
            ),
            final(self).same_workflow(*old(self)),
            old(self).table().wf() ==> final(self).table().wf(),
    {
        let name = signal.signal_name;
        let future = match host.decode_signal_input(&name, signal.input) {
            Ok(Some(decoded_input)) => {
                let context = handler_context(host);
                let input = HandleSignalInput::new(
                    name.clone(),
                    decoded_input,
                    signal.headers,
                    context,
                );
                RoutineFuture::Running(host.handle_signal(&self.ctx, input))
            },
            Err(error) => RoutineFuture::Failed(error),
            Ok(None) => {
                return ActivationJobResult::Nothing;
            },
        };
        let routine_id: RoutineId = self.routines.register(GuestRoutine::Signal { future });
        ActivationJobResult::StartedRoutine(
            StartedRoutine { routine_id, kind: RoutineKind::Signal(name) },
        )
    }

    /// Validates an update if that is asked for, and starts its handler.
    ///
    /// Without a handler, and if it is found invalid, the update is rejected; arguments that do not
    /// decode reject an update that is validated, and otherwise fail its routine.
    pub fn start_update_routine<
        H: WorkflowHost<Ctx = C, SignalFuture = S, UpdateFuture = U, Error = E>,
    >(&mut self, update: DoUpdate<H::Payload>, host: &mut RecordedHost<H>) -> (res:
        ActivationJobResult<H::Payload, E>)
        requires
            old(self).table().next_id < u64::MAX,
        ensures
            final(host).continues(*old(host)),
            update_started(
                old(self).table(),
                final(self).table(),
                old(self).ctx,
                update,
                final(host).since(*old(host)),
                res,
            ),
            final(self).same_workflow(*old(self)),
            old(self).table().wf() ==> final(self).table().wf(),
    {
        let definitions = host.update_definitions();
        let has_validator = match find_validator(&definitions, &update.name) {
            Some(has_validator) => has_validator,
            None => {
                return rejection_for_missing_update_handler(update.name);
            },
        };
        if update.run_validator && has_validator {
            let decoded_input = match host.decode_update_input(&update.name, &update.input) {
                Ok(Some(input)) => input,
                Err(error) => {
                    return ActivationJobResult::UpdateRejected(Failure::Workflow(error));
                },
                Ok(None) => {
                    return rejection_for_missing_update_handler(update.name);
                },
            };
            let context = handler_context(host);
            let input = ValidateUpdateInput::new(
                update.name.clone(),
                decoded_input,
                update.headers.clone(),
                context,
            );
            match host.validate_update(&self.ctx, input) {
                Some(Ok(_)) => {},
                Some(Err(error)) => {
                    return ActivationJobResult::UpdateRejected(Failure::Workflow(error));
                },
                None => {
                    return rejection_for_missing_update_handler(update.name);
                },
            }
        }
        let future = match host.decode_update_input(&update.name, &update.input) {
            Ok(Some(decoded_input)) => {
                let context = handler_context(host);
                let input = HandleUpdateInput::new(
                    update.name.clone(),
                    decoded_input,
                    update.headers,
                    context,
                );
                match host.handle_update(&self.ctx, input) {
                    Some(future) => RoutineFuture::Running(future),
                    None => {
                        return rejection_for_missing_update_handler(update.name);
                    },
                }
            },
            Err(error) => RoutineFuture::Failed(error),
            Ok(None) => {
                return rejection_for_missing_update_handler(update.name);
            },
        };
        let routine_id: RoutineId = self.routines.register(
            GuestRoutine::Update {
                protocol_instance_id: update.protocol_instance_id.clone(),
                future,
            },
        );
        ActivationJobResult::StartedRoutine(
            StartedRoutine {
                routine_id,
                kind: RoutineKind::Update(
                    UpdateRoutineKind {
                        name: update.name,
                        update_id: update.id,
                        protocol_instance_id: update.protocol_instance_id,
                    },
                ),
            },
        )
    }

    /// Answers a query.
    pub fn query<H: WorkflowHost<Ctx = C, SignalFuture = S, UpdateFuture = U, Error = E>>(
        &self,
        query: QueryWorkflow<H::Payload>,
        host: &mut RecordedHost<H>,
    ) -> (res: QueryResponse<H::Payload, E>)
        ensures
            final(host).continues(*old(host)),
            query_answered(self.ctx, query, final(host).since(*old(host)), res),
    {
        if query.query_type == "__temporal_workflow_metadata".to_owned() {
            return match host.query_metadata() {
                Ok(payload) => QueryResponse { result: Ok(payload) },
                Err(text) => QueryResponse { result: Err(Failure::Bare(text)) },
            };
        }
        let decoded_input = match host.decode_query_input(&query.query_type, &query.arguments) {
            Ok(Some(input)) => input,
            Err(error) => {
                return QueryResponse { result: Err(Failure::Workflow(error)) };
            },
            Ok(None) => {
                return QueryResponse {
                    result: Err(
                        Failure::Application(
                            join3("No query handler for '", query.query_type.as_str(), "'"),
                        ),
                    ),
                };
            },
        };
        let context = host.workflow_interceptor_context(false);
        let input = HandleQueryInput::new(
            query.query_type.clone(),
            decoded_input,
            query.headers,
            context,
        );
        match host.handle_query(&self.ctx, input) {
            Ok(payload) => QueryResponse { result: Ok(payload) },
            Err(error) => QueryResponse { result: Err(Failure::Workflow(error)) },
        }
    }
}

/// The validator of an update runs at most once, and only if the workflow defines the update with a
/// validator and validation is asked for. The handler runs at most once, last of all, and only for an
/// update that the workflow defines and that no validator refused.
pub proof fn law_updates_run_only_what_they_may<S, U, E, H: WorkflowHost<
    SignalFuture = S,
    UpdateFuture = U,
    Error = E,
>>(
    before: Routines<S, U, E>,
    after: Routines<S, U, E>,
    ctx: H::Ctx,
    update: DoUpdate<H::Payload>,
    calls: Seq<HostCall<H>>,
    res: ActivationJobResult<H::Payload, E>,
)
    requires
        update_started(before, after, ctx, update, calls, res),
    ensures
        calls[0] is UpdateDefinitions,
        forall|i: int|
            0 <= i < calls.len() && (#[trigger] calls[i]) is ValidateUpdate ==> i == 4
                && update.run_validator && validator_of(calls[0]->definitions@, update.name@)
                == Some(true),
        forall|i: int|
            0 <= i < calls.len() && (#[trigger] calls[i]) is HandleUpdate ==> {
                &&& i == calls.len() - 1
                &&& validator_of(calls[0]->definitions@, update.name@) is Some
                &&& update.run_validator && validator_of(calls[0]->definitions@, update.name@)
                    == Some(true) ==> calls[4] is ValidateUpdate && calls[4]->verdict matches Some(
                    Ok(_),
                )
            },
{
    let rest = calls.skip(1);
    assert forall|i: int| 0 <= i < rest.len() implies (#[trigger] rest[i]) == calls[i + 1] by {}
    let last = rest.skip(4);
    if rest.len() >= 4 {
        assert forall|i: int| 0 <= i < last.len() implies (#[trigger] last[i]) == calls[i + 5] by {}
    }
    assert forall|i: int|
        0 <= i < calls.len() && (#[trigger] calls[i]) is ValidateUpdate implies i == 4
        && update.run_validator && validator_of(calls[0]->definitions@, update.name@) == Some(
        true,
    ) by {
        assert(i > 0 && calls[i] == rest[i - 1]);
        if i >= 5 {
            assert(rest.len() >= 4 ==> calls[i] == last[i - 5]);
        }
    }
    assert forall|i: int| 0 <= i < calls.len() && (#[trigger] calls[i]) is HandleUpdate implies {
        &&& i == calls.len() - 1
        &&& validator_of(calls[0]->definitions@, update.name@) is Some
        &&& update.run_validator && validator_of(calls[0]->definitions@, update.name@) == Some(true)
            ==> calls[4] is ValidateUpdate && calls[4]->verdict matches Some(Ok(_))
    } by {
        assert(i > 0 && calls[i] == rest[i - 1]);
        if i >= 5 {
            assert(rest.len() >= 4 ==> calls[i] == last[i - 5]);
        }
        assert(calls.len() > 4 ==> calls[4] == rest[3]);
    }
}

/// An update that the workflow does not define, or that its validator refused, is rejected: its
/// handler is not run, and neither the routines nor the next routine id change.
pub proof fn law_refused_updates_change_nothing<S, U, E, H: WorkflowHost<
    SignalFuture = S,
    UpdateFuture = U,
    Error = E,
>>(
    before: Routines<S, U, E>,
    after: Routines<S, U, E>,
    ctx: H::Ctx,
    update: DoUpdate<H::Payload>,
    calls: Seq<HostCall<H>>,
    res: ActivationJobResult<H::Payload, E>,
)
    requires
        update_started(before, after, ctx, update, calls, res),
        validator_of(calls[0]->definitions@, update.name@) is None || (calls.len() > 4
            && calls[4] is ValidateUpdate && !(calls[4]->verdict matches Some(Ok(_)))),
    ensures
        res is UpdateRejected,
        after == before,
        forall|i: int| 0 <= i < calls.len() ==> !((#[trigger] calls[i]) is HandleUpdate),
{
    law_updates_run_only_what_they_may(before, after, ctx, update, calls, res);
    let rest = calls.skip(1);
    assert(calls.len() > 4 ==> calls[4] == rest[3]);
}

/// The handler of a query runs exactly once if the query is not that for the metadata and its
/// arguments decode to what a handler takes; otherwise it is not run. A metadata query decodes nothing.
pub proof fn law_queries_run_their_handler_at_most_once<H: WorkflowHost>(
    ctx: H::Ctx,
    query: QueryWorkflow<H::Payload>,
    calls: Seq<HostCall<H>>,
    res: QueryResponse<H::Payload, H::Error>,
)
    requires
        query_answered(ctx, query, calls, res),
    ensures
        is_metadata_query(query.query_type@) ==> forall|i: int|
            0 <= i < calls.len() ==> (#[trigger] calls[i]) is QueryMetadata,
        !is_metadata_query(query.query_type@) ==> {
            &&& calls[0] matches HostCall::DecodeQuery { decoded, .. }
            &&& calls.len() == 3 <==> decoded is Ok && decoded->Ok_0 is Some
            &&& forall|i: int|
                0 <= i < calls.len() ==> ((#[trigger] calls[i]) is HandleQuery <==> i == 2)
        },
{
}

/// The handler of a signal runs exactly once if its arguments decode to what a handler takes, and is
/// otherwise not run.
pub proof fn law_signals_run_their_handler_at_most_once<S, U, E, H: WorkflowHost<
    SignalFuture = S,
    UpdateFuture = U,
    Error = E,
>>(
    before: Routines<S, U, E>,
    after: Routines<S, U, E>,
    ctx: H::Ctx,
    signal: SignalWorkflow<H::Payload>,
    calls: Seq<HostCall<H>>,
    res: ActivationJobResult<H::Payload, E>,
)
    requires
        signal_started(before, after, ctx, signal, calls, res),
    ensures
        calls[0] matches HostCall::DecodeSignal { decoded, .. } && {
            &&& calls.len() == 4 <==> decoded is Ok && decoded->Ok_0 is Some
            &&& forall|i: int|
                0 <= i < calls.len() ==> ((#[trigger] calls[i]) is HandleSignal <==> i == 3)
        },
{
}

} // verus!
