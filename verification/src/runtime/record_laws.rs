//! That a recorded host makes the calls that it records.

use super::host::{HostCall, RecordedHost, WorkflowHost};
use super::model::{UnblockEvent, UpdateDefinition};
use crate::interceptors::types::{
    HandleQueryInput, HandleSignalInput, HandleUpdateInput, ValidateUpdateInput,
    WorkflowInterceptorContext,
};
use vstd::prelude::*;

verus! {

/// A new record is empty, and is of the host that it is for.
pub proof fn law_records_start_empty<'h, H: WorkflowHost>(host: &'h H, res: RecordedHost<'h, H>)
    requires
        call_ensures(RecordedHost::<'h, H>::new, (host,), res),
    ensures
        res.log().len() == 0,
        res.host() == *host,
{
}

/// One call of `apply_activation_context` is made to the host, with these arguments, and recorded as such.
pub proof fn law_apply_activation_context_is_recorded<'h, H: WorkflowHost>(
    host: &mut RecordedHost<'h, H>,
    meta: &H::Meta,
)
    requires
        call_ensures(RecordedHost::<'h, H>::apply_activation_context, (host, meta), ()),
    ensures
        call_ensures(H::apply_activation_context, (&old(host).host(), meta), ()),
        final(host).host() == old(host).host(),
        final(host).log() == old(host).log().push(
            (HostCall::<H>::ApplyActivationContext {
                meta: *meta,
            }),
        ),
{
}

/// One call of `record_patch` is made to the host, with these arguments, and recorded as such.
pub proof fn law_record_patch_is_recorded<'h, H: WorkflowHost>(
    host: &mut RecordedHost<'h, H>,
    patch_id: String,
)
    requires
        call_ensures(RecordedHost::<'h, H>::record_patch, (host, patch_id), ()),
    ensures
        call_ensures(H::record_patch, (&old(host).host(), patch_id), ()),
        final(host).host() == old(host).host(),
        final(host).log() == old(host).log().push(
            (HostCall::<H>::RecordPatch {
                patch_id: patch_id,
            }),
        ),
{
}

/// One call of `notify_cancel` is made to the host, with these arguments, and recorded as such.
pub proof fn law_notify_cancel_is_recorded<'h, H: WorkflowHost>(
    host: &mut RecordedHost<'h, H>,
    reason: String,
)
    requires
        call_ensures(RecordedHost::<'h, H>::notify_cancel, (host, reason), ()),
    ensures
        call_ensures(H::notify_cancel, (&old(host).host(), reason), ()),
        final(host).host() == old(host).host(),
        final(host).log() == old(host).log().push(
            (HostCall::<H>::NotifyCancel {
                reason: reason,
            }),
        ),
{
}

/// One call of `unblock` is made to the host, with these arguments, and recorded as such.
pub proof fn law_unblock_is_recorded<'h, H: WorkflowHost>(
    host: &mut RecordedHost<'h, H>,
    event: UnblockEvent<H::Resolved>,
)
    requires
        call_ensures(RecordedHost::<'h, H>::unblock, (host, event), ()),
    ensures
        call_ensures(H::unblock, (&old(host).host(), event), ()),
        final(host).host() == old(host).host(),
        final(host).log() == old(host).log().push(
            (HostCall::<H>::Unblock {
                event: event,
            }),
        ),
{
}

/// One call of `is_replaying` is made to the host, with these arguments, and recorded as such.
pub proof fn law_is_replaying_is_recorded<'h, H: WorkflowHost>(
    host: &mut RecordedHost<'h, H>,
    res: bool,
)
    requires
        call_ensures(RecordedHost::<'h, H>::is_replaying, (host,), res),
    ensures
        call_ensures(H::is_replaying, (&old(host).host(),), res),
        final(host).host() == old(host).host(),
        final(host).log() == old(host).log().push(
            (HostCall::<H>::IsReplaying {
                replaying: res,
            }),
        ),
{
}

/// One call of `workflow_interceptor_context` is made to the host, with these arguments, and recorded as such.
pub proof fn law_workflow_interceptor_context_is_recorded<'h, H: WorkflowHost>(
    host: &mut RecordedHost<'h, H>,
    is_replaying: bool,
    res: WorkflowInterceptorContext<H::View>,
)
    requires
        call_ensures(RecordedHost::<'h, H>::workflow_interceptor_context, (host, is_replaying), res),
    ensures
        call_ensures(H::workflow_interceptor_context, (&old(host).host(), is_replaying), res),
        final(host).host() == old(host).host(),
        final(host).log() == old(host).log().push(
            (HostCall::<H>::InterceptorContext {
                replaying: is_replaying,
                context: res,
            }),
        ),
{
}

/// One call of `update_definitions` is made to the host, with these arguments, and recorded as such.
pub proof fn law_update_definitions_is_recorded<'h, H: WorkflowHost>(
    host: &mut RecordedHost<'h, H>,
    res: Vec<UpdateDefinition>,
)
    requires
        call_ensures(RecordedHost::<'h, H>::update_definitions, (host,), res),
    ensures
        call_ensures(H::update_definitions, (&old(host).host(),), res),
        final(host).host() == old(host).host(),
        final(host).log() == old(host).log().push(
            (HostCall::<H>::UpdateDefinitions {
                definitions: res,
            }),
        ),
{
}

/// One call of `decode_signal_input` is made to the host, with these arguments, and recorded as such.
pub proof fn law_decode_signal_input_is_recorded<'h, H: WorkflowHost>(
    host: &mut RecordedHost<'h, H>,
    name: &String,
    payloads: Vec<H::Payload>,
    res: Result<Option<H::Args>, H::Error>,
)
    requires
        call_ensures(RecordedHost::<'h, H>::decode_signal_input, (host, name, payloads), res),
    ensures
        call_ensures(H::decode_signal_input, (&old(host).host(), name, payloads), res),
        final(host).host() == old(host).host(),
        final(host).log() == old(host).log().push(
            (HostCall::<H>::DecodeSignal {
                name: *name,
                payloads: payloads,
                decoded: res,
            }),
        ),
{
}

/// One call of `handle_signal` is made to the host, with these arguments, and recorded as such.
pub proof fn law_handle_signal_is_recorded<'h, H: WorkflowHost>(
    host: &mut RecordedHost<'h, H>,
    ctx: &H::Ctx,
    input: HandleSignalInput<H::Args, H::Payload, H::View>,
    res: H::SignalFuture,
)
    requires
        call_ensures(RecordedHost::<'h, H>::handle_signal, (host, ctx, input), res),
    ensures
        call_ensures(H::handle_signal, (&old(host).host(), ctx, input), res),
        final(host).host() == old(host).host(),
        final(host).log() == old(host).log().push(
            (HostCall::<H>::HandleSignal {
                ctx: *ctx,
                signal: input,
                future: res,
            }),
        ),
{
}

/// One call of `decode_update_input` is made to the host, with these arguments, and recorded as such.
pub proof fn law_decode_update_input_is_recorded<'h, H: WorkflowHost>(
    host: &mut RecordedHost<'h, H>,
    name: &String,
    payloads: &Vec<H::Payload>,
    res: Result<Option<H::Args>, H::Error>,
)
    requires
        call_ensures(RecordedHost::<'h, H>::decode_update_input, (host, name, payloads), res),
    ensures
        call_ensures(H::decode_update_input, (&old(host).host(), name, payloads), res),
        final(host).host() == old(host).host(),
        final(host).log() == old(host).log().push(
            (HostCall::<H>::DecodeUpdate {
                name: *name,
                payloads: *payloads,
                decoded: res,
            }),
        ),
{
}

/// One call of `validate_update` is made to the host, with these arguments, and recorded as such.
pub proof fn law_validate_update_is_recorded<'h, H: WorkflowHost>(
    host: &mut RecordedHost<'h, H>,
    ctx: &H::Ctx,
    input: ValidateUpdateInput<H::Args, H::Payload, H::View>,
    res: Option<Result<(), H::Error>>,
)
    requires
        call_ensures(RecordedHost::<'h, H>::validate_update, (host, ctx, input), res),
    ensures
        call_ensures(H::validate_update, (&old(host).host(), ctx, input), res),
        final(host).host() == old(host).host(),
        final(host).log() == old(host).log().push(
            (HostCall::<H>::ValidateUpdate {
                ctx: *ctx,
                validation: input,
                verdict: res,
            }),
        ),
{
}

/// One call of `handle_update` is made to the host, with these arguments, and recorded as such.
pub proof fn law_handle_update_is_recorded<'h, H: WorkflowHost>(
    host: &mut RecordedHost<'h, H>,
    ctx: &H::Ctx,
    input: HandleUpdateInput<H::Args, H::Payload, H::View>,
    res: Option<H::UpdateFuture>,
)
    requires
        call_ensures(RecordedHost::<'h, H>::handle_update, (host, ctx, input), res),
    ensures
        call_ensures(H::handle_update, (&old(host).host(), ctx, input), res),
        final(host).host() == old(host).host(),
        final(host).log() == old(host).log().push(
            (HostCall::<H>::HandleUpdate {
                ctx: *ctx,
                update: input,
                handled: res,
            }),
        ),
{
}

/// One call of `query_metadata` is made to the host, with these arguments, and recorded as such.
pub proof fn law_query_metadata_is_recorded<'h, H: WorkflowHost>(
    host: &mut RecordedHost<'h, H>,
    res: Result<H::Payload, String>,
)
    requires
        call_ensures(RecordedHost::<'h, H>::query_metadata, (host,), res),
    ensures
        call_ensures(H::query_metadata, (&old(host).host(),), res),
        final(host).host() == old(host).host(),
        final(host).log() == old(host).log().push(
            (HostCall::<H>::QueryMetadata {
                metadata: res,
            }),
        ),
{
}

/// One call of `decode_query_input` is made to the host, with these arguments, and recorded as such.
pub proof fn law_decode_query_input_is_recorded<'h, H: WorkflowHost>(
    host: &mut RecordedHost<'h, H>,
    name: &String,
    payloads: &Vec<H::Payload>,
    res: Result<Option<H::Args>, H::Error>,
)
    requires
        call_ensures(RecordedHost::<'h, H>::decode_query_input, (host, name, payloads), res),
    ensures
        call_ensures(H::decode_query_input, (&old(host).host(), name, payloads), res),
        final(host).host() == old(host).host(),
        final(host).log() == old(host).log().push(
            (HostCall::<H>::DecodeQuery {
                name: *name,
                payloads: *payloads,
                decoded: res,
            }),
        ),
{
}

/// One call of `handle_query` is made to the host, with these arguments, and recorded as such.
pub proof fn law_handle_query_is_recorded<'h, H: WorkflowHost>(
    host: &mut RecordedHost<'h, H>,
    ctx: &H::Ctx,
    input: HandleQueryInput<H::Args, H::Payload, H::View>,
    res: Result<H::Payload, H::Error>,
)
    requires
        call_ensures(RecordedHost::<'h, H>::handle_query, (host, ctx, input), res),
    ensures
        call_ensures(H::handle_query, (&old(host).host(), ctx, input), res),
        final(host).host() == old(host).host(),
        final(host).log() == old(host).log().push(
            (HostCall::<H>::HandleQuery {
                ctx: *ctx,
                query: input,
                answer: res,
            }),
        ),
{
}

} // verus!
