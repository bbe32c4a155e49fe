//! A workflow as its instance sees it, and the calls that are made to it.

use super::model::{UnblockEvent, UpdateDefinition};
use crate::interceptors::types::{
    HandleQueryInput, HandleSignalInput, HandleUpdateInput, ValidateUpdateInput,
    WorkflowInterceptorContext,
};
use vstd::prelude::*;

verus! {

/// A workflow as its instance sees it: what its definition generates, and the side of its context
/// that faces the core. Handlers and validators run within the interceptor chain.
///
/// Nothing is promised of what a method gives; contracts name it by the call that gave it.
pub trait WorkflowHost {
    /// A payload.
    type Payload: Clone;

    /// Decoded arguments.
    type Args;

    /// Read-only view of the workflow.
    type View;

    /// An error of the workflow.
    type Error;

    /// The context that handlers run with.
    type Ctx;

    /// Runs a signal handler.
    type SignalFuture;

    /// Runs an update handler.
    type UpdateFuture;

    /// What something that the workflow waits for was resolved with.
    type Resolved;

    /// What an activation says beside its jobs.
    type Meta;

    /// Takes over what an activation says beside its jobs.
    fn apply_activation_context(&self, meta: &Self::Meta);

    /// Records that a patch is present.
    fn record_patch(&self, patch_id: String);

    /// Tells the workflow that it is cancelled.
    fn notify_cancel(&self, reason: String);

    /// Unblocks what waits for the event.
    fn unblock(&self, event: UnblockEvent<Self::Resolved>);

    /// Whether history is being replayed.
    fn is_replaying(&self) -> (res: bool);

    /// The context that interceptors get.
    fn workflow_interceptor_context(&self, is_replaying: bool) -> (res: WorkflowInterceptorContext<
        Self::View,
    >);

    /// The update handlers that the workflow defines.
    fn update_definitions(&self) -> (res: Vec<UpdateDefinition>);

    /// Decodes the arguments of a signal: `None` without a handler.
    fn decode_signal_input(&self, name: &String, payloads: Vec<Self::Payload>) -> (res: Result<
        Option<Self::Args>,
        Self::Error,
    >);

    /// Runs the handler of a signal.
    fn handle_signal(
        &self,
        ctx: &Self::Ctx,
        input: HandleSignalInput<Self::Args, Self::Payload, Self::View>,
    ) -> (res: Self::SignalFuture);

    /// Decodes the arguments of an update: `None` without a handler.
    fn decode_update_input(&self, name: &String, payloads: &Vec<Self::Payload>) -> (res: Result<
        Option<Self::Args>,
        Self::Error,
    >);

    /// Runs the validator of an update: `None` without one.
    fn validate_update(
        &self,
        ctx: &Self::Ctx,
        input: ValidateUpdateInput<Self::Args, Self::Payload, Self::View>,
    ) -> (res: Option<Result<(), Self::Error>>);

    /// Runs the handler of an update: `None` without one.
    fn handle_update(
        &self,
        ctx: &Self::Ctx,
        input: HandleUpdateInput<Self::Args, Self::Payload, Self::View>,
    ) -> (res: Option<Self::UpdateFuture>);

    /// The metadata of the workflow, or the text of an error.
    fn query_metadata(&self) -> (res: Result<Self::Payload, String>);

    /// Decodes the arguments of a query: `None` without a handler.
    fn decode_query_input(&self, name: &String, payloads: &Vec<Self::Payload>) -> (res: Result<
        Option<Self::Args>,
        Self::Error,
    >);

    /// Runs the handler of a query.
    fn handle_query(
        &self,
        ctx: &Self::Ctx,
        input: HandleQueryInput<Self::Args, Self::Payload, Self::View>,
    ) -> (res: Result<Self::Payload, Self::Error>);
}

/// A call of a method of [`WorkflowHost`]: what it was given, and what it gave.
pub enum HostCall<H: WorkflowHost> {
    ApplyActivationContext { meta: H::Meta },
    RecordPatch { patch_id: String },
    NotifyCancel { reason: String },
    Unblock { event: UnblockEvent<H::Resolved> },
    IsReplaying { replaying: bool },
    InterceptorContext { replaying: bool, context: WorkflowInterceptorContext<H::View> },
    UpdateDefinitions { definitions: Vec<UpdateDefinition> },
    DecodeSignal {
        name: String,
        payloads: Vec<H::Payload>,
        decoded: Result<Option<H::Args>, H::Error>,
    },
    HandleSignal {
        ctx: H::Ctx,
        signal: HandleSignalInput<H::Args, H::Payload, H::View>,
        future: H::SignalFuture,
    },
    DecodeUpdate {
        name: String,
        payloads: Vec<H::Payload>,
        decoded: Result<Option<H::Args>, H::Error>,
    },
    ValidateUpdate {
        ctx: H::Ctx,
        validation: ValidateUpdateInput<H::Args, H::Payload, H::View>,
        verdict: Option<Result<(), H::Error>>,
    },
    HandleUpdate {
        ctx: H::Ctx,
        update: HandleUpdateInput<H::Args, H::Payload, H::View>,
        handled: Option<H::UpdateFuture>,
    },
    QueryMetadata { metadata: Result<H::Payload, String> },
    DecodeQuery {
        name: String,
        payloads: Vec<H::Payload>,
        decoded: Result<Option<H::Args>, H::Error>,
    },
    HandleQuery {
        ctx: H::Ctx,
        query: HandleQueryInput<H::Args, H::Payload, H::View>,
        answer: Result<H::Payload, H::Error>,
    },
}

impl<H: WorkflowHost> HostCall<H> {
    /// The host can give what the call gave.
    pub open spec fn is_by(self, host: H) -> bool {
        match self {
            HostCall::ApplyActivationContext { meta } => call_ensures(
                H::apply_activation_context,
                (&host, &meta),
                (),
            ),
            HostCall::RecordPatch { patch_id } => call_ensures(
                H::record_patch,
                (&host, patch_id),
                (),
            ),
            HostCall::NotifyCancel { reason } => call_ensures(
                H::notify_cancel,
                (&host, reason),
                (),
            ),
            HostCall::Unblock { event } => call_ensures(H::unblock, (&host, event), ()),
            HostCall::IsReplaying { replaying } => call_ensures(
                H::is_replaying,
                (&host,),
                replaying,
            ),
            HostCall::InterceptorContext { replaying, context } => call_ensures(
                H::workflow_interceptor_context,
                (&host, replaying),
                context,
            ),
            HostCall::UpdateDefinitions { definitions } => call_ensures(
                H::update_definitions,
                (&host,),
                definitions,
            ),
            HostCall::DecodeSignal { name, payloads, decoded } => call_ensures(
                H::decode_signal_input,
                (&host, &name, payloads),
                decoded,
            ),
            HostCall::HandleSignal { ctx, signal, future } => call_ensures(
                H::handle_signal,
                (&host, &ctx, signal),
                future,
            ),
            HostCall::DecodeUpdate { name, payloads, decoded } => call_ensures(
                H::decode_update_input,
                (&host, &name, &payloads),
                decoded,
            ),
            HostCall::ValidateUpdate { ctx, validation, verdict } => call_ensures(
                H::validate_update,
                (&host, &ctx, validation),
                verdict,
            ),
            HostCall::HandleUpdate { ctx, update, handled } => call_ensures(
                H::handle_update,
                (&host, &ctx, update),
                handled,
            ),
            HostCall::QueryMetadata { metadata } => call_ensures(
                H::query_metadata,
                (&host,),
                metadata,
            ),
            HostCall::DecodeQuery { name, payloads, decoded } => call_ensures(
                H::decode_query_input,
                (&host, &name, &payloads),
                decoded,
            ),
            HostCall::HandleQuery { ctx, query, answer } => call_ensures(
                H::handle_query,
                (&host, &ctx, query),
                answer,
            ),
        }
    }
}

/// A workflow together with the calls that were made to it. Its methods are the only way to it, so
/// that no call is missing.
pub struct RecordedHost<'h, H: WorkflowHost> {
    host: &'h H,
    calls: Ghost<Seq<HostCall<H>>>,
}

impl<'h, H: WorkflowHost> RecordedHost<'h, H> {
    /// The workflow.
    pub closed spec fn host(&self) -> H {
        *self.host
    }

    /// The calls that were made, in order.
    pub closed spec fn log(&self) -> Seq<HostCall<H>> {
        self.calls@
    }

    /// The calls that were made since then.
    pub open spec fn since(&self, before: Self) -> Seq<HostCall<H>> {
        self.log().skip(before.log().len() as int)
    }

    /// The host is the same as before, and calls were added to its log.
    pub open spec fn continues(&self, before: Self) -> bool {
        &&& self.host() == before.host()
        &&& before.log().len() <= self.log().len()
        &&& forall|i: int|
            0 <= i < before.log().len() ==> (#[trigger] self.log()[i]) == before.log()[i]
        &&& forall|i: int|
            before.log().len() <= i < self.log().len() ==> (#[trigger] self.log()[i]).is_by(
                self.host(),
            )
    }

    /// This one call was added to the log.
    pub open spec fn called(&self, before: Self, call: HostCall<H>) -> bool {
        &&& self.host() == before.host()
        &&& self.log() == before.log().push(call)
        &&& call.is_by(self.host())
    }

    /// A host to which no calls were made.
    pub fn new(host: &'h H) -> (res: Self)
        ensures
            res.host() == *host,
            res.log().len() == 0,
    {
        RecordedHost { host, calls: Ghost(Seq::empty()) }
    }

    /// Calls [`WorkflowHost::apply_activation_context`].
    pub fn apply_activation_context(&mut self, meta: &H::Meta)
        ensures
            final(self).called(*old(self), (HostCall::ApplyActivationContext { meta: *meta })),
    {
        self.host.apply_activation_context(meta);
        self.calls = Ghost(self.calls@.push(HostCall::ApplyActivationContext { meta: *meta }));
    }

    /// Calls [`WorkflowHost::record_patch`].
    pub fn record_patch(&mut self, patch_id: String)
        ensures
            final(self).called(*old(self), (HostCall::RecordPatch { patch_id })),
    {
        self.host.record_patch(patch_id);
        self.calls = Ghost(self.calls@.push(HostCall::RecordPatch { patch_id }));
    }

    /// Calls [`WorkflowHost::notify_cancel`].
    pub fn notify_cancel(&mut self, reason: String)
        ensures
            final(self).called(*old(self), (HostCall::NotifyCancel { reason })),
    {
        self.host.notify_cancel(reason);
        self.calls = Ghost(self.calls@.push(HostCall::NotifyCancel { reason }));
    }

    /// Calls [`WorkflowHost::unblock`].
    pub fn unblock(&mut self, event: UnblockEvent<H::Resolved>)
        ensures
            final(self).called(*old(self), (HostCall::Unblock { event })),
    {
        self.host.unblock(event);
        self.calls = Ghost(self.calls@.push(HostCall::Unblock { event }));
    }

    /// Calls [`WorkflowHost::is_replaying`].
    pub fn is_replaying(&mut self) -> (res: bool)
        ensures
            final(self).called(*old(self), (HostCall::IsReplaying { replaying: res })),
    {
        let res = self.host.is_replaying();
        self.calls = Ghost(self.calls@.push(HostCall::IsReplaying { replaying: res }));
        res
    }

    /// Calls [`WorkflowHost::workflow_interceptor_context`].
    pub fn workflow_interceptor_context(
        &mut self,
        is_replaying: bool,
    ) -> (res: WorkflowInterceptorContext<H::View>)
        ensures
            final(self).called(
                *old(self),
                (HostCall::InterceptorContext {
                    replaying: is_replaying,
                    context: res,
                }),
            ),
    {
        let res = self.host.workflow_interceptor_context(is_replaying);
        self.calls = Ghost(
            self.calls@.push(
                HostCall::InterceptorContext {
                    replaying: is_replaying,
                    context: res,
                },
            ),
        );
        res
    }

    /// Calls [`WorkflowHost::update_definitions`].
    pub fn update_definitions(&mut self) -> (res: Vec<UpdateDefinition>)
        ensures
            final(self).called(*old(self), (HostCall::UpdateDefinitions { definitions: res })),
    {
        let res = self.host.update_definitions();
        self.calls = Ghost(self.calls@.push(HostCall::UpdateDefinitions { definitions: res }));
        res
    }

    /// Calls [`WorkflowHost::decode_signal_input`].
    pub fn decode_signal_input(
        &mut self,
        name: &String,
        payloads: Vec<H::Payload>,
    ) -> (res: Result<Option<H::Args>, H::Error>)
        ensures
            final(self).called(
                *old(self),
                (HostCall::DecodeSignal {
                    name: *name,
                    payloads,
                    decoded: res,
                }),
            ),
    {
        let res = self.host.decode_signal_input(name, payloads);
        self.calls = Ghost(
            self.calls@.push(
                HostCall::DecodeSignal {
                    name: *name,
                    payloads,
                    decoded: res,
                },
            ),
        );
        res
    }

    /// Calls [`WorkflowHost::handle_signal`].
    pub fn handle_signal(
        &mut self,
        ctx: &H::Ctx,
        input: HandleSignalInput<H::Args, H::Payload, H::View>,
    ) -> (res: H::SignalFuture)
        ensures
            final(self).called(
                *old(self),
                (HostCall::HandleSignal {
                    ctx: *ctx,
                    signal: input,
                    future: res,
                }),
            ),
    {
        let res = self.host.handle_signal(ctx, input);
        self.calls = Ghost(
            self.calls@.push(
                HostCall::HandleSignal {
                    ctx: *ctx,
                    signal: input,
                    future: res,
                },
            ),
        );
        res
    }

    /// Calls [`WorkflowHost::decode_update_input`].
    pub fn decode_update_input(
        &mut self,
        name: &String,
        payloads: &Vec<H::Payload>,
    ) -> (res: Result<Option<H::Args>, H::Error>)
        ensures
            final(self).called(
                *old(self),
                (HostCall::DecodeUpdate {
                    name: *name,
                    payloads: *payloads,
                    decoded: res,
                }),
            ),
    {
        let res = self.host.decode_update_input(name, payloads);
        self.calls = Ghost(
            self.calls@.push(
                HostCall::DecodeUpdate {
                    name: *name,
                    payloads: *payloads,
                    decoded: res,
                },
            ),
        );
        res
    }

    /// Calls [`WorkflowHost::validate_update`].
    pub fn validate_update(
        &mut self,
        ctx: &H::Ctx,
        input: ValidateUpdateInput<H::Args, H::Payload, H::View>,
    ) -> (res: Option<Result<(), H::Error>>)
        ensures
            final(self).called(
                *old(self),
                (HostCall::ValidateUpdate {
                    ctx: *ctx,
                    validation: input,
                    verdict: res,
                }),
            ),
    {
        let res = self.host.validate_update(ctx, input);
        self.calls = Ghost(
            self.calls@.push(
                HostCall::ValidateUpdate {
                    ctx: *ctx,
                    validation: input,
                    verdict: res,
                },
            ),
        );
        res
    }

    /// Calls [`WorkflowHost::handle_update`].
    pub fn handle_update(
        &mut self,
        ctx: &H::Ctx,
        input: HandleUpdateInput<H::Args, H::Payload, H::View>,
    ) -> (res: Option<H::UpdateFuture>)
        ensures
            final(self).called(
                *old(self),
                (HostCall::HandleUpdate {
                    ctx: *ctx,
                    update: input,
                    handled: res,
                }),
            ),
    {
        let res = self.host.handle_update(ctx, input);
        self.calls = Ghost(
            self.calls@.push(
                HostCall::HandleUpdate {
                    ctx: *ctx,
                    update: input,
                    handled: res,
                },
            ),
        );
        res
    }

    /// Calls [`WorkflowHost::query_metadata`].
    pub fn query_metadata(&mut self) -> (res: Result<H::Payload, String>)
        ensures
            final(self).called(*old(self), (HostCall::QueryMetadata { metadata: res })),
    {
        let res = self.host.query_metadata();
        self.calls = Ghost(self.calls@.push(HostCall::QueryMetadata { metadata: res }));
        res
    }

    /// Calls [`WorkflowHost::decode_query_input`].
    pub fn decode_query_input(
        &mut self,
        name: &String,
        payloads: &Vec<H::Payload>,
    ) -> (res: Result<Option<H::Args>, H::Error>)
        ensures
            final(self).called(
                *old(self),
                (HostCall::DecodeQuery {
                    name: *name,
                    payloads: *payloads,
                    decoded: res,
                }),
            ),
    {
        let res = self.host.decode_query_input(name, payloads);
        self.calls = Ghost(
            self.calls@.push(
                HostCall::DecodeQuery {
                    name: *name,
                    payloads: *payloads,
                    decoded: res,
                },
            ),
        );
        res
    }

    /// Calls [`WorkflowHost::handle_query`].
    pub fn handle_query(
        &mut self,
        ctx: &H::Ctx,
        input: HandleQueryInput<H::Args, H::Payload, H::View>,
    ) -> (res: Result<H::Payload, H::Error>)
        ensures
            final(self).called(
                *old(self),
                (HostCall::HandleQuery {
                    ctx: *ctx,
                    query: input,
                    answer: res,
                }),
            ),
    {
        let res = self.host.handle_query(ctx, input);
        self.calls = Ghost(
            self.calls@.push(
                HostCall::HandleQuery {
                    ctx: *ctx,
                    query: input,
                    answer: res,
                },
            ),
        );
        res
    }
}

} // verus!
