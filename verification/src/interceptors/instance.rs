//! The interceptors of one workflow instance.

use super::chain::{call_chain, chain, operation, Interceptor, Next, NoopInterceptor};
use super::types::{
    ExecuteInput, HandleQueryInput, HandleSignalInput, HandleUpdateInput, ScheduleActivityInput,
    ScheduleLocalActivityInput, SignalWorkflowInput, SleepInput, StartChildWorkflowExecutionInput,
    ValidateUpdateInput,
};
use vstd::prelude::*;

verus! {

/// Inbound and outbound interceptors that one factory makes for a workflow instance.
#[derive(Debug)]
pub struct WorkflowInterceptors<B, U> {
    /// Inbound workflow interceptor.
    pub inbound: B,
    /// Outbound workflow interceptor.
    pub outbound: U,
}

impl Default for WorkflowInterceptors<NoopInterceptor, NoopInterceptor> {
    fn default() -> (res: Self)
        ensures
            res == (WorkflowInterceptors { inbound: NoopInterceptor, outbound: NoopInterceptor }),
    {
        WorkflowInterceptors { inbound: NoopInterceptor, outbound: NoopInterceptor }
    }
}

/// All interceptors of one workflow instance.
#[derive(Debug)]
pub struct WorkflowInterceptorInstance<B, U> {
    inbound: Vec<B>,
    outbound: Vec<U>,
}

impl<B, U> WorkflowInterceptorInstance<B, U> {
    /// The inbound interceptors, outermost first.
    pub closed spec fn inbound(&self) -> Seq<B> {
        self.inbound@
    }

    /// The outbound interceptors, outermost first.
    pub closed spec fn outbound(&self) -> Seq<U> {
        self.outbound@
    }

    /// Collects what the factories made, in their order.
    pub fn new(interceptors: Vec<WorkflowInterceptors<B, U>>) -> (res: Self)
        ensures
            res.inbound() == interceptors@.map_values(|i: WorkflowInterceptors<B, U>| i.inbound),
            res.outbound() == interceptors@.map_values(|i: WorkflowInterceptors<B, U>| i.outbound),
    {
        let mut inbound: Vec<B> = Vec::new();
        let mut outbound: Vec<U> = Vec::new();
        for interceptor in it: interceptors
            invariant
                it.seq() == interceptors@,
                inbound@.len() == it.index(),
                outbound@.len() == it.index(),
                forall|i: int|
                    0 <= i < it.index() ==> inbound@[i] == (#[trigger] interceptors@[i]).inbound
                        && outbound@[i] == interceptors@[i].outbound,
        {
            inbound.push(interceptor.inbound);
            outbound.push(interceptor.outbound);
        }
        proof {
            assert(inbound@ =~= interceptors@.map_values(
                |i: WorkflowInterceptors<B, U>| i.inbound,
            ));
            assert(outbound@ =~= interceptors@.map_values(
                |i: WorkflowInterceptors<B, U>| i.outbound,
            ));
        }
        WorkflowInterceptorInstance { inbound, outbound }
    }

    /// Executes a workflow within the chain.
    pub fn execute<A, P, V, O, F: FnOnce(ExecuteInput<A, P, V>) -> O>(
        &self,
        input: ExecuteInput<A, P, V>,
        next: F,
    ) -> (output: O) where B: Interceptor<ExecuteInput<A, P, V>, O>
        requires
            forall|i: ExecuteInput<A, P, V>| #[trigger] call_requires(next, (i,)),
        ensures
            chain(self.inbound(), operation(next))(input, output),
    {
        call_chain(self.inbound.as_slice(), input, Next::new(next))
    }

    /// Handles a signal within the chain.
    pub fn handle_signal<A, P, V, O, F: FnOnce(HandleSignalInput<A, P, V>) -> O>(
        &self,
        input: HandleSignalInput<A, P, V>,
        next: F,
    ) -> (output: O) where B: Interceptor<HandleSignalInput<A, P, V>, O>
        requires
            forall|i: HandleSignalInput<A, P, V>| #[trigger] call_requires(next, (i,)),
        ensures
            chain(self.inbound(), operation(next))(input, output),
    {
        call_chain(self.inbound.as_slice(), input, Next::new(next))
    }

    /// Handles a query within the chain.
    pub fn handle_query<A, P, V, O, F: FnOnce(HandleQueryInput<A, P, V>) -> O>(
        &self,
        input: HandleQueryInput<A, P, V>,
        next: F,
    ) -> (output: O) where B: Interceptor<HandleQueryInput<A, P, V>, O>
        requires
            forall|i: HandleQueryInput<A, P, V>| #[trigger] call_requires(next, (i,)),
        ensures
            chain(self.inbound(), operation(next))(input, output),
    {
        call_chain(self.inbound.as_slice(), input, Next::new(next))
    }

    /// Validates an update within the chain.
    pub fn validate_update<A, P, V, O, F: FnOnce(ValidateUpdateInput<A, P, V>) -> O>(
        &self,
        input: ValidateUpdateInput<A, P, V>,
        next: F,
    ) -> (output: O) where B: Interceptor<ValidateUpdateInput<A, P, V>, O>
        requires
            forall|i: ValidateUpdateInput<A, P, V>| #[trigger] call_requires(next, (i,)),
        ensures
            chain(self.inbound(), operation(next))(input, output),
    {
        call_chain(self.inbound.as_slice(), input, Next::new(next))
    }

    /// Handles an update within the chain.
    pub fn handle_update<A, P, V, O, F: FnOnce(HandleUpdateInput<A, P, V>) -> O>(
        &self,
        input: HandleUpdateInput<A, P, V>,
        next: F,
    ) -> (output: O) where B: Interceptor<HandleUpdateInput<A, P, V>, O>
        requires
            forall|i: HandleUpdateInput<A, P, V>| #[trigger] call_requires(next, (i,)),
        ensures
            chain(self.inbound(), operation(next))(input, output),
    {
        call_chain(self.inbound.as_slice(), input, Next::new(next))
    }

    /// Starts a timer within the chain.
    pub fn sleep<V, O, F: FnOnce(SleepInput<V>) -> O>(
        &self,
        input: SleepInput<V>,
        next: F,
    ) -> (output: O) where U: Interceptor<SleepInput<V>, O>
        requires
            forall|i: SleepInput<V>| #[trigger] call_requires(next, (i,)),
        ensures
            chain(self.outbound(), operation(next))(input, output),
    {
        call_chain(self.outbound.as_slice(), input, Next::new(next))
    }

    /// Schedules an activity within the chain.
    pub fn schedule_activity<A, X, V, O, F: FnOnce(ScheduleActivityInput<A, X, V>) -> O>(
        &self,
        input: ScheduleActivityInput<A, X, V>,
        next: F,
    ) -> (output: O) where U: Interceptor<ScheduleActivityInput<A, X, V>, O>
        requires
            forall|i: ScheduleActivityInput<A, X, V>| #[trigger] call_requires(next, (i,)),
        ensures
            chain(self.outbound(), operation(next))(input, output),
    {
        call_chain(self.outbound.as_slice(), input, Next::new(next))
    }

    /// Schedules a local activity within the chain.
    pub fn schedule_local_activity<A, X, V, O, F: FnOnce(ScheduleLocalActivityInput<A, X, V>) -> O>(
        &self,
        input: ScheduleLocalActivityInput<A, X, V>,
        next: F,
    ) -> (output: O) where U: Interceptor<ScheduleLocalActivityInput<A, X, V>, O>
        requires
            forall|i: ScheduleLocalActivityInput<A, X, V>| #[trigger] call_requires(next, (i,)),
        ensures
            chain(self.outbound(), operation(next))(input, output),
    {
        call_chain(self.outbound.as_slice(), input, Next::new(next))
    }

    /// Signals a workflow within the chain.
    pub fn signal_workflow<A, P, V, O, F: FnOnce(SignalWorkflowInput<A, P, V>) -> O>(
        &self,
        input: SignalWorkflowInput<A, P, V>,
        next: F,
    ) -> (output: O) where U: Interceptor<SignalWorkflowInput<A, P, V>, O>
        requires
            forall|i: SignalWorkflowInput<A, P, V>| #[trigger] call_requires(next, (i,)),
        ensures
            chain(self.outbound(), operation(next))(input, output),
    {
        call_chain(self.outbound.as_slice(), input, Next::new(next))
    }

    /// Starts a child workflow within the chain.
    pub fn start_child_workflow_execution<A, X, V, O, F: FnOnce(StartChildWorkflowExecutionInput<A, X, V>) -> O>(
        &self,
        input: StartChildWorkflowExecutionInput<A, X, V>,
        next: F,
    ) -> (output: O) where U: Interceptor<StartChildWorkflowExecutionInput<A, X, V>, O>
        requires
            forall|i: StartChildWorkflowExecutionInput<A, X, V>| #[trigger] call_requires(next, (i,)),
        ensures
            chain(self.outbound(), operation(next))(input, output),
    {
        call_chain(self.outbound.as_slice(), input, Next::new(next))
    }
}

} // verus!
