//! Inputs of interceptor operations.
//!
//! Arguments are carried in the form `A` that the caller erases them to, headers hold payloads `P`,
//! and `V` is the read-only view of the workflow.

use std::collections::HashMap;
use std::time::Duration;
use vstd::prelude::*;

verus! {

/// Read-only context passed to workflow interceptors.
#[derive(Debug)]
#[non_exhaustive]
pub struct WorkflowInterceptorContext<V> {
    /// Read-only workflow metadata.
    pub workflow: V,
    /// Operation-specific metadata.
    pub operation: WorkflowOperationContext,
}

impl<V> WorkflowInterceptorContext<V> {
    /// The context of an operation.
    pub fn new(workflow: V, operation: WorkflowOperationContext) -> (res: Self)
        ensures
            res == (WorkflowInterceptorContext { workflow, operation }),
    {
        WorkflowInterceptorContext { workflow, operation }
    }
}

/// Operation-specific workflow interceptor context.
#[derive(Clone, Copy, Debug, PartialEq, Eq, Structural)]
#[non_exhaustive]
pub struct WorkflowOperationContext {
    /// Raw replay state for the current activation or task.
    pub is_replaying: bool,
    /// Whether this operation is being executed only to replay history events.
    pub is_replaying_history_events: bool,
}

impl WorkflowOperationContext {
    /// The context of an operation.
    pub fn new(is_replaying: bool, is_replaying_history_events: bool) -> (res: Self)
        ensures
            res == (WorkflowOperationContext { is_replaying, is_replaying_history_events }),
    {
        WorkflowOperationContext { is_replaying, is_replaying_history_events }
    }
}

/// Input for workflow execution interception.
#[derive(Debug)]
#[non_exhaustive]
pub struct ExecuteInput<A, P, V> {
    pub workflow_type: String,
    pub args: A,
    pub headers: HashMap<String, P>,
    pub context: WorkflowInterceptorContext<V>,
}

impl<A, P, V> ExecuteInput<A, P, V> {
    /// The input of one operation.
    pub fn new(
        workflow_type: String,
        args: A,
        headers: HashMap<String, P>,
        context: WorkflowInterceptorContext<V>,
    ) -> (res: Self)
        ensures
            res == (ExecuteInput { workflow_type, args, headers, context }),
    {
        ExecuteInput { workflow_type, args, headers, context }
    }

    /// Workflow type being executed.
    pub fn workflow_type(&self) -> (res: &str)
        ensures
            res@ == self.workflow_type@,
    {
        self.workflow_type.as_str()
    }

    /// Read-only workflow interceptor context.
    pub fn context(&self) -> (res: &WorkflowInterceptorContext<V>)
        ensures
            *res == self.context,
    {
        &self.context
    }

    /// The arguments as their concrete type. `downcast` turns the arguments into that type or gives
    /// them back; if it does, the input comes back as it was.
    pub fn into_args<T, D: FnOnce(A) -> Result<T, A>>(self, downcast: D) -> (res: Result<
        T,
        Box<Self>,
    >)
        requires
            call_requires(downcast, (self.args,)),
        ensures
            match res {
                Ok(args) => call_ensures(downcast, (self.args,), Ok(args)),
                Err(input) => call_ensures(downcast, (self.args,), Err(input.args)) && *input == (
                ExecuteInput { args: input.args, ..self }),
            },
    {
        let ExecuteInput { workflow_type, args, headers, context } = self;
        match downcast(args) {
            Ok(args) => Ok(args),
            Err(args) => Err(Box::new(ExecuteInput { workflow_type, args, headers, context })),
        }
    }

    /// The arguments.
    pub fn args_ref(&self) -> (res: &A)
        ensures
            *res == self.args,
    {
        &self.args
    }

    /// Mutable access to the arguments.
    pub fn args_mut(&mut self) -> (res: &mut A)
        ensures
            *res == old(self).args,
            *final(self) == (ExecuteInput { args: *final(res), ..*old(self) }),
    {
        &mut self.args
    }

    /// Headers attached to this input.
    pub fn headers(&self) -> (res: &HashMap<String, P>)
        ensures
            *res == self.headers,
    {
        &self.headers
    }

    /// Mutable access to the headers attached to this input.
    pub fn headers_mut(&mut self) -> (res: &mut HashMap<String, P>)
        ensures
            *res == old(self).headers,
            *final(self) == (ExecuteInput { headers: *final(res), ..*old(self) }),
    {
        &mut self.headers
    }
}

/// Input for workflow signal interception.
#[derive(Debug)]
#[non_exhaustive]
pub struct HandleSignalInput<A, P, V> {
    pub signal_name: String,
    pub args: A,
    pub headers: HashMap<String, P>,
    pub context: WorkflowInterceptorContext<V>,
}

impl<A, P, V> HandleSignalInput<A, P, V> {
    /// The input of one operation.
    pub fn new(
        signal_name: String,
        args: A,
        headers: HashMap<String, P>,
        context: WorkflowInterceptorContext<V>,
    ) -> (res: Self)
        ensures
            res == (HandleSignalInput { signal_name, args, headers, context }),
    {
        HandleSignalInput { signal_name, args, headers, context }
    }

    /// Signal name being handled.
    pub fn signal_name(&self) -> (res: &str)
        ensures
            res@ == self.signal_name@,
    {
        self.signal_name.as_str()
    }

    /// Read-only workflow interceptor context.
    pub fn context(&self) -> (res: &WorkflowInterceptorContext<V>)
        ensures
            *res == self.context,
    {
        &self.context
    }

    /// The name, the arguments and the headers.
    pub fn into_parts(self) -> (res: (String, A, HashMap<String, P>))
        ensures
            res == (self.signal_name, self.args, self.headers),
    {
        (self.signal_name, self.args, self.headers)
    }

    /// The arguments.
    pub fn args_ref(&self) -> (res: &A)
        ensures
            *res == self.args,
    {
        &self.args
    }

    /// Mutable access to the arguments.
    pub fn args_mut(&mut self) -> (res: &mut A)
        ensures
            *res == old(self).args,
            *final(self) == (HandleSignalInput { args: *final(res), ..*old(self) }),
    {
        &mut self.args
    }

    /// Headers attached to this input.
    pub fn headers(&self) -> (res: &HashMap<String, P>)
        ensures
            *res == self.headers,
    {
        &self.headers
    }

    /// Mutable access to the headers attached to this input.
    pub fn headers_mut(&mut self) -> (res: &mut HashMap<String, P>)
        ensures
            *res == old(self).headers,
            *final(self) == (HandleSignalInput { headers: *final(res), ..*old(self) }),
    {
        &mut self.headers
    }
}

/// Input for workflow query interception.
#[derive(Debug)]
#[non_exhaustive]
pub struct HandleQueryInput<A, P, V> {
    pub query_name: String,
    pub args: A,
    pub headers: HashMap<String, P>,
    pub context: WorkflowInterceptorContext<V>,
}

impl<A, P, V> HandleQueryInput<A, P, V> {
    /// The input of one operation.
    pub fn new(
        query_name: String,
        args: A,
        headers: HashMap<String, P>,
        context: WorkflowInterceptorContext<V>,
    ) -> (res: Self)
        ensures
            res == (HandleQueryInput { query_name, args, headers, context }),
    {
        HandleQueryInput { query_name, args, headers, context }
    }

    /// Query name being handled.
    pub fn query_name(&self) -> (res: &str)
        ensures
            res@ == self.query_name@,
    {
        self.query_name.as_str()
    }

    /// Read-only workflow interceptor context.
    pub fn context(&self) -> (res: &WorkflowInterceptorContext<V>)
        ensures
            *res == self.context,
    {
        &self.context
    }

    /// The name, the arguments and the headers.
    pub fn into_parts(self) -> (res: (String, A, HashMap<String, P>))
        ensures
            res == (self.query_name, self.args, self.headers),
    {
        (self.query_name, self.args, self.headers)
    }

    /// The arguments.
    pub fn args_ref(&self) -> (res: &A)
        ensures
            *res == self.args,
    {
        &self.args
    }

    /// Mutable access to the arguments.
    pub fn args_mut(&mut self) -> (res: &mut A)
        ensures
            *res == old(self).args,
            *final(self) == (HandleQueryInput { args: *final(res), ..*old(self) }),
    {
        &mut self.args
    }

    /// Headers attached to this input.
    pub fn headers(&self) -> (res: &HashMap<String, P>)
        ensures
            *res == self.headers,
    {
        &self.headers
    }

    /// Mutable access to the headers attached to this input.
    pub fn headers_mut(&mut self) -> (res: &mut HashMap<String, P>)
        ensures
            *res == old(self).headers,
            *final(self) == (HandleQueryInput { headers: *final(res), ..*old(self) }),
    {
        &mut self.headers
    }
}

/// Input for workflow update validation interception.
#[derive(Debug)]
#[non_exhaustive]
pub struct ValidateUpdateInput<A, P, V> {
    pub update_name: String,
    pub args: A,
    pub headers: HashMap<String, P>,
    pub context: WorkflowInterceptorContext<V>,
}

impl<A, P, V> ValidateUpdateInput<A, P, V> {
    /// The input of one operation.
    pub fn new(
        update_name: String,
        args: A,
        headers: HashMap<String, P>,
        context: WorkflowInterceptorContext<V>,
    ) -> (res: Self)
        ensures
            res == (ValidateUpdateInput { update_name, args, headers, context }),
    {
        ValidateUpdateInput { update_name, args, headers, context }
    }

    /// Update name being validated.
    pub fn update_name(&self) -> (res: &str)
        ensures
            res@ == self.update_name@,
    {
        self.update_name.as_str()
    }

    /// Read-only workflow interceptor context.
    pub fn context(&self) -> (res: &WorkflowInterceptorContext<V>)
        ensures
            *res == self.context,
    {
        &self.context
    }

    /// The name, the arguments and the headers.
    pub fn into_parts(self) -> (res: (String, A, HashMap<String, P>))
        ensures
            res == (self.update_name, self.args, self.headers),
    {
        (self.update_name, self.args, self.headers)
    }

    /// The arguments.
    pub fn args_ref(&self) -> (res: &A)
        ensures
            *res == self.args,
    {
        &self.args
    }

    /// Mutable access to the arguments.
    pub fn args_mut(&mut self) -> (res: &mut A)
        ensures
            *res == old(self).args,
            *final(self) == (ValidateUpdateInput { args: *final(res), ..*old(self) }),
    {
        &mut self.args
    }

    /// Headers attached to this input.
    pub fn headers(&self) -> (res: &HashMap<String, P>)
        ensures
            *res == self.headers,
    {
        &self.headers
    }

    /// Mutable access to the headers attached to this input.
    pub fn headers_mut(&mut self) -> (res: &mut HashMap<String, P>)
        ensures
            *res == old(self).headers,
            *final(self) == (ValidateUpdateInput { headers: *final(res), ..*old(self) }),
    {
        &mut self.headers
    }
}

/// Input for workflow update handling interception.
#[derive(Debug)]
#[non_exhaustive]
pub struct HandleUpdateInput<A, P, V> {
    pub update_name: String,
    pub args: A,
    pub headers: HashMap<String, P>,
    pub context: WorkflowInterceptorContext<V>,
}

impl<A, P, V> HandleUpdateInput<A, P, V> {
    /// The input of one operation.
    pub fn new(
        update_name: String,
        args: A,
        headers: HashMap<String, P>,
        context: WorkflowInterceptorContext<V>,
    ) -> (res: Self)
        ensures
            res == (HandleUpdateInput { update_name, args, headers, context }),
    {
        HandleUpdateInput { update_name, args, headers, context }
    }

    /// Update name being handled.
    pub fn update_name(&self) -> (res: &str)
        ensures
            res@ == self.update_name@,
    {
        self.update_name.as_str()
    }

    /// Read-only workflow interceptor context.
    pub fn context(&self) -> (res: &WorkflowInterceptorContext<V>)
        ensures
            *res == self.context,
    {
        &self.context
    }

    /// The name, the arguments and the headers.
    pub fn into_parts(self) -> (res: (String, A, HashMap<String, P>))
        ensures
            res == (self.update_name, self.args, self.headers),
    {
        (self.update_name, self.args, self.headers)
    }

    /// The arguments.
    pub fn args_ref(&self) -> (res: &A)
        ensures
            *res == self.args,
    {
        &self.args
    }

    /// Mutable access to the arguments.
    pub fn args_mut(&mut self) -> (res: &mut A)
        ensures
            *res == old(self).args,
            *final(self) == (HandleUpdateInput { args: *final(res), ..*old(self) }),
    {
        &mut self.args
    }

    /// Headers attached to this input.
    pub fn headers(&self) -> (res: &HashMap<String, P>)
        ensures
            *res == self.headers,
    {
        &self.headers
    }

    /// Mutable access to the headers attached to this input.
    pub fn headers_mut(&mut self) -> (res: &mut HashMap<String, P>)
        ensures
            *res == old(self).headers,
            *final(self) == (HandleUpdateInput { headers: *final(res), ..*old(self) }),
    {
        &mut self.headers
    }
}

/// Options of a timer.
#[derive(Debug)]
pub struct TimerOptions {
    /// How long the timer runs.
    pub duration: Duration,
    /// What the timer is for.
    pub summary: Option<String>,
}

/// Input for workflow timer interception.
#[derive(Debug)]
#[non_exhaustive]
pub struct SleepInput<V> {
    pub options: TimerOptions,
    pub context: WorkflowInterceptorContext<V>,
}

impl<V> SleepInput<V> {
    /// The input of one operation.
    pub fn new(
        options: TimerOptions,
        context: WorkflowInterceptorContext<V>,
    ) -> (res: Self)
        ensures
            res == (SleepInput { options, context }),
    {
        SleepInput { options, context }
    }

    /// Timer duration.
    pub fn duration(&self) -> (res: Duration)
        ensures
            res == self.options.duration,
    {
        self.options.duration
    }

    /// Timer summary.
    pub fn summary(&self) -> (res: Option<&str>)
        ensures
            match res {
                Some(text) => self.options.summary matches Some(summary) && summary@ == text@,
                None => self.options.summary is None,
            },
    {
        match &self.options.summary {
            Some(summary) => Some(summary.as_str()),
            None => None,
        }
    }

    /// Read-only workflow interceptor context.
    pub fn context(&self) -> (res: &WorkflowInterceptorContext<V>)
        ensures
            *res == self.context,
    {
        &self.context
    }

    /// This input with a different timer duration.
    pub fn with_duration(self, duration: Duration) -> (res: Self)
        ensures
            res == (SleepInput {
                options: TimerOptions { duration, ..self.options },
                ..self
            }),
    {
        let mut input = self;
        input.options.duration = duration;
        input
    }

    /// This input with a different timer summary.
    pub fn with_summary<S: Into<Option<String>>>(self, summary: S) -> (res: Self)
        ensures
            call_ensures(S::into, (summary,), res.options.summary),
            res == (SleepInput {
                options: TimerOptions { summary: res.options.summary, ..self.options },
                ..self
            }),
    {
        let mut input = self;
        input.options.summary = summary.into();
        input
    }

    /// The options of the timer.
    pub fn into_options(self) -> (res: TimerOptions)
        ensures
            res == self.options,
    {
        self.options
    }
}

/// Target workflow for a workflow signal command.
#[derive(Clone, Debug, PartialEq, Eq)]
#[non_exhaustive]
pub enum SignalWorkflowTarget {
    /// Signal a known child workflow by workflow id.
    ChildWorkflow {
        /// Workflow id of the child workflow.
        workflow_id: String,
    },
    /// Signal an external workflow execution.
    ExternalWorkflow {
        /// Namespace containing the target workflow.
        namespace: String,
        /// Workflow id of the target workflow.
        workflow_id: String,
        /// Run id of the target workflow, or `None` to target the latest run.
        run_id: Option<String>,
    },
}

/// A workflow execution with its namespace. An empty run id stands for the latest run.
#[derive(Clone, Debug, PartialEq, Eq)]
pub struct NamespacedWorkflowExecution {
    pub namespace: String,
    pub workflow_id: String,
    pub run_id: String,
}

/// Target of a signal command, as the command carries it.
#[derive(Clone, Debug, PartialEq, Eq)]
pub enum SignalCommandTarget {
    ChildWorkflowId(String),
    WorkflowExecution(NamespacedWorkflowExecution),
}

impl SignalWorkflowTarget {
    /// The target, as the command carries it.
    pub fn into_proto(self) -> (res: SignalCommandTarget)
        ensures
            match self {
                SignalWorkflowTarget::ChildWorkflow { workflow_id } => res
                    == SignalCommandTarget::ChildWorkflowId(workflow_id),
                SignalWorkflowTarget::ExternalWorkflow { namespace, workflow_id, run_id } => {
                    &&& res matches SignalCommandTarget::WorkflowExecution(execution)
                    &&& execution.namespace == namespace
                    &&& execution.workflow_id == workflow_id
                    &&& match run_id {
                        Some(run) => execution.run_id == run,
                        None => execution.run_id@.len() == 0,
                    }
                },
            },
    {
        match self {
            SignalWorkflowTarget::ChildWorkflow { workflow_id } => SignalCommandTarget::ChildWorkflowId(
                workflow_id,
            ),
            SignalWorkflowTarget::ExternalWorkflow { namespace, workflow_id, run_id } => SignalCommandTarget::WorkflowExecution(
                NamespacedWorkflowExecution {
                    namespace,
                    workflow_id,
                    run_id: match run_id {
                        Some(run_id) => run_id,
                        None => String::new(),
                    },
                },
            ),
        }
    }
}

/// Input for workflow activity scheduling interception. `X` are the options.
#[derive(Debug)]
#[non_exhaustive]
pub struct ScheduleActivityInput<A, X, V> {
    pub activity_type: String,
    pub args: A,
    pub options: X,
    pub context: WorkflowInterceptorContext<V>,
}

impl<A, X, V> ScheduleActivityInput<A, X, V> {
    /// The input of one operation.
    pub fn new(
        activity_type: String,
        args: A,
        options: X,
        context: WorkflowInterceptorContext<V>,
    ) -> (res: Self)
        ensures
            res == (ScheduleActivityInput { activity_type, args, options, context }),
    {
        ScheduleActivityInput { activity_type, args, options, context }
    }

    /// Activity type being scheduled.
    pub fn activity_type(&self) -> (res: &str)
        ensures
            res@ == self.activity_type@,
    {
        self.activity_type.as_str()
    }

    /// Mutable access to the activity type being scheduled.
    pub fn activity_type_mut(&mut self) -> (res: &mut String)
        ensures
            *res == old(self).activity_type,
            *final(self) == (ScheduleActivityInput { activity_type: *final(res), ..*old(self) }),
    {
        &mut self.activity_type
    }

    /// Activity scheduling options.
    pub fn options(&self) -> (res: &X)
        ensures
            *res == self.options,
    {
        &self.options
    }

    /// Mutable access to the activity scheduling options.
    pub fn options_mut(&mut self) -> (res: &mut X)
        ensures
            *res == old(self).options,
            *final(self) == (ScheduleActivityInput { options: *final(res), ..*old(self) }),
    {
        &mut self.options
    }

    /// Read-only workflow interceptor context.
    pub fn context(&self) -> (res: &WorkflowInterceptorContext<V>)
        ensures
            *res == self.context,
    {
        &self.context
    }

    /// The parts of this input, with the arguments as their concrete type. `downcast` turns the
    /// arguments into that type or gives them back; if it does, the input comes back as it was.
    pub fn into_parts<T, D: FnOnce(A) -> Result<T, A>>(self, downcast: D) -> (res: Result<
        (String, T, X),
        Box<Self>,
    >)
        requires
            call_requires(downcast, (self.args,)),
        ensures
            match res {
                Ok(parts) => call_ensures(downcast, (self.args,), Ok(parts.1)) && parts.0 == self.activity_type && parts.2 == self.options,
                Err(input) => call_ensures(downcast, (self.args,), Err(input.args)) && *input == (ScheduleActivityInput {
                    args: input.args,
                    ..self
                }),
            },
    {
        let ScheduleActivityInput { activity_type, args, options, context } = self;
        match downcast(args) {
            Ok(args) => Ok((activity_type, args, options)),
            Err(args) => Err(Box::new(ScheduleActivityInput { activity_type, args, options, context })),
        }
    }

    /// The arguments.
    pub fn args_ref(&self) -> (res: &A)
        ensures
            *res == self.args,
    {
        &self.args
    }

    /// Mutable access to the arguments.
    pub fn args_mut(&mut self) -> (res: &mut A)
        ensures
            *res == old(self).args,
            *final(self) == (ScheduleActivityInput { args: *final(res), ..*old(self) }),
    {
        &mut self.args
    }
}

/// Input for workflow local activity scheduling interception. `X` are the options.
#[derive(Debug)]
#[non_exhaustive]
pub struct ScheduleLocalActivityInput<A, X, V> {
    pub activity_type: String,
    pub args: A,
    pub options: X,
    pub context: WorkflowInterceptorContext<V>,
}

impl<A, X, V> ScheduleLocalActivityInput<A, X, V> {
    /// The input of one operation.
    pub fn new(
        activity_type: String,
        args: A,
        options: X,
        context: WorkflowInterceptorContext<V>,
    ) -> (res: Self)
        ensures
            res == (ScheduleLocalActivityInput { activity_type, args, options, context }),
    {
        ScheduleLocalActivityInput { activity_type, args, options, context }
    }

    /// Activity type being scheduled.
    pub fn activity_type(&self) -> (res: &str)
        ensures
            res@ == self.activity_type@,
    {
        self.activity_type.as_str()
    }

    /// Mutable access to the activity type being scheduled.
    pub fn activity_type_mut(&mut self) -> (res: &mut String)
        ensures
            *res == old(self).activity_type,
            *final(self) == (ScheduleLocalActivityInput { activity_type: *final(res), ..*old(self) }),
    {
        &mut self.activity_type
    }

    /// Local activity scheduling options.
    pub fn options(&self) -> (res: &X)
        ensures
            *res == self.options,
    {
        &self.options
    }

    /// Mutable access to the local activity scheduling options.
    pub fn options_mut(&mut self) -> (res: &mut X)
        ensures
            *res == old(self).options,
            *final(self) == (ScheduleLocalActivityInput { options: *final(res), ..*old(self) }),
    {
        &mut self.options
    }

    /// Read-only workflow interceptor context.
    pub fn context(&self) -> (res: &WorkflowInterceptorContext<V>)
        ensures
            *res == self.context,
    {
        &self.context
    }

    /// The parts of this input, with the arguments as their concrete type. `downcast` turns the
    /// arguments into that type or gives them back; if it does, the input comes back as it was.
    pub fn into_parts<T, D: FnOnce(A) -> Result<T, A>>(self, downcast: D) -> (res: Result<
        (String, T, X),
        Box<Self>,
    >)
        requires
            call_requires(downcast, (self.args,)),
        ensures
            match res {
                Ok(parts) => call_ensures(downcast, (self.args,), Ok(parts.1)) && parts.0 == self.activity_type && parts.2 == self.options,
                Err(input) => call_ensures(downcast, (self.args,), Err(input.args)) && *input == (ScheduleLocalActivityInput {
                    args: input.args,
                    ..self
                }),
            },
    {
        let ScheduleLocalActivityInput { activity_type, args, options, context } = self;
        match downcast(args) {
            Ok(args) => Ok((activity_type, args, options)),
            Err(args) => Err(Box::new(ScheduleLocalActivityInput { activity_type, args, options, context })),
        }
    }

    /// The arguments.
    pub fn args_ref(&self) -> (res: &A)
        ensures
            *res == self.args,
    {
        &self.args
    }

    /// Mutable access to the arguments.
    pub fn args_mut(&mut self) -> (res: &mut A)
        ensures
            *res == old(self).args,
            *final(self) == (ScheduleLocalActivityInput { args: *final(res), ..*old(self) }),
    {
        &mut self.args
    }
}

/// Input for workflow child workflow start interception. `X` are the options.
#[derive(Debug)]
#[non_exhaustive]
pub struct StartChildWorkflowExecutionInput<A, X, V> {
    pub workflow_type: String,
    pub args: A,
    pub options: X,
    pub context: WorkflowInterceptorContext<V>,
}

impl<A, X, V> StartChildWorkflowExecutionInput<A, X, V> {
    /// The input of one operation.
    pub fn new(
        workflow_type: String,
        args: A,
        options: X,
        context: WorkflowInterceptorContext<V>,
    ) -> (res: Self)
        ensures
            res == (StartChildWorkflowExecutionInput { workflow_type, args, options, context }),
    {
        StartChildWorkflowExecutionInput { workflow_type, args, options, context }
    }

    /// Workflow type being started.
    pub fn workflow_type(&self) -> (res: &str)
        ensures
            res@ == self.workflow_type@,
    {
        self.workflow_type.as_str()
    }

    /// Mutable access to the workflow type being started.
    pub fn workflow_type_mut(&mut self) -> (res: &mut String)
        ensures
            *res == old(self).workflow_type,
            *final(self) == (StartChildWorkflowExecutionInput { workflow_type: *final(res), ..*old(self) }),
    {
        &mut self.workflow_type
    }

    /// Child workflow start options.
    pub fn options(&self) -> (res: &X)
        ensures
            *res == self.options,
    {
        &self.options
    }

    /// Mutable access to the child workflow start options.
    pub fn options_mut(&mut self) -> (res: &mut X)
        ensures
            *res == old(self).options,
            *final(self) == (StartChildWorkflowExecutionInput { options: *final(res), ..*old(self) }),
    {
        &mut self.options
    }

    /// Read-only workflow interceptor context.
    pub fn context(&self) -> (res: &WorkflowInterceptorContext<V>)
        ensures
            *res == self.context,
    {
        &self.context
    }

    /// The parts of this input, with the arguments as their concrete type. `downcast` turns the
    /// arguments into that type or gives them back; if it does, the input comes back as it was.
    pub fn into_parts<T, D: FnOnce(A) -> Result<T, A>>(self, downcast: D) -> (res: Result<
        (String, T, X),
        Box<Self>,
    >)
        requires
            call_requires(downcast, (self.args,)),
        ensures
            match res {
                Ok(parts) => call_ensures(downcast, (self.args,), Ok(parts.1)) && parts.0 == self.workflow_type && parts.2 == self.options,
                Err(input) => call_ensures(downcast, (self.args,), Err(input.args)) && *input == (StartChildWorkflowExecutionInput {
                    args: input.args,
                    ..self
                }),
            },
    {
        let StartChildWorkflowExecutionInput { workflow_type, args, options, context } = self;
        match downcast(args) {
            Ok(args) => Ok((workflow_type, args, options)),
            Err(args) => Err(Box::new(StartChildWorkflowExecutionInput { workflow_type, args, options, context })),
        }
    }

    /// The arguments.
    pub fn args_ref(&self) -> (res: &A)
        ensures
            *res == self.args,
    {
        &self.args
    }

    /// Mutable access to the arguments.
    pub fn args_mut(&mut self) -> (res: &mut A)
        ensures
            *res == old(self).args,
            *final(self) == (StartChildWorkflowExecutionInput { args: *final(res), ..*old(self) }),
    {
        &mut self.args
    }
}

/// Input for workflow signal scheduling interception.
#[derive(Debug)]
#[non_exhaustive]
pub struct SignalWorkflowInput<A, P, V> {
    pub target: SignalWorkflowTarget,
    pub signal_name: String,
    pub args: A,
    pub headers: HashMap<String, P>,
    pub context: WorkflowInterceptorContext<V>,
}

impl<A, P, V> SignalWorkflowInput<A, P, V> {
    /// The input of one operation.
    pub fn new(
        target: SignalWorkflowTarget,
        signal_name: String,
        args: A,
        headers: HashMap<String, P>,
        context: WorkflowInterceptorContext<V>,
    ) -> (res: Self)
        ensures
            res == (SignalWorkflowInput { target, signal_name, args, headers, context }),
    {
        SignalWorkflowInput { target, signal_name, args, headers, context }
    }

    /// Target workflow for this signal.
    pub fn target(&self) -> (res: &SignalWorkflowTarget)
        ensures
            *res == self.target,
    {
        &self.target
    }

    /// Mutable access to the target workflow for this signal.
    pub fn target_mut(&mut self) -> (res: &mut SignalWorkflowTarget)
        ensures
            *res == old(self).target,
            *final(self) == (SignalWorkflowInput { target: *final(res), ..*old(self) }),
    {
        &mut self.target
    }

    /// Signal name being sent.
    pub fn signal_name(&self) -> (res: &str)
        ensures
            res@ == self.signal_name@,
    {
        self.signal_name.as_str()
    }

    /// Mutable access to the signal name being sent.
    pub fn signal_name_mut(&mut self) -> (res: &mut String)
        ensures
            *res == old(self).signal_name,
            *final(self) == (SignalWorkflowInput { signal_name: *final(res), ..*old(self) }),
    {
        &mut self.signal_name
    }

    /// Read-only workflow interceptor context.
    pub fn context(&self) -> (res: &WorkflowInterceptorContext<V>)
        ensures
            *res == self.context,
    {
        &self.context
    }

    /// The parts of this input, with the arguments as their concrete type. `downcast` turns the
    /// arguments into that type or gives them back; if it does, the input comes back as it was.
    pub fn into_parts<T, D: FnOnce(A) -> Result<T, A>>(self, downcast: D) -> (res: Result<
        (SignalWorkflowTarget, String, T, HashMap<String, P>),
        Box<Self>,
    >)
        requires
            call_requires(downcast, (self.args,)),
        ensures
            match res {
                Ok(parts) => call_ensures(downcast, (self.args,), Ok(parts.2)) && parts.0 == self.target && parts.1 == self.signal_name && parts.3 == self.headers,
                Err(input) => call_ensures(downcast, (self.args,), Err(input.args)) && *input == (SignalWorkflowInput {
                    args: input.args,
                    ..self
                }),
            },
    {
        let SignalWorkflowInput { target, signal_name, args, headers, context } = self;
        match downcast(args) {
            Ok(args) => Ok((target, signal_name, args, headers)),
            Err(args) => Err(Box::new(SignalWorkflowInput { target, signal_name, args, headers, context })),
        }
    }

    /// The arguments.
    pub fn args_ref(&self) -> (res: &A)
        ensures
            *res == self.args,
    {
        &self.args
    }

    /// Mutable access to the arguments.
    pub fn args_mut(&mut self) -> (res: &mut A)
        ensures
            *res == old(self).args,
            *final(self) == (SignalWorkflowInput { args: *final(res), ..*old(self) }),
    {
        &mut self.args
    }

    /// Headers attached to this input.
    pub fn headers(&self) -> (res: &HashMap<String, P>)
        ensures
            *res == self.headers,
    {
        &self.headers
    }

    /// Mutable access to the headers attached to this input.
    pub fn headers_mut(&mut self) -> (res: &mut HashMap<String, P>)
        ensures
            *res == old(self).headers,
            *final(self) == (SignalWorkflowInput { headers: *final(res), ..*old(self) }),
    {
        &mut self.headers
    }
}

} // verus!
