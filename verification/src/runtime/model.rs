//! What goes into a workflow instance and what comes out of it.
//!
//! `P` is a payload and `E` an error of the workflow.

use std::collections::HashMap;
use vstd::prelude::*;

verus! {

/// Id of a routine of a workflow instance.
pub type RoutineId = u64;

/// Id of the main routine.
pub const MAIN_ROUTINE_ID: u64 = 0;

/// A failure to report. Which fields it has beside its message is decided where it is sent.
#[derive(Debug)]
pub enum Failure<E> {
    /// A failure with this message and nothing else.
    Bare(String),
    /// An application failure with this message.
    Application(String),
    /// An error of the workflow.
    Workflow(E),
}

impl<E> Failure<E> {
    /// The failure holds a message and nothing else.
    pub open spec fn is_bare(self, message: Seq<char>) -> bool {
        self matches Failure::Bare(text) && text@ == message
    }

    /// The failure is an application failure with this message.
    pub open spec fn is_application(self, message: Seq<char>) -> bool {
        self matches Failure::Application(text) && text@ == message
    }
}

/// A signal that arrived.
#[derive(Debug)]
pub struct SignalWorkflow<P> {
    pub signal_name: String,
    pub input: Vec<P>,
    pub headers: HashMap<String, P>,
}

/// An update that arrived.
#[derive(Debug)]
pub struct DoUpdate<P> {
    pub id: String,
    pub protocol_instance_id: String,
    pub name: String,
    pub input: Vec<P>,
    pub headers: HashMap<String, P>,
    pub run_validator: bool,
}

/// A query that arrived.
#[derive(Debug)]
pub struct QueryWorkflow<P> {
    pub query_type: String,
    pub arguments: Vec<P>,
    pub headers: HashMap<String, P>,
}

/// An update handler that a workflow defines.
#[derive(Debug)]
pub struct UpdateDefinition {
    pub name: String,
    pub has_validator: bool,
}

/// A resolution of something that a workflow waits for, under its sequence number. `X` is what it
/// was resolved with.
#[derive(Debug)]
pub enum Resolution<X> {
    FireTimer(u32),
    ResolveActivity(u32, Option<X>),
    ResolveChildWorkflowExecutionStart(u32, Option<X>),
    ResolveChildWorkflowExecution(u32, Option<X>),
    /// With a failure, if it failed.
    ResolveSignalExternalWorkflow(u32, Option<X>),
    /// With a failure, if it failed.
    ResolveRequestCancelExternalWorkflow(u32, Option<X>),
    ResolveNexusOperationStart(u32, Option<X>),
    ResolveNexusOperation(u32, Option<X>),
}

/// How a timer ended.
#[derive(Clone, Copy, Debug, PartialEq, Eq, Structural)]
pub enum TimerResult {
    Cancelled,
    Fired,
}

/// An event that unblocks a workflow.
#[derive(Debug)]
pub enum UnblockEvent<X> {
    Timer(u32, TimerResult),
    Activity(u32, Box<X>),
    WorkflowStart(u32, Box<X>),
    WorkflowComplete(u32, Box<X>),
    SignalExternal(u32, Option<X>),
    CancelExternal(u32, Option<X>),
    NexusOperationStart(u32, Box<X>),
    NexusOperationComplete(u32, Box<X>),
}

/// A job of an activation.
#[derive(Debug)]
pub enum ActivationVariant<P, X> {
    InitializeWorkflow,
    UpdateRandomSeed,
    NotifyHasPatch(String),
    CancelWorkflow(String),
    SignalWorkflow(SignalWorkflow<P>),
    DoUpdate(DoUpdate<P>),
    QueryWorkflow(QueryWorkflow<P>),
    Resolution(Resolution<X>),
    RemoveFromCache,
}

/// An activation: jobs, and what it says beside them. A job that says nothing is `None`.
#[derive(Debug)]
pub struct WorkflowActivation<P, X, M> {
    pub meta: M,
    pub jobs: Vec<Option<ActivationVariant<P, X>>>,
}

/// Answer to a query.
#[derive(Debug)]
pub struct QueryResponse<P, E> {
    pub result: Result<P, Failure<E>>,
}

/// An update routine.
#[derive(Debug)]
pub struct UpdateRoutineKind {
    pub name: String,
    pub update_id: String,
    pub protocol_instance_id: String,
}

/// What a routine is for.
#[derive(Debug)]
pub enum RoutineKind {
    Signal(String),
    Update(UpdateRoutineKind),
}

/// A routine that was started.
#[derive(Debug)]
pub struct StartedRoutine {
    pub routine_id: RoutineId,
    pub kind: RoutineKind,
}

/// What a job of an activation led to.
#[derive(Debug)]
pub enum ActivationJobResult<P, E> {
    Nothing,
    StartedRoutine(StartedRoutine),
    UpdateRejected(Failure<E>),
    QueryResponse(QueryResponse<P, E>),
}

/// What an activation led to, job by job.
#[derive(Debug)]
pub struct ActivationResult<P, E> {
    pub job_results: Vec<ActivationJobResult<P, E>>,
}

/// Why a workflow ended without a result. `N` is a request to continue as new and `X` an error.
#[derive(Debug)]
pub enum WorkflowTermination<N, X> {
    ContinueAsNew(N),
    Cancelled,
    Evicted,
    Failed(X),
}

/// How a workflow ended.
#[derive(Debug)]
pub enum TerminalOutcome<P, N, X> {
    Completed(P),
    ContinueAsNew(N),
    Cancelled,
    Failed(X),
}

/// A workflow task that failed. `K` is the cause that is reported in place of the default one.
#[derive(Debug)]
pub struct TaskFailure<E, K> {
    pub failure: Failure<E>,
    pub force_cause: Option<K>,
}

/// What became of the main routine.
#[derive(Debug)]
pub enum MainRoutineCompletion<P, N, X, E, K> {
    Terminal(TerminalOutcome<P, N, X>),
    TaskFailed(TaskFailure<E, K>),
    Blocked,
}

/// What became of an update.
#[derive(Debug)]
pub enum UpdateRoutineCompletion<P, E> {
    Completed { protocol_instance_id: String, result: P },
    Rejected { protocol_instance_id: String, failure: Failure<E> },
}

/// What became of a routine.
#[derive(Debug)]
pub enum RoutineCompletion<P, N, X, E, K> {
    Main(MainRoutineCompletion<P, N, X, E, K>),
    Signal(Result<(), Failure<E>>),
    Update(UpdateRoutineCompletion<P, E>),
}

/// Result of polling a routine: its completion, unless it goes on.
#[derive(Debug)]
pub struct RoutinePollResult<P, N, X, E, K> {
    pub completion: Option<RoutineCompletion<P, N, X, E, K>>,
    pub made_progress: bool,
}

} // verus!
