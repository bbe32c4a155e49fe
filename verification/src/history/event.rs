//! History events, reduced to what chunking reads of them.

use vstd::prelude::*;

verus! {

/// The kind of a history event. Kinds that no rule of this crate names are carried as their raw
/// protobuf number.
#[derive(Clone, Copy, Debug, PartialEq, Eq, Structural)]
pub enum EventType {
    WorkflowExecutionStarted,
    WorkflowExecutionCompleted,
    WorkflowExecutionTimedOut,
    WorkflowExecutionTerminated,
    WorkflowExecutionCanceled,
    WorkflowExecutionSignaled,
    WorkflowExecutionUpdateAccepted,
    WorkflowTaskScheduled,
    WorkflowTaskStarted,
    WorkflowTaskCompleted,
    WorkflowTaskFailed,
    WorkflowTaskTimedOut,
    TimerStarted,
    TimerFired,
    Other(i32),
}

/// An SDK flag recorded on a completed workflow task.
#[derive(Clone, Copy, Debug, PartialEq, Eq, Structural)]
pub enum CoreInternalFlags {
    /// The workflow's tasks are chunked by the second algorithm.
    WftChunkingV2,
    /// Any other flag, by number.
    Other(u32),
}

/// SDK metadata attached to a completed workflow task.
#[derive(Clone, Debug, PartialEq, Eq)]
pub struct SdkMetadata {
    pub core_used_flags: Vec<CoreInternalFlags>,
}

/// Attributes of a `WorkflowTaskCompleted` event.
#[derive(Clone, Debug, PartialEq, Eq)]
pub struct WorkflowTaskCompletedEventAttributes {
    pub sdk_metadata: Option<SdkMetadata>,
}

/// Attributes of a `WorkflowExecutionUpdateAccepted` event.
#[derive(Clone, Copy, Debug, PartialEq, Eq)]
pub struct WorkflowExecutionUpdateAcceptedEventAttributes {
    pub accepted_request_sequencing_event_id: i64,
}

/// The event attributes that chunking looks at.
#[derive(Clone, Debug, PartialEq, Eq)]
pub enum Attributes {
    WorkflowTaskCompletedEventAttributes(WorkflowTaskCompletedEventAttributes),
    WorkflowExecutionUpdateAcceptedEventAttributes(WorkflowExecutionUpdateAcceptedEventAttributes),
    Other,
}

/// One event of a workflow's history.
///
/// How an event is classified (command, terminal, time sensitive) is decided where the protobuf
/// event is read, and is plain data here.
#[derive(Clone, Debug, PartialEq, Eq)]
pub struct HistoryEvent {
    pub event_id: i64,
    pub event_type: EventType,
    /// The event mirrors a command of the preceding workflow task.
    pub command: bool,
    /// The event ends the workflow execution.
    pub final_wf_execution: bool,
    /// The event must be observed by a workflow task of its own.
    pub wft_time_sensitive: bool,
    pub attributes: Option<Attributes>,
}

impl HistoryEvent {
    /// The kind of this event.
    pub fn event_type(&self) -> (res: EventType)
        ensures
            res == self.event_type,
    {
        self.event_type
    }

    /// Whether this event mirrors a command.
    pub fn is_command_event(&self) -> (res: bool)
        ensures
            res == self.command,
    {
        self.command
    }

    /// Whether this event ends the workflow execution.
    pub fn is_final_wf_execution_event(&self) -> (res: bool)
        ensures
            res == self.final_wf_execution,
    {
        self.final_wf_execution
    }

    /// Whether this event keeps a following empty task from being merged.
    pub fn is_wft_time_sensitive_event(&self) -> (res: bool)
        ensures
            res == self.wft_time_sensitive,
    {
        self.wft_time_sensitive
    }
}

/// The kind of the event at `ix`, or `None` past the end.
pub open spec fn type_at(events: Seq<HistoryEvent>, ix: int) -> Option<EventType> {
    if 0 <= ix < events.len() {
        Some(events[ix].event_type)
    } else {
        None
    }
}

/// The kind of the event `ahead` places behind `ix`, or `None` past the end.
pub fn event_type_ahead(events: &[HistoryEvent], ix: usize, ahead: usize) -> (res: Option<
    EventType,
>)
    requires
        ix <= events@.len(),
    ensures
        res == type_at(events@, ix + ahead),
        events@.len() <= usize::MAX,
{
    if ahead < events.len() - ix {
        Some(events[ix + ahead].event_type())
    } else {
        None
    }
}

/// Whether `e` is a completed workflow task.
pub open spec fn is_wft_completed(e: HistoryEvent) -> bool {
    e.attributes matches Some(Attributes::WorkflowTaskCompletedEventAttributes(_))
}

/// Whether `e` is a completed workflow task that carries the second chunking flag.
pub open spec fn carries_chunking_v2(e: HistoryEvent) -> bool {
    &&& e.attributes matches Some(Attributes::WorkflowTaskCompletedEventAttributes(a))
    &&& a.sdk_metadata matches Some(m)
    &&& m.core_used_flags@.contains(CoreInternalFlags::WftChunkingV2)
}

} // verus!
