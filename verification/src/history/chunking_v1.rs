//! The legacy chunking algorithm, for workflows that began before the second one.

use super::chunking::{lemma_skipped, no_boundary, skipped, NextWFTSeqEndIndex, WftEnd};
use super::event::{event_type_ahead, type_at, Attributes, EventType, HistoryEvent};
use vstd::prelude::*;

verus! {

/// A task that is followed by an event of this kind came to nothing.
pub open spec fn abandons_task(kind: Option<EventType>) -> bool {
    match kind {
        Some(EventType::WorkflowTaskFailed)
        | Some(EventType::WorkflowTaskTimedOut)
        | Some(EventType::WorkflowExecutionTimedOut)
        | Some(EventType::WorkflowExecutionTerminated)
        | Some(EventType::WorkflowExecutionCanceled) => true,
        _ => false,
    }
}

/// The event at `ix` starts a task behind `from` that did not come to nothing.
pub open spec fn live_started(events: Seq<HistoryEvent>, from: int, ix: int) -> bool {
    &&& events[ix].event_id > from
    &&& events[ix].event_type == EventType::WorkflowTaskStarted
    &&& !abandons_task(type_at(events, ix + 1))
}

/// The last live started event at or before `ix` whose id is below `sequencing_id`.
pub open spec fn last_live_before(
    events: Seq<HistoryEvent>,
    from: int,
    ix: int,
    sequencing_id: int,
) -> Option<int>
    decreases ix + 1,
{
    if ix < 0 {
        None
    } else if live_started(events, from, ix) && events[ix].event_id < sequencing_id {
        Some(ix)
    } else {
        last_live_before(events, from, ix - 1, sequencing_id)
    }
}

/// Where the task ends whose started event at `ix` is completed and followed by the event at
/// `ix + 2`: at `ix`, unless that event is an update accepted on behalf of an earlier task.
pub open spec fn completed_boundary(events: Seq<HistoryEvent>, from: int, ix: int) -> int {
    match events[ix + 2].attributes {
        Some(
            Attributes::WorkflowExecutionUpdateAcceptedEventAttributes(a),
        ) => match last_live_before(
            events,
            from,
            ix,
            a.accepted_request_sequencing_event_id as int,
        ) {
            Some(earlier) => earlier,
            None => ix,
        },
        _ => ix,
    }
}

/// The answer for the events from `ix` on. `saw_command` says that a command was seen, and
/// `saw_work` that a command or the start of the execution was.
pub open spec fn scan(
    events: Seq<HistoryEvent>,
    from: int,
    has_last_wft: bool,
    ix: int,
    saw_command: bool,
    saw_work: bool,
) -> WftEnd
    decreases events.len() - ix,
{
    if ix < 0 || ix >= events.len() {
        no_boundary(has_last_wft)
    } else {
        let e = events[ix];
        let fresh = e.event_id > from;
        let command = saw_command || (fresh && e.command);
        let work = saw_work || (fresh && (e.command || e.event_type
            == EventType::WorkflowExecutionStarted));
        if fresh && e.final_wf_execution {
            WftEnd::Complete(ix)
        } else if !live_started(events, from, ix) {
            scan(events, from, has_last_wft, ix + 1, command, work)
        } else if type_at(events, ix + 1) == Some(EventType::WorkflowTaskCompleted) && ix + 2
            < events.len() {
            if !command && events[ix + 2].event_type == EventType::WorkflowTaskScheduled {
                scan(events, from, has_last_wft, ix + 1, command, work)
            } else {
                WftEnd::Complete(completed_boundary(events, from, ix))
            }
        } else if work {
            WftEnd::Complete(ix)
        } else {
            scan(events, from, has_last_wft, ix + 1, command, work)
        }
    }
}

/// Where the logical task behind event id `from` ends.
pub open spec fn wft_end_v1(events: Seq<HistoryEvent>, from: int, has_last_wft: bool) -> WftEnd {
    scan(events, from, has_last_wft, 0, false, false)
}

/// Whether a task followed by an event of this kind came to nothing.
fn is_task_abandoned(kind: Option<EventType>) -> (res: bool)
    ensures
        res == abandons_task(kind),
{
    matches!(
        kind,
        Some(EventType::WorkflowTaskFailed)
        | Some(EventType::WorkflowTaskTimedOut)
        | Some(EventType::WorkflowExecutionTimedOut)
        | Some(EventType::WorkflowExecutionTerminated)
        | Some(EventType::WorkflowExecutionCanceled)
    )
}

/// Whether the event at `ix` starts a task behind `from_event_id` that did not come to nothing.
fn is_live_started(events: &[HistoryEvent], from_event_id: i64, ix: usize) -> (res: bool)
    requires
        ix < events@.len(),
    ensures
        res == live_started(events@, from_event_id as int, ix as int),
{
    events[ix].event_id > from_event_id && events[ix].event_type() == EventType::WorkflowTaskStarted
        && !is_task_abandoned(event_type_ahead(events, ix, 1))
}

/// The boundary for the completed task that started at `ix`.
fn find_completed_boundary(events: &[HistoryEvent], from_event_id: i64, ix: usize) -> (res: usize)
    requires
        ix + 2 < events.len(),
    ensures
        res == completed_boundary(events@, from_event_id as int, ix as int),
{
    if let Some(Attributes::WorkflowExecutionUpdateAcceptedEventAttributes(attr)) = &events[ix
        + 2].attributes {
        let sequencing_id: i64 = attr.accepted_request_sequencing_event_id;
        let mut n: usize = ix + 1;
        while n > 0
            invariant
                n <= ix + 1,
                ix + 2 < events@.len(),
                last_live_before(events@, from_event_id as int, ix as int, sequencing_id as int)
                    == last_live_before(
                    events@,
                    from_event_id as int,
                    n - 1,
                    sequencing_id as int,
                ),
                events@[ix + 2].attributes == Some(
                    Attributes::WorkflowExecutionUpdateAcceptedEventAttributes(*attr),
                ),
                sequencing_id == attr.accepted_request_sequencing_event_id,
            decreases n,
        {
            n -= 1;
            if is_live_started(events, from_event_id, n) && events[n].event_id < sequencing_id {
                return n;
            }
        }
    }
    ix
}

/// Finds where the logical task behind `from_event_id` ends.
pub fn find_end_index_of_next_wft_seq_v1(
    events: &[HistoryEvent],
    from_event_id: i64,
    has_last_wft: bool,
) -> (res: NextWFTSeqEndIndex)
    ensures
        res@ == wft_end_v1(events@, from_event_id as int, has_last_wft),
{
    let len: usize = events.len();
    let mut saw_command_or_started = false;
    let mut saw_command = false;
    let mut ix: usize = 0;
    while ix < len
        invariant
            ix <= len == events@.len(),
            wft_end_v1(events@, from_event_id as int, has_last_wft) == scan(
                events@,
                from_event_id as int,
                has_last_wft,
                ix as int,
                saw_command,
                saw_command_or_started,
            ),
        decreases len - ix,
    {
        let e = &events[ix];
        if e.event_id > from_event_id {
            if e.is_command_event() {
                saw_command = true;
                saw_command_or_started = true;
            }
            if e.event_type() == EventType::WorkflowExecutionStarted {
                saw_command_or_started = true;
            }
            if e.is_final_wf_execution_event() {
                return NextWFTSeqEndIndex::Complete(ix);
            }
            if is_live_started(events, from_event_id, ix) {
                let completed = matches!(
                    event_type_ahead(events, ix, 1),
                    Some(EventType::WorkflowTaskCompleted)
                );
                if completed && len - ix > 2 {
                    // An empty task followed by another one is a heartbeat.
                    if saw_command || events[ix + 2].event_type()
                        != EventType::WorkflowTaskScheduled {
                        return NextWFTSeqEndIndex::Complete(
                            find_completed_boundary(events, from_event_id, ix),
                        );
                    }
                } else if saw_command_or_started {
                    return NextWFTSeqEndIndex::Complete(ix);
                }
            }
        }
        ix += 1;
    }
    if has_last_wft {
        NextWFTSeqEndIndex::Tail
    } else {
        NextWFTSeqEndIndex::NeedMore
    }
}

proof fn lemma_last_live_before(events: Seq<HistoryEvent>, from: int, ix: int, sequencing_id: int)
    requires
        ix < events.len(),
    ensures
        last_live_before(events, from, ix, sequencing_id) matches Some(r) ==> 0 <= r <= ix
            && live_started(events, from, r),
    decreases ix + 1,
{
    if ix >= 0 {
        lemma_last_live_before(events, from, ix - 1, sequencing_id);
    }
}

proof fn lemma_scan_boundary(
    events: Seq<HistoryEvent>,
    from: int,
    has_last_wft: bool,
    ix: int,
    saw_command: bool,
    saw_work: bool,
)
    requires
        0 <= ix <= events.len(),
    ensures
        scan(events, from, has_last_wft, ix, saw_command, saw_work) is NeedMore ==> !has_last_wft,
        scan(events, from, has_last_wft, ix, saw_command, saw_work) is Tail ==> has_last_wft,
        scan(events, from, has_last_wft, ix, saw_command, saw_work) matches WftEnd::Complete(end)
            ==> {
            &&& 0 <= end < events.len()
            &&& events[end].event_id > from
            &&& live_started(events, from, end) || events[end].final_wf_execution
        },
    decreases events.len() - ix,
{
    if ix < events.len() {
        let e = events[ix];
        let fresh = e.event_id > from;
        let command = saw_command || (fresh && e.command);
        let work = saw_work || (fresh && (e.command || e.event_type
            == EventType::WorkflowExecutionStarted));
        if ix + 2 < events.len() {
            if let Some(Attributes::WorkflowExecutionUpdateAcceptedEventAttributes(a)) = events[ix
                + 2].attributes {
                lemma_last_live_before(
                    events,
                    from,
                    ix,
                    a.accepted_request_sequencing_event_id as int,
                );
            }
        }
        lemma_scan_boundary(events, from, has_last_wft, ix + 1, command, work);
    }
}

/// A boundary is an event behind the ids already handled: the start of a task that did not come to
/// nothing, or the end of the execution. With the whole history at hand more is never asked for;
/// without it the tail is never declared.
pub proof fn law_v1_boundary(events: Seq<HistoryEvent>, from: int, has_last_wft: bool)
    ensures
        wft_end_v1(events, from, has_last_wft) is NeedMore ==> !has_last_wft,
        wft_end_v1(events, from, has_last_wft) is Tail ==> has_last_wft,
        wft_end_v1(events, from, has_last_wft) matches WftEnd::Complete(end) ==> {
            &&& 0 <= end < events.len()
            &&& events[end].event_id > from
            &&& live_started(events, from, end) || events[end].final_wf_execution
        },
{
    lemma_scan_boundary(events, from, has_last_wft, 0, false, false);
}

proof fn lemma_last_live_before_shift(
    events: Seq<HistoryEvent>,
    k: int,
    from: int,
    ix: int,
    sequencing_id: int,
)
    requires
        0 <= k <= events.len(),
        forall|j: int| 0 <= j < k ==> (#[trigger] events[j]).event_id <= from,
        -1 <= ix < events.len() - k,
    ensures
        last_live_before(events, from, ix + k, sequencing_id) == (match last_live_before(
            events.skip(k),
            from,
            ix,
            sequencing_id,
        ) {
            Some(r) => Some(r + k),
            None => None,
        }),
    decreases ix + k + 1,
{
    let rest = events.skip(k);
    if ix >= 0 {
        assert(rest[ix] == events[ix + k]);
        assert(type_at(rest, ix + 1) == type_at(events, ix + k + 1));
        lemma_last_live_before_shift(events, k, from, ix - 1, sequencing_id);
    } else if k > 0 {
        lemma_last_live_before_none(events, from, k - 1, sequencing_id);
    }
}

proof fn lemma_last_live_before_none(
    events: Seq<HistoryEvent>,
    from: int,
    ix: int,
    sequencing_id: int,
)
    requires
        ix < events.len(),
        forall|j: int| 0 <= j <= ix ==> (#[trigger] events[j]).event_id <= from,
    ensures
        last_live_before(events, from, ix, sequencing_id) is None,
    decreases ix + 1,
{
    if ix >= 0 {
        lemma_last_live_before_none(events, from, ix - 1, sequencing_id);
    }
}

proof fn lemma_scan_shift(
    events: Seq<HistoryEvent>,
    k: int,
    from: int,
    has_last_wft: bool,
    ix: int,
    saw_command: bool,
    saw_work: bool,
)
    requires
        0 <= k <= events.len(),
        forall|j: int| 0 <= j < k ==> (#[trigger] events[j]).event_id <= from,
        0 <= ix <= events.len() - k,
    ensures
        scan(events, from, has_last_wft, ix + k, saw_command, saw_work) == scan(
            events.skip(k),
            from,
            has_last_wft,
            ix,
            saw_command,
            saw_work,
        ).shifted(k),
    decreases events.len() - k - ix,
{
    let rest = events.skip(k);
    if ix < rest.len() {
        assert(rest[ix] == events[ix + k]);
        let e = rest[ix];
        let fresh = e.event_id > from;
        let command = saw_command || (fresh && e.command);
        let work = saw_work || (fresh && (e.command || e.event_type
            == EventType::WorkflowExecutionStarted));
        assert(type_at(rest, ix + 1) == type_at(events, ix + k + 1));
        if ix + 2 < rest.len() {
            assert(rest[ix + 2] == events[ix + k + 2]);
            if let Some(Attributes::WorkflowExecutionUpdateAcceptedEventAttributes(a)) = rest[ix
                + 2].attributes {
                lemma_last_live_before_shift(
                    events,
                    k,
                    from,
                    ix,
                    a.accepted_request_sequencing_event_id as int,
                );
            }
        }
        lemma_scan_shift(events, k, from, has_last_wft, ix + 1, command, work);
    }
}

proof fn lemma_scan_handled(events: Seq<HistoryEvent>, from: int, has_last_wft: bool, k: int, ix: int)
    requires
        0 <= ix <= k <= events.len(),
        forall|j: int| 0 <= j < k ==> (#[trigger] events[j]).event_id <= from,
    ensures
        scan(events, from, has_last_wft, ix, false, false) == scan(
            events,
            from,
            has_last_wft,
            k,
            false,
            false,
        ),
    decreases k - ix,
{
    if ix < k {
        lemma_scan_handled(events, from, has_last_wft, k, ix + 1);
    }
}

/// Dropping events that were handled already moves the boundary and changes nothing else.
pub proof fn law_v1_ignores_handled_events(
    events: Seq<HistoryEvent>,
    from: int,
    has_last_wft: bool,
    k: int,
)
    requires
        0 <= k <= skipped(events, from),
    ensures
        wft_end_v1(events, from, has_last_wft) == wft_end_v1(
            events.skip(k),
            from,
            has_last_wft,
        ).shifted(k),
{
    lemma_skipped(events, from);
    lemma_scan_handled(events, from, has_last_wft, k, 0);
    lemma_scan_shift(events, k, from, has_last_wft, 0, false, false);
}

} // verus!
