//! Where the legacy chunking algorithm cuts a history, in terms of the history alone.

use super::chunking::{NextWFTSeqEndIndex, WftEnd};
use super::chunking_v1::{find_end_index_of_next_wft_seq_v1, last_live_before, live_started, scan};
use super::chunking_v2_laws::is_at;
use super::event::{Attributes, EventType, HistoryEvent};
use vstd::prelude::*;

verus! {

/// A task behind `from` started at `k` and did not come to nothing: neither it nor the execution was
/// over with the next event.
pub open spec fn is_live(events: Seq<HistoryEvent>, from: int, k: int) -> bool {
    &&& is_at(events, k, EventType::WorkflowTaskStarted)
    &&& events[k].event_id > from
    &&& !is_at(events, k + 1, EventType::WorkflowTaskFailed)
    &&& !is_at(events, k + 1, EventType::WorkflowTaskTimedOut)
    &&& !is_at(events, k + 1, EventType::WorkflowExecutionTimedOut)
    &&& !is_at(events, k + 1, EventType::WorkflowExecutionTerminated)
    &&& !is_at(events, k + 1, EventType::WorkflowExecutionCanceled)
}

/// A command behind `from` stands at `k` or before.
pub open spec fn command_by(events: Seq<HistoryEvent>, from: int, k: int) -> bool {
    exists|j: int|
        0 <= j <= k && j < events.len() && (#[trigger] events[j]).event_id > from
            && events[j].command
}

/// A command, or the start of the execution, behind `from` stands at `k` or before.
pub open spec fn work_by(events: Seq<HistoryEvent>, from: int, k: int) -> bool {
    exists|j: int|
        0 <= j <= k && j < events.len() && (#[trigger] events[j]).event_id > from && (
        events[j].command || events[j].event_type == EventType::WorkflowExecutionStarted)
}

/// The task that started at `k` is known to be completed, and to be followed by something.
pub open spec fn is_completed_with_more(events: Seq<HistoryEvent>, k: int) -> bool {
    is_at(events, k + 1, EventType::WorkflowTaskCompleted) && k + 2 < events.len()
}

/// A logical task behind `from` may end at `k`: with the execution, with a completed task that is no
/// empty one before another, or with a task that is last behind a command or the start of the
/// execution.
pub open spec fn may_end_at(events: Seq<HistoryEvent>, from: int, k: int) -> bool {
    &&& 0 <= k < events.len()
    &&& {
        ||| events[k].event_id > from && events[k].final_wf_execution
        ||| {
            &&& is_live(events, from, k)
            &&& if is_completed_with_more(events, k) {
                command_by(events, from, k) || !is_at(
                    events,
                    k + 2,
                    EventType::WorkflowTaskScheduled,
                )
            } else {
                work_by(events, from, k)
            }
        }
    }
}

/// The update accepted behind the task that started at `k`, if there is one, was sequenced at this id.
pub open spec fn accepts_update_at(events: Seq<HistoryEvent>, k: int, sequencing_id: int) -> bool {
    &&& is_completed_with_more(events, k)
    &&& events[k + 2].attributes matches Some(
        Attributes::WorkflowExecutionUpdateAcceptedEventAttributes(a),
    )
    &&& a.accepted_request_sequencing_event_id == sequencing_id
}

proof fn lemma_scan(
    events: Seq<HistoryEvent>,
    from: int,
    has_last_wft: bool,
    ix: int,
    saw_command: bool,
    saw_work: bool,
    k: int,
)
    requires
        0 <= ix <= k <= events.len(),
        saw_command == command_by(events, from, ix - 1),
        saw_work == work_by(events, from, ix - 1),
        k < events.len() ==> may_end_at(events, from, k),
        forall|j: int| ix <= j < k ==> !#[trigger] may_end_at(events, from, j),
    ensures
        k == events.len() ==> scan(events, from, has_last_wft, ix, saw_command, saw_work) == if has_last_wft {
            WftEnd::Tail
        } else {
            WftEnd::NeedMore
        },
        k < events.len() && events[k].event_id > from && events[k].final_wf_execution ==> scan(
            events,
            from,
            has_last_wft,
            ix,
            saw_command,
            saw_work,
        ) == WftEnd::Complete(k),
        k < events.len() && !(events[k].event_id > from && events[k].final_wf_execution) ==> scan(
            events,
            from,
            has_last_wft,
            ix,
            saw_command,
            saw_work,
        ) == WftEnd::Complete(
            if is_completed_with_more(events, k) {
                super::chunking_v1::completed_boundary(events, from, k)
            } else {
                k
            },
        ),
    decreases k - ix,
{
    if ix < events.len() {
        let e = events[ix];
        let fresh = e.event_id > from;
        let command = saw_command || (fresh && e.command);
        let work = saw_work || (fresh && (e.command || e.event_type
            == EventType::WorkflowExecutionStarted));
        assert(command == command_by(events, from, ix));
        assert(work == work_by(events, from, ix));
        assert(live_started(events, from, ix) == is_live(events, from, ix));
        if ix < k {
            assert(!may_end_at(events, from, ix));
            lemma_scan(events, from, has_last_wft, ix + 1, command, work, k);
        }
    }
}

proof fn lemma_last_live(events: Seq<HistoryEvent>, from: int, ix: int, sequencing_id: int)
    requires
        ix < events.len(),
    ensures
        match last_live_before(events, from, ix, sequencing_id) {
            Some(r) => {
                &&& 0 <= r <= ix
                &&& is_live(events, from, r)
                &&& events[r].event_id < sequencing_id
                &&& forall|t: int|
                    r < t <= ix ==> !(#[trigger] is_live(events, from, t) && events[t].event_id
                        < sequencing_id)
            },
            None => forall|t: int|
                0 <= t <= ix ==> !(#[trigger] is_live(events, from, t) && events[t].event_id
                    < sequencing_id),
        },
    decreases ix + 1,
{
    if ix >= 0 {
        assert(live_started(events, from, ix) == is_live(events, from, ix));
        lemma_last_live(events, from, ix - 1, sequencing_id);
    }
}

/// Where the legacy algorithm cuts, in terms of the history alone: at the first event at which a
/// logical task may end. If an update was accepted there on behalf of an earlier task, the boundary is
/// the last live start before that request instead. If there is no such event, no boundary is left.
///
/// So a task is passed over only if it came to nothing, if it was empty and no command stands before
/// it, or if it is last and nothing was done yet.
pub proof fn law_v1_cuts_where_a_task_may_end(
    events: &[HistoryEvent],
    from: i64,
    has_last_wft: bool,
    res: NextWFTSeqEndIndex,
    k: int,
)
    requires
        call_ensures(find_end_index_of_next_wft_seq_v1, (events, from, has_last_wft), res),
        0 <= k <= events@.len(),
        k < events@.len() ==> may_end_at(events@, from as int, k),
        forall|j: int| 0 <= j < k ==> !#[trigger] may_end_at(events@, from as int, j),
    ensures
        k == events@.len() ==> res@ == if has_last_wft {
            WftEnd::Tail
        } else {
            WftEnd::NeedMore
        },
        k < events@.len() && ((events@[k].event_id > from && events@[k].final_wf_execution) || !(
        is_completed_with_more(events@, k) && events@[k + 2].attributes matches Some(
            Attributes::WorkflowExecutionUpdateAcceptedEventAttributes(_),
        ))) ==> res@ == WftEnd::Complete(k),
        forall|id: int|
            k < events@.len() && !(events@[k].event_id > from && events@[k].final_wf_execution)
                && #[trigger] accepts_update_at(events@, k, id) ==> {
                &&& res@ matches WftEnd::Complete(end)
                &&& 0 <= end <= k
                &&& is_live(events@, from as int, end)
                &&& forall|t: int|
                    end < t <= k && events@[end].event_id < id ==> !(#[trigger] is_live(
                        events@,
                        from as int,
                        t,
                    ) && events@[t].event_id < id)
                &&& events@[end].event_id >= id ==> end == k && forall|t: int|
                    0 <= t <= k ==> !(#[trigger] is_live(events@, from as int, t)
                        && events@[t].event_id < id)
            },
{
    let from = from as int;
    assert(!command_by(events@, from, -1));
    assert(!work_by(events@, from, -1));
    lemma_scan(events@, from, has_last_wft, 0, false, false, k);
    if k < events@.len() && is_completed_with_more(events@, k) {
        if let Some(Attributes::WorkflowExecutionUpdateAcceptedEventAttributes(a)) = events@[k
            + 2].attributes {
            lemma_last_live(events@, from, k, a.accepted_request_sequencing_event_id as int);
        }
    }
}

proof fn first_end(events: Seq<HistoryEvent>, from: int, ix: int) -> (k: int)
    requires
        0 <= ix <= events.len(),
    ensures
        ix <= k <= events.len(),
        k < events.len() ==> may_end_at(events, from, k),
        forall|j: int| ix <= j < k ==> !#[trigger] may_end_at(events, from, j),
    decreases events.len() - ix,
{
    if ix == events.len() || may_end_at(events, from, ix) {
        ix
    } else {
        first_end(events, from, ix + 1)
    }
}

/// A live task that is completed and followed by anything but the schedule of another one is never
/// passed over, nor is one that is followed by that behind a command: no logical task ends behind it.
pub proof fn law_v1_passes_over_only_empty_tasks(
    events: &[HistoryEvent],
    from: i64,
    has_last_wft: bool,
    end: usize,
    j: int,
)
    requires
        call_ensures(
            find_end_index_of_next_wft_seq_v1,
            (events, from, has_last_wft),
            NextWFTSeqEndIndex::Complete(end),
        ),
        0 <= j < end,
        is_live(events@, from as int, j),
        j + 2 < events@.len(),
        is_at(events@, j + 1, EventType::WorkflowTaskCompleted),
    ensures
        is_at(events@, j + 2, EventType::WorkflowTaskScheduled),
        forall|i: int|
            0 <= i <= j ==> !((#[trigger] events@[i]).event_id > from && events@[i].command),
{
    let k = first_end(events@, from as int, 0);
    law_v1_cuts_where_a_task_may_end(
        events,
        from,
        has_last_wft,
        NextWFTSeqEndIndex::Complete(end),
        k,
    );
    if k < events@.len() {
        if let Some(Attributes::WorkflowExecutionUpdateAcceptedEventAttributes(a)) = events@[if k + 2
            < events@.len() {
            k + 2
        } else {
            k
        }].attributes {
            if is_completed_with_more(events@, k) {
                assert(accepts_update_at(
                    events@,
                    k,
                    a.accepted_request_sequencing_event_id as int,
                ));
            }
        }
        assert(end <= k);
    }
    assert(!may_end_at(events@, from as int, j));
    assert forall|i: int| 0 <= i <= j implies !((#[trigger] events@[i]).event_id > from
        && events@[i].command) by {
        if events@[i].event_id > from && events@[i].command {
            assert(command_by(events@, from as int, j));
        }
    }
}

} // verus!
