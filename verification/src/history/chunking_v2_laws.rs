//! Where the second chunking algorithm cuts a history, in terms of the history alone.

use super::chunking::{lemma_skipped_unique, skipped, NextWFTSeqEndIndex, WftEnd};
use super::chunking_v2::{
    command_run_end, only_empty_tasks_follow, preamble, scan, try_find_end_index_of_next_wft_seq_v2,
    Barrier,
};
use super::event::{type_at, EventType, HistoryEvent};
use vstd::prelude::*;

verus! {

/// There is an event at `i`, and it is of this kind.
pub open spec fn is_at(events: Seq<HistoryEvent>, i: int, kind: EventType) -> bool {
    0 <= i < events.len() && events[i].event_type == kind
}

/// `s` is the position of the first event whose id exceeds `from`, or the number of events.
pub open spec fn begins_at(events: Seq<HistoryEvent>, from: int, s: int) -> bool {
    &&& 0 <= s <= events.len()
    &&& forall|j: int| 0 <= j < s ==> (#[trigger] events[j]).event_id <= from
    &&& s < events.len() ==> events[s].event_id > from
}

/// From `s` on the start of the execution may stand, up to `c`; there the completion of the task
/// before may stand with its commands, up to `p`. Behind it come the events that the next task is to
/// observe.
pub open spec fn opens(events: Seq<HistoryEvent>, s: int, c: int, p: int) -> bool {
    &&& c == if is_at(events, s, EventType::WorkflowExecutionStarted) {
        s + 1
    } else {
        s
    }
    &&& if is_at(events, c, EventType::WorkflowTaskCompleted) {
        &&& c < p <= events.len()
        &&& forall|j: int| c < j < p ==> (#[trigger] events[j]).command
        &&& p < events.len() ==> !events[p].command
    } else {
        p == c
    }
}

/// Events of workflow tasks themselves neither end the execution nor are time sensitive.
pub open spec fn task_events_are_plain(events: Seq<HistoryEvent>) -> bool {
    forall|i: int|
        0 <= i < events.len() && ((#[trigger] events[i]).event_type
            == EventType::WorkflowTaskScheduled || events[i].event_type
            == EventType::WorkflowTaskStarted || events[i].event_type
            == EventType::WorkflowTaskCompleted || events[i].event_type
            == EventType::WorkflowTaskFailed || events[i].event_type
            == EventType::WorkflowTaskTimedOut) ==> !events[i].final_wf_execution
            && !events[i].wft_time_sensitive
}

/// The task that started at `k` failed or timed out.
pub open spec fn came_to_nothing(events: Seq<HistoryEvent>, k: int) -> bool {
    is_at(events, k + 1, EventType::WorkflowTaskFailed) || is_at(
        events,
        k + 1,
        EventType::WorkflowTaskTimedOut,
    )
}

/// A time sensitive event stands among those from `p` up to `k`.
pub open spec fn sensitive_before(events: Seq<HistoryEvent>, p: int, k: int) -> bool {
    exists|j: int| p <= j < k && (#[trigger] events[j]).wft_time_sensitive
}

/// The task that started at `k` was empty, and is known to be followed by one that no update and, on
/// behalf of pending updates, the end of the history sets apart.
pub open spec fn is_empty_before_another(
    events: Seq<HistoryEvent>,
    k: int,
    has_last_wft: bool,
    pending: bool,
) -> bool {
    &&& is_at(events, k + 1, EventType::WorkflowTaskCompleted)
    &&& is_at(events, k + 2, EventType::WorkflowTaskScheduled)
    &&& is_at(events, k + 3, EventType::WorkflowTaskStarted)
    &&& {
        ||| k + 4 == events.len() && has_last_wft && !pending
        ||| {
            &&& is_at(events, k + 4, EventType::WorkflowTaskCompleted)
            &&& if k + 5 == events.len() {
                has_last_wft && !pending
            } else {
                !is_at(events, k + 5, EventType::WorkflowExecutionUpdateAccepted)
            }
        }
    }
}

/// A logical task whose events to observe begin at `p` goes on behind the task that started at `k`:
/// that task came to nothing, or it was empty and nothing keeps it apart. `first` says that the start
/// of the execution stands before `p`, and `commands` that commands do.
pub open spec fn goes_on_behind(
    events: Seq<HistoryEvent>,
    p: int,
    first: bool,
    commands: bool,
    k: int,
    has_last_wft: bool,
    pending: bool,
) -> bool {
    ||| came_to_nothing(events, k)
    ||| {
        &&& !first && !commands
        &&& !sensitive_before(events, p, k)
        &&& is_empty_before_another(events, k, has_last_wft, pending)
    }
}

/// The first event at which the algorithm has to decide can be this one: the start of a task behind
/// which the logical task does not go on, or the end of the execution.
pub open spec fn decides(
    events: Seq<HistoryEvent>,
    p: int,
    first: bool,
    commands: bool,
    k: int,
    has_last_wft: bool,
    pending: bool,
) -> bool {
    &&& 0 <= k < events.len()
    &&& {
        ||| events[k].final_wf_execution
        ||| {
            &&& events[k].event_type == EventType::WorkflowTaskStarted
            &&& !goes_on_behind(events, p, first, commands, k, has_last_wft, pending)
        }
    }
}

/// From `k` on there is nothing but `Started`, `Completed`, `Scheduled`, over and over.
pub open spec fn only_empty_tasks_from(events: Seq<HistoryEvent>, k: int) -> bool {
    forall|j: int|
        k <= j < events.len() ==> (#[trigger] events[j]).event_type == if (j - k) % 3 == 0 {
            EventType::WorkflowTaskStarted
        } else if (j - k) % 3 == 1 {
            EventType::WorkflowTaskCompleted
        } else {
            EventType::WorkflowTaskScheduled
        }
}

/// The events known behind the task that started at `k` leave open whether a logical task ends there.
pub open spec fn is_open(
    events: Seq<HistoryEvent>,
    p: int,
    first: bool,
    commands: bool,
    k: int,
) -> bool {
    ||| k + 1 == events.len()
    ||| is_at(events, k + 1, EventType::WorkflowTaskCompleted) && k + 2 == events.len()
    ||| {
        &&& is_at(events, k + 1, EventType::WorkflowTaskCompleted)
        &&& is_at(events, k + 2, EventType::WorkflowTaskScheduled)
        &&& !first
        &&& !sensitive_before(events, p, k)
        &&& if commands {
            only_empty_tasks_from(events, k)
        } else {
            ||| k + 3 == events.len()
            ||| is_at(events, k + 3, EventType::WorkflowTaskStarted) && k + 4 == events.len()
            ||| {
                &&& is_at(events, k + 3, EventType::WorkflowTaskStarted)
                &&& is_at(events, k + 4, EventType::WorkflowTaskCompleted)
                &&& k + 5 == events.len()
            }
        }
    }
}

/// What is answered if `k` is the first event that decides. `None` stands for a malformed history.
pub open spec fn decided(
    events: Seq<HistoryEvent>,
    p: int,
    first: bool,
    commands: bool,
    k: int,
    has_last_wft: bool,
    pending: bool,
) -> Option<WftEnd> {
    if events[k].event_type != EventType::WorkflowTaskStarted {
        // The end of the execution has to be the end of the history.
        if k + 1 == events.len() && has_last_wft && !pending {
            Some(WftEnd::Tail)
        } else {
            None
        }
    } else if k + 1 < events.len() && !is_at(events, k + 1, EventType::WorkflowTaskCompleted)
        && !events[k + 1].final_wf_execution {
        None
    } else if is_open(events, p, first, commands, k) && !has_last_wft {
        Some(WftEnd::NeedMore)
    } else if !first && !commands && !sensitive_before(events, p, k) && is_at(
        events,
        k + 1,
        EventType::WorkflowTaskCompleted,
    ) && is_at(events, k + 2, EventType::WorkflowTaskScheduled) && is_at(
        events,
        k + 3,
        EventType::WorkflowTaskStarted,
    ) && is_at(events, k + 4, EventType::WorkflowTaskCompleted) && k + 5 == events.len() {
        // Updates wait for a task that is over.
        None
    } else {
        Some(WftEnd::Complete(k))
    }
}

spec fn barrier_at(
    events: Seq<HistoryEvent>,
    p: int,
    first: bool,
    commands: bool,
    ix: int,
) -> Barrier {
    if first || sensitive_before(events, p, ix) {
        Barrier::Firm
    } else if commands {
        Barrier::Commands
    } else {
        Barrier::Absent
    }
}

proof fn lemma_only_empty_tasks(events: Seq<HistoryEvent>, k: int)
    requires
        is_at(events, k, EventType::WorkflowTaskStarted),
    ensures
        only_empty_tasks_follow(events, k) == only_empty_tasks_from(events, k),
    decreases events.len() - k,
{
    let n = events.len();
    if is_at(events, k + 3, EventType::WorkflowTaskStarted) {
        lemma_only_empty_tasks(events, k + 3);
    }
    if only_empty_tasks_follow(events, k) {
        assert forall|j: int| k <= j < n implies (#[trigger] events[j]).event_type == if (j - k) % 3
            == 0 {
            EventType::WorkflowTaskStarted
        } else if (j - k) % 3 == 1 {
            EventType::WorkflowTaskCompleted
        } else {
            EventType::WorkflowTaskScheduled
        } by {
            if j >= k + 3 {
                assert(type_at(events, k + 1) is Some && type_at(events, k + 2) is Some && type_at(
                    events,
                    k + 3,
                ) is Some);
                assert(only_empty_tasks_from(events, k + 3));
                assert((j - k) % 3 == (j - (k + 3)) % 3);
            }
        }
    }
    if only_empty_tasks_from(events, k) {
        if k + 1 < n {
            assert(events[k + 1].event_type == EventType::WorkflowTaskCompleted);
        }
        if k + 2 < n {
            assert(events[k + 2].event_type == EventType::WorkflowTaskScheduled);
        }
        if k + 3 < n {
            assert(events[k + 3].event_type == EventType::WorkflowTaskStarted);
            assert forall|j: int| k + 3 <= j < n implies (#[trigger] events[j]).event_type == if (j
                - (k + 3)) % 3 == 0 {
                EventType::WorkflowTaskStarted
            } else if (j - (k + 3)) % 3 == 1 {
                EventType::WorkflowTaskCompleted
            } else {
                EventType::WorkflowTaskScheduled
            } by {
                assert((j - k) % 3 == (j - (k + 3)) % 3);
            }
        }
    }
}

proof fn lemma_scan_decides(
    events: Seq<HistoryEvent>,
    p: int,
    first: bool,
    commands: bool,
    ix: int,
    k: int,
    has_last_wft: bool,
    pending: bool,
)
    requires
        task_events_are_plain(events),
        0 <= p <= ix <= k <= events.len(),
        k < events.len() ==> decides(events, p, first, commands, k, has_last_wft, pending),
        forall|j: int|
            ix <= j < k ==> !#[trigger] decides(
                events,
                p,
                first,
                commands,
                j,
                has_last_wft,
                pending,
            ),
    ensures
        scan(
            events,
            ix,
            barrier_at(events, p, first, commands, ix),
            has_last_wft,
            pending,
        ) == if k < events.len() {
            decided(events, p, first, commands, k, has_last_wft, pending)
        } else if has_last_wft {
            Some(WftEnd::Tail)
        } else {
            Some(WftEnd::NeedMore)
        },
    decreases k - ix,
{
    if ix < events.len() {
        let e = events[ix];
        if e.event_type == EventType::WorkflowTaskStarted {
            lemma_only_empty_tasks(events, ix);
        }
        if ix < k {
            assert(!decides(events, p, first, commands, ix, has_last_wft, pending));
            if e.event_type == EventType::WorkflowTaskStarted {
                assert(!e.wft_time_sensitive);
                if came_to_nothing(events, ix) {
                    assert(!events[ix + 1].final_wf_execution
                        && !events[ix + 1].wft_time_sensitive);
                    assert(!decides(events, p, first, commands, ix + 1, has_last_wft, pending));
                    assert(ix + 2 <= k);
                    assert(sensitive_before(events, p, ix + 2) == sensitive_before(events, p, ix));
                    lemma_scan_decides(
                        events,
                        p,
                        first,
                        commands,
                        ix + 2,
                        k,
                        has_last_wft,
                        pending,
                    );
                } else {
                    assert(is_empty_before_another(events, ix, has_last_wft, pending));
                    assert(!events[ix + 1].final_wf_execution
                        && !events[ix + 1].wft_time_sensitive);
                    assert(!events[ix + 2].final_wf_execution
                        && !events[ix + 2].wft_time_sensitive);
                    assert(!decides(events, p, first, commands, ix + 1, has_last_wft, pending));
                    assert(!decides(events, p, first, commands, ix + 2, has_last_wft, pending));
                    assert(ix + 3 <= k);
                    assert(sensitive_before(events, p, ix + 3) == sensitive_before(events, p, ix));
                    if ix + 5 >= events.len() {
                        assert(decides(events, p, first, commands, ix + 3, has_last_wft, pending));
                        assert(k == ix + 3);
                    } else {
                        lemma_scan_decides(
                            events,
                            p,
                            first,
                            commands,
                            ix + 3,
                            k,
                            has_last_wft,
                            pending,
                        );
                    }
                }
            } else {
                assert(sensitive_before(events, p, ix + 1) == (sensitive_before(events, p, ix)
                    || e.wft_time_sensitive));
                lemma_scan_decides(
                    events,
                    p,
                    first,
                    commands,
                    ix + 1,
                    k,
                    has_last_wft,
                    pending,
                );
            }
        }
    }
}

proof fn lemma_command_run(events: Seq<HistoryEvent>, ix: int, p: int)
    requires
        0 <= ix <= p <= events.len(),
        forall|j: int| ix <= j < p ==> (#[trigger] events[j]).command,
        p < events.len() ==> !events[p].command,
    ensures
        command_run_end(events, ix) == p,
    decreases p - ix,
{
    if ix < p {
        assert(events[ix].command);
        lemma_command_run(events, ix + 1, p);
    }
}

proof fn lemma_preamble_is(events: Seq<HistoryEvent>, from: int, s: int, c: int, p: int)
    requires
        begins_at(events, from, s),
        opens(events, s, c, p),
    ensures
        skipped(events, from) == s,
        preamble(events, s) == (
            p,
            barrier_at(
                events,
                p,
                is_at(events, s, EventType::WorkflowExecutionStarted),
                p > c + 1,
                p,
            ),
        ),
        s <= p <= events.len(),
{
    lemma_skipped_unique(events, from, s);
    if is_at(events, c, EventType::WorkflowTaskCompleted) {
        lemma_command_run(events, c + 1, p);
    }
    assert(!sensitive_before(events, p, p));
}

/// Where the second algorithm cuts, in terms of the history alone. Of the events behind the opening
/// ones, those from `p` on, the first that decides settles the answer; if none does, no boundary is
/// left.
///
/// A task is passed over if it came to nothing, or if it was empty, the start of the execution and
/// commands do not open the logical task, no time sensitive event is among those to observe, and what
/// follows does not set it apart.
pub proof fn law_v2_cuts_at_the_first_deciding_event(
    events: &[HistoryEvent],
    from: i64,
    has_last_wft: bool,
    pending: bool,
    res: Option<NextWFTSeqEndIndex>,
    s: int,
    c: int,
    p: int,
    first: bool,
    commands: bool,
    k: int,
)
    requires
        call_ensures(
            try_find_end_index_of_next_wft_seq_v2,
            (events, from, has_last_wft, pending),
            res,
        ),
        task_events_are_plain(events@),
        begins_at(events@, from as int, s),
        opens(events@, s, c, p),
        first == (c > s),
        commands == (p > c + 1),
        p <= k <= events@.len(),
        k < events@.len() ==> decides(
            events@,
            p,
            first,
            commands,
            k,
            has_last_wft,
            pending,
        ),
        forall|j: int|
            p <= j < k ==> !#[trigger] decides(
                events@,
                p,
                first,
                commands,
                j,
                has_last_wft,
                pending,
            ),
    ensures
        k == events@.len() ==> (res matches Some(end) && end@ == if has_last_wft {
            WftEnd::Tail
        } else {
            WftEnd::NeedMore
        }),
        k < events@.len() ==> match decided(
            events@,
            p,
            first,
            commands,
            k,
            has_last_wft,
            pending,
        ) {
            Some(end) => res matches Some(found) && found@ == end,
            None => res is None,
        },
{
    lemma_preamble_is(events@, from as int, s, c, p);
    lemma_scan_decides(events@, p, first, commands, p, k, has_last_wft, pending);
}

proof fn first_deciding(
    events: Seq<HistoryEvent>,
    p: int,
    first: bool,
    commands: bool,
    ix: int,
    has_last_wft: bool,
    pending: bool,
) -> (k: int)
    requires
        0 <= ix <= events.len(),
    ensures
        ix <= k <= events.len(),
        k < events.len() ==> decides(events, p, first, commands, k, has_last_wft, pending),
        forall|j: int|
            ix <= j < k ==> !#[trigger] decides(
                events,
                p,
                first,
                commands,
                j,
                has_last_wft,
                pending,
            ),
    decreases events.len() - ix,
{
    if ix == events.len() || decides(events, p, first, commands, ix, has_last_wft, pending) {
        ix
    } else {
        first_deciding(events, p, first, commands, ix + 1, has_last_wft, pending)
    }
}

/// A logical task ends at a task that started and is neither passed over nor came to nothing, and it
/// passes over every task that started before: each of them came to nothing, or was empty, `Started`,
/// `Completed`, `Scheduled`, `Started`, without anything that keeps it apart.
pub proof fn law_v2_passes_over_only_idle_tasks(
    events: &[HistoryEvent],
    from: i64,
    has_last_wft: bool,
    pending: bool,
    end: usize,
    s: int,
    c: int,
    p: int,
    j: int,
)
    requires
        call_ensures(
            try_find_end_index_of_next_wft_seq_v2,
            (events, from, has_last_wft, pending),
            Some(NextWFTSeqEndIndex::Complete(end)),
        ),
        task_events_are_plain(events@),
        begins_at(events@, from as int, s),
        opens(events@, s, c, p),
        p <= j < end,
        events@[j].event_type == EventType::WorkflowTaskStarted,
    ensures
        p <= end < events@.len(),
        events@[end as int].event_type == EventType::WorkflowTaskStarted,
        !came_to_nothing(events@, end as int),
        came_to_nothing(events@, j) || {
            &&& !is_at(events@, s, EventType::WorkflowExecutionStarted)
            &&& p <= c + 1
            &&& !sensitive_before(events@, p, j)
            &&& is_at(events@, j + 1, EventType::WorkflowTaskCompleted)
            &&& is_at(events@, j + 2, EventType::WorkflowTaskScheduled)
            &&& is_at(events@, j + 3, EventType::WorkflowTaskStarted)
            &&& !(is_at(events@, j + 4, EventType::WorkflowTaskCompleted) && is_at(
                events@,
                j + 5,
                EventType::WorkflowExecutionUpdateAccepted,
            ))
        },
{
    let first = c > s;
    let commands = p > c + 1;
    lemma_preamble_is(events@, from as int, s, c, p);
    let k = first_deciding(events@, p, first, commands, p, has_last_wft, pending);
    lemma_scan_decides(events@, p, first, commands, p, k, has_last_wft, pending);
    assert(k == end);
    assert(!decides(events@, p, first, commands, j, has_last_wft, pending));
}

/// The event is one of a workflow task itself.
pub open spec fn is_task_event(e: HistoryEvent) -> bool {
    ||| e.event_type == EventType::WorkflowTaskScheduled
    ||| e.event_type == EventType::WorkflowTaskStarted
    ||| e.event_type == EventType::WorkflowTaskCompleted
    ||| e.event_type == EventType::WorkflowTaskFailed
    ||| e.event_type == EventType::WorkflowTaskTimedOut
}

proof fn lemma_firm(
    events: Seq<HistoryEvent>,
    ix: int,
    has_last_wft: bool,
    pending: bool,
    end: int,
    started: int,
)
    requires
        0 <= ix <= started < end,
        scan(events, ix, Barrier::Firm, has_last_wft, pending) == Some(WftEnd::Complete(end)),
        is_at(events, started, EventType::WorkflowTaskStarted),
    ensures
        came_to_nothing(events, started),
    decreases events.len() - ix,
{
    if events[ix].event_type == EventType::WorkflowTaskStarted {
        if ix < started {
            assert(type_at(events, ix + 1) == Some(EventType::WorkflowTaskFailed) || type_at(
                events,
                ix + 1,
            ) == Some(EventType::WorkflowTaskTimedOut));
            lemma_firm(events, ix + 2, has_last_wft, pending, end, started);
        }
    } else {
        lemma_firm(events, ix + 1, has_last_wft, pending, end, started);
    }
}

proof fn lemma_sensitive(
    events: Seq<HistoryEvent>,
    ix: int,
    barrier: Barrier,
    has_last_wft: bool,
    pending: bool,
    end: int,
    sensitive: int,
    started: int,
)
    requires
        0 <= ix <= sensitive < started < end,
        scan(events, ix, barrier, has_last_wft, pending) == Some(WftEnd::Complete(end)),
        sensitive < events.len(),
        events[sensitive].wft_time_sensitive,
        !is_task_event(events[sensitive]),
        is_at(events, started, EventType::WorkflowTaskStarted),
    ensures
        came_to_nothing(events, started),
    decreases events.len() - ix,
{
    if events[ix].event_type == EventType::WorkflowTaskStarted {
        match super::chunking_v2::judge_started(events, ix, barrier, has_last_wft, pending) {
            super::chunking_v2::StartedVerdict::SkipFailed => {
                assert(sensitive != ix + 1);
                lemma_sensitive(
                    events,
                    ix + 2,
                    barrier,
                    has_last_wft,
                    pending,
                    end,
                    sensitive,
                    started,
                );
            },
            super::chunking_v2::StartedVerdict::Collapse => {
                assert(sensitive != ix + 1 && sensitive != ix + 2);
                lemma_sensitive(
                    events,
                    ix + 3,
                    barrier,
                    has_last_wft,
                    pending,
                    end,
                    sensitive,
                    started,
                );
            },
            _ => {},
        }
    } else if ix == sensitive {
        lemma_firm(events, ix + 1, has_last_wft, pending, end, started);
    } else {
        lemma_sensitive(
            events,
            ix + 1,
            barrier.behind(events[ix].wft_time_sensitive),
            has_last_wft,
            pending,
            end,
            sensitive,
            started,
        );
    }
}

/// Behind a time sensitive event, of whatever kind but those of tasks themselves, a logical task ends at
/// the first task that did not come to nothing: every task that started between the event and the
/// boundary failed or timed out.
pub proof fn law_v2_time_sensitive_events_keep_their_task(
    events: &[HistoryEvent],
    from: i64,
    has_last_wft: bool,
    pending: bool,
    end: usize,
    s: int,
    c: int,
    p: int,
    sensitive: int,
    started: int,
)
    requires
        call_ensures(
            try_find_end_index_of_next_wft_seq_v2,
            (events, from, has_last_wft, pending),
            Some(NextWFTSeqEndIndex::Complete(end)),
        ),
        begins_at(events@, from as int, s),
        opens(events@, s, c, p),
        p <= sensitive < started < end,
        started < events@.len(),
        events@[sensitive].wft_time_sensitive,
        !is_task_event(events@[sensitive]),
        events@[started].event_type == EventType::WorkflowTaskStarted,
    ensures
        is_at(events@, started + 1, EventType::WorkflowTaskFailed) || is_at(
            events@,
            started + 1,
            EventType::WorkflowTaskTimedOut,
        ),
{
    lemma_preamble_is(events@, from as int, s, c, p);
    lemma_sensitive(
        events@,
        p,
        preamble(events@, s).1,
        has_last_wft,
        pending,
        end as int,
        sensitive,
        started,
    );
}

/// With the whole history at hand, a task behind a time sensitive event that was completed is where
/// the logical task ends, if it is the first to start that did not come to nothing.
pub proof fn law_v2_first_completed_task_behind_time_sensitive_event_ends_it(
    events: &[HistoryEvent],
    from: i64,
    pending: bool,
    res: Option<NextWFTSeqEndIndex>,
    s: int,
    c: int,
    p: int,
    sensitive: int,
    started: int,
)
    requires
        call_ensures(try_find_end_index_of_next_wft_seq_v2, (events, from, true, pending), res),
        task_events_are_plain(events@),
        begins_at(events@, from as int, s),
        opens(events@, s, c, p),
        p <= sensitive < started < events@.len(),
        events@[sensitive].wft_time_sensitive,
        events@[started].event_type == EventType::WorkflowTaskStarted,
        is_at(events@, started + 1, EventType::WorkflowTaskCompleted),
        forall|j: int|
            p <= j < started ==> !(#[trigger] events@[j]).final_wf_execution
                && (events@[j].event_type == EventType::WorkflowTaskStarted ==> is_at(
                events@,
                j + 1,
                EventType::WorkflowTaskFailed,
            ) || is_at(events@, j + 1, EventType::WorkflowTaskTimedOut)),
    ensures
        res matches Some(end) && end@ == WftEnd::Complete(started),
{
    let first = c > s;
    let commands = p > c + 1;
    lemma_preamble_is(events@, from as int, s, c, p);
    assert forall|j: int| p <= j < started implies !#[trigger] decides(
        events@,
        p,
        first,
        commands,
        j,
        true,
        pending,
    ) by {
        assert(!events@[j].final_wf_execution);
    }
    assert(sensitive_before(events@, p, started));
    assert(decides(events@, p, first, commands, started, true, pending));
    lemma_scan_decides(events@, p, first, commands, p, started, true, pending);
}

} // verus!
