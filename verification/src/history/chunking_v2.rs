//! The second chunking algorithm.
//!
//! A logical workflow task may span several real ones: empty tasks (heartbeats) and failed or timed
//! out attempts are swallowed by the task that follows them. The algorithm answers only what no
//! later event can change.

use super::chunking::{
    lemma_skipped, lemma_skipped_unique, no_boundary, skipped, starting_index_after_skipping,
    NextWFTSeqEndIndex, WftEnd,
};
use super::event::{event_type_ahead, type_at, EventType, HistoryEvent};
use vstd::prelude::*;

verus! {

/// What the events that follow a `WorkflowTaskStarted` say about it.
#[derive(Clone, Copy, Debug, PartialEq, Eq, Structural)]
pub enum StartedVerdict {
    /// The logical task ends at this started event.
    Conclude,
    /// The logical task ends three events later, at the started event of the next real task.
    ConcludeAhead,
    /// The events at hand do not decide.
    NeedMore,
    /// The task failed or timed out: go on behind it.
    SkipFailed,
    /// The task was empty: go on at the started event of the next real task.
    Collapse,
    /// No history holds this sequence of events.
    Malformed,
}

/// What keeps a task from being merged with the next one.
#[derive(Clone, Copy, Debug, PartialEq, Eq, Structural)]
pub enum Barrier {
    /// Nothing: if the task turns out empty, it is merged.
    Absent,
    /// Commands of the task before it. They decide unless only empty tasks are known to follow, which
    /// more history may go on with.
    Commands,
    /// The start of the execution, or an event that needs a task of its own.
    Firm,
}

impl Barrier {
    /// The barrier behind an event, which may need a task of its own.
    pub open spec fn behind(self, wft_time_sensitive: bool) -> Barrier {
        if wft_time_sensitive {
            Barrier::Firm
        } else {
            self
        }
    }
}

/// What is concluded at a started event when the events known to follow it decide nothing against
/// it: everything, once there is nothing more to fetch.
pub open spec fn at_end(has_last_wft: bool) -> StartedVerdict {
    if has_last_wft { StartedVerdict::Conclude } else { StartedVerdict::NeedMore }
}

/// Verdict for the sequence `Started, Completed, Scheduled, Started` at `ix`.
pub open spec fn judge_heartbeat(
    events: Seq<HistoryEvent>,
    ix: int,
    has_last_wft: bool,
    pending: bool,
) -> StartedVerdict {
    match type_at(events, ix + 4) {
        None => if has_last_wft && !pending {
            StartedVerdict::ConcludeAhead
        } else {
            at_end(has_last_wft)
        },
        Some(EventType::WorkflowTaskCompleted) => match type_at(events, ix + 5) {
            None => if !has_last_wft {
                StartedVerdict::NeedMore
            } else if pending {
                StartedVerdict::Malformed
            } else {
                StartedVerdict::ConcludeAhead
            },
            Some(EventType::WorkflowExecutionUpdateAccepted) => StartedVerdict::Conclude,
            Some(_) => StartedVerdict::Collapse,
        },
        Some(_) => StartedVerdict::Conclude,
    }
}

/// Nothing but empty tasks follows the `WorkflowTaskStarted` event at `ix`, up to the last event; the
/// last of them may be cut short.
pub open spec fn only_empty_tasks_follow(events: Seq<HistoryEvent>, ix: int) -> bool
    decreases events.len() - ix,
{
    match type_at(events, ix + 1) {
        None => true,
        Some(EventType::WorkflowTaskCompleted) => match type_at(events, ix + 2) {
            None => true,
            Some(EventType::WorkflowTaskScheduled) => match type_at(events, ix + 3) {
                None => true,
                Some(EventType::WorkflowTaskStarted) => ix + 3 < events.len()
                    && only_empty_tasks_follow(events, ix + 3),
                Some(_) => false,
            },
            Some(_) => false,
        },
        Some(_) => false,
    }
}

/// Verdict for the `WorkflowTaskStarted` event at `ix`.
///
/// `barrier` says what keeps the task from being merged with the next one. `pending` says that
/// speculative updates wait for the last task of the history.
pub open spec fn judge_started(
    events: Seq<HistoryEvent>,
    ix: int,
    barrier: Barrier,
    has_last_wft: bool,
    pending: bool,
) -> StartedVerdict {
    match type_at(events, ix + 1) {
        None => at_end(has_last_wft),
        Some(EventType::WorkflowTaskFailed) | Some(EventType::WorkflowTaskTimedOut) => {
            StartedVerdict::SkipFailed
        },
        Some(EventType::WorkflowTaskCompleted) => match type_at(events, ix + 2) {
            None => at_end(has_last_wft),
            Some(EventType::WorkflowTaskScheduled) => match barrier {
                Barrier::Firm => StartedVerdict::Conclude,
                Barrier::Commands => if only_empty_tasks_follow(events, ix) {
                    at_end(has_last_wft)
                } else {
                    StartedVerdict::Conclude
                },
                Barrier::Absent => match type_at(events, ix + 3) {
                    None => at_end(has_last_wft),
                    Some(EventType::WorkflowTaskStarted) => judge_heartbeat(
                        events,
                        ix,
                        has_last_wft,
                        pending,
                    ),
                    Some(_) => StartedVerdict::Conclude,
                },
            },
            Some(_) => StartedVerdict::Conclude,
        },
        Some(_) => if events[ix + 1].final_wf_execution {
            StartedVerdict::Conclude
        } else {
            StartedVerdict::Malformed
        },
    }
}

/// Position of the first event at or after `ix` that is no command.
pub open spec fn command_run_end(events: Seq<HistoryEvent>, ix: int) -> int
    decreases events.len() - ix,
{
    if 0 <= ix < events.len() && events[ix].command {
        command_run_end(events, ix + 1)
    } else {
        ix
    }
}

/// What precedes the inbound events of a logical task that starts at `ix`: an optional
/// `WorkflowExecutionStarted`, then an optional `WorkflowTaskCompleted` with its commands. Gives the
/// position behind it, and what it puts in the way of merging the task with the next one.
pub open spec fn preamble(events: Seq<HistoryEvent>, ix: int) -> (int, Barrier) {
    let first = type_at(events, ix) == Some(EventType::WorkflowExecutionStarted);
    let ix1 = if first { ix + 1 } else { ix };
    if type_at(events, ix1) == Some(EventType::WorkflowTaskCompleted) {
        let end = command_run_end(events, ix1 + 1);
        (
            end,
            if first {
                Barrier::Firm
            } else if end > ix1 + 1 {
                Barrier::Commands
            } else {
                Barrier::Absent
            },
        )
    } else {
        (
            ix1,
            if first {
                Barrier::Firm
            } else {
                Barrier::Absent
            },
        )
    }
}

/// The answer for the events from `ix` on, behind the preamble. `None` for a malformed history.
pub open spec fn scan(
    events: Seq<HistoryEvent>,
    ix: int,
    barrier: Barrier,
    has_last_wft: bool,
    pending: bool,
) -> Option<WftEnd>
    decreases events.len() - ix,
{
    if ix < 0 || ix >= events.len() {
        Some(no_boundary(has_last_wft))
    } else if events[ix].event_type == EventType::WorkflowTaskStarted {
        match judge_started(events, ix, barrier, has_last_wft, pending) {
            StartedVerdict::Conclude => Some(WftEnd::Complete(ix)),
            StartedVerdict::ConcludeAhead => Some(WftEnd::Complete(ix + 3)),
            StartedVerdict::NeedMore => Some(WftEnd::NeedMore),
            StartedVerdict::SkipFailed => scan(
                events,
                ix + 2,
                barrier,
                has_last_wft,
                pending,
            ),
            StartedVerdict::Collapse => scan(
                events,
                ix + 3,
                barrier,
                has_last_wft,
                pending,
            ),
            StartedVerdict::Malformed => None,
        }
    } else if events[ix].final_wf_execution {
        if ix + 1 < events.len() || !has_last_wft || pending {
            None
        } else {
            Some(WftEnd::Tail)
        }
    } else {
        scan(
            events,
            ix + 1,
            barrier.behind(events[ix].wft_time_sensitive),
            has_last_wft,
            pending,
        )
    }
}

/// Where the logical task behind event id `from` ends. `None` for a malformed history: a started
/// task that is followed by neither an outcome nor the end of the execution, events behind the end
/// of the execution, or speculative updates that wait for a task which is already over.
pub open spec fn wft_end_v2(
    events: Seq<HistoryEvent>,
    from: int,
    has_last_wft: bool,
    pending: bool,
) -> Option<WftEnd> {
    let (ix, barrier) = preamble(events, skipped(events, from));
    scan(events, ix, barrier, has_last_wft, pending)
}

/// Whether nothing but empty tasks follows the `WorkflowTaskStarted` event at `ix`.
fn has_only_empty_tasks_ahead(events: &[HistoryEvent], ix: usize) -> (res: bool)
    requires
        ix < events@.len(),
    ensures
        res == only_empty_tasks_follow(events@, ix as int),
{
    let mut at: usize = ix;
    loop
        invariant
            ix <= at < events@.len(),
            only_empty_tasks_follow(events@, ix as int) == only_empty_tasks_follow(
                events@,
                at as int,
            ),
        decreases events@.len() - at,
    {
        match event_type_ahead(events, at, 1) {
            None => {
                return true;
            },
            Some(EventType::WorkflowTaskCompleted) => {},
            Some(_) => {
                return false;
            },
        }
        match event_type_ahead(events, at, 2) {
            None => {
                return true;
            },
            Some(EventType::WorkflowTaskScheduled) => {},
            Some(_) => {
                return false;
            },
        }
        match event_type_ahead(events, at, 3) {
            None => {
                return true;
            },
            Some(EventType::WorkflowTaskStarted) => {},
            Some(_) => {
                return false;
            },
        }
        at += 3;
    }
}

/// Verdict for the `WorkflowTaskStarted` event at `ix`.
fn started_verdict(
    events: &[HistoryEvent],
    ix: usize,
    barrier: Barrier,
    has_last_wft: bool,
    has_pending_speculative_updates: bool,
) -> (res: StartedVerdict)
    requires
        ix < events@.len(),
    ensures
        res == judge_started(
            events@,
            ix as int,
            barrier,
            has_last_wft,
            has_pending_speculative_updates,
        ),
{
    let open = if has_last_wft { StartedVerdict::Conclude } else { StartedVerdict::NeedMore };
    match event_type_ahead(events, ix, 1) {
        // Started -> (end, or unknown: may turn out completed, failed or timed out)
        None => open,
        Some(EventType::WorkflowTaskCompleted) => match event_type_ahead(events, ix, 2) {
            // Started -> Completed -> (end, or unknown: may be Scheduled or UpdateAccepted)
            None => open,
            Some(EventType::WorkflowTaskScheduled) => {
                match barrier {
                    Barrier::Firm => {
                        return StartedVerdict::Conclude;
                    },
                    Barrier::Commands => {
                        return if has_only_empty_tasks_ahead(events, ix) {
                            open
                        } else {
                            StartedVerdict::Conclude
                        };
                    },
                    Barrier::Absent => {},
                }
                match event_type_ahead(events, ix, 3) {
                    None => open,
                    Some(EventType::WorkflowTaskStarted) => match event_type_ahead(events, ix, 4) {
                        None => {
                            if has_last_wft && !has_pending_speculative_updates {
                                // An empty task, and the next one is the last event there is.
                                StartedVerdict::ConcludeAhead
                            } else {
                                // Pending updates belong to the last task, which then cannot
                                // swallow this one.
                                open
                            }
                        },
                        Some(EventType::WorkflowTaskCompleted) => match event_type_ahead(
                            events,
                            ix,
                            5,
                        ) {
                            None => {
                                if !has_last_wft {
                                    StartedVerdict::NeedMore
                                } else if has_pending_speculative_updates {
                                    StartedVerdict::Malformed
                                } else {
                                    StartedVerdict::ConcludeAhead
                                }
                            },
                            // The update was accepted by the second task.
                            Some(
                                EventType::WorkflowExecutionUpdateAccepted,
                            ) => StartedVerdict::Conclude,
                            Some(_) => StartedVerdict::Collapse,
                        },
                        Some(_) => StartedVerdict::Conclude,
                    },
                    Some(_) => StartedVerdict::Conclude,
                }
            },
            Some(_) => StartedVerdict::Conclude,
        },
        Some(EventType::WorkflowTaskFailed) | Some(
            EventType::WorkflowTaskTimedOut,
        ) => StartedVerdict::SkipFailed,
        Some(_) => {
            if events[ix + 1].is_final_wf_execution_event() {
                StartedVerdict::Conclude
            } else {
                StartedVerdict::Malformed
            }
        },
    }
}

/// Finds where the logical task behind `from_event_id` ends, or `None` if the history is malformed.
///
/// A command among the inbound events is passed over like any other event.
pub fn try_find_end_index_of_next_wft_seq_v2(
    events: &[HistoryEvent],
    from_event_id: i64,
    has_last_wft: bool,
    has_pending_speculative_updates: bool,
) -> (res: Option<NextWFTSeqEndIndex>)
    ensures
        res is Some <==> wft_end_v2(
            events@,
            from_event_id as int,
            has_last_wft,
            has_pending_speculative_updates,
        ) is Some,
        res matches Some(end) ==> wft_end_v2(
            events@,
            from_event_id as int,
            has_last_wft,
            has_pending_speculative_updates,
        ) == Some(end@),
{
    proof {
        lemma_skipped(events@, from_event_id as int);
    }
    let ghost start = skipped(events@, from_event_id as int);
    let ghost goal = wft_end_v2(
        events@,
        from_event_id as int,
        has_last_wft,
        has_pending_speculative_updates,
    );
    let len: usize = events.len();
    // Some updates repeat events that were handled already.
    let mut ix: usize = match starting_index_after_skipping(events, from_event_id) {
        Some(ix) => ix,
        None => len,
    };
    let mut barrier = Barrier::Absent;

    if matches!(event_type_ahead(events, ix, 0), Some(EventType::WorkflowExecutionStarted)) {
        ix += 1;
        barrier = Barrier::Firm;
    }
    if matches!(event_type_ahead(events, ix, 0), Some(EventType::WorkflowTaskCompleted)) {
        ix += 1;
        // Commands here result from the previous task.
        while ix < len && events[ix].is_command_event()
            invariant
                ix <= len == events@.len(),
                preamble(events@, start) == (
                    command_run_end(events@, ix as int),
                    if barrier == Barrier::Absent && command_run_end(events@, ix as int) > ix {
                        Barrier::Commands
                    } else {
                        barrier
                    },
                ),
            ensures
                preamble(events@, start) == (ix as int, barrier),
            decreases events@.len() - ix,
        {
            proof {
                lemma_command_run_end(events@, ix as int + 1);
            }
            if let Barrier::Absent = barrier {
                barrier = Barrier::Commands;
            }
            ix += 1;
        }
    }
    while ix < len
        invariant
            ix <= len == events@.len(),
            goal == scan(
                events@,
                ix as int,
                barrier,
                has_last_wft,
                has_pending_speculative_updates,
            ),
            goal == wft_end_v2(
                events@,
                from_event_id as int,
                has_last_wft,
                has_pending_speculative_updates,
            ),
        decreases events@.len() - ix,
    {
        let e0 = &events[ix];
        match e0.event_type() {
            EventType::WorkflowTaskStarted => match started_verdict(
                events,
                ix,
                barrier,
                has_last_wft,
                has_pending_speculative_updates,
            ) {
                StartedVerdict::Conclude => {
                    return Some(NextWFTSeqEndIndex::Complete(ix));
                },
                StartedVerdict::ConcludeAhead => {
                    return Some(NextWFTSeqEndIndex::Complete(ix + 3));
                },
                StartedVerdict::NeedMore => {
                    return Some(NextWFTSeqEndIndex::NeedMore);
                },
                StartedVerdict::SkipFailed => {
                    ix += 2;
                },
                StartedVerdict::Collapse => {
                    ix += 3;
                },
                StartedVerdict::Malformed => {
                    return None;
                },
            },
            _ => {
                if e0.is_final_wf_execution_event() {
                    if ix + 1 < len || !has_last_wft || has_pending_speculative_updates {
                        return None;
                    }
                    return Some(NextWFTSeqEndIndex::Tail);
                }
                if e0.is_wft_time_sensitive_event() {
                    barrier = Barrier::Firm;
                }
                ix += 1;
            },
        }
    }
    if has_last_wft {
        Some(NextWFTSeqEndIndex::Tail)
    } else {
        Some(NextWFTSeqEndIndex::NeedMore)
    }
}

/// Finds where the logical task behind `from_event_id` ends.
pub fn find_end_index_of_next_wft_seq_v2(
    events: &[HistoryEvent],
    from_event_id: i64,
    has_last_wft: bool,
    has_pending_speculative_updates: bool,
) -> (res: NextWFTSeqEndIndex)
    requires
        wft_end_v2(
            events@,
            from_event_id as int,
            has_last_wft,
            has_pending_speculative_updates,
        ) is Some,
    ensures
        wft_end_v2(
            events@,
            from_event_id as int,
            has_last_wft,
            has_pending_speculative_updates,
        ) == Some(res@),
{
    match try_find_end_index_of_next_wft_seq_v2(
        events,
        from_event_id,
        has_last_wft,
        has_pending_speculative_updates,
    ) {
        Some(end) => end,
        // Ruled out by the precondition.
        None => NextWFTSeqEndIndex::NeedMore,
    }
}

/// A run of commands ends where it starts or later, and within the events.
proof fn lemma_command_run_end(events: Seq<HistoryEvent>, ix: int)
    requires
        0 <= ix <= events.len(),
    ensures
        ix <= command_run_end(events, ix) <= events.len(),
        forall|j: int|
            ix <= j < command_run_end(events, ix) ==> (#[trigger] events[j]).command,
    decreases events.len() - ix,
{
    if ix < events.len() && events[ix].command {
        lemma_command_run_end(events, ix + 1);
    }
}

/// The task at `j` may be swallowed by a later one: it failed or timed out, or it was empty.
pub open spec fn idle_task(events: Seq<HistoryEvent>, j: int) -> bool {
    ||| type_at(events, j + 1) == Some(EventType::WorkflowTaskFailed)
    ||| type_at(events, j + 1) == Some(EventType::WorkflowTaskTimedOut)
    ||| {
        &&& type_at(events, j + 1) == Some(EventType::WorkflowTaskCompleted)
        &&& type_at(events, j + 2) == Some(EventType::WorkflowTaskScheduled)
        &&& type_at(events, j + 3) == Some(EventType::WorkflowTaskStarted)
    }
}

/// The preamble ends where it starts or later, and within the events.
proof fn lemma_preamble(events: Seq<HistoryEvent>, ix: int)
    requires
        0 <= ix <= events.len(),
    ensures
        ix <= preamble(events, ix).0 <= events.len(),
{
    let ix1 = if type_at(events, ix) == Some(EventType::WorkflowExecutionStarted) {
        ix + 1
    } else {
        ix
    };
    if type_at(events, ix1) == Some(EventType::WorkflowTaskCompleted) {
        lemma_command_run_end(events, ix1 + 1);
    }
}

proof fn lemma_scan_boundary(
    events: Seq<HistoryEvent>,
    ix: int,
    barrier: Barrier,
    has_last_wft: bool,
    pending: bool,
)
    requires
        0 <= ix <= events.len(),
    ensures
        scan(events, ix, barrier, has_last_wft, pending) == Some(WftEnd::NeedMore) ==> !has_last_wft,
        scan(events, ix, barrier, has_last_wft, pending) == Some(WftEnd::Tail) ==> has_last_wft,
        scan(events, ix, barrier, has_last_wft, pending) matches Some(WftEnd::Complete(end)) ==> {
            &&& ix <= end < events.len()
            &&& events[end].event_type == EventType::WorkflowTaskStarted
            &&& type_at(events, end + 1) != Some(EventType::WorkflowTaskFailed)
            &&& type_at(events, end + 1) != Some(EventType::WorkflowTaskTimedOut)
            &&& forall|j: int|
                ix <= j < end && (#[trigger] events[j]).event_type == EventType::WorkflowTaskStarted
                    ==> idle_task(events, j)
        },
    decreases events.len() - ix,
{
    if ix < events.len() {
        if events[ix].event_type == EventType::WorkflowTaskStarted {
            match judge_started(events, ix, barrier, has_last_wft, pending) {
                StartedVerdict::SkipFailed => {
                    lemma_scan_boundary(events, ix + 2, barrier, has_last_wft, pending);
                },
                StartedVerdict::Collapse => {
                    lemma_scan_boundary(events, ix + 3, barrier, has_last_wft, pending);
                },
                _ => {},
            }
        } else if !events[ix].final_wf_execution {
            lemma_scan_boundary(
                events,
                ix + 1,
                barrier.behind(events[ix].wft_time_sensitive),
                has_last_wft,
                pending,
            );
        }
    }
}

/// A boundary is always a `WorkflowTaskStarted` event behind the ids already handled, and never one
/// of an attempt that failed or timed out. With the whole history at hand more is never asked for;
/// without it the tail is never declared.
pub proof fn law_v2_boundary(
    events: Seq<HistoryEvent>,
    from: int,
    has_last_wft: bool,
    pending: bool,
)
    ensures
        wft_end_v2(events, from, has_last_wft, pending) == Some(WftEnd::NeedMore) ==> !has_last_wft,
        wft_end_v2(events, from, has_last_wft, pending) == Some(WftEnd::Tail) ==> has_last_wft,
        wft_end_v2(events, from, has_last_wft, pending) matches Some(WftEnd::Complete(end)) ==> {
            &&& skipped(events, from) <= end < events.len()
            &&& events[end].event_type == EventType::WorkflowTaskStarted
            &&& type_at(events, end + 1) != Some(EventType::WorkflowTaskFailed)
            &&& type_at(events, end + 1) != Some(EventType::WorkflowTaskTimedOut)
        },
{
    lemma_skipped(events, from);
    lemma_preamble(events, skipped(events, from));
    let (ix, barrier) = preamble(events, skipped(events, from));
    lemma_scan_boundary(events, ix, barrier, has_last_wft, pending);
}

/// A logical task swallows only attempts that failed or timed out and empty tasks.
pub proof fn law_v2_swallows_only_idle_tasks(
    events: Seq<HistoryEvent>,
    from: int,
    has_last_wft: bool,
    pending: bool,
    j: int,
)
    requires
        wft_end_v2(events, from, has_last_wft, pending) matches Some(WftEnd::Complete(end))
            && preamble(events, skipped(events, from)).0 <= j < end,
        events[j].event_type == EventType::WorkflowTaskStarted,
    ensures
        idle_task(events, j),
{
    lemma_skipped(events, from);
    lemma_preamble(events, skipped(events, from));
    let (ix, barrier) = preamble(events, skipped(events, from));
    lemma_scan_boundary(events, ix, barrier, has_last_wft, pending);
}

proof fn lemma_other_event_stays(events: Seq<HistoryEvent>, more: Seq<HistoryEvent>, ix: int)
    requires
        0 <= ix < events.len(),
        !only_empty_tasks_follow(events, ix),
    ensures
        !only_empty_tasks_follow(events + more, ix),
    decreases events.len() - ix,
{
    let all = events + more;
    assert(forall|j: int| 0 <= j < events.len() ==> type_at(all, j) == type_at(events, j));
    if type_at(events, ix + 3) == Some(EventType::WorkflowTaskStarted) && !only_empty_tasks_follow(
        events,
        ix + 3,
    ) {
        lemma_other_event_stays(events, more, ix + 3);
    }
}

proof fn lemma_scan_stable(
    events: Seq<HistoryEvent>,
    more: Seq<HistoryEvent>,
    ix: int,
    barrier: Barrier,
    pending: bool,
    has_last_wft: bool,
    pending_later: bool,
)
    requires
        0 <= ix <= events.len(),
        scan(events, ix, barrier, false, pending) is Some,
        scan(events, ix, barrier, false, pending) != Some(WftEnd::NeedMore),
    ensures
        scan(events + more, ix, barrier, has_last_wft, pending_later) == scan(
            events,
            ix,
            barrier,
            false,
            pending,
        ),
    decreases events.len() - ix,
{
    let all = events + more;
    if ix < events.len() {
        assert(all[ix] == events[ix]);
        if ix + 1 < events.len() {
            assert(all[ix + 1] == events[ix + 1]);
        }
        if events[ix].event_type == EventType::WorkflowTaskStarted {
            if !only_empty_tasks_follow(events, ix) {
                lemma_other_event_stays(events, more, ix);
            }
            assert(judge_started(all, ix, barrier, has_last_wft, pending_later) == judge_started(
                events,
                ix,
                barrier,
                false,
                pending,
            ));
            match judge_started(events, ix, barrier, false, pending) {
                StartedVerdict::SkipFailed => {
                    lemma_scan_stable(
                        events,
                        more,
                        ix + 2,
                        barrier,
                        pending,
                        has_last_wft,
                        pending_later,
                    );
                },
                StartedVerdict::Collapse => {
                    lemma_scan_stable(
                        events,
                        more,
                        ix + 3,
                        barrier,
                        pending,
                        has_last_wft,
                        pending_later,
                    );
                },
                _ => {},
            }
        } else if !events[ix].final_wf_execution {
            lemma_scan_stable(
                events,
                more,
                ix + 1,
                barrier.behind(events[ix].wft_time_sensitive),
                pending,
                has_last_wft,
                pending_later,
            );
        }
    }
}

proof fn lemma_command_run_end_stable(events: Seq<HistoryEvent>, more: Seq<HistoryEvent>, ix: int)
    requires
        0 <= ix <= events.len(),
        command_run_end(events, ix) < events.len(),
    ensures
        command_run_end(events + more, ix) == command_run_end(events, ix),
    decreases events.len() - ix,
{
    if ix < events.len() {
        assert((events + more)[ix] == events[ix]);
        if events[ix].command {
            lemma_command_run_end_stable(events, more, ix + 1);
        }
    }
}

/// A boundary found before the whole history is known stays where it is, whatever events follow,
/// whether or not the history then ends, and whether or not updates wait for its last task.
pub proof fn law_v2_boundary_is_final(
    events: Seq<HistoryEvent>,
    more: Seq<HistoryEvent>,
    from: int,
    pending: bool,
    has_last_wft: bool,
    pending_later: bool,
)
    requires
        wft_end_v2(events, from, false, pending) matches Some(WftEnd::Complete(_)),
    ensures
        wft_end_v2(events + more, from, has_last_wft, pending_later) == wft_end_v2(
            events,
            from,
            false,
            pending,
        ),
{
    let all = events + more;
    let start = skipped(events, from);
    lemma_skipped(events, from);
    lemma_preamble(events, start);
    let (ix, barrier) = preamble(events, start);
    lemma_scan_boundary(events, ix, barrier, false, pending);
    assert(ix < events.len());
    assert forall|j: int| 0 <= j < start implies (#[trigger] all[j]).event_id <= from by {
        assert(all[j] == events[j]);
    }
    assert(all[start] == events[start]);
    lemma_skipped_unique(all, from, start);
    let ix1 = if type_at(events, start) == Some(EventType::WorkflowExecutionStarted) {
        start + 1
    } else {
        start
    };
    assert(all[ix1] == events[ix1]);
    if type_at(events, ix1) == Some(EventType::WorkflowTaskCompleted) {
        lemma_command_run_end_stable(events, more, ix1 + 1);
    }
    assert(preamble(all, start) == preamble(events, start));
    lemma_scan_stable(events, more, ix, barrier, pending, has_last_wft, pending_later);
}

proof fn lemma_command_run_end_shift(events: Seq<HistoryEvent>, k: int, ix: int)
    requires
        0 <= k <= events.len(),
        0 <= ix <= events.len() - k,
    ensures
        command_run_end(events, ix + k) == command_run_end(events.skip(k), ix) + k,
    decreases events.len() - k - ix,
{
    let rest = events.skip(k);
    if ix < rest.len() {
        assert(rest[ix] == events[ix + k]);
        if rest[ix].command {
            lemma_command_run_end_shift(events, k, ix + 1);
        }
    }
}

proof fn lemma_empty_tasks_shift(events: Seq<HistoryEvent>, k: int, ix: int)
    requires
        0 <= k <= events.len(),
        0 <= ix < events.len() - k,
    ensures
        only_empty_tasks_follow(events.skip(k), ix) == only_empty_tasks_follow(events, ix + k),
    decreases events.len() - k - ix,
{
    let rest = events.skip(k);
    assert(type_at(rest, ix + 1) == type_at(events, ix + k + 1));
    assert(type_at(rest, ix + 2) == type_at(events, ix + k + 2));
    assert(type_at(rest, ix + 3) == type_at(events, ix + k + 3));
    if ix + 3 < rest.len() {
        lemma_empty_tasks_shift(events, k, ix + 3);
    }
}

proof fn lemma_scan_shift(
    events: Seq<HistoryEvent>,
    k: int,
    ix: int,
    barrier: Barrier,
    has_last_wft: bool,
    pending: bool,
)
    requires
        0 <= k <= events.len(),
        0 <= ix <= events.len() - k,
    ensures
        scan(events, ix + k, barrier, has_last_wft, pending) == (match scan(
            events.skip(k),
            ix,
            barrier,
            has_last_wft,
            pending,
        ) {
            Some(end) => Some(end.shifted(k)),
            None => None,
        }),
    decreases events.len() - k - ix,
{
    let rest = events.skip(k);
    if ix < rest.len() {
        assert(rest[ix] == events[ix + k]);
        if rest[ix].event_type == EventType::WorkflowTaskStarted {
            assert(type_at(rest, ix + 1) == type_at(events, ix + k + 1));
            assert(type_at(rest, ix + 2) == type_at(events, ix + k + 2));
            assert(type_at(rest, ix + 3) == type_at(events, ix + k + 3));
            assert(type_at(rest, ix + 4) == type_at(events, ix + k + 4));
            assert(type_at(rest, ix + 5) == type_at(events, ix + k + 5));
            if ix + 1 < rest.len() {
                assert(rest[ix + 1] == events[ix + k + 1]);
            }
            lemma_empty_tasks_shift(events, k, ix);
            assert(judge_started(rest, ix, barrier, has_last_wft, pending) == judge_started(
                events,
                ix + k,
                barrier,
                has_last_wft,
                pending,
            ));
            match judge_started(rest, ix, barrier, has_last_wft, pending) {
                StartedVerdict::SkipFailed => {
                    lemma_scan_shift(events, k, ix + 2, barrier, has_last_wft, pending);
                },
                StartedVerdict::Collapse => {
                    lemma_scan_shift(events, k, ix + 3, barrier, has_last_wft, pending);
                },
                _ => {},
            }
        } else if !rest[ix].final_wf_execution {
            lemma_scan_shift(
                events,
                k,
                ix + 1,
                barrier.behind(rest[ix].wft_time_sensitive),
                has_last_wft,
                pending,
            );
        }
    }
}

/// Dropping events that were handled already moves the boundary and changes nothing else.
pub proof fn law_v2_ignores_handled_events(
    events: Seq<HistoryEvent>,
    from: int,
    has_last_wft: bool,
    pending: bool,
    k: int,
)
    requires
        0 <= k <= skipped(events, from),
    ensures
        wft_end_v2(events, from, has_last_wft, pending) == (match wft_end_v2(
            events.skip(k),
            from,
            has_last_wft,
            pending,
        ) {
            Some(end) => Some(end.shifted(k)),
            None => None,
        }),
{
    let rest = events.skip(k);
    let start = skipped(events, from);
    lemma_skipped(events, from);
    assert forall|j: int| 0 <= j < start - k implies (#[trigger] rest[j]).event_id <= from by {
        assert(rest[j] == events[j + k]);
    }
    lemma_skipped_unique(rest, from, start - k);
    let s = start - k;
    assert(type_at(rest, s) == type_at(events, start));
    let s1 = if type_at(rest, s) == Some(EventType::WorkflowExecutionStarted) {
        s + 1
    } else {
        s
    };
    assert(type_at(rest, s1) == type_at(events, s1 + k));
    if type_at(rest, s1) == Some(EventType::WorkflowTaskCompleted) {
        lemma_command_run_end_shift(events, k, s1 + 1);
    }
    lemma_preamble(rest, s);
    let (ix, barrier) = preamble(rest, s);
    assert(preamble(events, start) == (ix + k, barrier));
    lemma_scan_shift(events, k, ix, barrier, has_last_wft, pending);
}

} // verus!
