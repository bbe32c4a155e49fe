//! What holds of the buffer across calls.

use super::buffer::{extended, last_event_id, BufferState, NextTask, WftEnvelope};
use super::chunker::law_boundary;
use super::chunking::{lemma_skipped, lemma_skipped_unique, skipped, ChunkingVersion, WftEnd};
use super::chunking_v2::{law_v2_boundary, law_v2_boundary_is_final, wft_end_v2};
use super::event::HistoryEvent;
use vstd::prelude::*;

verus! {

/// The events are in history order: their ids strictly increase.
pub open spec fn in_history_order(events: Seq<HistoryEvent>) -> bool {
    forall|i: int, j: int|
        0 <= i < j < events.len() ==> (#[trigger] events[i]).event_id < (
        #[trigger] events[j]).event_id
}

/// A taken task and what stays in the buffer are, joined, the relevant events: none is lost,
/// repeated or reordered. Where nothing is taken the relevant events stay.
pub proof fn law_take_partitions_events(b: BufferState, from: int)
    requires
        b.chunkable(from),
    ensures
        match b.next_task(from) {
            NextTask::Task { events, is_terminal } => events + b.taken(from).events == b.relevant(
                from,
            ) && events.len() > 0,
            _ => b.taken(from).events == b.relevant(from),
        },
{
    let relevant = b.relevant(from);
    if let Some(version) = b.effective_version() {
        law_boundary(
            relevant,
            from,
            b.has_last_wft,
            b.envelope.has_pending_speculative_updates,
            version,
        );
    }
    if let Some(n) = b.next_len(from) {
        assert(relevant.take(n) + relevant.skip(n) == relevant);
        if n == 0 {
            assert(relevant.skip(n) == relevant);
        }
    }
}

/// A task is terminal exactly if the whole history is known and no event stays behind.
pub proof fn law_terminal_task(b: BufferState, from: int)
    requires
        b.chunkable(from),
        b.next_task(from) is Task,
    ensures
        b.next_task(from)->is_terminal <==> b.taken(from).has_last_wft && b.taken(from).events.len()
            == 0,
{
    if let Some(version) = b.effective_version() {
        law_boundary(
            b.relevant(from),
            from,
            b.has_last_wft,
            b.envelope.has_pending_speculative_updates,
            version,
        );
    }
}

/// Replay is over exactly if the whole history is known and no event is left.
pub proof fn law_replay_over(b: BufferState, from: int)
    requires
        b.chunkable(from),
    ensures
        b.next_task(from) is ReplayOver <==> b.has_last_wft && b.events.len() == 0,
{
    lemma_skipped(b.events, from);
    if let Some(version) = b.effective_version() {
        law_boundary(
            b.relevant(from),
            from,
            b.has_last_wft,
            b.envelope.has_pending_speculative_updates,
            version,
        );
    }
}

/// Once the whole history is known, more events are never asked for.
pub proof fn law_whole_history_needs_no_fetch(b: BufferState, from: int)
    requires
        b.chunkable(from),
        b.has_last_wft,
    ensures
        !(b.next_task(from) is NeedFetch),
{
    if let Some(version) = b.effective_version() {
        law_boundary(
            b.relevant(from),
            from,
            b.has_last_wft,
            b.envelope.has_pending_speculative_updates,
            version,
        );
    }
}

/// While the chunking version is unknown and more events may follow, no task is taken.
pub proof fn law_unknown_version_takes_nothing(b: BufferState, from: int)
    requires
        b.chunking_version is None,
        !b.has_last_wft,
    ensures
        b.next_task(from) is NeedFetch,
{
}

/// What was peeked at is what is then taken.
pub proof fn law_peek_shows_what_is_taken(b: BufferState, from: int)
    requires
        b.chunkable(from),
        b.next_task(from) is Task,
    ensures
        b.peeked(from) == b.next_task(from)->events,
{
    let relevant = b.relevant(from);
    assert(relevant.take(relevant.len() as int) == relevant);
}

/// Pushing never forgets that the history is complete, nor changes a chunking version.
pub proof fn law_push_latches(
    b: BufferState,
    envelope: WftEnvelope,
    batch: Seq<HistoryEvent>,
    no_more_pages: bool,
)
    ensures
        b.has_last_wft ==> b.pushed(envelope, batch, no_more_pages).has_last_wft,
        b.chunking_version is Some ==> b.pushed(envelope, batch, no_more_pages).chunking_version
            == b.chunking_version,
{
}

pub(crate) proof fn lemma_extended(taken: int, events: Seq<HistoryEvent>, batch: Seq<HistoryEvent>)
    ensures
        extended(taken, events, batch).len() >= events.len(),
        extended(taken, events, batch).take(events.len() as int) == events,
        in_history_order(events) ==> in_history_order(extended(taken, events, batch)),
    decreases batch.len(),
{
    if batch.len() > 0 {
        lemma_extended(taken, events, batch.drop_last());
        let before = extended(taken, events, batch.drop_last());
        let after = extended(taken, events, batch);
        assert(after.take(events.len() as int) =~= before.take(events.len() as int));
        if in_history_order(events) && after.len() > before.len() {
            assert forall|i: int, j: int| 0 <= i < j < after.len() implies (
            #[trigger] after[i]).event_id < (#[trigger] after[j]).event_id by {
                assert(after[i] == before[i]);
                if j < before.len() {
                    assert(after[j] == before[j]);
                } else if i < before.len() - 1 {
                    assert(before[i].event_id < before[before.len() - 1].event_id);
                }
            }
        }
    } else {
        assert(events.take(events.len() as int) =~= events);
    }
}

/// A buffer in history order stays so whatever is pushed.
pub proof fn law_push_keeps_history_order(
    b: BufferState,
    envelope: WftEnvelope,
    batch: Seq<HistoryEvent>,
    no_more_pages: bool,
)
    requires
        in_history_order(b.events),
    ensures
        in_history_order(b.pushed(envelope, batch, no_more_pages).events),
{
    lemma_extended(b.last_taken, b.events, batch);
}

/// Pushing only adds behind what is buffered.
pub proof fn law_push_only_adds(
    b: BufferState,
    envelope: WftEnvelope,
    batch: Seq<HistoryEvent>,
    no_more_pages: bool,
)
    ensures
        b.events.is_prefix_of(b.pushed(envelope, batch, no_more_pages).events),
{
    lemma_extended(b.last_taken, b.events, batch);
    let after = b.pushed(envelope, batch, no_more_pages).events;
    assert(after.subrange(0, b.events.len() as int) =~= after.take(b.events.len() as int));
}

proof fn lemma_extended_none(taken: int, events: Seq<HistoryEvent>, batch: Seq<HistoryEvent>)
    requires
        forall|i: int|
            0 <= i < batch.len() ==> (#[trigger] batch[i]).event_id <= last_event_id(taken, events),
    ensures
        extended(taken, events, batch) == events,
    decreases batch.len(),
{
    if batch.len() > 0 {
        let init = batch.drop_last();
        assert forall|i: int| 0 <= i < init.len() implies (#[trigger] init[i]).event_id
            <= last_event_id(taken, events) by {
            assert(init[i] == batch[i]);
        }
        lemma_extended_none(taken, events, init);
        assert(batch.last() == batch[batch.len() - 1]);
    }
}

/// Events that the buffer holds already, or that were taken by now, are not added again.
pub proof fn law_push_drops_overlap(
    b: BufferState,
    envelope: WftEnvelope,
    batch: Seq<HistoryEvent>,
    no_more_pages: bool,
)
    requires
        forall|i: int|
            0 <= i < batch.len() ==> (#[trigger] batch[i]).event_id <= last_event_id(b.last_taken, b.events),
    ensures
        b.pushed(envelope, batch, no_more_pages).events == b.events,
{
    lemma_extended_none(b.last_taken, b.events, batch);
}

pub(crate) proof fn lemma_extended_joins(
    taken: int,
    events: Seq<HistoryEvent>,
    first: Seq<HistoryEvent>,
    second: Seq<HistoryEvent>,
)
    ensures
        extended(taken, events, first + second) == extended(taken, extended(taken, events, first), second),
    decreases second.len(),
{
    if second.len() == 0 {
        assert(first + second =~= first);
    } else {
        lemma_extended_joins(taken, events, first, second.drop_last());
        assert((first + second).drop_last() =~= first + second.drop_last());
        assert((first + second).last() == second.last());
    }
}

/// It makes no difference whether events come in one batch or in two.
pub proof fn law_push_in_parts(
    b: BufferState,
    envelope: WftEnvelope,
    first: Seq<HistoryEvent>,
    second: Seq<HistoryEvent>,
    no_more_pages: bool,
)
    ensures
        b.pushed(envelope, first, false).pushed(envelope, second, no_more_pages).events == b.pushed(
            envelope,
            first + second,
            no_more_pages,
        ).events,
{
    lemma_extended_joins(b.last_taken, b.events, first, second);
}

pub(crate) proof fn lemma_extended_in_order(
    taken: int,
    events: Seq<HistoryEvent>, batch: Seq<HistoryEvent>)
    requires
        in_history_order(batch),
        batch.len() > 0 ==> batch[0].event_id > last_event_id(taken, events),
    ensures
        extended(taken, events, batch) == events + batch,
    decreases batch.len(),
{
    if batch.len() > 0 {
        let init = batch.drop_last();
        assert forall|i: int, j: int| 0 <= i < j < init.len() implies (
        #[trigger] init[i]).event_id < (#[trigger] init[j]).event_id by {
            assert(init[i] == batch[i] && init[j] == batch[j]);
        }
        if init.len() > 0 {
            assert(init[0] == batch[0]);
        }
        lemma_extended_in_order(taken, events, init);
        let before = events + init;
        if init.len() > 0 {
            assert(before.last() == batch[batch.len() - 2]);
            assert(batch[batch.len() - 2].event_id < batch[batch.len() - 1].event_id);
        } else {
            assert(before =~= events);
        }
        assert(before.push(batch.last()) =~= events + batch);
    } else {
        assert(events + batch =~= events);
    }
}

/// A batch that goes on where the buffer ends is added whole.
pub proof fn law_push_adds_what_follows(
    b: BufferState,
    envelope: WftEnvelope,
    batch: Seq<HistoryEvent>,
    no_more_pages: bool,
)
    requires
        in_history_order(batch),
        batch.len() > 0 ==> batch[0].event_id > last_event_id(b.last_taken, b.events),
    ensures
        b.pushed(envelope, batch, no_more_pages).events == b.events + batch,
{
    lemma_extended_in_order(b.last_taken, b.events, batch);
}

proof fn lemma_extended_is_behind(
    taken: int,
    events: Seq<HistoryEvent>,
    batch: Seq<HistoryEvent>,
)
    requires
        forall|i: int| 0 <= i < events.len() ==> (#[trigger] events[i]).event_id > taken,
    ensures
        forall|i: int|
            0 <= i < extended(taken, events, batch).len() ==> (#[trigger] extended(
                taken,
                events,
                batch,
            )[i]).event_id > taken,
    decreases batch.len(),
{
    if batch.len() > 0 {
        lemma_extended_is_behind(taken, events, batch.drop_last());
        let before = extended(taken, events, batch.drop_last());
        if before.len() > 0 {
            assert(before[before.len() - 1].event_id > taken);
        }
    }
}

/// Once a task was taken, none of its events comes again, whatever is pushed: all that the buffer
/// holds is behind it.
pub proof fn law_taken_events_do_not_come_again(
    b: BufferState,
    from: int,
    envelope: WftEnvelope,
    batch: Seq<HistoryEvent>,
    no_more_pages: bool,
)
    requires
        b.chunkable(from),
        in_history_order(b.events),
        b.next_task(from) is Task,
    ensures
        ({
            let after = b.taken(from).pushed(envelope, batch, no_more_pages);
            forall|i: int|
                0 <= i < after.events.len() ==> (#[trigger] after.events[i]).event_id > b.next_task(
                    from,
                )->events.last().event_id
        }),
{
    let rest = b.taken(from);
    let events = b.next_task(from)->events;
    let relevant = b.relevant(from);
    law_take_partitions_events(b, from);
    lemma_skipped(b.events, from);
    let k = b.events.len() - relevant.len();
    assert(relevant =~= b.events.skip(k));
    assert forall|i: int| 0 <= i < rest.events.len() implies (#[trigger] rest.events[i]).event_id
        > rest.last_taken by {
        let n = events.len() as int;
        assert(rest.events[i] == (events + rest.events)[n + i]);
        assert(events.last() == (events + rest.events)[n - 1]);
        assert(b.events[k + n - 1].event_id < b.events[k + n + i].event_id);
    }
    lemma_extended_is_behind(rest.last_taken, rest.events, batch);
}

/// By the second algorithm tasks do not depend on how the history was paged: a task that can be
/// taken before a page arrives is the same task after it, and leaves behind the same events and
/// those of the page.
pub proof fn law_v2_tasks_do_not_depend_on_paging(
    b: BufferState,
    from: int,
    envelope: WftEnvelope,
    batch: Seq<HistoryEvent>,
    no_more_pages: bool,
)
    requires
        b.chunking_version == Some(ChunkingVersion::V2),
        !b.has_last_wft,
        b.chunkable(from),
        b.next_task(from) is Task,
    ensures
        ({
            let after = b.pushed(envelope, batch, no_more_pages);
            &&& after.chunkable(from)
            &&& after.next_task(from) == b.next_task(from)
            &&& b.taken(from).events.is_prefix_of(after.taken(from).events)
            &&& b.taken(from).events + after.events.skip(b.events.len() as int) == after.taken(
                from,
            ).events
        }),
{
    let after = b.pushed(envelope, batch, no_more_pages);
    let fresh = after.events.skip(b.events.len() as int);
    lemma_extended(b.last_taken, b.events, batch);
    assert(after.events =~= b.events + fresh);
    let relevant = b.relevant(from);
    let pending = b.envelope.has_pending_speculative_updates;
    let s = skipped(b.events, from);
    lemma_skipped(b.events, from);
    law_v2_boundary(relevant, from, false, pending);
    let end = wft_end_v2(relevant, from, false, pending)->Some_0->Complete_0;
    lemma_v2_boundary_looks_ahead(relevant, from, pending);
    if s == b.events.len() {
        // All events were handled: no boundary is left among them.
        assert(relevant == b.events);
        assert(false);
    }
    assert forall|j: int| 0 <= j < s implies (#[trigger] after.events[j]).event_id <= from by {
        assert(after.events[j] == b.events[j]);
    }
    assert(after.events[s] == b.events[s]);
    lemma_skipped_unique(after.events, from, s);
    assert(after.relevant(from) == relevant + fresh);
    law_v2_boundary_is_final(
        relevant,
        fresh,
        from,
        pending,
        after.has_last_wft,
        envelope.has_pending_speculative_updates,
    );
    assert(after.relevant(from).take(end + 1) == relevant.take(end + 1));
    assert(after.relevant(from).skip(end + 1) == relevant.skip(end + 1) + fresh);
}

/// A boundary found before the whole history is known is never the last event at hand.
proof fn lemma_v2_boundary_looks_ahead(events: Seq<HistoryEvent>, from: int, pending: bool)
    requires
        wft_end_v2(events, from, false, pending) matches Some(WftEnd::Complete(_)),
    ensures
        wft_end_v2(events, from, false, pending)->Some_0->Complete_0 + 1 < events.len(),
        skipped(events, from) < events.len(),
{
    law_v2_boundary(events, from, false, pending);
    let end = wft_end_v2(events, from, false, pending)->Some_0->Complete_0;
    if end + 1 >= events.len() {
        // The next page might hold a failure of that very task.
        let e = events[end];
        let failed = HistoryEvent {
            event_type: super::event::EventType::WorkflowTaskFailed,
            ..e
        };
        let all = events + seq![failed];
        law_v2_boundary_is_final(events, seq![failed], from, pending, false, pending);
        law_v2_boundary(all, from, false, pending);
        assert(all[end + 1] == failed);
    }
}

/// The tasks of a replay, if the whole history is known and nowhere malformed: each is taken behind
/// the one before it.
pub open spec fn replay(b: BufferState, from: int) -> Option<Seq<Seq<HistoryEvent>>>
    decreases b.events.len(),
{
    if !b.chunkable(from) {
        None
    } else {
        match b.next_task(from) {
            NextTask::NeedFetch => None,
            NextTask::ReplayOver => Some(Seq::empty()),
            NextTask::Task { events, is_terminal } => {
                let rest = b.taken(from);
                if rest.events.len() >= b.events.len() {
                    None
                } else {
                    match replay(rest, events.last().event_id as int) {
                        Some(tasks) => Some(seq![events] + tasks),
                        None => None,
                    }
                }
            },
        }
    }
}

/// The events of all tasks, in order.
pub open spec fn joined(tasks: Seq<Seq<HistoryEvent>>) -> Seq<HistoryEvent>
    decreases tasks.len(),
{
    if tasks.len() == 0 {
        Seq::empty()
    } else {
        tasks[0] + joined(tasks.drop_first())
    }
}

proof fn lemma_skip_in_order(events: Seq<HistoryEvent>, k: int)
    requires
        in_history_order(events),
        0 < k <= events.len(),
    ensures
        in_history_order(events.skip(k)),
        skipped(events.skip(k), events[k - 1].event_id as int) == 0,
{
    let rest = events.skip(k);
    assert forall|i: int, j: int| 0 <= i < j < rest.len() implies (#[trigger] rest[i]).event_id < (
    #[trigger] rest[j]).event_id by {
        assert(rest[i] == events[k + i] && rest[j] == events[k + j]);
    }
    if rest.len() > 0 {
        assert(rest[0] == events[k]);
    }
}

/// The events that stay behind a taken task are in order and behind it.
proof fn lemma_rest(b: BufferState, from: int)
    requires
        b.chunkable(from),
        in_history_order(b.events),
        b.next_task(from) is Task,
    ensures
        b.taken(from).events.len() < b.events.len(),
        in_history_order(b.taken(from).events),
        b.taken(from).relevant(b.next_task(from)->events.last().event_id as int) == b.taken(
            from,
        ).events,
{
    let relevant = b.relevant(from);
    let events = b.next_task(from)->events;
    let rest = b.taken(from);
    lemma_skipped(b.events, from);
    law_take_partitions_events(b, from);
    let n = events.len() as int;
    let k = b.events.len() - relevant.len();
    assert(relevant =~= b.events.skip(k));
    assert(relevant.len() == n + rest.events.len());
    assert(rest.events =~= b.events.skip(k + n)) by {
        assert(rest.events =~= (events + rest.events).skip(n));
    }
    assert(events.last() == relevant[n - 1]);
    assert(relevant[n - 1] == b.events[k + n - 1]);
    lemma_skip_in_order(b.events, k + n);
    let next = events.last().event_id as int;
    assert(rest.relevant(next) =~= rest.events);
}

/// A replay hands out every event behind `from` once and in order. By the legacy algorithm it always
/// gets to the end; by the second one it does unless the history is malformed.
pub proof fn law_replay_hands_out_every_event_once(b: BufferState, from: int)
    requires
        b.has_last_wft,
        in_history_order(b.events),
        replay(b, from) is Some || b.chunking_version != Some(ChunkingVersion::V2),
    ensures
        replay(b, from) matches Some(tasks) && joined(tasks) == b.relevant(from),
    decreases b.events.len(),
{
    law_whole_history_needs_no_fetch(b, from);
    law_take_partitions_events(b, from);
    match b.next_task(from) {
        NextTask::Task { events, is_terminal } => {
            let rest = b.taken(from);
            let next = events.last().event_id as int;
            lemma_rest(b, from);
            law_replay_hands_out_every_event_once(rest, next);
            let tasks = replay(rest, next)->Some_0;
            assert((seq![events] + tasks).drop_first() =~= tasks);
        },
        _ => {
            law_replay_over(b, from);
            lemma_skipped(b.events, from);
        },
    }
}

} // verus!
