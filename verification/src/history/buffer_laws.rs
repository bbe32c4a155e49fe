//! What the calls of the buffer give, and how they relate.

use super::buffer::{LogicalWorkflowTask, LwftBuffer, NextWFT, WftEnvelope};
use super::chunker::{
    any_carries_chunking_v2, any_wft_completed, events_have_any_wft_completed,
    events_have_wft_chunking_v2, find_end_index_of_next_wft_seq, is_chunkable, law_boundary,
    resolve_chunking_version_from_events,
};
use super::chunking::{
    lemma_skipped_unique, starting_index_after_skipping, ChunkingVersion, NextWFTSeqEndIndex,
};
use super::chunking_v1::find_end_index_of_next_wft_seq_v1;
use super::chunking_v2::{find_end_index_of_next_wft_seq_v2, try_find_end_index_of_next_wft_seq_v2};
use super::chunking_v2_laws::begins_at;
use super::event::{
    event_type_ahead, Attributes, CoreInternalFlags, EventType, HistoryEvent,
    WorkflowTaskCompletedEventAttributes,
};
use super::laws::{in_history_order, lemma_extended};
use super::paginator::lemma_extended_by_newer;
use vstd::prelude::*;

verus! {

/// Each version goes by its own algorithm.
pub proof fn law_versions_go_by_their_algorithm(
    events: &[HistoryEvent],
    from: i64,
    has_last_wft: bool,
    pending: bool,
    version: ChunkingVersion,
    res: NextWFTSeqEndIndex,
    legacy: NextWFTSeqEndIndex,
    second: Option<NextWFTSeqEndIndex>,
    asserted: NextWFTSeqEndIndex,
)
    requires
        call_ensures(
            find_end_index_of_next_wft_seq,
            (events, from, has_last_wft, pending, version),
            res,
        ),
        call_ensures(find_end_index_of_next_wft_seq_v1, (events, from, has_last_wft), legacy),
        call_ensures(
            try_find_end_index_of_next_wft_seq_v2,
            (events, from, has_last_wft, pending),
            second,
        ),
        call_ensures(
            find_end_index_of_next_wft_seq_v2,
            (events, from, has_last_wft, pending),
            asserted,
        ),
    ensures
        version == ChunkingVersion::V1 ==> res == legacy,
        version == ChunkingVersion::V2 ==> second == Some(res),
        second == Some(asserted),
{
}

/// The first event behind `from` is found, if there is one.
pub proof fn law_first_event_behind_is_found(
    events: &[HistoryEvent],
    from: i64,
    res: Option<usize>,
    s: int,
)
    requires
        call_ensures(starting_index_after_skipping, (events, from), res),
        begins_at(events@, from as int, s),
    ensures
        s < events@.len() ==> (res matches Some(ix) && ix == s),
        s == events@.len() ==> res is None,
{
    lemma_skipped_unique(events@, from as int, s);
}

/// A boundary moves with the slice it was found in; without one the slice is meant to its last event.
pub proof fn law_boundaries_move(
    end: NextWFTSeqEndIndex,
    val: usize,
    len: usize,
    moved: NextWFTSeqEndIndex,
    last: usize,
)
    requires
        call_ensures(NextWFTSeqEndIndex::add, (end, val), moved),
        call_ensures(NextWFTSeqEndIndex::end_index_in_slice, (end, len), last),
    ensures
        match end {
            NextWFTSeqEndIndex::Complete(ix) => moved matches NextWFTSeqEndIndex::Complete(there)
                && there == ix + val && last == ix,
            NextWFTSeqEndIndex::NeedMore => moved == end && last == if len == 0 {
                0
            } else {
                len - 1
            },
            NextWFTSeqEndIndex::Tail => moved == end && last == if len == 0 {
                0
            } else {
                len - 1
            },
        },
{
}

/// The events that are still to be handled: from the first one behind `from` on, or all of them if
/// there is none.
pub open spec fn still_to_handle(
    events: Seq<HistoryEvent>,
    from: int,
    rest: Seq<HistoryEvent>,
) -> bool {
    exists|s: int| #[trigger]
        begins_at(events, from, s) && rest == if s < events.len() {
            events.skip(s)
        } else {
            events
        }
}

/// The version by which a buffer cuts: the one it knows, or the legacy one if the whole history holds
/// nothing that tells.
pub open spec fn cuts_by(
    known: Option<ChunkingVersion>,
    has_last_wft: bool,
    version: ChunkingVersion,
) -> bool {
    known == Some(version) || (known is None && has_last_wft && version == ChunkingVersion::V1)
}

proof fn lemma_relevant(buf: LwftBuffer, from: int, rest: Seq<HistoryEvent>)
    requires
        still_to_handle(buf@.events, from, rest),
    ensures
        buf@.relevant(from) == rest,
{
    let s = choose|s: int| #[trigger]
        begins_at(buf@.events, from, s) && rest == if s < buf@.events.len() {
            buf@.events.skip(s)
        } else {
            buf@.events
        };
    lemma_skipped_unique(buf@.events, from, s);
}

/// Taking a task drops the events that were handled, and takes of the rest exactly those up to where
/// the algorithm cuts: with a boundary up to it, at the tail all there are. Where the algorithm wants
/// more, nothing is taken. Nothing else of the buffer changes.
pub proof fn law_take_goes_by_the_algorithm(
    buf: &mut LwftBuffer,
    from: i64,
    res: NextWFT,
    rest: &[HistoryEvent],
    version: ChunkingVersion,
    end: NextWFTSeqEndIndex,
)
    requires
        call_ensures(LwftBuffer::take_next_wft_sequence, (buf, from), res),
        still_to_handle(old(buf)@.events, from as int, rest@),
        cuts_by(old(buf)@.chunking_version, old(buf)@.has_last_wft, version),
        call_ensures(
            find_end_index_of_next_wft_seq,
            (
                rest,
                from,
                old(buf)@.has_last_wft,
                old(buf)@.envelope.has_pending_speculative_updates,
                version,
            ),
            end,
        ),
    ensures
        match end {
            NextWFTSeqEndIndex::Complete(ix) => {
                &&& res matches NextWFT::WFT(lwft)
                &&& ix < rest@.len()
                &&& lwft.spec_events() == rest@.subrange(0, ix + 1)
                &&& lwft.spec_is_terminal() == (old(buf)@.has_last_wft && ix + 1 == rest@.len())
                &&& final(buf)@.events == rest@.subrange(ix + 1, rest@.len() as int)
                &&& final(buf)@.last_taken == rest@[ix as int].event_id
            },
            NextWFTSeqEndIndex::NeedMore => {
                &&& res is NeedFetch
                &&& final(buf)@.events == rest@
                &&& final(buf)@.last_taken == old(buf)@.last_taken
            },
            NextWFTSeqEndIndex::Tail => if rest@.len() == 0 {
                &&& res is ReplayOver
                &&& final(buf)@.events.len() == 0
                &&& final(buf)@.last_taken == old(buf)@.last_taken
            } else {
                &&& res matches NextWFT::WFT(lwft)
                &&& lwft.spec_events() == rest@
                &&& lwft.spec_is_terminal()
                &&& final(buf)@.events.len() == 0
                &&& final(buf)@.last_taken == rest@.last().event_id
            },
        },
        final(buf)@.envelope == old(buf)@.envelope,
        final(buf)@.has_last_wft == old(buf)@.has_last_wft,
        final(buf)@.chunking_version == old(buf)@.chunking_version,
{
    let before = *old(buf);
    lemma_relevant(before, from as int, rest@);
    law_boundary(
        rest@,
        from as int,
        before@.has_last_wft,
        before@.envelope.has_pending_speculative_updates,
        version,
    );
    if let NextWFTSeqEndIndex::Complete(ix) = end {
        assert(rest@.take(ix + 1) =~= rest@.subrange(0, ix + 1));
        assert(rest@.skip(ix + 1) =~= rest@.subrange(ix + 1, rest@.len() as int));
    }
    assert(rest@.take(rest@.len() as int) =~= rest@);
}

/// While the version is unknown and more events may follow, nothing is taken; events that were handled
/// are dropped all the same.
pub proof fn law_take_waits_for_the_version(buf: &mut LwftBuffer, from: i64, res: NextWFT)
    requires
        call_ensures(LwftBuffer::take_next_wft_sequence, (buf, from), res),
        old(buf)@.chunking_version is None,
        !old(buf)@.has_last_wft,
    ensures
        res is NeedFetch,
        still_to_handle(old(buf)@.events, from as int, final(buf)@.events),
        final(buf)@.envelope == old(buf)@.envelope,
        !final(buf)@.has_last_wft,
        final(buf)@.chunking_version is None,
        final(buf)@.last_taken == old(buf)@.last_taken,
{
    let b = old(buf)@;
    super::chunking::lemma_skipped(b.events, from as int);
    assert(begins_at(b.events, from as int, super::chunking::skipped(b.events, from as int)));
}

/// What can be taken is what a take then gives, and what is seen by peeking before is what is taken.
pub proof fn law_looking_foretells_the_take(
    buf: &mut LwftBuffer,
    before: &LwftBuffer,
    from: i64,
    res: NextWFT,
    can: bool,
    seen: &[HistoryEvent],
)
    requires
        *before == *old(buf),
        before@.chunkable(from as int),
        call_ensures(LwftBuffer::take_next_wft_sequence, (buf, from), res),
        call_ensures(LwftBuffer::can_take_next_wft_sequence, (before, from), can),
        call_ensures(LwftBuffer::peek_next_wft_sequence, (before, from), seen),
    ensures
        can == !(res is NeedFetch),
        res matches NextWFT::WFT(lwft) ==> seen@ == lwft.spec_events(),
{
    let b = before@;
    if b.next_task(from as int) is Task {
        super::laws::law_peek_shows_what_is_taken(b, from as int);
    }
}

/// Peeking shows the events up to where the algorithm cuts, and all that are still to be handled if it
/// does not. While the version is unknown it goes by the legacy algorithm.
pub proof fn law_peek_goes_by_the_algorithm(
    buf: &LwftBuffer,
    from: i64,
    seen: &[HistoryEvent],
    rest: &[HistoryEvent],
    version: ChunkingVersion,
    end: NextWFTSeqEndIndex,
)
    requires
        call_ensures(LwftBuffer::peek_next_wft_sequence, (buf, from), seen),
        still_to_handle(buf@.events, from as int, rest@),
        buf@.chunking_version == Some(version) || (buf@.chunking_version is None && version
            == ChunkingVersion::V1),
        call_ensures(
            find_end_index_of_next_wft_seq,
            (
                rest,
                from,
                buf@.has_last_wft,
                buf@.envelope.has_pending_speculative_updates,
                version,
            ),
            end,
        ),
    ensures
        match end {
            NextWFTSeqEndIndex::Complete(ix) => ix < rest@.len() && seen@ == rest@.subrange(
                0,
                ix + 1,
            ),
            _ => seen@ == rest@,
        },
{
    lemma_relevant(*buf, from as int, rest@);
    law_boundary(
        rest@,
        from as int,
        buf@.has_last_wft,
        buf@.envelope.has_pending_speculative_updates,
        version,
    );
    if let NextWFTSeqEndIndex::Complete(ix) = end {
        assert(rest@.take(ix + 1) =~= rest@.subrange(0, ix + 1));
    }
}

/// A task can be looked for unless the buffer cuts by the second algorithm and that takes the events
/// for malformed.
pub proof fn law_only_malformed_histories_are_refused(
    buf: &LwftBuffer,
    from: i64,
    res: bool,
    rest: &[HistoryEvent],
    end: Option<NextWFTSeqEndIndex>,
)
    requires
        call_ensures(LwftBuffer::is_chunkable, (buf, from), res),
        still_to_handle(buf@.events, from as int, rest@),
        call_ensures(
            try_find_end_index_of_next_wft_seq_v2,
            (rest, from, buf@.has_last_wft, buf@.envelope.has_pending_speculative_updates),
            end,
        ),
    ensures
        res == (buf@.chunking_version != Some(ChunkingVersion::V2) || end is Some),
{
    lemma_relevant(*buf, from as int, rest@);
}

/// The event is a completed task that carries the flag of the second algorithm.
pub open spec fn is_flagged(e: HistoryEvent) -> bool {
    &&& e.attributes is Some
    &&& e.attributes->Some_0 is WorkflowTaskCompletedEventAttributes
    &&& ({
        let metadata = e.attributes->Some_0->WorkflowTaskCompletedEventAttributes_0.sdk_metadata;
        &&& metadata is Some
        &&& exists|i: int|
            0 <= i < metadata->Some_0.core_used_flags@.len()
                && #[trigger] metadata->Some_0.core_used_flags@[i]
                == CoreInternalFlags::WftChunkingV2
    })
}

/// The event is a completed task.
pub open spec fn is_completion(e: HistoryEvent) -> bool {
    e.attributes is Some && e.attributes->Some_0 is WorkflowTaskCompletedEventAttributes
}

/// A known version stays. Otherwise one flagged completion among the events makes it the second, and
/// completions without a flagged one make it the first; without completions it stays unknown.
pub proof fn law_version_is_told_by_completions(
    events: &[HistoryEvent],
    prior: Option<ChunkingVersion>,
    res: Option<ChunkingVersion>,
    flagged: bool,
    completed: bool,
)
    requires
        call_ensures(resolve_chunking_version_from_events, (events, prior), res),
        call_ensures(events_have_wft_chunking_v2, (events,), flagged),
        call_ensures(events_have_any_wft_completed, (events,), completed),
    ensures
        flagged == exists|i: int| 0 <= i < events@.len() && is_flagged(#[trigger] events@[i]),
        completed == exists|i: int| 0 <= i < events@.len() && is_completion(#[trigger] events@[i]),
        prior is Some ==> res == prior,
        prior is None && flagged ==> res == Some(ChunkingVersion::V2),
        prior is None && !flagged && completed ==> res == Some(ChunkingVersion::V1),
        prior is None && !flagged && !completed ==> res is None,
{
    assert forall|i: int| 0 <= i < events@.len() implies is_flagged(#[trigger] events@[i])
        == super::event::carries_chunking_v2(events@[i]) by {
        lemma_flagged(events@[i]);
    }
    assert forall|i: int| 0 <= i < events@.len() implies is_completion(#[trigger] events@[i])
        == super::event::is_wft_completed(events@[i]) by {}
    assert(flagged == any_carries_chunking_v2(events@));
    assert(completed == any_wft_completed(events@));
}

proof fn lemma_flagged(e: HistoryEvent)
    ensures
        is_flagged(e) == super::event::carries_chunking_v2(e),
{
    if let Some(Attributes::WorkflowTaskCompletedEventAttributes(a)) = e.attributes {
        if let Some(m) = a.sdk_metadata {
            let flags = m.core_used_flags@;
            if is_flagged(e) {
                let i = choose|i: int|
                    0 <= i < flags.len() && #[trigger] flags[i] == CoreInternalFlags::WftChunkingV2;
                assert(flags.contains(flags[i]));
            }
            if flags.contains(CoreInternalFlags::WftChunkingV2) {
                let i = choose|i: int|
                    0 <= i < flags.len() && flags[i] == CoreInternalFlags::WftChunkingV2;
                assert(flags[i] == CoreInternalFlags::WftChunkingV2);
            }
        }
    }
}

/// A push keeps what is buffered, and puts behind it, of a batch in history order, exactly the events
/// that come later than all that were pushed before. It takes over the envelope, latches the end of
/// the history, and resolves the version from what is buffered then.
pub proof fn law_push_takes_what_is_new(
    buf: &mut LwftBuffer,
    envelope: WftEnvelope,
    events: Vec<HistoryEvent>,
    no_more_pages: bool,
    known: &[HistoryEvent],
    version: Option<ChunkingVersion>,
)
    requires
        call_ensures(LwftBuffer::push_events, (buf, envelope, events, no_more_pages), ()),
        in_history_order(events@),
        known@ == final(buf)@.events,
        call_ensures(
            resolve_chunking_version_from_events,
            (known, old(buf)@.chunking_version),
            version,
        ),
    ensures
        ({
            let last = if old(buf)@.events.len() > 0 {
                old(buf)@.events.last().event_id as int
            } else {
                old(buf)@.last_taken
            };
            final(buf)@.events == old(buf)@.events + events@.filter(
                |e: HistoryEvent| e.event_id > last,
            )
        }),
        final(buf)@.envelope == envelope,
        final(buf)@.has_last_wft == (old(buf)@.has_last_wft || no_more_pages),
        final(buf)@.last_taken == old(buf)@.last_taken,
        final(buf)@.chunking_version == version,
{
    let b = old(buf)@;
    lemma_extended_by_newer(b.last_taken, b.events, events@);
    let last = if b.events.len() > 0 {
        b.events.last().event_id as int
    } else {
        b.last_taken
    };
    assert((|e: HistoryEvent| e.event_id > last) =~= (|e: HistoryEvent|
        e.event_id > super::buffer::last_event_id(b.last_taken, b.events)));
}

/// Whatever is pushed, in whatever order, all that was buffered stays in front, and each event that is
/// added comes later than the one before it.
pub proof fn law_push_keeps_what_is_buffered(
    buf: &mut LwftBuffer,
    envelope: WftEnvelope,
    events: Vec<HistoryEvent>,
    no_more_pages: bool,
)
    requires
        call_ensures(LwftBuffer::push_events, (buf, envelope, events, no_more_pages), ()),
    ensures
        old(buf)@.events.len() <= final(buf)@.events.len(),
        forall|i: int|
            0 <= i < old(buf)@.events.len() ==> (#[trigger] final(buf)@.events[i]) == old(
                buf,
            )@.events[i],
        in_history_order(old(buf)@.events) ==> in_history_order(final(buf)@.events),
{
    let b = old(buf)@;
    lemma_extended(b.last_taken, b.events, events@);
    let after = final(buf)@.events;
    assert forall|i: int| 0 <= i < b.events.len() implies (#[trigger] after[i]) == b.events[i] by {
        assert(after.take(b.events.len() as int)[i] == b.events[i]);
    }
}

/// An empty buffer holds nothing and knows nothing, and what a buffer holds it tells.
pub proof fn law_buffers_tell_what_they_hold(
    empty: LwftBuffer,
    buf: &LwftBuffer,
    version: Option<ChunkingVersion>,
    previous: i64,
    started: i64,
    envelope: WftEnvelope,
    first: Option<i64>,
    all: &[HistoryEvent],
)
    requires
        call_ensures(LwftBuffer::empty, (), empty),
        call_ensures(LwftBuffer::chunking_version, (buf,), version),
        call_ensures(LwftBuffer::previous_wft_started_id, (buf,), previous),
        call_ensures(LwftBuffer::wft_started_id, (buf,), started),
        call_ensures(LwftBuffer::envelope, (buf,), envelope),
        call_ensures(LwftBuffer::first_event_id, (buf,), first),
        call_ensures(LwftBuffer::get_events, (buf,), all),
    ensures
        empty@.events.len() == 0,
        empty@.chunking_version is None,
        !empty@.has_last_wft,
        empty@.last_taken == 0,
        empty@.envelope.wft_started_id == 0,
        empty@.envelope.previous_wft_started_id == 0,
        !empty@.envelope.has_pending_speculative_updates,
        version == buf@.chunking_version,
        envelope == buf@.envelope,
        previous == envelope.previous_wft_started_id,
        started == envelope.wft_started_id,
        all@ == buf@.events,
        first is None <==> all@.len() == 0,
        first matches Some(id) ==> id == all@[0].event_id,
{
}

/// Setting the version keeps everything else, and never turns the second algorithm into the first.
pub proof fn law_version_is_never_downgraded(buf: &mut LwftBuffer, version: ChunkingVersion)
    requires
        call_ensures(LwftBuffer::set_chunking_version, (buf, version), ()),
    ensures
        version == ChunkingVersion::V2 || old(buf)@.chunking_version == Some(ChunkingVersion::V2)
            ==> final(buf)@.chunking_version == Some(ChunkingVersion::V2),
        version == ChunkingVersion::V1 && old(buf)@.chunking_version != Some(ChunkingVersion::V2)
            ==> final(buf)@.chunking_version == Some(ChunkingVersion::V1),
        final(buf)@.events == old(buf)@.events,
        final(buf)@.envelope == old(buf)@.envelope,
        final(buf)@.has_last_wft == old(buf)@.has_last_wft,
        final(buf)@.last_taken == old(buf)@.last_taken,
{
}

proof fn lemma_first_completed(events: Seq<HistoryEvent>, ix: int, k: int)
    requires
        0 <= ix <= k < events.len(),
        is_completion(events[k]),
        forall|j: int| ix <= j < k ==> !is_completion(#[trigger] events[j]),
    ensures
        super::buffer::first_completed(events, ix) == k,
    decreases k - ix,
{
    if ix < k {
        assert(!is_completion(events[ix]));
        lemma_first_completed(events, ix + 1, k);
    }
}

proof fn lemma_none_completed(events: Seq<HistoryEvent>, ix: int)
    requires
        0 <= ix <= events.len(),
        forall|j: int| ix <= j < events.len() ==> !is_completion(#[trigger] events[j]),
    ensures
        super::buffer::first_completed(events, ix) == events.len(),
    decreases events.len() - ix,
{
    if ix < events.len() {
        assert(!is_completion(events[ix]));
        lemma_none_completed(events, ix + 1);
    }
}

/// The completion that is peeked at is the first one that stands at or behind the first event whose id
/// is at least `from_id`.
pub proof fn law_next_completion_is_the_first_one(
    buf: &LwftBuffer,
    from_id: i64,
    res: Option<&WorkflowTaskCompletedEventAttributes>,
    s: int,
    k: int,
)
    requires
        call_ensures(LwftBuffer::peek_next_wft_completed, (buf, from_id), res),
        begins_at(buf@.events, from_id - 1, s),
        s <= k <= buf@.events.len(),
        k < buf@.events.len() ==> is_completion(buf@.events[k]),
        forall|j: int| s <= j < k ==> !is_completion(#[trigger] buf@.events[j]),
    ensures
        k == buf@.events.len() ==> res is None,
        k < buf@.events.len() ==> (res matches Some(a) && buf@.events[k].attributes == Some(
            Attributes::WorkflowTaskCompletedEventAttributes(*a),
        )),
{
    lemma_skipped_unique(buf@.events, from_id - 1, s);
    if k < buf@.events.len() {
        lemma_first_completed(buf@.events, s, k);
    } else {
        lemma_none_completed(buf@.events, s);
    }
}

/// A task tells and gives away the events that it holds, and whether it is the last.
pub proof fn law_tasks_tell_their_events(
    lwft: &LogicalWorkflowTask,
    events: &[HistoryEvent],
    terminal: bool,
    given: Vec<HistoryEvent>,
)
    requires
        call_ensures(LogicalWorkflowTask::events, (lwft,), events),
        call_ensures(LogicalWorkflowTask::is_terminal, (lwft,), terminal),
        call_ensures(LogicalWorkflowTask::into_events, (*lwft,), given),
    ensures
        events@ == lwft.spec_events(),
        given@ == events@,
        terminal == lwft.spec_is_terminal(),
{
}

/// An event tells how it is classified.
pub proof fn law_events_tell_their_class(
    e: &HistoryEvent,
    kind: EventType,
    command: bool,
    last: bool,
    sensitive: bool,
)
    requires
        call_ensures(HistoryEvent::event_type, (e,), kind),
        call_ensures(HistoryEvent::is_command_event, (e,), command),
        call_ensures(HistoryEvent::is_final_wf_execution_event, (e,), last),
        call_ensures(HistoryEvent::is_wft_time_sensitive_event, (e,), sensitive),
    ensures
        kind == e.event_type,
        command == e.command,
        last == e.final_wf_execution,
        sensitive == e.wft_time_sensitive,
{
}

/// Looking ahead shows the kind of the event that many places behind, or nothing past the end.
pub proof fn law_looking_ahead_shows_kinds(
    events: &[HistoryEvent],
    ix: usize,
    ahead: usize,
    res: Option<EventType>,
)
    requires
        call_ensures(event_type_ahead, (events, ix, ahead), res),
    ensures
        ix + ahead < events@.len() ==> res == Some(events@[ix + ahead].event_type),
        ix + ahead >= events@.len() ==> res is None,
{
}

/// Only the second version is the second.
pub proof fn law_versions_are_told_apart(version: ChunkingVersion, res: bool)
    requires
        call_ensures(ChunkingVersion::is_v2, (version,), res),
    ensures
        version == ChunkingVersion::V2 ==> res,
        version == ChunkingVersion::V1 ==> !res,
{
}

/// The algorithm can be asked about events unless it is the second one and takes them for malformed.
pub proof fn law_chunkable_events_have_an_answer(
    events: &[HistoryEvent],
    from: i64,
    has_last_wft: bool,
    pending: bool,
    version: ChunkingVersion,
    res: bool,
    end: Option<NextWFTSeqEndIndex>,
)
    requires
        call_ensures(is_chunkable, (events, from, has_last_wft, pending, version), res),
        call_ensures(
            try_find_end_index_of_next_wft_seq_v2,
            (events, from, has_last_wft, pending),
            end,
        ),
    ensures
        res == (version == ChunkingVersion::V1 || end is Some),
{
}

/// The event of the batch comes later than the last one before the batch and than all before it in the
/// batch.
pub open spec fn comes_latest(last: int, batch: Seq<HistoryEvent>, i: int) -> bool {
    &&& 0 <= i < batch.len()
    &&& batch[i].event_id > last
    &&& forall|j: int| 0 <= j < i ==> (#[trigger] batch[j]).event_id < batch[i].event_id
}

/// The event is among these, at `n` or behind.
pub open spec fn is_behind(events: Seq<HistoryEvent>, n: int, e: HistoryEvent) -> bool {
    exists|k: int| n <= k < events.len() && (#[trigger] events[k]) == e
}

/// The event is one of the batch that comes latest.
pub open spec fn is_latest_of(last: int, batch: Seq<HistoryEvent>, e: HistoryEvent) -> bool {
    exists|i: int| #[trigger] comes_latest(last, batch, i) && batch[i] == e
}

/// From `n` on the events are exactly those of the batch that come latest, in rising order.
pub open spec fn adds_exactly_the_latest(
    after: Seq<HistoryEvent>,
    n: int,
    last: int,
    batch: Seq<HistoryEvent>,
) -> bool {
    &&& forall|i: int| #[trigger] comes_latest(last, batch, i) ==> is_behind(after, n, batch[i])
    &&& forall|k: int| n <= k < after.len() ==> is_latest_of(last, batch, #[trigger] after[k])
    &&& forall|k: int, l: int|
        n <= k < l < after.len() ==> (#[trigger] after[k]).event_id < (
        #[trigger] after[l]).event_id
}

proof fn lemma_comes_latest(last: int, batch: Seq<HistoryEvent>, i: int)
    requires
        0 <= i < batch.len() - 1,
    ensures
        comes_latest(last, batch.drop_last(), i) == comes_latest(last, batch, i),
{
    let init = batch.drop_last();
    if comes_latest(last, init, i) {
        assert forall|j: int| 0 <= j < i implies (#[trigger] batch[j]).event_id
            < batch[i].event_id by {
            assert(init[j].event_id < init[i].event_id);
        }
    }
    if comes_latest(last, batch, i) {
        assert forall|j: int| 0 <= j < i implies (#[trigger] init[j]).event_id
            < init[i].event_id by {
            assert(batch[j].event_id < batch[i].event_id);
        }
    }
}

/// The greatest of `last` and the ids of the batch.
spec fn greatest(last: int, batch: Seq<HistoryEvent>) -> int
    decreases batch.len(),
{
    if batch.len() == 0 {
        last
    } else {
        let before = greatest(last, batch.drop_last());
        if batch.last().event_id > before {
            batch.last().event_id as int
        } else {
            before
        }
    }
}

proof fn lemma_greatest(last: int, batch: Seq<HistoryEvent>)
    requires
        batch.len() > 0,
    ensures
        comes_latest(last, batch, batch.len() - 1) <==> batch.last().event_id > greatest(
            last,
            batch.drop_last(),
        ),
{
    let init = batch.drop_last();
    lemma_greatest_bounds(last, init);
    let m = batch.len() - 1;
    if batch.last().event_id > greatest(last, init) {
        assert forall|j: int| 0 <= j < m implies (#[trigger] batch[j]).event_id
            < batch[m].event_id by {
            assert(init[j].event_id <= greatest(last, init));
        }
    } else if comes_latest(last, batch, m) && greatest(last, init) != last {
        let j = choose|j: int| 0 <= j < init.len() && (#[trigger] init[j]).event_id == greatest(
            last,
            init,
        );
        assert(batch[j].event_id < batch[m].event_id);
    }
}

proof fn lemma_greatest_bounds(last: int, batch: Seq<HistoryEvent>)
    ensures
        last <= greatest(last, batch),
        forall|j: int|
            0 <= j < batch.len() ==> (#[trigger] batch[j]).event_id <= greatest(last, batch),
        greatest(last, batch) == last || exists|j: int|
            0 <= j < batch.len() && (#[trigger] batch[j]).event_id == greatest(last, batch),
    decreases batch.len(),
{
    if batch.len() > 0 {
        let init = batch.drop_last();
        let m = batch.len() - 1;
        lemma_greatest_bounds(last, init);
        assert forall|j: int| 0 <= j < batch.len() implies (#[trigger] batch[j]).event_id
            <= greatest(last, batch) by {
            if j < m {
                assert(init[j].event_id <= greatest(last, init));
            }
        }
        if batch.last().event_id > greatest(last, init) {
            assert(batch[m].event_id == greatest(last, batch));
        } else if greatest(last, init) != last {
            let j = choose|j: int| 0 <= j < init.len() && (#[trigger] init[j]).event_id == greatest(
                last,
                init,
            );
            assert(batch[j].event_id == greatest(last, batch));
        }
    }
}

proof fn lemma_extended_by_latest(taken: int, events: Seq<HistoryEvent>, batch: Seq<HistoryEvent>)
    ensures
        super::buffer::extended(taken, events, batch).len() >= events.len(),
        super::buffer::last_event_id(taken, super::buffer::extended(taken, events, batch))
            == greatest(super::buffer::last_event_id(taken, events), batch),
        adds_exactly_the_latest(
            super::buffer::extended(taken, events, batch),
            events.len() as int,
            super::buffer::last_event_id(taken, events),
            batch,
        ),
    decreases batch.len(),
{
    let last = super::buffer::last_event_id(taken, events);
    let after = super::buffer::extended(taken, events, batch);
    let n = events.len() as int;
    if batch.len() > 0 {
        let init = batch.drop_last();
        let before = super::buffer::extended(taken, events, init);
        let m = batch.len() - 1;
        lemma_extended_by_latest(taken, events, init);
        lemma_greatest(last, batch);
        let grows = batch.last().event_id > greatest(last, init);
        assert forall|i: int| #[trigger] comes_latest(last, batch, i) implies is_behind(
            after,
            n,
            batch[i],
        ) by {
            if i < m {
                lemma_comes_latest(last, batch, i);
                assert(comes_latest(last, init, i));
                assert(is_behind(before, n, init[i]));
                let k = choose|k: int| n <= k < before.len() && (#[trigger] before[k]) == init[i];
                assert(after[k] == batch[i]);
            } else {
                assert(after[after.len() - 1] == batch[i]);
            }
        }
        assert forall|k: int| n <= k < after.len() implies is_latest_of(
            last,
            batch,
            #[trigger] after[k],
        ) by {
            if k < before.len() {
                assert(is_latest_of(last, init, before[k]));
                let i = choose|i: int| #[trigger]
                    comes_latest(last, init, i) && init[i] == before[k];
                lemma_comes_latest(last, batch, i);
                assert(comes_latest(last, batch, i) && batch[i] == after[k]);
            } else {
                assert(comes_latest(last, batch, m) && batch[m] == after[k]);
            }
        }
        assert forall|k: int, l: int| n <= k < l < after.len() implies (
        #[trigger] after[k]).event_id < (#[trigger] after[l]).event_id by {
            if l < before.len() {
                assert(before[k].event_id < before[l].event_id);
            } else if k < before.len() - 1 {
                assert(before[k].event_id < before[before.len() - 1].event_id);
            }
        }
    } else {
        assert forall|i: int| #[trigger] comes_latest(last, batch, i) implies is_behind(
            after,
            n,
            batch[i],
        ) by {}
    }
}

/// Of any batch, exactly the events that come later than all before them are added, in their order.
pub proof fn law_push_adds_exactly_the_latest(
    buf: &mut LwftBuffer,
    envelope: WftEnvelope,
    events: Vec<HistoryEvent>,
    no_more_pages: bool,
    last: int,
)
    requires
        call_ensures(LwftBuffer::push_events, (buf, envelope, events, no_more_pages), ()),
        old(buf)@.events.len() > 0 ==> last == old(buf)@.events.last().event_id,
        old(buf)@.events.len() == 0 ==> last == old(buf)@.last_taken,
    ensures
        adds_exactly_the_latest(
            final(buf)@.events,
            old(buf)@.events.len() as int,
            last,
            events@,
        ),
{
    let b = old(buf)@;
    lemma_extended_by_latest(b.last_taken, b.events, events@);
}

} // verus!
