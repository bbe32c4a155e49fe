//! Picks the chunking algorithm of a workflow and runs it.

use super::chunking::{skipped, ChunkingVersion, NextWFTSeqEndIndex, WftEnd};
use super::chunking_v1::{
    find_end_index_of_next_wft_seq_v1, law_v1_boundary, law_v1_ignores_handled_events, wft_end_v1,
};
use super::chunking_v2::{
    find_end_index_of_next_wft_seq_v2, law_v2_boundary, law_v2_ignores_handled_events,
    try_find_end_index_of_next_wft_seq_v2, wft_end_v2,
};
use super::event::{
    carries_chunking_v2, is_wft_completed, Attributes, CoreInternalFlags, HistoryEvent,
};
use vstd::prelude::*;

verus! {

/// Where the logical task behind event id `from` ends, by the given algorithm. `None` for a
/// history that the algorithm takes for malformed.
pub open spec fn wft_end(
    events: Seq<HistoryEvent>,
    from: int,
    has_last_wft: bool,
    pending: bool,
    version: ChunkingVersion,
) -> Option<WftEnd> {
    match version {
        ChunkingVersion::V2 => wft_end_v2(events, from, has_last_wft, pending),
        ChunkingVersion::V1 => Some(wft_end_v1(events, from, has_last_wft)),
    }
}

/// Finds where the logical task behind `from_event_id` ends.
pub fn find_end_index_of_next_wft_seq(
    events: &[HistoryEvent],
    from_event_id: i64,
    has_last_wft: bool,
    has_pending_speculative_updates: bool,
    chunking_version: ChunkingVersion,
) -> (res: NextWFTSeqEndIndex)
    requires
        wft_end(
            events@,
            from_event_id as int,
            has_last_wft,
            has_pending_speculative_updates,
            chunking_version,
        ) is Some,
    ensures
        wft_end(
            events@,
            from_event_id as int,
            has_last_wft,
            has_pending_speculative_updates,
            chunking_version,
        ) == Some(res@),
{
    match chunking_version {
        ChunkingVersion::V2 => find_end_index_of_next_wft_seq_v2(
            events,
            from_event_id,
            has_last_wft,
            has_pending_speculative_updates,
        ),
        ChunkingVersion::V1 => find_end_index_of_next_wft_seq_v1(
            events,
            from_event_id,
            has_last_wft,
        ),
    }
}

/// Whether [`find_end_index_of_next_wft_seq`] can be asked about these events.
pub fn is_chunkable(
    events: &[HistoryEvent],
    from_event_id: i64,
    has_last_wft: bool,
    has_pending_speculative_updates: bool,
    chunking_version: ChunkingVersion,
) -> (res: bool)
    ensures
        res == wft_end(
            events@,
            from_event_id as int,
            has_last_wft,
            has_pending_speculative_updates,
            chunking_version,
        ) is Some,
{
    match chunking_version {
        ChunkingVersion::V2 => try_find_end_index_of_next_wft_seq_v2(
            events,
            from_event_id,
            has_last_wft,
            has_pending_speculative_updates,
        ).is_some(),
        ChunkingVersion::V1 => true,
    }
}

/// Both algorithms answer within the events. With the whole history at hand neither asks for more;
/// without it neither declares the tail.
pub proof fn law_boundary(
    events: Seq<HistoryEvent>,
    from: int,
    has_last_wft: bool,
    pending: bool,
    version: ChunkingVersion,
)
    ensures
        wft_end(events, from, has_last_wft, pending, version) == Some(WftEnd::NeedMore)
            ==> !has_last_wft,
        wft_end(events, from, has_last_wft, pending, version) == Some(WftEnd::Tail) ==> has_last_wft,
        wft_end(events, from, has_last_wft, pending, version) matches Some(WftEnd::Complete(end))
            ==> 0 <= end < events.len(),
{
    super::chunking::lemma_skipped(events, from);
    law_v1_boundary(events, from, has_last_wft);
    law_v2_boundary(events, from, has_last_wft, pending);
}

/// Dropping events that were handled already moves the boundary and changes nothing else.
pub proof fn law_ignores_handled_events(
    events: Seq<HistoryEvent>,
    from: int,
    has_last_wft: bool,
    pending: bool,
    version: ChunkingVersion,
    k: int,
)
    requires
        0 <= k <= skipped(events, from),
    ensures
        wft_end(events, from, has_last_wft, pending, version) == (match wft_end(
            events.skip(k),
            from,
            has_last_wft,
            pending,
            version,
        ) {
            Some(end) => Some(end.shifted(k)),
            None => None,
        }),
{
    law_v1_ignores_handled_events(events, from, has_last_wft, k);
    law_v2_ignores_handled_events(events, from, has_last_wft, pending, k);
}

/// What the events say about the chunking version, given what was known before.
///
/// A known version stays. Otherwise a completed task with the flag makes it `V2`, and a completed
/// task without any flagged one `V1`.
pub open spec fn resolved_version(
    events: Seq<HistoryEvent>,
    prior: Option<ChunkingVersion>,
) -> Option<ChunkingVersion> {
    if prior is Some {
        prior
    } else if exists|i: int| 0 <= i < events.len() && carries_chunking_v2(#[trigger] events[i]) {
        Some(ChunkingVersion::V2)
    } else if exists|i: int| 0 <= i < events.len() && is_wft_completed(#[trigger] events[i]) {
        Some(ChunkingVersion::V1)
    } else {
        None
    }
}

/// Whether the event is a completed task that carries the `WftChunkingV2` flag.
fn event_has_wft_chunking_v2(e: &HistoryEvent) -> (res: bool)
    ensures
        res == carries_chunking_v2(*e),
{
    if let Some(Attributes::WorkflowTaskCompletedEventAttributes(attr)) = &e.attributes {
        if let Some(metadata) = &attr.sdk_metadata {
            let flags = &metadata.core_used_flags;
            let mut i: usize = 0;
            while i < flags.len()
                invariant
                    i <= flags.len(),
                    e.attributes == Some(Attributes::WorkflowTaskCompletedEventAttributes(*attr)),
                    attr.sdk_metadata == Some(*metadata),
                    *flags == metadata.core_used_flags,
                    forall|j: int| 0 <= j < i ==> flags@[j] != CoreInternalFlags::WftChunkingV2,
                decreases flags.len() - i,
            {
                if flags[i] == CoreInternalFlags::WftChunkingV2 {
                    return true;
                }
                i += 1;
            }
        }
    }
    false
}

/// A completed task among the events carries the `WftChunkingV2` flag.
pub open spec fn any_carries_chunking_v2(events: Seq<HistoryEvent>) -> bool {
    exists|i: int| 0 <= i < events.len() && carries_chunking_v2(#[trigger] events[i])
}

/// A completed task is among the events.
pub open spec fn any_wft_completed(events: Seq<HistoryEvent>) -> bool {
    exists|i: int| 0 <= i < events.len() && is_wft_completed(#[trigger] events[i])
}

/// Whether any completed task among the events carries the `WftChunkingV2` flag.
pub fn events_have_wft_chunking_v2(events: &[HistoryEvent]) -> (res: bool)
    ensures
        res == exists|i: int| 0 <= i < events@.len() && carries_chunking_v2(#[trigger] events@[i]),
        res == any_carries_chunking_v2(events@),
{
    let mut i: usize = 0;
    while i < events.len()
        invariant
            i <= events.len(),
            forall|j: int| 0 <= j < i ==> !carries_chunking_v2(#[trigger] events@[j]),
        decreases events.len() - i,
    {
        if event_has_wft_chunking_v2(&events[i]) {
            return true;
        }
        i += 1;
    }
    false
}

/// Whether a completed task is among the events.
pub fn events_have_any_wft_completed(events: &[HistoryEvent]) -> (res: bool)
    ensures
        res == exists|i: int| 0 <= i < events@.len() && is_wft_completed(#[trigger] events@[i]),
        res == any_wft_completed(events@),
{
    let mut i: usize = 0;
    while i < events.len()
        invariant
            i <= events.len(),
            forall|j: int| 0 <= j < i ==> !is_wft_completed(#[trigger] events@[j]),
        decreases events.len() - i,
    {
        if let Some(Attributes::WorkflowTaskCompletedEventAttributes(_)) = &events[i].attributes {
            return true;
        }
        i += 1;
    }
    false
}

/// Resolves the chunking version from a window of events, given what was known before.
pub fn resolve_chunking_version_from_events(
    events: &[HistoryEvent],
    prior: Option<ChunkingVersion>,
) -> (res: Option<ChunkingVersion>)
    ensures
        res == resolved_version(events@, prior),
{
    if prior.is_some() {
        return prior;
    }
    if events_have_wft_chunking_v2(events) {
        return Some(ChunkingVersion::V2);
    }
    if events_have_any_wft_completed(events) {
        return Some(ChunkingVersion::V1);
    }
    None
}

} // verus!
