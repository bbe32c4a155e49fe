//! Which chunking algorithm applies, and what a run of one answers.

use super::event::HistoryEvent;
use vstd::prelude::*;

verus! {

/// Which workflow-task chunking algorithm applies to a particular workflow.
///
/// Chunking is a per-workflow-execution decision: a workflow's first `WorkflowTaskCompleted`
/// either carries the `WftChunkingV2` SDK flag or does not. The choice is then permanent.
#[derive(Clone, Copy, Debug, PartialEq, Eq, Structural)]
pub enum ChunkingVersion {
    /// Legacy chunking algorithm.
    V1,
    /// Newer, more rigorous chunking algorithm.
    V2,
}

impl ChunkingVersion {
    /// True iff this is the v2 algorithm.
    pub fn is_v2(self) -> (res: bool)
        ensures
            res == (self == ChunkingVersion::V2),
    {
        matches!(self, ChunkingVersion::V2)
    }
}

/// Where the next logical workflow task ends within a slice of events.
#[derive(Clone, Copy, Debug, PartialEq, Eq, Structural)]
pub enum NextWFTSeqEndIndex {
    /// The next logical workflow task is completely contained in the slice and ends at this index.
    Complete(usize),
    /// Not enough events in the slice to determine the boundary.
    NeedMore,
    /// No boundary is left; whatever remains is trailing matter after the last task.
    Tail,
}

/// Mathematical counterpart of [`NextWFTSeqEndIndex`].
pub enum WftEnd {
    Complete(int),
    NeedMore,
    Tail,
}

impl View for NextWFTSeqEndIndex {
    type V = WftEnd;

    open spec fn view(&self) -> WftEnd {
        match *self {
            NextWFTSeqEndIndex::Complete(ix) => WftEnd::Complete(ix as int),
            NextWFTSeqEndIndex::NeedMore => WftEnd::NeedMore,
            NextWFTSeqEndIndex::Tail => WftEnd::Tail,
        }
    }
}

impl WftEnd {
    /// The same answer, seen from `k` events further to the front.
    pub open spec fn shifted(self, k: int) -> WftEnd {
        match self {
            WftEnd::Complete(ix) => WftEnd::Complete(ix + k),
            _ => self,
        }
    }

    /// Last event index that this answer refers to in a slice of length `len`.
    pub open spec fn end_in(self, len: int) -> int {
        match self {
            WftEnd::Complete(ix) => ix,
            _ => if len == 0 { 0 } else { len - 1 },
        }
    }
}

/// What is answered when no boundary was found in the slice.
pub open spec fn no_boundary(has_last_wft: bool) -> WftEnd {
    if has_last_wft { WftEnd::Tail } else { WftEnd::NeedMore }
}

impl NextWFTSeqEndIndex {
    /// Last event index within a slice of length `slice_len` that this result refers to.
    pub fn end_index_in_slice(self, slice_len: usize) -> (res: usize)
        ensures
            res == self@.end_in(slice_len as int),
    {
        match self {
            NextWFTSeqEndIndex::Complete(ix) => ix,
            NextWFTSeqEndIndex::NeedMore | NextWFTSeqEndIndex::Tail => slice_len.saturating_sub(1),
        }
    }

    /// This result, for a slice that starts `val` events earlier.
    pub fn add(self, val: usize) -> (res: Self)
        requires
            self matches NextWFTSeqEndIndex::Complete(ix) ==> ix + val <= usize::MAX,
        ensures
            res@ == self@.shifted(val as int),
    {
        match self {
            NextWFTSeqEndIndex::Complete(ix) => NextWFTSeqEndIndex::Complete(ix + val),
            NextWFTSeqEndIndex::NeedMore => NextWFTSeqEndIndex::NeedMore,
            NextWFTSeqEndIndex::Tail => NextWFTSeqEndIndex::Tail,
        }
    }
}

/// How many leading events have an id of at most `from`.
pub open spec fn skipped(events: Seq<HistoryEvent>, from: int) -> int
    decreases events.len(),
{
    if events.len() == 0 || events[0].event_id > from {
        0
    } else {
        1 + skipped(events.drop_first(), from)
    }
}

/// `skipped` is the position of the first event whose id exceeds `from`, or the length if none
/// does.
pub proof fn lemma_skipped(events: Seq<HistoryEvent>, from: int)
    ensures
        0 <= skipped(events, from) <= events.len(),
        forall|j: int| 0 <= j < skipped(events, from) ==> (#[trigger] events[j]).event_id <= from,
        skipped(events, from) < events.len() ==> events[skipped(events, from)].event_id > from,
    decreases events.len(),
{
    if events.len() == 0 || events[0].event_id > from {
    } else {
        let rest = events.drop_first();
        lemma_skipped(rest, from);
        assert forall|j: int| 0 <= j < skipped(events, from) implies (
        #[trigger] events[j]).event_id <= from by {
            if j > 0 {
                assert(events[j] == rest[j - 1]);
            }
        }
    }
}

/// Only one position can be the first whose event id exceeds `from`.
pub proof fn lemma_skipped_unique(events: Seq<HistoryEvent>, from: int, k: int)
    requires
        0 <= k <= events.len(),
        forall|j: int| 0 <= j < k ==> (#[trigger] events[j]).event_id <= from,
        k < events.len() ==> events[k].event_id > from,
    ensures
        skipped(events, from) == k,
{
    lemma_skipped(events, from);
    let s = skipped(events, from);
    if s < k {
        assert(events[s].event_id <= from);
    } else if k < s {
        assert(events[k].event_id <= from);
    }
}

/// Position of the first event whose id exceeds `from_wft_started_id`.
pub fn starting_index_after_skipping(
    events: &[HistoryEvent],
    from_wft_started_id: i64,
) -> (res: Option<usize>)
    ensures
        match res {
            Some(ix) => ix == skipped(events@, from_wft_started_id as int) < events@.len(),
            None => skipped(events@, from_wft_started_id as int) == events@.len(),
        },
{
    let mut ix: usize = 0;
    while ix < events.len()
        invariant
            ix <= events.len(),
            forall|j: int| 0 <= j < ix ==> (#[trigger] events@[j]).event_id <= from_wft_started_id,
        decreases events.len() - ix,
    {
        if events[ix].event_id > from_wft_started_id {
            proof {
                lemma_skipped_unique(events@, from_wft_started_id as int, ix as int);
            }
            return Some(ix);
        }
        ix += 1;
    }
    proof {
        lemma_skipped_unique(events@, from_wft_started_id as int, ix as int);
    }
    None
}

} // verus!
