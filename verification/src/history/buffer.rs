//! The per-run buffer that turns history events into logical workflow tasks.

use super::chunker::{
    find_end_index_of_next_wft_seq, is_chunkable, law_boundary, law_ignores_handled_events,
    resolve_chunking_version_from_events, resolved_version, wft_end,
};
use super::chunking::{
    lemma_skipped, lemma_skipped_unique, skipped, starting_index_after_skipping, ChunkingVersion,
    NextWFTSeqEndIndex, WftEnd,
};
use super::event::{Attributes, HistoryEvent, WorkflowTaskCompletedEventAttributes};
use vstd::prelude::*;

verus! {

/// Per-poll metadata: the parts of a polled workflow task that are not its events.
#[derive(Clone, Copy, Debug, PartialEq, Eq, Structural)]
pub struct WftEnvelope {
    /// The event id of the last started task, according to the polled one.
    pub previous_wft_started_id: i64,
    /// The event id at which the polled task started.
    pub wft_started_id: i64,
    /// Whether the polled task carries pending update messages.
    pub has_pending_speculative_updates: bool,
}

impl Default for WftEnvelope {
    fn default() -> (res: Self)
        ensures
            res == empty_envelope(),
    {
        WftEnvelope {
            previous_wft_started_id: 0,
            wft_started_id: 0,
            has_pending_speculative_updates: false,
        }
    }
}

/// The envelope of a buffer that nothing was pushed to.
pub open spec fn empty_envelope() -> WftEnvelope {
    WftEnvelope {
        previous_wft_started_id: 0,
        wft_started_id: 0,
        has_pending_speculative_updates: false,
    }
}

/// A complete logical workflow task: the events to be applied as one unit.
#[derive(Debug)]
pub struct LogicalWorkflowTask {
    events: Vec<HistoryEvent>,
    is_terminal: bool,
}

impl LogicalWorkflowTask {
    /// The events of the task, as a sequence.
    pub closed spec fn spec_events(&self) -> Seq<HistoryEvent> {
        self.events@
    }

    /// Whether the task is the last one, as a specification.
    pub closed spec fn spec_is_terminal(&self) -> bool {
        self.is_terminal
    }

    /// The events, in history order.
    pub fn events(&self) -> (res: &[HistoryEvent])
        ensures
            res@ == self.spec_events(),
    {
        self.events.as_slice()
    }

    /// Whether this is the final task of the workflow.
    pub fn is_terminal(&self) -> (res: bool)
        ensures
            res == self.spec_is_terminal(),
    {
        self.is_terminal
    }

    /// Gives the events away.
    pub fn into_events(self) -> (res: Vec<HistoryEvent>)
        ensures
            res@ == self.spec_events(),
    {
        self.events
    }
}

/// What taking the next logical task gives.
#[derive(Debug)]
pub enum NextWFT {
    /// All tasks were taken, and the whole history is known.
    ReplayOver,
    /// The next task.
    WFT(LogicalWorkflowTask),
    /// More events are needed to tell.
    NeedFetch,
}

/// Mathematical counterpart of [`NextWFT`].
pub enum NextTask {
    ReplayOver,
    Task { events: Seq<HistoryEvent>, is_terminal: bool },
    NeedFetch,
}

impl View for NextWFT {
    type V = NextTask;

    open spec fn view(&self) -> NextTask {
        match *self {
            NextWFT::ReplayOver => NextTask::ReplayOver,
            NextWFT::WFT(lwft) => NextTask::Task {
                events: lwft.spec_events(),
                is_terminal: lwft.spec_is_terminal(),
            },
            NextWFT::NeedFetch => NextTask::NeedFetch,
        }
    }
}

/// Per-run owner of history events: events are pushed in, logical tasks are taken out.
#[derive(Debug)]
pub struct LwftBuffer {
    events: Vec<HistoryEvent>,
    envelope: WftEnvelope,
    has_last_wft: bool,
    chunking_version: Option<ChunkingVersion>,
    last_taken_id: i64,
}

/// Mathematical counterpart of [`LwftBuffer`].
pub struct BufferState {
    /// Events not yet taken, in history order.
    pub events: Seq<HistoryEvent>,
    /// The envelope that was pushed last.
    pub envelope: WftEnvelope,
    /// Whether the whole history was pushed.
    pub has_last_wft: bool,
    /// The chunking version of the run, once known.
    pub chunking_version: Option<ChunkingVersion>,
    /// Id of the last event that was taken, or 0.
    pub last_taken: int,
}

impl View for LwftBuffer {
    type V = BufferState;

    closed spec fn view(&self) -> BufferState {
        BufferState {
            events: self.events@,
            envelope: self.envelope,
            has_last_wft: self.has_last_wft,
            chunking_version: self.chunking_version,
            last_taken: self.last_taken_id as int,
        }
    }
}

/// Id of the last event, or `taken` if there is none.
pub open spec fn last_event_id(taken: int, events: Seq<HistoryEvent>) -> int {
    if events.len() == 0 {
        taken
    } else {
        events.last().event_id as int
    }
}

/// The events, behind those taken up to the id `taken`, with those of a batch behind them. An event of
/// the batch whose id does not exceed that of the last event before it is dropped.
pub open spec fn extended(
    taken: int,
    events: Seq<HistoryEvent>,
    batch: Seq<HistoryEvent>,
) -> Seq<HistoryEvent>
    decreases batch.len(),
{
    if batch.len() == 0 {
        events
    } else {
        let before = extended(taken, events, batch.drop_last());
        if batch.last().event_id > last_event_id(taken, before) {
            before.push(batch.last())
        } else {
            before
        }
    }
}

impl BufferState {
    /// A buffer that nothing was pushed to.
    pub open spec fn empty() -> BufferState {
        BufferState {
            events: Seq::empty(),
            envelope: empty_envelope(),
            has_last_wft: false,
            chunking_version: None,
            last_taken: 0,
        }
    }

    /// The buffer after a push.
    pub open spec fn pushed(
        self,
        envelope: WftEnvelope,
        batch: Seq<HistoryEvent>,
        no_more_pages: bool,
    ) -> BufferState {
        let events = extended(self.last_taken, self.events, batch);
        BufferState {
            events,
            envelope,
            has_last_wft: self.has_last_wft || no_more_pages,
            chunking_version: resolved_version(events, self.chunking_version),
            ..self
        }
    }

    /// The algorithm that tasks are taken by, once that is settled. A run whose whole history holds
    /// no completed task goes by the legacy one.
    pub open spec fn effective_version(self) -> Option<ChunkingVersion> {
        match self.chunking_version {
            Some(v) => Some(v),
            None => if self.has_last_wft {
                Some(ChunkingVersion::V1)
            } else {
                None
            },
        }
    }

    /// The events from the first one behind `from` on, or all of them if there is none.
    pub open spec fn relevant(self, from: int) -> Seq<HistoryEvent> {
        if skipped(self.events, from) < self.events.len() {
            self.events.skip(skipped(self.events, from))
        } else {
            self.events
        }
    }

    /// Where the next task ends among the relevant events.
    pub open spec fn end_of_next(self, from: int, version: ChunkingVersion) -> Option<WftEnd> {
        wft_end(
            self.relevant(from),
            from,
            self.has_last_wft,
            self.envelope.has_pending_speculative_updates,
            version,
        )
    }

    /// The buffered events are no malformed history for the algorithm of this run.
    pub open spec fn chunkable(self, from: int) -> bool {
        self.chunking_version == Some(ChunkingVersion::V2) ==> self.end_of_next(
            from,
            ChunkingVersion::V2,
        ) is Some
    }

    /// How many relevant events the next task takes, if it can be taken.
    pub open spec fn next_len(self, from: int) -> Option<int> {
        match self.effective_version() {
            None => None,
            Some(version) => match self.end_of_next(from, version) {
                Some(WftEnd::Complete(ix)) => Some(ix + 1),
                Some(WftEnd::Tail) => Some(self.relevant(from).len() as int),
                _ => None,
            },
        }
    }

    /// What taking the next task behind `from` gives.
    pub open spec fn next_task(self, from: int) -> NextTask {
        match self.next_len(from) {
            None => NextTask::NeedFetch,
            Some(n) => if n == 0 {
                NextTask::ReplayOver
            } else {
                NextTask::Task {
                    events: self.relevant(from).take(n),
                    is_terminal: self.has_last_wft && n == self.relevant(from).len(),
                }
            },
        }
    }

    /// The buffer after the next task behind `from` was taken.
    pub open spec fn taken(self, from: int) -> BufferState {
        BufferState {
            events: match self.next_len(from) {
                None => self.relevant(from),
                Some(n) => self.relevant(from).skip(n),
            },
            last_taken: match self.next_task(from) {
                NextTask::Task { events, is_terminal: _ } => events.last().event_id as int,
                _ => self.last_taken,
            },
            ..self
        }
    }

    /// What peeking at the next task behind `from` shows.
    pub open spec fn peeked(self, from: int) -> Seq<HistoryEvent> {
        let relevant = self.relevant(from);
        let version = match self.chunking_version {
            Some(v) => v,
            None => ChunkingVersion::V1,
        };
        match self.end_of_next(from, version) {
            Some(WftEnd::Complete(ix)) => relevant.take(ix + 1),
            _ => relevant,
        }
    }
}

/// Position of the first completed task at or after `ix`, or the length.
pub open spec fn first_completed(events: Seq<HistoryEvent>, ix: int) -> int
    decreases events.len() - ix,
{
    if ix < 0 || ix >= events.len() {
        events.len() as int
    } else if events[ix].attributes matches Some(
        Attributes::WorkflowTaskCompletedEventAttributes(_),
    ) {
        ix
    } else {
        first_completed(events, ix + 1)
    }
}

impl LwftBuffer {
    /// An empty buffer, for a freshly created run.
    pub fn empty() -> (res: Self)
        ensures
            res@ == BufferState::empty(),
    {
        LwftBuffer {
            events: Vec::new(),
            envelope: WftEnvelope::default(),
            has_last_wft: false,
            chunking_version: None,
            last_taken_id: 0,
        }
    }

    /// Appends a batch of events, in history order.
    ///
    /// An event whose id does not exceed that of the event before it, which may have been taken by now,
    /// is dropped: pages may overlap.
    /// `no_more_pages` latches: it is never unset. The chunking version is resolved as soon as the events tell.
    pub fn push_events(
        &mut self,
        envelope: WftEnvelope,
        events: Vec<HistoryEvent>,
        no_more_pages: bool,
    )
        ensures
            final(self)@ == old(self)@.pushed(envelope, events@, no_more_pages),
    {
        self.envelope = envelope;
        let ghost before = self.events@;
        let ghost taken = self.last_taken_id as int;
        let mut last_id: i64 = if self.events.len() == 0 {
            self.last_taken_id
        } else {
            self.events[self.events.len() - 1].event_id
        };
        for e in it: events
            invariant
                it.seq() == events@,
                self.events@ == extended(taken, before, events@.take(it.index() as int)),
                last_id == last_event_id(taken, self.events@),
                self.envelope == envelope,
                self.has_last_wft == old(self).has_last_wft,
                self.chunking_version == old(self).chunking_version,
                self.last_taken_id == old(self).last_taken_id,
        {
            proof {
                let n = it.index() as int;
                assert(events@.take(n + 1).drop_last() == events@.take(n));
            }
            if e.event_id > last_id {
                last_id = e.event_id;
                self.events.push(e);
            }
        }
        proof {
            assert(events@.take(events@.len() as int) == events@);
        }
        if no_more_pages {
            self.has_last_wft = true;
        }
        self.chunking_version =
        resolve_chunking_version_from_events(self.events.as_slice(), self.chunking_version);
    }

    /// Records the chunking version of the run. `V2` is never downgraded to `V1`.
    pub fn set_chunking_version(&mut self, v: ChunkingVersion)
        ensures
            final(self)@ == (BufferState {
                chunking_version: if old(self)@.chunking_version == Some(ChunkingVersion::V2) {
                    Some(ChunkingVersion::V2)
                } else {
                    Some(v)
                },
                ..old(self)@
            }),
    {
        match (self.chunking_version, v) {
            (Some(ChunkingVersion::V2), ChunkingVersion::V1) => {},
            _ => {
                self.chunking_version = Some(v);
            },
        }
    }

    /// The chunking version of the run, once known.
    pub fn chunking_version(&self) -> (res: Option<ChunkingVersion>)
        ensures
            res == self@.chunking_version,
    {
        self.chunking_version
    }

    /// Event id of the last started task, according to the latest poll.
    pub fn previous_wft_started_id(&self) -> (res: i64)
        ensures
            res == self@.envelope.previous_wft_started_id,
    {
        self.envelope.previous_wft_started_id
    }

    /// Event id at which the task of the latest poll started.
    pub fn wft_started_id(&self) -> (res: i64)
        ensures
            res == self@.envelope.wft_started_id,
    {
        self.envelope.wft_started_id
    }

    /// The envelope that was pushed last.
    pub fn envelope(&self) -> (res: WftEnvelope)
        ensures
            res == self@.envelope,
    {
        self.envelope
    }

    /// Id of the first buffered event.
    pub fn first_event_id(&self) -> (res: Option<i64>)
        ensures
            res == (if self@.events.len() == 0 {
                None
            } else {
                Some(self@.events[0].event_id)
            }),
    {
        if self.events.len() == 0 {
            None
        } else {
            Some(self.events[0].event_id)
        }
    }

    /// All buffered events, in order.
    pub fn get_events(&self) -> (res: &[HistoryEvent])
        ensures
            res@ == self@.events,
    {
        self.events.as_slice()
    }

    /// Whether a task behind `from_wft_started_id` can be looked for: the buffered events are no
    /// malformed history.
    pub fn is_chunkable(&self, from_wft_started_id: i64) -> (res: bool)
        ensures
            res == self@.chunkable(from_wft_started_id as int),
    {
        proof {
            self@.lemma_end_of_next(from_wft_started_id as int, ChunkingVersion::V2);
        }
        match self.chunking_version {
            Some(ChunkingVersion::V2) => is_chunkable(
                self.events.as_slice(),
                from_wft_started_id,
                self.has_last_wft,
                self.envelope.has_pending_speculative_updates,
                ChunkingVersion::V2,
            ),
            _ => true,
        }
    }

    /// Takes the next logical task out of the buffer, with its events.
    ///
    /// While the chunking version is unknown and more events may follow, nothing is taken.
    pub fn take_next_wft_sequence(&mut self, from_wft_started_id: i64) -> (res: NextWFT)
        requires
            old(self)@.chunkable(from_wft_started_id as int),
        ensures
            res@ == old(self)@.next_task(from_wft_started_id as int),
            final(self)@ == old(self)@.taken(from_wft_started_id as int),
    {
        let ghost from = from_wft_started_id as int;
        proof {
            lemma_skipped(self.events@, from);
        }
        if let Some(ix_first_relevant) = starting_index_after_skipping(
            self.events.as_slice(),
            from_wft_started_id,
        ) {
            self.events = self.events.split_off(ix_first_relevant);
            assert(self.events@ == old(self)@.events.skip(ix_first_relevant as int));
        }
        assert(self.events@ == old(self)@.relevant(from));

        let chunking_version = match self.chunking_version {
            Some(v) => v,
            None => {
                if !self.has_last_wft {
                    return NextWFT::NeedFetch;
                }
                ChunkingVersion::V1
            },
        };
        proof {
            law_boundary(
                self.events@,
                from,
                self.has_last_wft,
                self.envelope.has_pending_speculative_updates,
                chunking_version,
            );
        }
        let n: usize = self.events.len();
        match find_end_index_of_next_wft_seq(
            self.events.as_slice(),
            from_wft_started_id,
            self.has_last_wft,
            self.envelope.has_pending_speculative_updates,
            chunking_version,
        ) {
            NextWFTSeqEndIndex::NeedMore => NextWFT::NeedFetch,
            NextWFTSeqEndIndex::Tail => {
                if n == 0 {
                    assert(self.events@.skip(0) == self.events@);
                    NextWFT::ReplayOver
                } else {
                    // Trailing matter, such as terminal events.
                    self.build_next_wft(n)
                }
            },
            NextWFTSeqEndIndex::Complete(next_wft_ix) => self.build_next_wft(next_wft_ix + 1),
        }
    }

    /// Takes the first `n` events as a task.
    fn build_next_wft(&mut self, n: usize) -> (res: NextWFT)
        requires
            0 < n <= old(self)@.events.len(),
        ensures
            res@ == (NextTask::Task {
                events: old(self)@.events.take(n as int),
                is_terminal: old(self)@.has_last_wft && n == old(self)@.events.len(),
            }),
            final(self)@ == (BufferState {
                events: old(self)@.events.skip(n as int),
                last_taken: old(self)@.events[n - 1].event_id as int,
                ..old(self)@
            }),
    {
        let mut events = self.events.split_off(n);
        std::mem::swap(&mut events, &mut self.events);
        proof {
            assert(events@ == old(self)@.events.take(n as int));
            assert(self.events@ == old(self)@.events.skip(n as int));
        }
        self.last_taken_id = events[n - 1].event_id;
        let is_terminal = self.events.len() == 0 && self.has_last_wft;
        NextWFT::WFT(LogicalWorkflowTask { events, is_terminal })
    }

    /// The events of the next logical task, without taking it.
    ///
    /// At the end of the known history this may be part of a task only. While the chunking version
    /// is unknown this goes by the legacy algorithm, and what is taken later may differ.
    pub fn peek_next_wft_sequence(&self, from_wft_started_id: i64) -> (res: &[HistoryEvent])
        requires
            self@.chunkable(from_wft_started_id as int),
        ensures
            res@ == self@.peeked(from_wft_started_id as int),
    {
        let ghost from = from_wft_started_id as int;
        proof {
            lemma_skipped(self.events@, from);
        }
        let ix_first_relevant: usize = match starting_index_after_skipping(
            self.events.as_slice(),
            from_wft_started_id,
        ) {
            Some(ix) => ix,
            None => 0,
        };
        let relevant_events = vstd::slice::slice_subrange(
            self.events.as_slice(),
            ix_first_relevant,
            self.events.len(),
        );
        assert(relevant_events@ == self@.relevant(from));
        if relevant_events.len() == 0 {
            return relevant_events;
        }
        let chunking_version = match self.chunking_version {
            Some(v) => v,
            None => ChunkingVersion::V1,
        };
        proof {
            law_boundary(
                relevant_events@,
                from,
                self.has_last_wft,
                self.envelope.has_pending_speculative_updates,
                chunking_version,
            );
        }
        let ix_end: usize = find_end_index_of_next_wft_seq(
            relevant_events,
            from_wft_started_id,
            self.has_last_wft,
            self.envelope.has_pending_speculative_updates,
            chunking_version,
        ).end_index_in_slice(relevant_events.len());
        vstd::slice::slice_subrange(relevant_events, 0, ix_end + 1)
    }

    /// Whether the next logical task can be taken without pushing more events.
    pub fn can_take_next_wft_sequence(&self, from_wft_started_id: i64) -> (res: bool)
        requires
            self@.chunkable(from_wft_started_id as int),
        ensures
            res == !(self@.next_task(from_wft_started_id as int) is NeedFetch),
    {
        let chunking_version = match self.chunking_version {
            Some(v) => v,
            None => {
                if !self.has_last_wft {
                    return false;
                }
                ChunkingVersion::V1
            },
        };
        proof {
            self@.lemma_end_of_next(from_wft_started_id as int, chunking_version);
        }
        match find_end_index_of_next_wft_seq(
            self.events.as_slice(),
            from_wft_started_id,
            self.has_last_wft,
            self.envelope.has_pending_speculative_updates,
            chunking_version,
        ) {
            NextWFTSeqEndIndex::NeedMore => false,
            NextWFTSeqEndIndex::Tail => self.has_last_wft,
            NextWFTSeqEndIndex::Complete(_) => true,
        }
    }

    /// The attributes of the first completed task at or behind event id `from_id`.
    pub fn peek_next_wft_completed(&self, from_id: i64) -> (res: Option<
        &WorkflowTaskCompletedEventAttributes,
    >)
        ensures
            ({
                let ix = first_completed(self@.events, skipped(self@.events, from_id - 1));
                match res {
                    Some(a) => ix < self@.events.len() && self@.events[ix].attributes == Some(
                        Attributes::WorkflowTaskCompletedEventAttributes(*a),
                    ),
                    None => ix == self@.events.len(),
                }
            }),
    {
        let mut ix: usize = 0;
        while ix < self.events.len() && self.events[ix].event_id < from_id
            invariant
                ix <= self.events@.len(),
                forall|j: int| 0 <= j < ix ==> (#[trigger] self.events@[j]).event_id <= from_id - 1,
            decreases self.events@.len() - ix,
        {
            ix += 1;
        }
        proof {
            lemma_skipped_unique(self.events@, from_id - 1, ix as int);
        }
        while ix < self.events.len()
            invariant
                ix <= self.events@.len(),
                first_completed(self@.events, skipped(self@.events, from_id - 1))
                    == first_completed(self@.events, ix as int),
            decreases self.events@.len() - ix,
        {
            if let Some(Attributes::WorkflowTaskCompletedEventAttributes(a)) =
                &self.events[ix].attributes {
                return Some(a);
            }
            ix += 1;
        }
        None
    }
}

impl BufferState {
    /// The answer over the relevant events is the one over all buffered events, moved.
    proof fn lemma_end_of_next(self, from: int, version: ChunkingVersion)
        ensures
            wft_end(
                self.events,
                from,
                self.has_last_wft,
                self.envelope.has_pending_speculative_updates,
                version,
            ) == (match self.end_of_next(from, version) {
                Some(end) => Some(
                    end.shifted(self.events.len() - self.relevant(from).len()),
                ),
                None => None,
            }),
            self.end_of_next(from, version) == Some(WftEnd::Tail) ==> self.has_last_wft,
            self.end_of_next(from, version) == Some(WftEnd::NeedMore) ==> !self.has_last_wft,
            self.end_of_next(from, version) matches Some(WftEnd::Complete(end)) ==> 0 <= end
                < self.relevant(from).len(),
    {
        let pending = self.envelope.has_pending_speculative_updates;
        lemma_skipped(self.events, from);
        let k = self.events.len() - self.relevant(from).len();
        law_ignores_handled_events(self.events, from, self.has_last_wft, pending, version, k);
        assert(self.events.skip(k) == self.relevant(from));
        law_boundary(self.relevant(from), from, self.has_last_wft, pending, version);
    }
}

} // verus!
