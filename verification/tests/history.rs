use std::collections::VecDeque;
use temporal_worker::history::buffer::{LwftBuffer, NextWFT, WftEnvelope};
use temporal_worker::history::chunker::events_have_wft_chunking_v2;
use temporal_worker::history::chunking::{ChunkingVersion, NextWFTSeqEndIndex};
use temporal_worker::history::event::{
    Attributes, CoreInternalFlags, EventType, HistoryEvent, SdkMetadata,
    WorkflowExecutionUpdateAcceptedEventAttributes, WorkflowTaskCompletedEventAttributes,
};
use temporal_worker::history::paginator::{
    FetchAction, FetchPageOutput, HistoryPage, HistoryPaginator, NextPageToken, StreamStep,
    StreamingHistoryPaginator,
};

// Kinds without a name of their own, by their protobuf numbers.
const EXECUTION_FAILED: EventType = EventType::Other(3);
const ACTIVITY_SCHEDULED: EventType = EventType::Other(10);
const ACTIVITY_STARTED: EventType = EventType::Other(11);
const ACTIVITY_COMPLETED: EventType = EventType::Other(12);
const MARKER_RECORDED: EventType = EventType::Other(25);
const UPDATE_COMPLETED: EventType = EventType::Other(43);

fn event(event_id: i64, event_type: EventType) -> HistoryEvent {
    HistoryEvent {
        event_id,
        event_type,
        command: [
            EventType::TimerStarted,
            EventType::WorkflowExecutionCompleted,
            EventType::WorkflowExecutionCanceled,
            EventType::WorkflowExecutionUpdateAccepted,
            EXECUTION_FAILED,
            ACTIVITY_SCHEDULED,
            MARKER_RECORDED,
            UPDATE_COMPLETED,
        ]
        .contains(&event_type),
        final_wf_execution: [
            EventType::WorkflowExecutionCompleted,
            EventType::WorkflowExecutionTimedOut,
            EventType::WorkflowExecutionTerminated,
            EventType::WorkflowExecutionCanceled,
            EXECUTION_FAILED,
        ]
        .contains(&event_type),
        wft_time_sensitive: [
            EventType::WorkflowExecutionSignaled,
            EventType::TimerFired,
            ACTIVITY_COMPLETED,
        ]
        .contains(&event_type),
        attributes: if event_type == EventType::WorkflowTaskCompleted {
            Some(Attributes::WorkflowTaskCompletedEventAttributes(
                WorkflowTaskCompletedEventAttributes { sdk_metadata: None },
            ))
        } else {
            None
        },
    }
}

#[derive(Clone, Default)]
struct TestHistoryBuilder {
    events: Vec<HistoryEvent>,
    scheduled_id: i64,
    use_wft_chunking_v2: bool,
}

impl TestHistoryBuilder {
    fn from_history(events: Vec<HistoryEvent>) -> Self {
        TestHistoryBuilder {
            events,
            ..Default::default()
        }
    }

    fn set_use_wft_chunking_v2(&mut self) {
        self.use_wft_chunking_v2 = true;
    }

    fn add_by_type(&mut self, event_type: EventType) -> i64 {
        let id = self.events.len() as i64 + 1;
        self.events.push(event(id, event_type));
        if event_type == EventType::WorkflowTaskScheduled {
            self.scheduled_id = id;
        }
        if self.use_wft_chunking_v2 {
            maybe_set_chunking_v2(self, true);
        }
        id
    }

    fn add_workflow_task_scheduled_and_started(&mut self) {
        self.add_by_type(EventType::WorkflowTaskScheduled);
        self.add_by_type(EventType::WorkflowTaskStarted);
    }

    fn add_full_wf_task(&mut self) {
        self.add_workflow_task_scheduled_and_started();
        self.add_by_type(EventType::WorkflowTaskCompleted);
    }

    fn add_workflow_task_timed_out(&mut self) {
        self.add_by_type(EventType::WorkflowTaskTimedOut);
    }

    fn add_workflow_task_failed(&mut self) {
        self.add_by_type(EventType::WorkflowTaskFailed);
    }

    fn add_we_signaled(&mut self) {
        self.add_by_type(EventType::WorkflowExecutionSignaled);
    }

    fn add_timer_started(&mut self) {
        self.add_by_type(EventType::TimerStarted);
    }

    fn add_timer_fired(&mut self) {
        self.add_by_type(EventType::TimerFired);
    }

    fn add_update_accepted(&mut self) {
        let id = self.add_by_type(EventType::WorkflowExecutionUpdateAccepted);
        self.events[id as usize - 1].attributes = Some(
            Attributes::WorkflowExecutionUpdateAcceptedEventAttributes(
                WorkflowExecutionUpdateAcceptedEventAttributes {
                    accepted_request_sequencing_event_id: self.scheduled_id,
                },
            ),
        );
    }

    fn add_update_completed(&mut self) {
        self.add_by_type(UPDATE_COMPLETED);
    }

    fn add_local_activity_result_marker(&mut self) {
        self.add_by_type(MARKER_RECORDED);
    }

    fn add_workflow_execution_completed(&mut self) {
        self.add_by_type(EventType::WorkflowExecutionCompleted);
    }

    fn add_workflow_execution_terminated(&mut self) {
        self.add_by_type(EventType::WorkflowExecutionTerminated);
    }

    fn add_workflow_execution_timed_out(&mut self) {
        self.add_by_type(EventType::WorkflowExecutionTimedOut);
    }

    fn all_events(&self) -> Vec<HistoryEvent> {
        self.events.clone()
    }

    /// The events through the start of the `n`th task, failed ones not counted.
    fn through_wft(&self, n: usize) -> Vec<HistoryEvent> {
        let mut seen = 0;
        for (ix, e) in self.events.iter().enumerate() {
            let failed = self.events.get(ix + 1).is_some_and(|next| {
                [
                    EventType::WorkflowTaskFailed,
                    EventType::WorkflowTaskTimedOut,
                ]
                .contains(&next.event_type)
            });
            if e.event_type == EventType::WorkflowTaskStarted && !failed {
                seen += 1;
                if seen == n {
                    return self.events[..=ix].to_vec();
                }
            }
        }
        self.events.clone()
    }

    /// The events behind the start of task `n - 1`, through the start of task `n`.
    fn one_wft(&self, n: usize) -> Vec<HistoryEvent> {
        let through = self.through_wft(n);
        let skip = if n > 1 {
            self.through_wft(n - 1).len()
        } else {
            0
        };
        through[skip..].to_vec()
    }

    fn as_lwft_buffer(&self) -> LwftBuffer {
        let events = self.all_events();
        let version = detected(&events);
        lwft_buffer_for_test(events, 0, 0, true, false, version)
    }
}

fn detected(events: &[HistoryEvent]) -> ChunkingVersion {
    if events_have_wft_chunking_v2(events) {
        ChunkingVersion::V2
    } else {
        ChunkingVersion::V1
    }
}

fn cv(chunking_v2: bool) -> ChunkingVersion {
    if chunking_v2 {
        ChunkingVersion::V2
    } else {
        ChunkingVersion::V1
    }
}

fn maybe_set_chunking_v2(t: &mut TestHistoryBuilder, chunking_v2: bool) {
    if chunking_v2 {
        let first = t
            .events
            .iter_mut()
            .find(|e| e.event_type == EventType::WorkflowTaskCompleted);
        if let Some(e) = first {
            e.attributes = Some(Attributes::WorkflowTaskCompletedEventAttributes(
                WorkflowTaskCompletedEventAttributes {
                    sdk_metadata: Some(SdkMetadata {
                        core_used_flags: vec![
                            CoreInternalFlags::Other(1),
                            CoreInternalFlags::WftChunkingV2,
                        ],
                    }),
                },
            ));
        }
    }
}

fn lwft_buffer_for_test(
    events: Vec<HistoryEvent>,
    previous_wft_started_id: i64,
    wft_started_id: i64,
    no_more_pages: bool,
    has_pending_speculative_updates: bool,
    chunking_version: ChunkingVersion,
) -> LwftBuffer {
    let mut buf = LwftBuffer::empty();
    buf.set_chunking_version(chunking_version);
    buf.push_events(
        WftEnvelope {
            previous_wft_started_id,
            wft_started_id,
            has_pending_speculative_updates,
        },
        events,
        no_more_pages,
    );
    buf
}

fn unwrap_events(next: NextWFT) -> Vec<HistoryEvent> {
    match next {
        NextWFT::WFT(lwft) => lwft.into_events(),
        other => panic!("Must be complete WFT: {other:?}"),
    }
}

fn take(buf: &mut LwftBuffer, from_id: i64) -> NextWFT {
    assert!(buf.is_chunkable(from_id));
    let can_take = buf.can_take_next_wft_sequence(from_id);
    let next = buf.take_next_wft_sequence(from_id);
    assert_eq!(can_take, !matches!(next, NextWFT::NeedFetch));
    next
}

fn next_check_peek(buf: &mut LwftBuffer, from_id: i64) -> Vec<HistoryEvent> {
    let seq_peeked = buf.peek_next_wft_sequence(from_id).to_vec();
    let seq = unwrap_events(take(buf, from_id));
    assert_eq!(seq, seq_peeked);
    seq
}

fn next_check_peek2(buf: &mut LwftBuffer, from_id: i64) -> (usize, bool) {
    let seq_peek = buf.peek_next_wft_sequence(from_id).to_vec();
    let next = take(buf, from_id);
    let is_complete = matches!(&next, NextWFT::WFT(lwft) if lwft.is_terminal());
    let seq_take = unwrap_events(next);
    assert_eq!(seq_take, seq_peek);
    (seq_take.len(), is_complete)
}

fn last_id(seq: &[HistoryEvent]) -> i64 {
    seq.last().unwrap().event_id
}

fn assert_replay_over(buf: &mut LwftBuffer, from_id: i64) {
    assert!(matches!(take(buf, from_id), NextWFT::ReplayOver));
}

fn assert_need_fetch(buf: &mut LwftBuffer, from_id: i64) {
    assert!(matches!(take(buf, from_id), NextWFT::NeedFetch));
}

fn single_timer() -> TestHistoryBuilder {
    let mut t = TestHistoryBuilder::default();
    t.add_by_type(EventType::WorkflowExecutionStarted);
    t.add_full_wf_task();
    t.add_timer_started();
    t.add_timer_fired();
    t.add_workflow_task_scheduled_and_started();
    t
}

fn workflow_fails_with_reset_after_timer() -> TestHistoryBuilder {
    let mut t = single_timer();
    t.add_workflow_task_failed();
    t.add_workflow_task_scheduled_and_started();
    t
}

fn wft_timeout_repro() -> TestHistoryBuilder {
    let mut t = TestHistoryBuilder::default();
    t.add_by_type(EventType::WorkflowExecutionStarted);
    t.add_full_wf_task();
    t.add_by_type(ACTIVITY_SCHEDULED);
    t.add_by_type(ACTIVITY_STARTED);
    t.add_by_type(ACTIVITY_COMPLETED);
    t.add_workflow_task_scheduled_and_started();
    t.add_workflow_task_timed_out();
    t.add_we_signaled();
    t.add_we_signaled();
    t.add_workflow_task_scheduled_and_started();
    t
}

fn long_sequential_timers(n: usize) -> TestHistoryBuilder {
    let mut t = TestHistoryBuilder::default();
    t.add_by_type(EventType::WorkflowExecutionStarted);
    t.add_full_wf_task();
    for _ in 0..n {
        t.add_timer_started();
        t.add_timer_fired();
        t.add_full_wf_task();
    }
    t.add_workflow_execution_completed();
    t
}

fn three_wfts_then_heartbeats() -> TestHistoryBuilder {
    let mut t = TestHistoryBuilder::default();
    t.add_by_type(EventType::WorkflowExecutionStarted);
    t.add_full_wf_task(); // wft start - 3
    t.add_timer_started();
    t.add_full_wf_task(); // wft start - 7
    t.add_timer_started();
    t.add_full_wf_task(); // wft start - 11
    for _ in 1..50 {
        t.add_full_wf_task();
    }
    t.add_workflow_execution_completed();
    t
}

/// A server that answers with these pages in turn, and the tokens that it was asked for.
struct Server {
    pages: VecDeque<HistoryPage>,
    asked: Vec<Vec<u8>>,
}

impl Server {
    fn new(pages: Vec<HistoryPage>) -> Self {
        Server {
            pages: pages.into(),
            asked: vec![],
        }
    }

    fn answer(&mut self, token: Vec<u8>) -> HistoryPage {
        self.asked.push(token);
        self.pages.pop_front().expect("the server has a page left")
    }
}

fn page(events: Vec<HistoryEvent>, next_page_token: Vec<u8>) -> HistoryPage {
    HistoryPage {
        events: Some(events),
        next_page_token,
    }
}

fn fetch(paginator: &mut HistoryPaginator, server: &mut Server) -> FetchPageOutput {
    let mut action = paginator.fetch_next_page();
    loop {
        match action {
            FetchAction::Request(token) => {
                action = paginator.page_received(server.answer(token));
            }
            FetchAction::Output(output) => return output,
        }
    }
}

fn paginator_for_test(
    next_page_token: NextPageToken,
    pending_post_replay_events: Vec<HistoryEvent>,
) -> HistoryPaginator {
    HistoryPaginator {
        wf_id: "wfid".to_string(),
        run_id: "runid".to_string(),
        next_page_token,
        pending_post_replay_events,
    }
}

/// A buffer with the first chunk, and a paginator and a server for the others.
fn paginator_setup(
    history: TestHistoryBuilder,
    chunk_size: usize,
) -> (LwftBuffer, HistoryPaginator, Server) {
    let full_hist = history.all_events();
    let chunks: Vec<Vec<HistoryEvent>> =
        full_hist.chunks(chunk_size).map(|c| c.to_vec()).collect();
    let mut pages = vec![];
    for (i, chunk) in chunks.iter().enumerate().skip(1) {
        let token = if i + 1 == chunks.len() {
            vec![]
        } else {
            vec![i as u8 + 1]
        };
        pages.push(page(chunk.clone(), token));
    }
    let version = detected(&chunks[0]);
    let buf = lwft_buffer_for_test(chunks[0].clone(), 0, 0, false, false, version);
    (
        buf,
        paginator_for_test(NextPageToken::from(vec![1]), vec![]),
        Server::new(pages),
    )
}

fn pump_one_page(buf: &mut LwftBuffer, paginator: &mut HistoryPaginator, server: &mut Server) {
    let page = fetch(paginator, server);
    let envelope = buf.envelope();
    buf.push_events(envelope, page.events, page.no_more_pages);
}

fn drain_to_take(
    buf: &mut LwftBuffer,
    paginator: &mut HistoryPaginator,
    server: &mut Server,
    from_id: i64,
) -> NextWFT {
    loop {
        match take(buf, from_id) {
            NextWFT::NeedFetch => pump_one_page(buf, paginator, server),
            other => return other,
        }
    }
}

/// The events of the partial task are held aside; the buffer starts empty.
fn cache_miss_setup(
    partial_task: Vec<HistoryEvent>,
    version: ChunkingVersion,
) -> (LwftBuffer, HistoryPaginator) {
    let paginator = paginator_for_test(NextPageToken::FetchFromStart, partial_task);
    let mut buf = LwftBuffer::empty();
    buf.set_chunking_version(version);
    buf.push_events(WftEnvelope::default(), vec![], false);
    (buf, paginator)
}

#[test]
fn consumes_standard_wft_sequence() {
    for chunking_v2 in [false, true] {
        let mut timer_hist = single_timer();
        maybe_set_chunking_v2(&mut timer_hist, chunking_v2);
        let mut update = timer_hist.as_lwft_buffer();
        let seq_1 = next_check_peek(&mut update, 0);
        assert_eq!(seq_1.len(), 3);
        assert_eq!(last_id(&seq_1), 3);
        let seq_2_peeked = update.peek_next_wft_sequence(0).to_vec();
        let seq_2 = next_check_peek(&mut update, 3);
        assert_eq!(seq_2, seq_2_peeked);
        assert_eq!(seq_2.len(), 5);
        assert_eq!(last_id(&seq_2), 8);
    }
}

#[test]
fn skips_wft_failed() {
    for chunking_v2 in [false, true] {
        let mut failed_hist = workflow_fails_with_reset_after_timer();
        maybe_set_chunking_v2(&mut failed_hist, chunking_v2);
        let mut update = failed_hist.as_lwft_buffer();
        let seq_1 = next_check_peek(&mut update, 0);
        assert_eq!(seq_1.len(), 3);
        assert_eq!(last_id(&seq_1), 3);
        let seq_2 = next_check_peek(&mut update, 3);
        assert_eq!(seq_2.len(), 8);
        assert_eq!(last_id(&seq_2), 11);
    }
}

#[test]
fn skips_wft_timeout() {
    for chunking_v2 in [false, true] {
        let mut failed_hist = wft_timeout_repro();
        maybe_set_chunking_v2(&mut failed_hist, chunking_v2);
        let mut update = failed_hist.as_lwft_buffer();
        let seq_1 = next_check_peek(&mut update, 0);
        assert_eq!(seq_1.len(), 3);
        assert_eq!(last_id(&seq_1), 3);
        let seq_2 = next_check_peek(&mut update, 3);
        assert_eq!(seq_2.len(), 11);
        assert_eq!(last_id(&seq_2), 14);
    }
}

#[test]
fn skips_events_before_desired_wft() {
    for chunking_v2 in [false, true] {
        let mut timer_hist = single_timer();
        maybe_set_chunking_v2(&mut timer_hist, chunking_v2);
        let mut update = timer_hist.as_lwft_buffer();
        let seq_2 = unwrap_events(take(&mut update, 3));
        assert_eq!(seq_2.len(), 5);
        assert_eq!(last_id(&seq_2), 8);
    }
}

#[test]
fn history_ends_abruptly() {
    for chunking_v2 in [false, true] {
        let mut timer_hist = single_timer();
        timer_hist.add_workflow_execution_terminated();
        maybe_set_chunking_v2(&mut timer_hist, chunking_v2);
        let mut update = timer_hist.as_lwft_buffer();
        let seq_2 = unwrap_events(take(&mut update, 3));
        if chunking_v2 {
            assert_eq!(seq_2.len(), 5);
            assert_eq!(last_id(&seq_2), 8);
            let seq_3 = unwrap_events(take(&mut update, 8));
            assert_eq!(seq_3.len(), 1);
            assert!(seq_3[0].is_final_wf_execution_event());
            assert_replay_over(&mut update, 8);
        } else {
            assert_eq!(seq_2.len(), 6);
            assert_eq!(last_id(&seq_2), 9);
            assert!(seq_2.last().unwrap().is_final_wf_execution_event());
        }
    }
}

#[test]
fn terminal_events_not_dropped_after_wft_started() {
    for chunking_v2 in [false, true] {
        for add_terminal in [
            TestHistoryBuilder::add_workflow_execution_terminated as fn(&mut TestHistoryBuilder),
            TestHistoryBuilder::add_workflow_execution_timed_out,
        ] {
            let mut t = TestHistoryBuilder::default();
            t.add_by_type(EventType::WorkflowExecutionStarted);
            t.add_full_wf_task(); // Sched(2), Started(3), Completed(4)
            t.add_by_type(EventType::TimerStarted); // TimerStarted(5)
            t.add_workflow_task_scheduled_and_started(); // Sched(6), Started(7)
            add_terminal(&mut t); // terminal(8)
            maybe_set_chunking_v2(&mut t, chunking_v2);

            let mut update = t.as_lwft_buffer();
            let seq_1 = unwrap_events(take(&mut update, 0));
            assert_eq!(last_id(&seq_1), 3);

            let seq_2 = unwrap_events(take(&mut update, 3));
            if chunking_v2 {
                assert_eq!(last_id(&seq_2), 7);
                assert_eq!(
                    seq_2.last().unwrap().event_type(),
                    EventType::WorkflowTaskStarted
                );
                let seq_3 = unwrap_events(take(&mut update, 7));
                assert_eq!(seq_3.len(), 1);
                assert!(seq_3[0].is_final_wf_execution_event());
                assert_replay_over(&mut update, 7);
            } else {
                assert_eq!(last_id(&seq_2), 8);
                assert!(seq_2.last().unwrap().is_final_wf_execution_event());
            }
        }
    }
}

#[test]
fn heartbeats_skipped() {
    for chunking_v2 in [false, true] {
        let mut t = TestHistoryBuilder::default();
        t.add_by_type(EventType::WorkflowExecutionStarted);
        t.add_full_wf_task();
        t.add_full_wf_task();
        t.add_by_type(EventType::TimerStarted);
        t.add_full_wf_task();
        t.add_full_wf_task();
        t.add_full_wf_task();
        t.add_full_wf_task();
        t.add_by_type(EventType::TimerStarted);
        t.add_full_wf_task();
        t.add_we_signaled();
        t.add_full_wf_task();
        t.add_workflow_execution_completed();
        maybe_set_chunking_v2(&mut t, chunking_v2);

        let mut update = t.as_lwft_buffer();
        if chunking_v2 {
            assert_eq!(next_check_peek(&mut update, 0).len(), 3);
            assert_eq!(next_check_peek(&mut update, 3).len(), 3);
        } else {
            assert_eq!(next_check_peek(&mut update, 0).len(), 6);
        }
        assert_eq!(next_check_peek(&mut update, 6).len(), 4);
        assert_eq!(next_check_peek(&mut update, 10).len(), 9);
        assert_eq!(next_check_peek(&mut update, 19).len(), 4);
        assert_eq!(next_check_peek(&mut update, 23).len(), 4);
        assert_eq!(next_check_peek(&mut update, 27).len(), 2);
    }
}

#[test]
fn heartbeat_marker_end() {
    for chunking_v2 in [false, true] {
        let mut t = TestHistoryBuilder::default();
        t.add_by_type(EventType::WorkflowExecutionStarted);
        t.add_full_wf_task();
        t.add_full_wf_task();
        t.add_local_activity_result_marker();
        t.add_workflow_execution_completed();
        maybe_set_chunking_v2(&mut t, chunking_v2);

        let mut update = t.as_lwft_buffer();
        assert_eq!(next_check_peek(&mut update, 3).len(), 3);
        assert_eq!(next_check_peek(&mut update, 6).len(), 3);
    }
}

#[test]
fn paginator_extracts_updates() {
    for chunking_v2 in [false, true] {
        for chunk_size in [10, 11, 12, 13, 14] {
            let mut hist = long_sequential_timers(100);
            let expected_final_eid = last_id(&hist.all_events());
            maybe_set_chunking_v2(&mut hist, chunking_v2);

            let (mut buf, mut paginator, mut server) = paginator_setup(hist, chunk_size);
            let mut last_id = 0;
            loop {
                let seq = match drain_to_take(&mut buf, &mut paginator, &mut server, last_id) {
                    NextWFT::WFT(lwft) => lwft.into_events(),
                    _ => break,
                };
                assert!(!seq.is_empty());
                for e in &seq {
                    assert!(e.event_id > last_id);
                    last_id = e.event_id;
                }
            }
            assert_eq!(last_id, expected_final_eid);
            let tokens: Vec<Vec<u8>> = (1..=server.asked.len() as u8).map(|n| vec![n]).collect();
            assert_eq!(server.asked, tokens);
        }
    }
}

#[test]
fn paginator_streams() {
    for chunking_v2 in [false, true] {
        let wft_count = 10;
        let mut hist = long_sequential_timers(wft_count);
        maybe_set_chunking_v2(&mut hist, chunking_v2);
        let (buf, paginator, mut server) = paginator_setup(hist, 10);
        let mut everything: Vec<HistoryEvent> = buf.get_events().to_vec();
        let mut stream = StreamingHistoryPaginator::new(paginator);
        let mut step = stream.poll_next();
        loop {
            step = match step {
                StreamStep::Yield(event) => {
                    everything.push(event);
                    stream.poll_next()
                }
                StreamStep::Request(token) => stream.page_received(server.answer(token)),
                StreamStep::End => break,
            };
        }
        assert_eq!(everything.len(), (wft_count + 1) * 5);
        everything.iter().fold(1, |event_id, e| {
            assert_eq!(event_id, e.event_id);
            e.event_id + 1
        });
    }
}

#[test]
fn needs_fetch_if_ending_in_middle_of_wft_seq() {
    for chunking_v2 in [false, true] {
        for truncate_at in [18, 19, 20, 21] {
            let mut t = three_wfts_then_heartbeats();
            maybe_set_chunking_v2(&mut t, chunking_v2);
            let mut ends_in_middle_of_seq: Vec<HistoryEvent> =
                t.as_lwft_buffer().get_events().to_vec();
            ends_in_middle_of_seq.truncate(truncate_at);
            let mut buf =
                lwft_buffer_for_test(ends_in_middle_of_seq, 0, 0, false, false, cv(chunking_v2));
            assert_eq!(last_id(&unwrap_events(take(&mut buf, 0))), 3);
            assert_eq!(last_id(&unwrap_events(take(&mut buf, 3))), 7);
            if chunking_v2 {
                assert_need_fetch(&mut buf, 7);
            } else {
                assert_eq!(last_id(&unwrap_events(take(&mut buf, 7))), 11);
                assert_need_fetch(&mut buf, 11);
            }
        }
    }
}

#[test]
fn paginator_works_with_wft_over_multiple_pages() {
    for chunking_v2 in [false, true] {
        for chunk_size in [10, 11, 12, 13, 14] {
            let mut t = three_wfts_then_heartbeats();
            maybe_set_chunking_v2(&mut t, chunking_v2);
            let (mut buf, mut paginator, mut server) = paginator_setup(t, chunk_size);
            let mut last_id = 0;
            loop {
                match take(&mut buf, last_id) {
                    NextWFT::WFT(lwft) => {
                        last_id = lwft.events().last().unwrap().event_id;
                    }
                    NextWFT::NeedFetch => {
                        pump_one_page(&mut buf, &mut paginator, &mut server);
                    }
                    NextWFT::ReplayOver => break,
                }
            }
            assert_eq!(last_id, 160);
        }
    }
}

#[test]
fn task_just_before_heartbeat_chain_is_taken() {
    for chunking_v2 in [false, true] {
        let mut t = three_wfts_then_heartbeats();
        maybe_set_chunking_v2(&mut t, chunking_v2);
        let mut update = t.as_lwft_buffer();
        assert_eq!(last_id(&unwrap_events(take(&mut update, 0))), 3);
        assert_eq!(last_id(&unwrap_events(take(&mut update, 3))), 7);
        assert_eq!(last_id(&unwrap_events(take(&mut update, 7))), 11);
        assert_eq!(last_id(&unwrap_events(take(&mut update, 11))), 158);
        let seq = unwrap_events(take(&mut update, 158));
        assert_eq!(last_id(&seq), 160);
        assert_eq!(
            seq.last().unwrap().event_type(),
            EventType::WorkflowExecutionCompleted
        );
    }
}

#[test]
fn handles_cache_misses() {
    for chunking_v2 in [false, true] {
        let mut timer_hist = single_timer();
        maybe_set_chunking_v2(&mut timer_hist, chunking_v2);
        let partial_task = timer_hist.one_wft(2);
        let mut history_from_get = timer_hist.through_wft(2);
        // The server does not return the started event of the open task.
        history_from_get.pop();
        let mut server = Server::new(vec![page(history_from_get, vec![])]);

        let (mut buf, mut paginator) = cache_miss_setup(partial_task, cv(chunking_v2));
        let seq = unwrap_events(drain_to_take(&mut buf, &mut paginator, &mut server, 0));
        assert_eq!(seq[0].event_id, 1);
        let seq = unwrap_events(drain_to_take(&mut buf, &mut paginator, &mut server, 3));
        // Behind the old history comes what was held aside and is new.
        assert_eq!(last_id(&seq), 8);
        assert_eq!(server.asked, vec![Vec::<u8>::new()]);
    }
}

#[test]
fn la_marker_chunking() {
    for chunking_v2 in [false, true] {
        let mut t = TestHistoryBuilder::default();
        t.add_by_type(EventType::WorkflowExecutionStarted);
        t.add_full_wf_task();
        t.add_we_signaled();
        t.add_full_wf_task(); // started - 7
        t.add_local_activity_result_marker();
        t.add_by_type(ACTIVITY_SCHEDULED);
        t.add_by_type(ACTIVITY_STARTED);
        t.add_by_type(ACTIVITY_COMPLETED);
        t.add_workflow_task_scheduled_and_started();
        t.add_workflow_task_timed_out();
        t.add_workflow_task_scheduled_and_started();
        t.add_workflow_task_timed_out();
        t.add_workflow_task_scheduled_and_started();
        maybe_set_chunking_v2(&mut t, chunking_v2);

        let mut update = t.as_lwft_buffer();
        assert_eq!(next_check_peek(&mut update, 0).len(), 3);
        assert_eq!(next_check_peek(&mut update, 3).len(), 4);
        assert_eq!(next_check_peek(&mut update, 7).len(), 13);
    }
}

#[test]
fn handles_blank_fetch_response() {
    for chunking_v2 in [false, true] {
        let mut timer_hist = single_timer();
        maybe_set_chunking_v2(&mut timer_hist, chunking_v2);
        let partial_events = timer_hist.one_wft(2);
        let mut server = Server::new(vec![HistoryPage {
            events: None,
            next_page_token: vec![],
        }]);
        let mut paginator =
            paginator_for_test(NextPageToken::FetchFromStart, partial_events.clone());
        let page = fetch(&mut paginator, &mut server);
        // The server returned nothing; what was held aside comes out all the same.
        assert!(page.no_more_pages);
        assert_eq!(page.events.len(), partial_events.len());
        assert_eq!(page.events, partial_events);
    }
}

#[test]
fn handles_empty_page_with_next_token() {
    for chunking_v2 in [false, true] {
        let mut timer_hist = single_timer();
        maybe_set_chunking_v2(&mut timer_hist, chunking_v2);
        let partial_task = timer_hist.one_wft(2);
        let mut server = Server::new(vec![
            page(vec![], vec![2]),
            page(timer_hist.all_events(), vec![]),
        ]);

        let (mut buf, mut paginator) = cache_miss_setup(partial_task, cv(chunking_v2));
        let seq = unwrap_events(drain_to_take(&mut buf, &mut paginator, &mut server, 0));
        assert_eq!(last_id(&seq), 3);
        let seq = unwrap_events(drain_to_take(&mut buf, &mut paginator, &mut server, 3));
        assert_eq!(last_id(&seq), 8);
        assert!(matches!(
            drain_to_take(&mut buf, &mut paginator, &mut server, 8),
            NextWFT::ReplayOver
        ));
        assert_eq!(server.asked, vec![vec![], vec![2]]);
    }
}

#[test]
fn handles_fetching_page_with_complete_wft_and_page_token_to_empty_page() {
    for chunking_v2 in [false, true] {
        let mut timer_hist = single_timer();
        maybe_set_chunking_v2(&mut timer_hist, chunking_v2);
        let workflow_task = timer_hist.all_events();
        let mut server = Server::new(vec![
            page(workflow_task.clone(), vec![1]),
            page(vec![], vec![]),
        ]);

        let (mut buf, mut paginator) = cache_miss_setup(workflow_task, cv(chunking_v2));
        let seq = unwrap_events(drain_to_take(&mut buf, &mut paginator, &mut server, 0));
        assert_eq!(last_id(&seq), 3);
        let seq = unwrap_events(drain_to_take(&mut buf, &mut paginator, &mut server, 3));
        assert_eq!(last_id(&seq), 8);
        assert!(matches!(
            drain_to_take(&mut buf, &mut paginator, &mut server, 8),
            NextWFT::ReplayOver
        ));
    }
}

#[test]
fn extreme_pagination_doesnt_drop_wft_events_paginator() {
    for chunking_v2 in [false, true] {
        let mut t = TestHistoryBuilder::default();
        t.add_by_type(EventType::WorkflowExecutionStarted);
        t.add_full_wf_task();

        t.add_we_signaled();
        t.add_workflow_task_scheduled_and_started();
        t.add_workflow_task_failed();

        t.add_we_signaled();
        t.add_we_signaled();
        t.add_we_signaled();
        t.add_we_signaled();
        t.add_we_signaled();
        t.add_workflow_task_scheduled_and_started();
        maybe_set_chunking_v2(&mut t, chunking_v2);

        let events = t.all_events();
        let first_event = events[0].clone();
        let mut pages = vec![];
        for (i, event) in events.into_iter().enumerate() {
            pages.push(page(vec![], vec![(i * 10) as u8]));
            pages.push(page(vec![event], vec![(i * 10 + 1) as u8]));
        }
        pages.push(page(vec![], vec![]));
        let mut server = Server::new(pages);

        let envelope = WftEnvelope {
            previous_wft_started_id: 3,
            wft_started_id: 15,
            has_pending_speculative_updates: false,
        };
        let mut buf = LwftBuffer::empty();
        buf.set_chunking_version(cv(chunking_v2));
        buf.push_events(envelope, vec![first_event], false);
        let mut paginator = paginator_for_test(NextPageToken::from(vec![1]), vec![]);

        let seq = unwrap_events(drain_to_take(&mut buf, &mut paginator, &mut server, 0));
        assert_eq!(seq.first().unwrap().event_id, 1);
        assert_eq!(last_id(&seq), 3);

        let seq = unwrap_events(drain_to_take(&mut buf, &mut paginator, &mut server, 3));
        assert_eq!(seq.first().unwrap().event_id, 4);
        assert_eq!(last_id(&seq), 15);
    }
}

#[test]
fn finding_end_index_with_started_as_last_event() {
    for chunking_v2 in [false, true] {
        let mut t = TestHistoryBuilder::default();
        t.add_by_type(EventType::WorkflowExecutionStarted);
        t.add_full_wf_task();

        t.add_we_signaled();
        t.add_workflow_task_scheduled_and_started();
        maybe_set_chunking_v2(&mut t, chunking_v2);

        // It is not enough to end on a started event when there might be more: another page is
        // asked for, and shows that there is none.
        let workflow_task = t.through_wft(1);
        let mut server = Server::new(vec![
            page(t.all_events(), vec![2]),
            HistoryPage {
                events: None,
                next_page_token: vec![],
            },
        ]);

        let (mut buf, mut paginator) = cache_miss_setup(workflow_task, cv(chunking_v2));
        let seq = unwrap_events(drain_to_take(&mut buf, &mut paginator, &mut server, 0));
        assert_eq!(last_id(&seq), 3);
        let seq = unwrap_events(drain_to_take(&mut buf, &mut paginator, &mut server, 3));
        assert_eq!(last_id(&seq), 7);
        assert_eq!(server.asked.len(), 2);
    }
}

#[test]
fn just_signal_is_complete_wft() {
    for chunking_v2 in [false, true] {
        let mut t = TestHistoryBuilder::default();
        t.add_by_type(EventType::WorkflowExecutionStarted);
        t.add_full_wf_task();
        t.add_we_signaled();
        t.add_full_wf_task();
        t.add_we_signaled();
        t.add_full_wf_task();
        t.add_workflow_execution_completed();
        maybe_set_chunking_v2(&mut t, chunking_v2);

        let mut update = t.as_lwft_buffer();
        assert_eq!(next_check_peek(&mut update, 0).len(), 3);
        assert_eq!(next_check_peek(&mut update, 3).len(), 4);
        assert_eq!(next_check_peek(&mut update, 7).len(), 4);
        assert_eq!(next_check_peek(&mut update, 11).len(), 2);
    }
}

#[test]
fn heartbeats_then_signal() {
    for chunking_v2 in [false, true] {
        let mut t = TestHistoryBuilder::default();
        t.add_by_type(EventType::WorkflowExecutionStarted);
        t.add_full_wf_task();
        t.add_full_wf_task();
        let need_fetch_resp = t.all_events();
        t.add_full_wf_task();
        t.add_we_signaled();
        t.add_workflow_task_scheduled_and_started();
        maybe_set_chunking_v2(&mut t, chunking_v2);

        let mut server = Server::new(vec![page(t.all_events(), vec![])]);
        let mut buf =
            lwft_buffer_for_test(need_fetch_resp, 3, 6, false, false, cv(chunking_v2));
        let mut paginator = paginator_for_test(NextPageToken::Next(vec![1]), vec![]);
        // The first task was handled already.
        assert_need_fetch(&mut buf, 3);
        pump_one_page(&mut buf, &mut paginator, &mut server);
        assert_eq!(next_check_peek(&mut buf, 3).len(), 6);
        assert_eq!(next_check_peek(&mut buf, 9).len(), 4);
    }
}

#[test]
fn cache_miss_with_only_one_wft_available_orders_properly() {
    for chunking_v2 in [false, true] {
        let mut t = TestHistoryBuilder::default();
        t.add_by_type(EventType::WorkflowExecutionStarted);
        t.add_full_wf_task();
        t.add_timer_started();
        t.add_full_wf_task();
        t.add_timer_started();
        t.add_workflow_task_scheduled_and_started();
        maybe_set_chunking_v2(&mut t, chunking_v2);

        let incremental_task = t.one_wft(3);
        let mut up_to_sched_start = t.all_events();
        up_to_sched_start.truncate(9);
        let mut server = Server::new(vec![
            page(t.through_wft(1), vec![1]),
            page(up_to_sched_start, vec![]),
        ]);

        let (mut buf, mut paginator) = cache_miss_setup(incremental_task, cv(chunking_v2));
        pump_one_page(&mut buf, &mut paginator, &mut server);
        pump_one_page(&mut buf, &mut paginator, &mut server);
        assert_eq!(last_id(&next_check_peek(&mut buf, 0)), 3);
        assert_eq!(last_id(&next_check_peek(&mut buf, 3)), 7);
        assert_eq!(last_id(&next_check_peek(&mut buf, 7)), 11);
    }
}

#[test]
fn wft_fail_on_first_task_with_update() {
    for chunking_v2 in [false, true] {
        let mut t = TestHistoryBuilder::default();
        t.add_by_type(EventType::WorkflowExecutionStarted);
        t.add_workflow_task_scheduled_and_started();
        t.add_workflow_task_failed();
        t.add_full_wf_task();
        t.add_update_accepted();
        t.add_timer_started();
        t.add_update_completed();
        t.add_timer_fired();
        t.add_full_wf_task();
        maybe_set_chunking_v2(&mut t, chunking_v2);

        let mut update = t.as_lwft_buffer();
        assert_eq!(next_check_peek(&mut update, 0).len(), 6);
        assert_eq!(next_check_peek(&mut update, 6).len(), 7);
    }
}

#[test]
fn update_accepted_after_empty_wft() {
    for chunking_v2 in [false, true] {
        let mut t = TestHistoryBuilder::default();
        t.add_by_type(EventType::WorkflowExecutionStarted);
        t.add_full_wf_task();
        t.add_full_wf_task();
        t.add_update_accepted();
        t.add_timer_started();
        t.add_update_completed();
        t.add_timer_fired();
        t.add_full_wf_task();
        maybe_set_chunking_v2(&mut t, chunking_v2);

        let mut update = t.as_lwft_buffer();
        assert_eq!(next_check_peek(&mut update, 0).len(), 3);
        assert_eq!(next_check_peek(&mut update, 3).len(), 3);
    }
}

/// An empty task followed by one with an update: the update is accepted by the third task.
fn build_empty_wft_then_update_history(chunking_v2: bool) -> TestHistoryBuilder {
    let mut t = TestHistoryBuilder::default();
    if chunking_v2 {
        t.set_use_wft_chunking_v2();
    }
    t.add_by_type(EventType::WorkflowExecutionStarted);
    t.add_full_wf_task(); // WFT1: events 2-4 (empty)
    t.add_full_wf_task(); // WFT2: events 5-7 (empty)
    t.add_full_wf_task(); // WFT3: events 8-10
    t.add_update_accepted(); // 11, seq=8
    t.add_update_completed(); // 12
    t.add_timer_started(); // 13
    t.add_timer_fired(); // 14
    t.add_full_wf_task(); // WFT4: events 15-17 (command)
    t.add_workflow_execution_completed(); // 18
    t
}

fn known(events: &[HistoryEvent], no_more_pages: bool, pending: bool) -> LwftBuffer {
    lwft_buffer_for_test(events.to_vec(), 0, 0, no_more_pages, pending, cv(true))
}

#[test]
fn empty_wft_then_update_has_last_wft() {
    let t = build_empty_wft_then_update_history(true);
    let all_events = t.all_events();

    // Up to WFT1 started.
    let mut update = known(&all_events[..3], true, false);
    assert_eq!(next_check_peek2(&mut update, 0), (3, true));
    assert_replay_over(&mut update, 3);

    // Up to WFT1 completed.
    let mut update = known(&all_events[..4], true, false);
    assert_eq!(next_check_peek2(&mut update, 0), (3, false));
    assert_eq!(next_check_peek2(&mut update, 3), (1, true));
    assert_replay_over(&mut update, 4);

    // Up to WFT2 started.
    let mut update = known(&all_events[..6], true, false);
    assert_eq!(next_check_peek2(&mut update, 0), (3, false));
    assert_eq!(next_check_peek2(&mut update, 3), (3, true));
    assert_replay_over(&mut update, 6);

    // Up to WFT2 completed.
    let mut update = known(&all_events[..7], true, false);
    assert_eq!(next_check_peek2(&mut update, 0), (3, false));
    assert_eq!(next_check_peek2(&mut update, 3), (3, false));
    assert_eq!(next_check_peek2(&mut update, 7), (1, true));
    assert_replay_over(&mut update, 7);

    // Up to WFT3 started, no speculative update pending.
    let mut update = known(&all_events[..9], true, false);
    assert_eq!(next_check_peek2(&mut update, 0), (3, false));
    assert_eq!(next_check_peek2(&mut update, 3), (6, true));
    assert_replay_over(&mut update, 9);

    // The same, but WFT3 is a speculative task with a pending update.
    let mut update = known(&all_events[..9], true, true);
    assert_eq!(next_check_peek2(&mut update, 0), (3, false));
    assert_eq!(next_check_peek2(&mut update, 3), (3, false));
    assert_eq!(next_check_peek2(&mut update, 6), (3, true));
    assert_replay_over(&mut update, 9);

    // Up to WFT3 completed.
    let mut update = known(&all_events[..10], true, false);
    assert_eq!(next_check_peek2(&mut update, 0), (3, false));
    assert_eq!(next_check_peek2(&mut update, 3), (6, false));
    assert_eq!(next_check_peek2(&mut update, 9), (1, true));
    assert_replay_over(&mut update, 10);

    // The same, with an update accepted by WFT3.
    let mut update = known(&all_events[..11], true, false);
    assert_eq!(next_check_peek2(&mut update, 0), (3, false));
    assert_eq!(next_check_peek2(&mut update, 3), (3, false));
    assert_eq!(next_check_peek2(&mut update, 6), (3, false));
    assert_eq!(next_check_peek2(&mut update, 9), (2, true));
    assert_replay_over(&mut update, 11);

    // Full history.
    let mut update = t.as_lwft_buffer();
    assert_eq!(next_check_peek2(&mut update, 0), (3, false));
    assert_eq!(next_check_peek2(&mut update, 3), (3, false));
    assert_eq!(next_check_peek2(&mut update, 6), (3, false));
    assert_eq!(next_check_peek2(&mut update, 9), (7, false));
    assert_eq!(next_check_peek2(&mut update, 16), (2, true));
    assert_replay_over(&mut update, 18);
}

#[test]
fn empty_wft_then_update_no_last_wft() {
    let t = build_empty_wft_then_update_history(true);
    let all_events = t.all_events();

    // Up to WFT1 started.
    let mut update = known(&all_events[..3], false, false);
    assert_need_fetch(&mut update, 0);

    // Up to WFT1 completed.
    let mut update = known(&all_events[..4], false, false);
    assert_need_fetch(&mut update, 0);

    // Up to WFT1 completed, and a command behind it.
    let mut t = TestHistoryBuilder::from_history(all_events[..4].to_vec());
    t.add_timer_started();
    let mut update = known(&t.all_events(), false, false);
    assert_eq!(next_check_peek2(&mut update, 0), (3, false));
    assert_need_fetch(&mut update, 3);

    // Up to WFT2 scheduled.
    let mut update = known(&all_events[..5], false, false);
    assert_eq!(next_check_peek2(&mut update, 0), (3, false));
    assert_need_fetch(&mut update, 3);

    // Up to WFT2 scheduled, and an inbound event behind it.
    let mut t = TestHistoryBuilder::from_history(all_events[..5].to_vec());
    t.add_we_signaled();
    let mut update = known(&t.all_events(), false, false);
    assert_eq!(next_check_peek2(&mut update, 0), (3, false));
    assert_need_fetch(&mut update, 3);

    // Up to WFT2 started.
    let mut update = known(&all_events[..6], false, false);
    assert_eq!(next_check_peek2(&mut update, 0), (3, false));
    assert_need_fetch(&mut update, 3);

    // Up to WFT2 started, which timed out.
    let mut t = TestHistoryBuilder::from_history(all_events[..6].to_vec());
    t.add_workflow_task_timed_out();
    let mut update = known(&t.all_events(), false, false);
    assert_eq!(next_check_peek2(&mut update, 0), (3, false));
    assert_need_fetch(&mut update, 3);

    // Up to WFT2 completed.
    let mut update = known(&all_events[..7], false, false);
    assert_eq!(next_check_peek2(&mut update, 0), (3, false));
    assert_need_fetch(&mut update, 3);

    // Up to WFT2 completed, and a command behind it.
    let mut t = TestHistoryBuilder::from_history(all_events[..7].to_vec());
    t.add_timer_started();
    let mut update = known(&t.all_events(), false, false);
    assert_eq!(next_check_peek2(&mut update, 0), (3, false));
    assert_eq!(next_check_peek2(&mut update, 3), (3, false));
    assert_need_fetch(&mut update, 6);

    // Up to WFT3 started.
    let mut update = known(&all_events[..9], false, false);
    assert_eq!(next_check_peek2(&mut update, 0), (3, false));
    assert_need_fetch(&mut update, 3);

    // Up to WFT3 started, which timed out.
    let mut t = TestHistoryBuilder::from_history(all_events[..9].to_vec());
    t.add_workflow_task_timed_out();
    let mut update = known(&t.all_events(), false, false);
    assert_eq!(next_check_peek2(&mut update, 0), (3, false));
    assert_eq!(next_check_peek2(&mut update, 3), (3, false));
    assert_need_fetch(&mut update, 6);

    // Up to WFT3 completed.
    let mut update = known(&all_events[..10], false, false);
    assert_eq!(next_check_peek2(&mut update, 0), (3, false));
    assert_need_fetch(&mut update, 3);

    // Up to the accepted update, up to the timer, and up to WFT4 started.
    for n in [11, 13, 16] {
        let mut update = known(&all_events[..n], false, false);
        assert_eq!(next_check_peek2(&mut update, 0), (3, false));
        assert_eq!(next_check_peek2(&mut update, 3), (3, false));
        assert_eq!(next_check_peek2(&mut update, 6), (3, false));
        assert_need_fetch(&mut update, 9);
    }
}

#[test]
fn heartbeat_collapsing() {
    for chunking_v2 in [false, true] {
        let mut t = TestHistoryBuilder::default();
        if chunking_v2 {
            t.set_use_wft_chunking_v2();
        }
        t.add_by_type(EventType::WorkflowExecutionStarted);
        t.add_full_wf_task();
        t.add_full_wf_task(); // WFT2: has commands
        t.add_timer_started();
        t.add_timer_fired();
        t.add_full_wf_task(); // WFT3

        let mut update = t.as_lwft_buffer();
        if chunking_v2 {
            let seq = next_check_peek(&mut update, 0);
            assert_eq!(seq.len(), 3);
            assert_eq!(last_id(&seq), 3);
            let seq = next_check_peek(&mut update, 3);
            assert_eq!(seq.len(), 3);
            assert_eq!(last_id(&seq), 6);
        } else {
            let seq = next_check_peek(&mut update, 0);
            assert_eq!(seq.len(), 6);
            assert_eq!(last_id(&seq), 6);
        }
    }
}

#[test]
fn heartbeat_not_collapsed_when_speculative_updates_pending() {
    let mut t = TestHistoryBuilder::default();
    t.add_by_type(EventType::WorkflowExecutionStarted);
    t.add_full_wf_task(); // WFT1: events 2-4
    t.add_full_wf_task(); // WFT2: events 5-7
    t.add_full_wf_task(); // WFT3: events 8-10
    t.add_workflow_task_scheduled_and_started(); // WFT4: events 11-12
    maybe_set_chunking_v2(&mut t, true);
    let all_events = t.all_events();

    // Without speculative updates the tasks behind the first are one.
    let mut update = known(&all_events, true, false);
    let seq = next_check_peek(&mut update, 0);
    assert_eq!(seq.len(), 3);
    assert_eq!(last_id(&seq), 3);
    let seq = next_check_peek(&mut update, 3);
    assert_eq!(seq.len(), 9);
    assert_eq!(last_id(&seq), 12);

    // With them the last task stays by itself.
    let mut update = known(&all_events, true, true);
    let seq = next_check_peek(&mut update, 0);
    assert_eq!(seq.len(), 3);
    assert_eq!(last_id(&seq), 3);
    let seq = next_check_peek(&mut update, 3);
    assert_eq!(seq.len(), 6);
    assert_eq!(last_id(&seq), 9);
    let seq = next_check_peek(&mut update, 9);
    assert_eq!(seq.len(), 3);
    assert_eq!(last_id(&seq), 12);
}

#[test]
fn pushes_drop_what_overlaps() {
    let t = single_timer();
    let events = t.all_events();
    let mut buf = LwftBuffer::empty();
    buf.push_events(WftEnvelope::default(), events[..4].to_vec(), false);
    // The batch overlaps with the buffer and with itself.
    let mut batch = events[2..6].to_vec();
    batch.extend(events[3..].to_vec());
    buf.push_events(WftEnvelope::default(), batch, false);
    assert_eq!(buf.get_events(), events);
    buf.push_events(WftEnvelope::default(), events.clone(), true);
    assert_eq!(buf.get_events(), events);
    assert_eq!(buf.first_event_id(), Some(1));
}

#[test]
fn chunking_versions_stick() {
    let mut buf = LwftBuffer::empty();
    assert_eq!(buf.chunking_version(), None);
    assert_eq!(buf.first_event_id(), None);
    let mut t = single_timer();
    buf.push_events(WftEnvelope::default(), t.all_events()[..3].to_vec(), false);
    assert_eq!(buf.chunking_version(), None);
    // Nothing is taken while the version is unknown.
    assert_need_fetch(&mut buf, 0);
    buf.push_events(WftEnvelope::default(), t.all_events()[3..].to_vec(), false);
    assert_eq!(buf.chunking_version(), Some(ChunkingVersion::V1));
    buf.set_chunking_version(ChunkingVersion::V2);
    assert_eq!(buf.chunking_version(), Some(ChunkingVersion::V2));
    buf.set_chunking_version(ChunkingVersion::V1);
    assert_eq!(buf.chunking_version(), Some(ChunkingVersion::V2));
    assert!(ChunkingVersion::V2.is_v2() && !ChunkingVersion::V1.is_v2());

    maybe_set_chunking_v2(&mut t, true);
    let mut flagged = LwftBuffer::empty();
    flagged.push_events(WftEnvelope::default(), t.all_events(), false);
    assert_eq!(flagged.chunking_version(), Some(ChunkingVersion::V2));
}

#[test]
fn a_whole_history_without_completed_tasks_goes_by_the_legacy_algorithm() {
    let mut buf = LwftBuffer::empty();
    let events = single_timer().all_events()[..3].to_vec();
    buf.push_events(WftEnvelope::default(), events, true);
    assert_eq!(buf.chunking_version(), None);
    assert_eq!(next_check_peek2(&mut buf, 0), (3, true));
    // The end of the history is never forgotten.
    buf.push_events(WftEnvelope::default(), vec![], false);
    assert_replay_over(&mut buf, 3);
}

#[test]
fn envelopes_are_replaced() {
    let mut buf = LwftBuffer::empty();
    assert_eq!(buf.envelope(), WftEnvelope::default());
    let envelope = WftEnvelope {
        previous_wft_started_id: 3,
        wft_started_id: 8,
        has_pending_speculative_updates: true,
    };
    buf.push_events(envelope, vec![], false);
    assert_eq!(buf.envelope(), envelope);
    assert_eq!(buf.previous_wft_started_id(), 3);
    assert_eq!(buf.wft_started_id(), 8);
}

#[test]
fn completed_tasks_can_be_peeked_at() {
    let mut t = single_timer();
    maybe_set_chunking_v2(&mut t, true);
    t.add_by_type(EventType::WorkflowTaskCompleted);
    let buf = t.as_lwft_buffer();
    let flags = |from| {
        buf.peek_next_wft_completed(from)
            .map(|a| a.sdk_metadata.is_some())
    };
    assert_eq!(flags(0), Some(true));
    assert_eq!(flags(4), Some(true));
    assert_eq!(flags(5), Some(false));
    assert_eq!(flags(9), Some(false));
    assert_eq!(flags(10), None);
}

#[test]
fn malformed_histories_are_told_apart() {
    let history = |kinds: &[EventType]| -> Vec<HistoryEvent> {
        kinds
            .iter()
            .enumerate()
            .map(|(i, kind)| event(i as i64 + 1, *kind))
            .collect()
    };
    // A started task that is followed by something other than its outcome.
    let started = history(&[
        EventType::WorkflowTaskScheduled,
        EventType::WorkflowTaskStarted,
        EventType::TimerFired,
    ]);
    assert!(!known(&started, true, false).is_chunkable(0));
    assert!(lwft_buffer_for_test(started, 0, 0, true, false, cv(false)).is_chunkable(0));
    // Something behind the end of the execution.
    let ended = history(&[
        EventType::WorkflowExecutionTerminated,
        EventType::WorkflowExecutionSignaled,
    ]);
    assert!(!known(&ended, true, false).is_chunkable(0));
    assert!(known(&ended[..1], true, false).is_chunkable(0));
    assert!(!known(&ended[..1], false, false).is_chunkable(0));
    assert!(!known(&ended[..1], true, true).is_chunkable(0));
    // Updates that wait for a task which is over.
    let over = history(&[
        EventType::WorkflowTaskStarted,
        EventType::WorkflowTaskCompleted,
        EventType::WorkflowTaskScheduled,
        EventType::WorkflowTaskStarted,
        EventType::WorkflowTaskCompleted,
    ]);
    assert!(!known(&over, true, true).is_chunkable(0));
    assert!(known(&over, true, false).is_chunkable(0));
}

#[test]
fn tasks_do_not_depend_on_paging() {
    let mut t = three_wfts_then_heartbeats();
    maybe_set_chunking_v2(&mut t, true);
    let tasks = |chunk_size: usize| -> Vec<Vec<i64>> {
        let (mut buf, mut paginator, mut server) = paginator_setup(t.clone(), chunk_size);
        let mut tasks = vec![];
        let mut from = 0;
        loop {
            match drain_to_take(&mut buf, &mut paginator, &mut server, from) {
                NextWFT::WFT(lwft) => {
                    let ids: Vec<i64> = lwft.events().iter().map(|e| e.event_id).collect();
                    from = *ids.last().unwrap();
                    tasks.push(ids);
                }
                _ => return tasks,
            }
        }
    };
    let expected = tasks(50);
    assert_eq!(expected.concat(), (1..=160).collect::<Vec<i64>>());
    assert_eq!(
        expected.iter().map(|t| t.len()).collect::<Vec<usize>>(),
        [3, 4, 4, 147, 2]
    );
    for chunk_size in [4, 5, 7, 10, 11, 64, 100] {
        assert_eq!(tasks(chunk_size), expected);
    }
}

#[test]
fn boundaries_move_with_their_slice() {
    let complete = NextWFTSeqEndIndex::Complete(3);
    assert_eq!(complete.add(4), NextWFTSeqEndIndex::Complete(7));
    assert_eq!(NextWFTSeqEndIndex::Tail.add(4), NextWFTSeqEndIndex::Tail);
    assert_eq!(NextWFTSeqEndIndex::NeedMore.add(4), NextWFTSeqEndIndex::NeedMore);
    assert_eq!(complete.end_index_in_slice(9), 3);
    assert_eq!(NextWFTSeqEndIndex::Tail.end_index_in_slice(9), 8);
    assert_eq!(NextWFTSeqEndIndex::NeedMore.end_index_in_slice(0), 0);
}

#[test]
fn replays_hand_out_every_event_once() {
    for chunking_v2 in [false, true] {
        let mut t = three_wfts_then_heartbeats();
        maybe_set_chunking_v2(&mut t, chunking_v2);
        let mut buf = t.as_lwft_buffer();
        let mut seen = vec![];
        let mut from = 0;
        while let NextWFT::WFT(lwft) = take(&mut buf, from) {
            from = last_id(lwft.events());
            seen.extend(lwft.into_events());
        }
        assert_eq!(seen, t.all_events());
    }
}

#[test]
fn commands_conclude_unless_only_empty_tasks_follow() {
    // Behind a first task: something, then a task that is followed by another one.
    let history = |between: EventType| {
        let mut t = TestHistoryBuilder::default();
        t.add_by_type(EventType::WorkflowExecutionStarted);
        t.add_full_wf_task();
        t.add_by_type(between);
        t.add_full_wf_task();
        t.add_workflow_task_scheduled_and_started();
        t.all_events()
    };
    let signal = history(EventType::WorkflowExecutionSignaled);
    let command = history(EventType::TimerStarted);
    for (events, concludes) in [(&signal, true), (&command, false)] {
        let mut buf = known(events, false, false);
        assert_eq!(next_check_peek2(&mut buf, 0), (3, false));
        if concludes {
            assert_eq!(next_check_peek2(&mut buf, 3), (4, false));
        } else {
            assert_need_fetch(&mut buf, 3);
        }
        let mut buf = known(events, true, false);
        assert_eq!(next_check_peek2(&mut buf, 0), (3, false));
        assert_eq!(next_check_peek2(&mut buf, 3), (4, false));
        assert_eq!(next_check_peek2(&mut buf, 7), (3, true));
    }

    // Something else follows the empty tasks: the command decides, though more history may come.
    let mut t = TestHistoryBuilder::default();
    t.add_by_type(EventType::WorkflowExecutionStarted);
    t.add_full_wf_task();
    t.add_by_type(EventType::TimerStarted);
    t.add_full_wf_task();
    t.add_by_type(EventType::WorkflowTaskScheduled);
    t.add_by_type(EventType::WorkflowExecutionSignaled);
    t.add_by_type(EventType::WorkflowTaskStarted);
    t.add_by_type(EventType::WorkflowTaskCompleted);
    t.add_by_type(EventType::TimerStarted);
    let events = t.all_events();
    let mut buf = known(&events, false, false);
    assert_eq!(next_check_peek2(&mut buf, 0), (3, false));
    assert_eq!(next_check_peek2(&mut buf, 3), (4, false));
}
