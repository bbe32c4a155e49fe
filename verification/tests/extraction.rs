use temporal_worker::history::buffer::{LwftBuffer, NextWFT};
use temporal_worker::history::chunking::ChunkingVersion;
use temporal_worker::history::event::{EventType, HistoryEvent};
use temporal_worker::history::extraction::{
    begin_fetch, extract_polled, get_chunking_version, AutoReplyTask, FetchStep, HistoryFetchReq,
    NextPageReq, WFTExtractorOutput,
};
use temporal_worker::history::paginator::{
    CacheMissFetchReq, FetchAction, HistoryPage, HistoryPaginator, NextPageToken, PermittedWFT, PreparedWFT,
    ValidPollWFTQResponse, WorkflowExecution,
};
use temporal_worker::status::{Status, CODE_UNKNOWN};

type Wft = ValidPollWFTQResponse<&'static str, &'static str, &'static str>;
type Task = PermittedWFT<&'static str, &'static str, &'static str, &'static str>;
type Output =
    WFTExtractorOutput<&'static str, &'static str, &'static str, &'static str, &'static str, u8>;
type Step = FetchStep<&'static str, &'static str, &'static str, &'static str, &'static str, u8>;

fn events(ids: &[i64]) -> Vec<HistoryEvent> {
    ids.iter()
        .map(|id| HistoryEvent {
            event_id: *id,
            event_type: EventType::Other(0),
            command: false,
            final_wf_execution: false,
            wft_time_sensitive: false,
            attributes: None,
        })
        .collect()
}

fn ids(events: &[HistoryEvent]) -> Vec<i64> {
    events.iter().map(|e| e.event_id).collect()
}

fn polled(history: &[i64], token: &[u8]) -> Wft {
    ValidPollWFTQResponse {
        task_token: vec![7],
        workflow_execution: WorkflowExecution {
            workflow_id: "wf".to_owned(),
            run_id: "run".to_owned(),
        },
        workflow_type: "type".to_owned(),
        history: events(history),
        next_page_token: token.to_vec(),
        attempt: 2,
        previous_started_event_id: 3,
        started_event_id: 8,
        legacy_query: None,
        query_requests: Vec::new(),
        messages: Vec::new(),
    }
}

fn page(ids: &[i64], token: &[u8]) -> HistoryPage {
    HistoryPage {
        events: Some(events(ids)),
        next_page_token: token.to_vec(),
    }
}

/// Turns the permit of a poll into that of a task.
fn into_used(
    permit: u8,
    prep: &PreparedWFT<&'static str, &'static str, &'static str>,
) -> &'static str {
    assert_eq!(permit, 5);
    match prep.workflow_type.as_str() {
        "type" => "permit",
        _ => "other permit",
    }
}

fn new_wft(wft: Wft) -> (Task, Option<ChunkingVersion>) {
    let output: Output =
        extract_polled(Ok((wft, 5)), Some(ChunkingVersion::V2), into_used).unwrap();
    match output {
        WFTExtractorOutput::NewWFT(task, version) => (task, version),
        other => panic!("the task should be new: {other:?}"),
    }
}

#[test]
fn polled_tasks_are_split() {
    let (task, version) = new_wft(polled(&[4, 5], &[1]));
    assert_eq!(version, Some(ChunkingVersion::V2));
    assert_eq!(task.permit, "permit");
    assert_eq!(task.work.task_token, [7]);
    assert_eq!(task.work.attempt, 2);
    assert_eq!(task.work.workflow_type, "type");
    assert_eq!(ids(&task.work.initial_events), [4, 5]);
    assert!(!task.work.no_more_pages);
    assert_eq!(task.work.envelope.previous_wft_started_id, 3);
    assert_eq!(task.work.envelope.wft_started_id, 8);
    assert!(!task.work.envelope.has_pending_speculative_updates);
    assert_eq!((task.paginator.wf_id.as_str(), task.paginator.run_id.as_str()), ("wf", "run"));
    assert!(matches!(&task.paginator.next_page_token, NextPageToken::Next(t) if *t == [1]));

    let (task, _) = new_wft(polled(&[4], &[]));
    assert!(task.work.no_more_pages);
    assert!(matches!(task.paginator.next_page_token, NextPageToken::Done));

    let mut with_update = polled(&[4], &[]);
    with_update.messages.push("update");
    assert!(new_wft(with_update).0.work.envelope.has_pending_speculative_updates);

    // Without history the token does not count.
    let mut only_query = polled(&[], &[1]);
    only_query.query_requests.push("query");
    let (task, _) = new_wft(only_query);
    assert!(task.work.no_more_pages);
    assert!(matches!(task.paginator.next_page_token, NextPageToken::Done));
}

#[test]
fn empty_tasks_are_failed_fetches() {
    let output: Output = extract_polled(Ok((polled(&[], &[1]), 5)), None, into_used).unwrap();
    match output {
        WFTExtractorOutput::FailedFetch {
            run_id,
            err,
            auto_reply_fail_task,
        } => {
            assert_eq!(run_id, "run");
            assert_eq!(err.code, CODE_UNKNOWN);
            assert_eq!(
                err.message,
                "Received an empty workflow task with no queries or history"
            );
            assert!(matches!(auto_reply_fail_task, Some(AutoReplyTask::Workflow(t)) if t == [7]));
        }
        other => panic!("the fetch should fail: {other:?}"),
    }
    let dead: Result<Output, Status> =
        extract_polled(Err(Status::new(14, "unavailable".to_owned())), None, into_used);
    assert_eq!(dead.unwrap_err().message, "unavailable");
}

#[test]
fn missing_lookups_count_as_not_cached() {
    assert_eq!(get_chunking_version(None), None);
    assert_eq!(get_chunking_version(Some(None)), None);
    assert_eq!(
        get_chunking_version(Some(Some(ChunkingVersion::V1))),
        Some(ChunkingVersion::V1)
    );
}

#[test]
fn cache_misses_fetch_the_whole_history() {
    let (task, _) = new_wft(polled(&[6, 7, 8], &[9]));
    let full = HistoryFetchReq::Full(CacheMissFetchReq { original_wft: task }, 1);
    let Step::Request(fetch, token) = begin_fetch(full) else {
        panic!("the first page should be asked for");
    };
    assert!(token.is_empty());
    let Step::Request(fetch, token) = fetch.page_received(Ok(page(&[], &[1]))) else {
        panic!("an empty page should be passed over");
    };
    assert_eq!(token, [1]);
    let Step::Request(fetch, token) = fetch.page_received(Ok(page(&[1, 2, 3], &[2]))) else {
        panic!("the next page should be asked for");
    };
    assert_eq!(token, [2]);
    match fetch.page_received(Ok(page(&[4, 5, 6], &[]))) {
        Step::Output(WFTExtractorOutput::FetchResult(task, rc)) => {
            assert_eq!(rc, 1);
            // Event 6 was fetched, and held aside too; the buffer drops what it has already.
            assert_eq!(ids(&task.work.initial_events), [1, 2, 3, 4, 5, 6, 6, 7, 8]);
            let mut buf = LwftBuffer::empty();
            buf.set_chunking_version(ChunkingVersion::V1);
            buf.push_events(task.work.envelope, task.work.initial_events.clone(), true);
            match buf.take_next_wft_sequence(0) {
                NextWFT::WFT(lwft) => assert_eq!(ids(lwft.events()), [1, 2, 3, 4, 5, 6, 7, 8]),
                other => panic!("the events should be one task: {other:?}"),
            }
            assert!(task.work.no_more_pages);
            assert_eq!((task.paginator.wf_id.as_str(), task.paginator.run_id.as_str()), ("wf", "run"));
            assert_eq!(task.work.task_token, [7]);
            assert_eq!(task.permit, "permit");
            assert_eq!(task.work.envelope.wft_started_id, 8);
        }
        other => panic!("the fetch should be complete: {other:?}"),
    }
}

#[test]
fn failed_fetches_are_answered_only_for_whole_histories() {
    let mut wft = polled(&[6], &[9]);
    wft.legacy_query = Some("query");
    let (task, _) = new_wft(wft);
    let full = HistoryFetchReq::Full(CacheMissFetchReq { original_wft: task }, 1);
    let Step::Request(fetch, _) = begin_fetch(full) else {
        panic!("the first page should be asked for");
    };
    match fetch.page_received(Err(Status::new(5, "gone".to_owned()))) {
        Step::Output(WFTExtractorOutput::FailedFetch {
            run_id,
            err,
            auto_reply_fail_task,
        }) => {
            assert_eq!((run_id.as_str(), err.message.as_str()), ("run", "gone"));
            assert!(
                matches!(auto_reply_fail_task, Some(AutoReplyTask::LegacyQuery(t)) if t == [7])
            );
        }
        other => panic!("the fetch should fail: {other:?}"),
    }

    let next = |token: NextPageToken| {
        HistoryFetchReq::NextPage(
            NextPageReq {
                paginator: HistoryPaginator {
                    wf_id: "wf".to_owned(),
                    run_id: "run".to_owned(),
                    next_page_token: token,
                    pending_post_replay_events: Vec::new(),
                },
                span: "span",
            },
            2,
        )
    };
    let Step::Request(fetch, token) = begin_fetch(next(NextPageToken::Next(vec![4]))) else {
        panic!("the page should be asked for");
    };
    assert_eq!(token, [4]);
    match fetch.page_received(Err(Status::new(5, "gone".to_owned()))) {
        Step::Output(WFTExtractorOutput::FailedFetch {
            auto_reply_fail_task,
            ..
        }) => assert!(auto_reply_fail_task.is_none()),
        other => panic!("the fetch should fail: {other:?}"),
    }
    let Step::Request(fetch, _) = begin_fetch(next(NextPageToken::Next(vec![4]))) else {
        panic!("the page should be asked for");
    };
    match fetch.page_received(Ok(page(&[1, 2], &[5]))) {
        Step::Output(WFTExtractorOutput::NextPage {
            paginator,
            page,
            span,
            rc,
        }) => {
            assert_eq!((span, rc), ("span", 2));
            assert_eq!((paginator.wf_id.as_str(), paginator.run_id.as_str()), ("wf", "run"));
            assert_eq!(ids(&page.events), [1, 2]);
            assert!(!page.no_more_pages);
            assert!(matches!(paginator.next_page_token, NextPageToken::Next(t) if t == [5]));
        }
        other => panic!("the page should come out: {other:?}"),
    }
}

#[test]
fn a_failed_fetch_ends_paging() {
    let mut paginator = HistoryPaginator {
        wf_id: "wf".to_owned(),
        run_id: "run".to_owned(),
        next_page_token: NextPageToken::Next(vec![1]),
        pending_post_replay_events: events(&[9]),
    };
    assert!(matches!(paginator.fetch_next_page(), FetchAction::Request(t) if t == [1]));
    // The server fails: no page is received.
    match paginator.fetch_next_page() {
        FetchAction::Output(page) => {
            assert_eq!(ids(&page.events), [9]);
            assert!(page.no_more_pages);
        }
        FetchAction::Request(token) => panic!("nothing should be asked for: {token:?}"),
    }
}
