//! Turns polled workflow tasks and requests for history into tasks that are ready to be applied.
//!
//! Each task and each request is worked on by its own; the decisions are here, and asking the server
//! is left to the caller.

use super::chunking::ChunkingVersion;
use super::paginator::{
    cache_miss_step, empty_task, is_empty_task, same_work, server_token, CacheMissFetch,
    CacheMissFetchReq, CacheMissStep, Fetch, FetchAction, FetchPageOutput, HistoryPage,
    HistoryPaginator, PageToken, PaginatorState, PermittedWFT, PreparedWFT, ValidPollWFTQResponse,
};
use crate::status::{Status, CODE_UNKNOWN};
use vstd::prelude::*;

verus! {

/// The task to answer for a workflow task whose history cannot be had.
#[derive(Debug)]
pub enum AutoReplyTask {
    LegacyQuery(Vec<u8>),
    Workflow(Vec<u8>),
}

impl AutoReplyTask {
    /// The task to answer is the one with this token.
    pub open spec fn is_for(self, has_legacy_query: bool, task_token: Seq<u8>) -> bool {
        match self {
            AutoReplyTask::LegacyQuery(token) => has_legacy_query && token@ == task_token,
            AutoReplyTask::Workflow(token) => !has_legacy_query && token@ == task_token,
        }
    }
}

/// The task to answer if the history of a task cannot be had.
pub fn auto_reply_task(has_legacy_query: bool, task_token: &Vec<u8>) -> (res: AutoReplyTask)
    ensures
        res.is_for(has_legacy_query, task_token@),
{
    let token = vstd::slice::slice_to_vec(task_token.as_slice());
    if has_legacy_query {
        AutoReplyTask::LegacyQuery(token)
    } else {
        AutoReplyTask::Workflow(token)
    }
}

/// A request for the next page of a run's history. `S` is the span that it belongs to.
#[derive(Debug)]
pub struct NextPageReq<S> {
    pub paginator: HistoryPaginator,
    pub span: S,
}

/// A request for history. `H` keeps the worker from shutting down while the request is open.
#[derive(Debug)]
pub enum HistoryFetchReq<P, Q, A, M, S, H> {
    Full(CacheMissFetchReq<P, Q, A, M>, H),
    NextPage(NextPageReq<S>, H),
}

/// What comes out for a task or a request.
#[derive(Debug)]
pub enum WFTExtractorOutput<P, Q, A, M, S, H> {
    /// A polled task, with the chunking version of its run if the run is cached.
    NewWFT(PermittedWFT<P, Q, A, M>, Option<ChunkingVersion>),
    /// A task with its whole history.
    FetchResult(PermittedWFT<P, Q, A, M>, H),
    /// A page of history.
    NextPage { paginator: HistoryPaginator, page: FetchPageOutput, span: S, rc: H },
    /// The history could not be had.
    FailedFetch { run_id: String, err: Status, auto_reply_fail_task: Option<AutoReplyTask> },
    /// There will be no more tasks.
    PollerDead,
}

/// The chunking version of a run, as its cache entry tells it. `reply` is `None` if the lookup was
/// not answered, which counts as a run that is not cached.
pub fn get_chunking_version(reply: Option<Option<ChunkingVersion>>) -> (res: Option<
    ChunkingVersion,
>)
    ensures
        res == match reply {
            Some(version) => version,
            None => None,
        },
{
    match reply {
        Some(version) => version,
        None => None,
    }
}

/// Extracts a polled task.
///
/// `into_used` turns the permit of the poll, `O`, into that of the task. An error of the poller is
/// passed on. A task without anything to do is a failed fetch.
pub fn extract_polled<O, P, Q, A, M, S, H, F: FnOnce(O, &PreparedWFT<Q, A, M>) -> P>(
    stream_in: Result<(ValidPollWFTQResponse<Q, A, M>, O), Status>,
    chunking_version: Option<ChunkingVersion>,
    into_used: F,
) -> (res: Result<WFTExtractorOutput<P, Q, A, M, S, H>, Status>)
    requires
        stream_in matches Ok((wft, permit)) ==> !is_empty_task(wft) ==> forall|
            prep: PreparedWFT<Q, A, M>,
        |
            prep.is_from(wft) ==> #[trigger] call_requires(into_used, (permit, &prep)),
    ensures
        match stream_in {
            Err(status) => res == Err::<WFTExtractorOutput<P, Q, A, M, S, H>, _>(status),
            Ok((wft, permit)) => res matches Ok(output) && if is_empty_task(wft) {
                &&& output matches WFTExtractorOutput::FailedFetch {
                    run_id,
                    err,
                    auto_reply_fail_task,
                }
                &&& run_id@ == wft.workflow_execution.run_id@
                &&& err.is_plain(CODE_UNKNOWN, empty_task())
                &&& auto_reply_fail_task matches Some(task)
                &&& task.is_for(wft.legacy_query is Some, wft.task_token@)
            } else {
                &&& output matches WFTExtractorOutput::NewWFT(new_wft, version)
                &&& version == chunking_version
                &&& call_ensures(into_used, (permit, &new_wft.work), new_wft.permit)
                &&& new_wft.work.is_from(wft)
                &&& new_wft.paginator@ == (PaginatorState {
                    wf_id: wft.workflow_execution.workflow_id@,
                    run_id: wft.workflow_execution.run_id@,
                    token: if wft.history@.len() == 0 {
                        PageToken::Done
                    } else {
                        server_token(wft.next_page_token@)
                    },
                    held: Seq::empty(),
                })
            },
        },
{
    let (wft, permit) = match stream_in {
        Ok((wft, permit)) => (wft, permit),
        Err(status) => {
            return Err(status);
        },
    };
    let run_id = wft.workflow_execution.run_id.clone();
    let auto_reply_fail_task = auto_reply_task(wft.legacy_query.is_some(), &wft.task_token);
    Ok(
        match HistoryPaginator::from_poll(wft) {
            Ok(polled) => {
                let permit = into_used(permit, &polled.prep);
                WFTExtractorOutput::NewWFT(
                    PermittedWFT { work: polled.prep, permit, paginator: polled.paginator },
                    chunking_version,
                )
            },
            Err(err) => WFTExtractorOutput::FailedFetch {
                run_id,
                err,
                auto_reply_fail_task: Some(auto_reply_fail_task),
            },
        },
    )
}

/// A request for history, under way.
#[derive(Debug)]
pub enum OpenFetch<P, Q, A, M, S, H> {
    Full {
        run_id: String,
        auto_reply_fail_task: AutoReplyTask,
        fetch: CacheMissFetch<P, Q, A, M>,
        rc: H,
    },
    NextPage { paginator: HistoryPaginator, span: S, rc: H },
}

/// What is to be done next for a request.
#[derive(Debug)]
pub enum FetchStep<P, Q, A, M, S, H> {
    /// Ask the server for the page behind this token, then call [`OpenFetch::page_received`].
    Request(OpenFetch<P, Q, A, M, S, H>, Vec<u8>),
    /// Nothing: here is the output.
    Output(WFTExtractorOutput<P, Q, A, M, S, H>),
}

/// What becomes of a request for the next page when the paginator, now in state `state`, takes an
/// action.
pub open spec fn next_page_step<P, Q, A, M, S, H>(
    state: PaginatorState,
    action: Fetch,
    span: S,
    rc: H,
    step: FetchStep<P, Q, A, M, S, H>,
) -> bool {
    match step {
        FetchStep::Request(OpenFetch::NextPage { paginator, span: s, rc: h }, token) => {
            &&& action == Fetch::Request(token@)
            &&& paginator@ == state
            &&& s == span
            &&& h == rc
        },
        FetchStep::Output(
            WFTExtractorOutput::NextPage { paginator, page, span: s, rc: h },
        ) => {
            &&& action == (Fetch::Output {
                events: page.events@,
                no_more_pages: page.no_more_pages,
            })
            &&& paginator@ == state
            &&& s == span
            &&& h == rc
        },
        _ => false,
    }
}

/// What becomes of a request for the whole history when the fetch takes a step.
pub open spec fn full_step<P, Q, A, M, S, H>(
    fetch_step: CacheMissStep<P, Q, A, M>,
    run_id: Seq<char>,
    auto_reply: AutoReplyTask,
    rc: H,
    step: FetchStep<P, Q, A, M, S, H>,
) -> bool {
    match step {
        FetchStep::Request(
            OpenFetch::Full { run_id: r, auto_reply_fail_task, fetch, rc: h },
            token,
        ) => {
            &&& fetch_step == CacheMissStep::Request(fetch, token)
            &&& r@ == run_id
            &&& auto_reply_fail_task == auto_reply
            &&& h == rc
        },
        FetchStep::Output(WFTExtractorOutput::FetchResult(wft, h)) => {
            &&& fetch_step == CacheMissStep::Complete(wft)
            &&& h == rc
        },
        _ => false,
    }
}

fn next_page_output<P, Q, A, M, S, H>(
    paginator: HistoryPaginator,
    action: FetchAction,
    span: S,
    rc: H,
) -> (res: FetchStep<P, Q, A, M, S, H>)
    ensures
        next_page_step(paginator@, action@, span, rc, res),
{
    match action {
        FetchAction::Request(token) => FetchStep::Request(
            OpenFetch::NextPage { paginator, span, rc },
            token,
        ),
        FetchAction::Output(page) => FetchStep::Output(
            WFTExtractorOutput::NextPage { paginator, page, span, rc },
        ),
    }
}

fn full_output<P, Q, A, M, S, H>(
    fetch_step: CacheMissStep<P, Q, A, M>,
    run_id: String,
    auto_reply_fail_task: AutoReplyTask,
    rc: H,
) -> (res: FetchStep<P, Q, A, M, S, H>)
    ensures
        full_step(fetch_step, run_id@, auto_reply_fail_task, rc, res),
{
    match fetch_step {
        CacheMissStep::Request(fetch, token) => FetchStep::Request(
            OpenFetch::Full { run_id, auto_reply_fail_task, fetch, rc },
            token,
        ),
        CacheMissStep::Complete(wft) => FetchStep::Output(WFTExtractorOutput::FetchResult(wft, rc)),
    }
}

/// Starts working on a request for history.
pub fn begin_fetch<P, Q, A, M, S, H>(req: HistoryFetchReq<P, Q, A, M, S, H>) -> (res: FetchStep<
    P,
    Q,
    A,
    M,
    S,
    H,
>)
    ensures
        match req {
            HistoryFetchReq::Full(full, rc) => {
                // The first page is asked for, and the events of the poll are held aside.
                &&& res matches FetchStep::Request(OpenFetch::Full {
                    run_id,
                    auto_reply_fail_task,
                    fetch,
                    rc: h,
                }, token)
                &&& h == rc
                &&& run_id@ == full.original_wft.work.execution.run_id@
                &&& auto_reply_fail_task.is_for(
                    full.original_wft.work.legacy_query is Some,
                    full.original_wft.work.task_token@,
                )
                &&& token@.len() == 0
                &&& fetch.fetched().len() == 0
                &&& same_work(fetch.task().work, full.original_wft.work)
                &&& fetch.task().permit == full.original_wft.permit
                &&& fetch.task().paginator@ == (PaginatorState {
                    wf_id: full.original_wft.work.execution.workflow_id@,
                    run_id: full.original_wft.work.execution.run_id@,
                    token: PageToken::Done,
                    held: full.original_wft.work.initial_events@,
                })
            },
            HistoryFetchReq::NextPage(next, rc) => next_page_step(
                next.paginator@.fetching(),
                next.paginator@.fetch_action(),
                next.span,
                rc,
                res,
            ),
        },
{
    match req {
        HistoryFetchReq::Full(full, rc) => {
            let run_id = full.original_wft.work.execution.run_id.clone();
            let auto_reply_fail_task = auto_reply_task(
                full.original_wft.work.legacy_query.is_some(),
                &full.original_wft.work.task_token,
            );
            full_output(CacheMissFetch::from_fetchreq(full), run_id, auto_reply_fail_task, rc)
        },
        HistoryFetchReq::NextPage(next, rc) => {
            let mut paginator = next.paginator;
            let action = paginator.fetch_next_page();
            next_page_output(paginator, action, next.span, rc)
        },
    }
}

impl<P, Q, A, M, S, H> OpenFetch<P, Q, A, M, S, H> {
    /// What a failure of the server leads to: only a fetch of the whole history belongs to a task
    /// that is to be answered.
    pub open spec fn failed(
        self,
        status: Status,
        output: WFTExtractorOutput<P, Q, A, M, S, H>,
    ) -> bool {
        &&& output matches WFTExtractorOutput::FailedFetch { run_id, err, auto_reply_fail_task }
        &&& err == status
        &&& match self {
            OpenFetch::Full { run_id: r, auto_reply_fail_task: task, fetch: _, rc: _ } => run_id
                == r && auto_reply_fail_task == Some(task),
            OpenFetch::NextPage { paginator, span: _, rc: _ } => run_id == paginator.run_id
                && auto_reply_fail_task is None,
        }
    }

    /// Takes in the answer of the server.
    pub fn page_received(self, answer: Result<HistoryPage, Status>) -> (res: FetchStep<
        P,
        Q,
        A,
        M,
        S,
        H,
    >)
        ensures
            match answer {
                Err(status) => res matches FetchStep::Output(output) && self.failed(status, output),
                Ok(page) => match self {
                    OpenFetch::Full { run_id, auto_reply_fail_task, fetch, rc } => exists|
                        fetch_step: CacheMissStep<P, Q, A, M>,
                    | #[trigger]
                        full_step(fetch_step, run_id@, auto_reply_fail_task, rc, res)
                            && cache_miss_step(
                            fetch.task(),
                            fetch.task().paginator@.received(page.all(), page.next_page_token@),
                            fetch.task().paginator@.received_action(
                                page.all(),
                                page.next_page_token@,
                            ),
                            fetch.fetched(),
                            fetch_step,
                        ),
                    OpenFetch::NextPage { paginator, span, rc } => next_page_step(
                        paginator@.received(page.all(), page.next_page_token@),
                        paginator@.received_action(page.all(), page.next_page_token@),
                        span,
                        rc,
                        res,
                    ),
                },
            },
    {
        match answer {
            Ok(page) => match self {
                OpenFetch::Full { run_id, auto_reply_fail_task, fetch, rc } => full_output(
                    fetch.page_received(page),
                    run_id,
                    auto_reply_fail_task,
                    rc,
                ),
                OpenFetch::NextPage { paginator, span, rc } => {
                    let mut paginator = paginator;
                    let action = paginator.page_received(page);
                    next_page_output(paginator, action, span, rc)
                },
            },
            Err(err) => match self {
                OpenFetch::Full { run_id, auto_reply_fail_task, fetch: _, rc: _ } => FetchStep::Output(
                    WFTExtractorOutput::FailedFetch {
                        run_id,
                        err,
                        auto_reply_fail_task: Some(auto_reply_fail_task),
                    },
                ),
                OpenFetch::NextPage { paginator, span: _, rc: _ } => FetchStep::Output(
                    WFTExtractorOutput::FailedFetch {
                        run_id: paginator.run_id,
                        err,
                        auto_reply_fail_task: None,
                    },
                ),
            },
        }
    }
}

} // verus!
