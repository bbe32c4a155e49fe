//! What is asked of the server, what comes out, and what is made of polled tasks.

use super::chunking::ChunkingVersion;
use super::event::HistoryEvent;
use super::extraction::{
    auto_reply_task, begin_fetch, extract_polled, get_chunking_version, AutoReplyTask, FetchStep,
    HistoryFetchReq, NextPageReq, OpenFetch, WFTExtractorOutput,
};
use super::paginator::{
    whole_history, CacheMissFetch, CacheMissFetchReq, CacheMissStep, Fetch, FetchAction,
    HistoryPage, HistoryPaginator, NextPageToken, PageToken, PaginatorState, PermittedWFT,
    PolledWftOutput, PreparedWFT, StreamStep, StreamingHistoryPaginator, ValidPollWFTQResponse,
};
use crate::status::{Status, CODE_UNKNOWN};
use vstd::prelude::*;

verus! {

/// A server token is kept as it is; an empty one says that there are no more pages.
pub proof fn law_server_tokens_are_kept(token: Vec<u8>, res: NextPageToken)
    requires
        call_ensures(NextPageToken::from, (token,), res),
    ensures
        token@.len() == 0 ==> res is Done,
        token@.len() > 0 ==> (res matches NextPageToken::Next(kept) && kept@ == token@),
{
}

/// A fetch asks for the first page by the empty token, and for a later one by the very token that the
/// server sent. Without pages to ask for, all held events come out at once, and are not held any more.
pub proof fn law_pages_are_asked_for_by_their_token(p: &mut HistoryPaginator, res: FetchAction)
    requires
        call_ensures(HistoryPaginator::fetch_next_page, (p,), res),
    ensures
        match old(p).next_page_token {
            NextPageToken::FetchFromStart => {
                &&& res matches FetchAction::Request(asked)
                &&& asked@.len() == 0
                &&& final(p).pending_post_replay_events@ == old(p).pending_post_replay_events@
            },
            NextPageToken::Next(token) => {
                &&& res matches FetchAction::Request(asked)
                &&& asked@.len() == token@.len()
                &&& forall|i: int| 0 <= i < token@.len() ==> (#[trigger] asked@[i]) == token@[i]
                &&& final(p).pending_post_replay_events@ == old(p).pending_post_replay_events@
            },
            NextPageToken::Done => {
                &&& res matches FetchAction::Output(page)
                &&& page.events@ == old(p).pending_post_replay_events@
                &&& page.no_more_pages
                &&& final(p).pending_post_replay_events@.len() == 0
            },
        },
        final(p).next_page_token is Done,
        final(p).wf_id@ == old(p).wf_id@,
        final(p).run_id@ == old(p).run_id@,
{
    let before = old(p)@;
    let after = final(p)@;
    assert(after.token is Done);
}

/// An answer with events comes out as it is, and the next page is the one behind its token. An answer
/// without events but with a token has the page behind that very token asked for. The answer without
/// a token is the last: behind its events all held ones come out.
pub proof fn law_answers_come_out_whole(
    p: &mut HistoryPaginator,
    page: HistoryPage,
    events: Seq<HistoryEvent>,
    res: FetchAction,
)
    requires
        call_ensures(HistoryPaginator::page_received, (p, page), res),
        page.events matches Some(sent) ==> events == sent@,
        page.events is None ==> events.len() == 0,
    ensures
        page.next_page_token@.len() == 0 ==> {
            &&& res matches FetchAction::Output(out)
            &&& out.events@ == events + old(p).pending_post_replay_events@
            &&& out.no_more_pages
            &&& final(p).next_page_token is Done
            &&& final(p).pending_post_replay_events@.len() == 0
        },
        page.next_page_token@.len() > 0 && events.len() > 0 ==> {
            &&& res matches FetchAction::Output(out)
            &&& out.events@ == events
            &&& !out.no_more_pages
            &&& final(p).next_page_token matches NextPageToken::Next(token)
            &&& token@ == page.next_page_token@
            &&& final(p).pending_post_replay_events@ == old(p).pending_post_replay_events@
        },
        page.next_page_token@.len() > 0 && events.len() == 0 ==> {
            &&& res matches FetchAction::Request(asked)
            &&& asked@ == page.next_page_token@
            &&& final(p).next_page_token is Done
            &&& final(p).pending_post_replay_events@ == old(p).pending_post_replay_events@
        },
        final(p).wf_id@ == old(p).wf_id@,
        final(p).run_id@ == old(p).run_id@,
{
    assert(page.all() =~= events);
    let after = final(p)@;
    assert(page.next_page_token@.len() == 0 ==> after.token is Done);
    assert(page.next_page_token@.len() > 0 && events.len() == 0 ==> after.token is Done);
    assert(page.next_page_token@.len() > 0 && events.len() > 0 ==> after.token == PageToken::Next(
        page.next_page_token@,
    ));
}

/// The tokens that are asked for behind the first page when these are the answers of the server, and
/// each page is fetched as soon as the one before it came out.
pub open spec fn asked_tokens(
    p: PaginatorState,
    answers: Seq<(Seq<HistoryEvent>, Seq<u8>)>,
) -> Seq<Option<Seq<u8>>>
    decreases answers.len(),
{
    if answers.len() == 0 {
        Seq::empty()
    } else {
        let after = p.received(answers[0].0, answers[0].1);
        match p.received_action(answers[0].0, answers[0].1) {
            Fetch::Request(token) => seq![Some(token)] + asked_tokens(after, answers.drop_first()),
            Fetch::Output { events: _, no_more_pages } => if no_more_pages {
                Seq::empty()
            } else {
                seq![
                    match after.fetch_action() {
                        Fetch::Request(token) => Some(token),
                        Fetch::Output { events: _, no_more_pages: _ } => None,
                    },
                ] + asked_tokens(after.fetching(), answers.drop_first())
            },
        }
    }
}

/// Over a whole history, each page behind the first is asked for by the very token that came with the
/// answer before it, and nothing else is asked for.
pub proof fn law_each_page_is_asked_for_by_the_token_before_it(
    p: PaginatorState,
    answers: Seq<(Seq<HistoryEvent>, Seq<u8>)>,
)
    requires
        whole_history(answers),
    ensures
        asked_tokens(p, answers).len() == answers.len() - 1,
        forall|i: int|
            0 <= i < answers.len() - 1 ==> (#[trigger] asked_tokens(p, answers)[i]) == Some(
                answers[i].1,
            ),
    decreases answers.len(),
{
    if answers.len() > 1 {
        let rest = answers.drop_first();
        let after = p.received(answers[0].0, answers[0].1);
        assert(answers[0].1.len() > 0);
        assert forall|i: int| 0 <= i < rest.len() implies ((#[trigger] rest[i]).1.len() == 0 <==> i
            == rest.len() - 1) by {
            assert(rest[i] == answers[i + 1]);
        }
        law_each_page_is_asked_for_by_the_token_before_it(after, rest);
        law_each_page_is_asked_for_by_the_token_before_it(after.fetching(), rest);
        let asked = asked_tokens(p, answers);
        assert forall|i: int| 0 <= i < answers.len() - 1 implies (#[trigger] asked[i]) == Some(
            answers[i].1,
        ) by {
            if i > 0 {
                assert(rest[i - 1] == answers[i]);
                assert(asked_tokens(after, rest)[i - 1] == Some(rest[i - 1].1));
                assert(asked_tokens(after.fetching(), rest)[i - 1] == Some(rest[i - 1].1));
            }
        }
    } else {
        assert(answers[0].1.len() == 0);
    }
}

/// A polled task is refused exactly if it holds neither history nor queries. Otherwise nothing of it
/// is lost: the task carries its token, attempt, execution, type, queries, messages and events, and an
/// envelope with its two event ids; the paginator goes on behind its history with its token.
pub proof fn law_polled_tasks_are_taken_over<Q, A, M>(
    wft: ValidPollWFTQResponse<Q, A, M>,
    res: Result<PolledWftOutput<Q, A, M>, Status>,
)
    requires
        call_ensures(HistoryPaginator::from_poll::<Q, A, M>, (wft,), res),
    ensures
        res is Err <==> wft.history@.len() == 0 && wft.legacy_query is None
            && wft.query_requests@.len() == 0,
        res matches Err(status) ==> status.code == CODE_UNKNOWN && status.message@
            == "Received an empty workflow task with no queries or history"@,
        res matches Ok(polled) ==> {
            &&& polled.prep.task_token == wft.task_token
            &&& polled.prep.attempt == wft.attempt
            &&& polled.prep.execution == wft.workflow_execution
            &&& polled.prep.workflow_type == wft.workflow_type
            &&& polled.prep.legacy_query == wft.legacy_query
            &&& polled.prep.query_requests == wft.query_requests
            &&& polled.prep.messages == wft.messages
            &&& polled.prep.initial_events == wft.history
            &&& polled.prep.envelope.previous_wft_started_id == wft.previous_started_event_id
            &&& polled.prep.envelope.wft_started_id == wft.started_event_id
            &&& polled.prep.envelope.has_pending_speculative_updates == (wft.messages@.len() > 0)
            &&& polled.prep.no_more_pages == (polled.paginator.next_page_token is Done)
            &&& wft.history@.len() > 0 && wft.next_page_token@.len() > 0 ==> {
                &&& polled.paginator.next_page_token matches NextPageToken::Next(token)
                &&& token@ == wft.next_page_token@
            }
            &&& wft.history@.len() == 0 || wft.next_page_token@.len() == 0
                ==> polled.paginator.next_page_token is Done
            &&& polled.paginator.wf_id@ == wft.workflow_execution.workflow_id@
            &&& polled.paginator.run_id@ == wft.workflow_execution.run_id@
            &&& polled.paginator.pending_post_replay_events@.len() == 0
        },
{
    if let Ok(polled) = res {
        let token = polled.paginator@.token;
        assert(wft.history@.len() == 0 || wft.next_page_token@.len() == 0 ==> token is Done);
        assert(wft.history@.len() > 0 && wft.next_page_token@.len() > 0 ==> token
            == PageToken::Next(wft.next_page_token@));
        assert(polled.paginator@.held.len() == 0);
    }
}

/// Everything of a task but its history is the same.
pub open spec fn same_but_for_history<P, Q, A, M>(
    a: PermittedWFT<P, Q, A, M>,
    b: PermittedWFT<P, Q, A, M>,
) -> bool {
    &&& a.permit == b.permit
    &&& a.work.task_token == b.work.task_token
    &&& a.work.attempt == b.work.attempt
    &&& a.work.execution == b.work.execution
    &&& a.work.workflow_type == b.work.workflow_type
    &&& a.work.legacy_query == b.work.legacy_query
    &&& a.work.query_requests == b.work.query_requests
    &&& a.work.envelope == b.work.envelope
    &&& a.work.messages == b.work.messages
}

/// A fetch of a whole history starts with the first page, holds the events of the poll aside, and is
/// for the execution of the task.
pub proof fn law_whole_histories_are_fetched_from_the_start<P, Q, A, M>(
    req: CacheMissFetchReq<P, Q, A, M>,
    res: CacheMissStep<P, Q, A, M>,
)
    requires
        call_ensures(CacheMissFetch::<P, Q, A, M>::from_fetchreq, (req,), res),
    ensures
        res matches CacheMissStep::Request(fetch, token) && {
            &&& token@.len() == 0
            &&& fetch.fetched().len() == 0
            &&& same_but_for_history(fetch.task(), req.original_wft)
            &&& fetch.task().paginator.pending_post_replay_events@
                == req.original_wft.work.initial_events@
            &&& fetch.task().paginator.wf_id@ == req.original_wft.work.execution.workflow_id@
            &&& fetch.task().paginator.run_id@ == req.original_wft.work.execution.run_id@
        },
{
    if let CacheMissStep::Request(fetch, token) = res {
        assert(fetch.task().paginator@.held == req.original_wft.work.initial_events@);
        assert(fetch.task().paginator@.wf_id == req.original_wft.work.execution.workflow_id@);
        assert(fetch.task().paginator@.run_id == req.original_wft.work.execution.run_id@);
    }
}

/// A fetch of a whole history collects the events of every answer and goes on with the token of the
/// answer. With the answer that has none it is complete: the history is all that was collected, the
/// events of the answer, and the events of the poll.
pub proof fn law_whole_histories_are_joined<P, Q, A, M>(
    fetch: CacheMissFetch<P, Q, A, M>,
    page: HistoryPage,
    events: Seq<HistoryEvent>,
    res: CacheMissStep<P, Q, A, M>,
)
    requires
        call_ensures(CacheMissFetch::<P, Q, A, M>::page_received, (fetch, page), res),
        page.events matches Some(sent) ==> events == sent@,
        page.events is None ==> events.len() == 0,
    ensures
        page.next_page_token@.len() > 0 ==> {
            &&& res matches CacheMissStep::Request(next, token)
            &&& token@ == page.next_page_token@
            &&& next.fetched() == fetch.fetched() + events
            &&& same_but_for_history(next.task(), fetch.task())
            &&& next.task().paginator.pending_post_replay_events@
                == fetch.task().paginator.pending_post_replay_events@
            &&& next.task().paginator.wf_id@ == fetch.task().paginator.wf_id@
            &&& next.task().paginator.run_id@ == fetch.task().paginator.run_id@
        },
        page.next_page_token@.len() == 0 ==> {
            &&& res matches CacheMissStep::Complete(wft)
            &&& wft.work.initial_events@ == fetch.fetched() + (events
                + fetch.task().paginator.pending_post_replay_events@)
            &&& wft.work.no_more_pages
            &&& same_but_for_history(wft, fetch.task())
            &&& wft.paginator.next_page_token is Done
            &&& wft.paginator.pending_post_replay_events@.len() == 0
            &&& wft.paginator.wf_id@ == fetch.task().paginator.wf_id@
            &&& wft.paginator.run_id@ == fetch.task().paginator.run_id@
        },
{
    assert(page.all() =~= events);
    let p = fetch.task().paginator@;
    assert(fetch.fetched() + Seq::<HistoryEvent>::empty() =~= fetch.fetched());
    if page.next_page_token@.len() > 0 {
        assert(events.len() == 0 ==> fetch.fetched() + events =~= fetch.fetched());
        if let CacheMissStep::Request(next, token) = res {
            assert(next.task().paginator@.held == p.held);
            assert(next.task().paginator@.wf_id == p.wf_id);
            assert(next.task().paginator@.run_id == p.run_id);
        }
    } else {
        if let CacheMissStep::Complete(wft) = res {
            assert(wft.paginator@.token is Done);
            assert(wft.paginator@.held.len() == 0);
            assert(wft.paginator@.wf_id == p.wf_id && wft.paginator@.run_id == p.run_id);
        }
    }
}

/// A stream hands out the events it has first to last. Drained, it is over. Otherwise it asks for the
/// next page by its token, or hands out what is held.
pub proof fn law_streams_hand_out_in_order(s: &mut StreamingHistoryPaginator, res: StreamStep)
    requires
        call_ensures(StreamingHistoryPaginator::poll_next, (s,), res),
    ensures
        old(s)@.pending.len() > 0 ==> {
            &&& res matches StreamStep::Yield(event)
            &&& event == old(s)@.pending[0]
            &&& final(s)@.pending == old(s)@.pending.subrange(1, old(s)@.pending.len() as int)
            &&& final(s)@.inner == old(s)@.inner
            &&& final(s)@.drained == old(s)@.drained
        },
        old(s)@.pending.len() == 0 && old(s)@.drained ==> res is End && final(s)@.pending.len()
            == 0 && final(s)@.drained && final(s)@.inner == old(s)@.inner,
        final(s)@.inner.wf_id == old(s)@.inner.wf_id,
        final(s)@.inner.run_id == old(s)@.inner.run_id,
        old(s)@.pending.len() == 0 && !old(s)@.drained ==> match old(s)@.inner.token {
            PageToken::FetchFromStart => res matches StreamStep::Request(token) && token@.len() == 0
                && final(s)@.inner.held == old(s)@.inner.held && !final(s)@.drained
                && final(s)@.pending.len() == 0 && final(s)@.inner.token is Done,
            PageToken::Next(next) => res matches StreamStep::Request(token) && token@ == next
                && final(s)@.inner.held == old(s)@.inner.held && !final(s)@.drained
                && final(s)@.pending.len() == 0 && final(s)@.inner.token is Done,
            PageToken::Done => {
                &&& final(s)@.drained
                &&& final(s)@.inner.token is Done
                &&& final(s)@.inner.held.len() == 0
                &&& if old(s)@.inner.held.len() == 0 {
                    res is End && final(s)@.pending.len() == 0
                } else {
                    &&& res matches StreamStep::Yield(event)
                    &&& event == old(s)@.inner.held[0]
                    &&& final(s)@.pending == old(s)@.inner.held.subrange(
                        1,
                        old(s)@.inner.held.len() as int,
                    )
                }
            },
        },
{
    let before = old(s)@;
    let after = final(s)@;
    let step = res@;
    assert((after, step) == before.next());
    if before.pending.len() > 0 {
        assert(before.pending.skip(1) =~= before.pending.subrange(1, before.pending.len() as int));
    } else {
        assert(before.pending + before.inner.held =~= before.inner.held);
        if before.inner.held.len() > 0 {
            assert(before.inner.held.skip(1) =~= before.inner.held.subrange(
                1,
                before.inner.held.len() as int,
            ));
        }
    }
}

/// A new stream has handed out nothing.
pub proof fn law_streams_start_before_the_first_page(
    inner: HistoryPaginator,
    s: StreamingHistoryPaginator,
)
    requires
        call_ensures(StreamingHistoryPaginator::new, (inner,), s),
    ensures
        s@.inner == inner@,
        s@.pending.len() == 0,
        !s@.drained,
{
}

/// A stream that has no events hands out the first of an answer and keeps the others, with the held
/// events behind them if the answer is the last.
pub proof fn law_streams_take_answers_in(
    s: &mut StreamingHistoryPaginator,
    page: HistoryPage,
    events: Seq<HistoryEvent>,
    res: StreamStep,
)
    requires
        call_ensures(StreamingHistoryPaginator::page_received, (s, page), res),
        page.events matches Some(sent) ==> events == sent@,
        page.events is None ==> events.len() == 0,
        old(s)@.pending.len() == 0,
        !old(s)@.drained,
    ensures
        page.next_page_token@.len() > 0 && events.len() == 0 ==> (
        res matches StreamStep::Request(token) && token@ == page.next_page_token@
            && final(s)@.pending.len() == 0 && !final(s)@.drained && final(s)@.inner.held == old(s)@.inner.held && final(s)@.inner.token is Done),
        page.next_page_token@.len() > 0 && events.len() > 0 ==> {
            &&& res matches StreamStep::Yield(event)
            &&& event == events[0]
            &&& final(s)@.pending == events.subrange(1, events.len() as int)
            &&& final(s)@.inner.token == PageToken::Next(page.next_page_token@)
            &&& final(s)@.inner.held == old(s)@.inner.held
            &&& !final(s)@.drained
        },
        page.next_page_token@.len() == 0 ==> {
            let all = events + old(s)@.inner.held;
            &&& final(s)@.drained
            &&& final(s)@.inner.token is Done
            &&& final(s)@.inner.held.len() == 0
            &&& if all.len() == 0 {
                res is End && final(s)@.pending.len() == 0
            } else {
                &&& res matches StreamStep::Yield(event)
                &&& event == all[0]
                &&& final(s)@.pending == all.subrange(1, all.len() as int)
            }
        },
        final(s)@.inner.wf_id == old(s)@.inner.wf_id,
        final(s)@.inner.run_id == old(s)@.inner.run_id,
{
    assert(page.all() =~= events);
    let before = old(s)@;
    let all = events + before.inner.held;
    assert((final(s)@, res@) == before.received(page.all(), page.next_page_token@));
    assert(before.pending + events =~= events);
    assert(before.pending + all =~= all);
    if events.len() > 0 {
        assert(events.skip(1) =~= events.subrange(1, events.len() as int));
    }
    if all.len() > 0 {
        assert(all.skip(1) =~= all.subrange(1, all.len() as int));
    }
}

/// The task to answer is the polled one; a legacy query is answered as such.
pub proof fn law_failed_tasks_are_answered_by_their_token(
    has_legacy_query: bool,
    task_token: &Vec<u8>,
    res: AutoReplyTask,
)
    requires
        call_ensures(auto_reply_task, (has_legacy_query, task_token), res),
    ensures
        has_legacy_query ==> (res matches AutoReplyTask::LegacyQuery(token) && token@
            == task_token@),
        !has_legacy_query ==> (res matches AutoReplyTask::Workflow(token) && token@ == task_token@),
{
}

/// The version of a run is what its cache entry says; a lookup without an answer says nothing.
pub proof fn law_versions_are_looked_up(
    reply: Option<Option<ChunkingVersion>>,
    res: Option<ChunkingVersion>,
)
    requires
        call_ensures(get_chunking_version, (reply,), res),
    ensures
        res is Some <==> reply is Some && reply->Some_0 is Some,
        res is Some ==> reply == Some(res),
{
}

/// An error of the poller is passed on. A polled task is handed on with the version that was looked up
/// and the permit that it gave, or, if there is nothing to do, answered as failed with its token.
pub proof fn law_polled_tasks_are_handed_on<O, P, Q, A, M, S, H, F: FnOnce(
    O,
    &PreparedWFT<Q, A, M>,
) -> P>(
    stream_in: Result<(ValidPollWFTQResponse<Q, A, M>, O), Status>,
    version: Option<ChunkingVersion>,
    into_used: F,
    res: Result<WFTExtractorOutput<P, Q, A, M, S, H>, Status>,
)
    requires
        call_ensures(
            extract_polled::<O, P, Q, A, M, S, H, F>,
            (stream_in, version, into_used),
            res,
        ),
    ensures
        stream_in matches Err(status) ==> (res matches Err(error) && error == status),
        stream_in matches Ok((wft, permit)) ==> (res matches Ok(output) && if wft.history@.len()
            == 0 && wft.legacy_query is None && wft.query_requests@.len() == 0 {
            &&& output matches WFTExtractorOutput::FailedFetch {
                run_id,
                err,
                auto_reply_fail_task,
            }
            &&& run_id@ == wft.workflow_execution.run_id@
            &&& err.code == CODE_UNKNOWN
            &&& err.message@ == "Received an empty workflow task with no queries or history"@
            &&& auto_reply_fail_task matches Some(AutoReplyTask::Workflow(token))
            &&& token@ == wft.task_token@
        } else {
            &&& output matches WFTExtractorOutput::NewWFT(task, told)
            &&& told == version
            &&& call_ensures(into_used, (permit, &task.work), task.permit)
            &&& task.work.task_token == wft.task_token
            &&& task.work.attempt == wft.attempt
            &&& task.work.workflow_type == wft.workflow_type
            &&& task.work.envelope.previous_wft_started_id == wft.previous_started_event_id
            &&& task.work.envelope.wft_started_id == wft.started_event_id
            &&& task.work.envelope.has_pending_speculative_updates == (wft.messages@.len() > 0)
            &&& task.work.no_more_pages == (task.paginator.next_page_token is Done)
            &&& wft.history@.len() == 0 || wft.next_page_token@.len() == 0
                ==> task.paginator.next_page_token is Done
            &&& task.work.execution == wft.workflow_execution
            &&& task.work.initial_events == wft.history
            &&& task.work.query_requests == wft.query_requests
            &&& task.work.legacy_query == wft.legacy_query
            &&& task.work.messages == wft.messages
            &&& task.paginator.wf_id@ == wft.workflow_execution.workflow_id@
            &&& task.paginator.run_id@ == wft.workflow_execution.run_id@
            &&& task.paginator.pending_post_replay_events@.len() == 0
            &&& wft.history@.len() > 0 && wft.next_page_token@.len() > 0 ==> {
                &&& task.paginator.next_page_token matches NextPageToken::Next(token)
                &&& token@ == wft.next_page_token@
            }
        }),
{
    if let Ok((wft, permit)) = stream_in {
        if let Ok(WFTExtractorOutput::NewWFT(task, told)) = res {
            let p = task.paginator@;
            assert(p.wf_id == wft.workflow_execution.workflow_id@);
            assert(p.run_id == wft.workflow_execution.run_id@);
            assert(p.held.len() == 0);
            assert(wft.history@.len() > 0 && wft.next_page_token@.len() > 0 ==> p.token
                == PageToken::Next(wft.next_page_token@));
            assert(wft.history@.len() == 0 || wft.next_page_token@.len() == 0 ==> p.token is Done);
        }
    }
}

/// A request for the next page asks for it by the token of its paginator, and keeps its span and its
/// handle; if there is nothing to ask for, the held events are the page.
pub proof fn law_next_pages_are_requested<P, Q, A, M, S, H>(
    next: NextPageReq<S>,
    rc: H,
    res: FetchStep<P, Q, A, M, S, H>,
)
    requires
        call_ensures(
            begin_fetch::<P, Q, A, M, S, H>,
            (HistoryFetchReq::NextPage(next, rc),),
            res,
        ),
    ensures
        match next.paginator.next_page_token {
            NextPageToken::Next(token) => {
                &&& res matches FetchStep::Request(
                    OpenFetch::NextPage { paginator, span, rc: handle },
                    asked,
                )
                &&& asked@ == token@
                &&& span == next.span
                &&& handle == rc
                &&& paginator.run_id@ == next.paginator.run_id@
                &&& paginator.wf_id@ == next.paginator.wf_id@
                &&& paginator.pending_post_replay_events@
                    == next.paginator.pending_post_replay_events@
            },
            NextPageToken::FetchFromStart => {
                &&& res matches FetchStep::Request(
                    OpenFetch::NextPage { paginator, span, rc: handle },
                    asked,
                )
                &&& asked@.len() == 0
                &&& span == next.span
                &&& handle == rc
                &&& paginator.run_id@ == next.paginator.run_id@
                &&& paginator.wf_id@ == next.paginator.wf_id@
                &&& paginator.pending_post_replay_events@
                    == next.paginator.pending_post_replay_events@
            },
            NextPageToken::Done => {
                &&& res matches FetchStep::Output(
                    WFTExtractorOutput::NextPage { paginator, page, span, rc: handle },
                )
                &&& page.events@ == next.paginator.pending_post_replay_events@
                &&& page.no_more_pages
                &&& span == next.span
                &&& handle == rc
                &&& paginator.run_id@ == next.paginator.run_id@
                &&& paginator.wf_id@ == next.paginator.wf_id@
                &&& paginator.pending_post_replay_events@.len() == 0
            },
        },
{
    let p = next.paginator@;
    assert(p.held == next.paginator.pending_post_replay_events@);
    match res {
        FetchStep::Request(OpenFetch::NextPage { paginator, span, rc: handle }, asked) => {
            assert(paginator@ == p.fetching());
            assert(paginator@.run_id == p.run_id && paginator@.wf_id == p.wf_id);
            assert(paginator@.held == paginator.pending_post_replay_events@);
        },
        FetchStep::Output(
            WFTExtractorOutput::NextPage { paginator, page, span, rc: handle },
        ) => {
            assert(paginator@.run_id == p.run_id && paginator@.wf_id == p.wf_id);
            assert(paginator@.held.len() == 0);
        },
        _ => {},
    }
}

/// A request for a whole history is answered for its task: if the server fails, the run is the one of
/// the task, and the task to answer is the polled one.
pub proof fn law_full_requests_remember_their_task<P, Q, A, M, S, H>(
    full: CacheMissFetchReq<P, Q, A, M>,
    rc: H,
    res: FetchStep<P, Q, A, M, S, H>,
)
    requires
        call_ensures(begin_fetch::<P, Q, A, M, S, H>, (HistoryFetchReq::Full(full, rc),), res),
    ensures
        res matches FetchStep::Request(
            OpenFetch::Full { run_id, auto_reply_fail_task, fetch, rc: handle },
            asked,
        ) && {
            &&& asked@.len() == 0
            &&& handle == rc
            &&& run_id@ == full.original_wft.work.execution.run_id@
            &&& full.original_wft.work.legacy_query is Some ==> (auto_reply_fail_task matches AutoReplyTask::LegacyQuery(
                token,
            ) && token@ == full.original_wft.work.task_token@)
            &&& full.original_wft.work.legacy_query is None ==> (auto_reply_fail_task matches AutoReplyTask::Workflow(
                token,
            ) && token@ == full.original_wft.work.task_token@)
            &&& fetch.fetched().len() == 0
            &&& same_but_for_history(fetch.task(), full.original_wft)
            &&& fetch.task().paginator.pending_post_replay_events@
                == full.original_wft.work.initial_events@
            &&& fetch.task().paginator.wf_id@ == full.original_wft.work.execution.workflow_id@
            &&& fetch.task().paginator.run_id@ == full.original_wft.work.execution.run_id@
        },
{
    if let FetchStep::Request(
        OpenFetch::Full { run_id, auto_reply_fail_task, fetch, rc: handle },
        asked,
    ) = res {
        let p = fetch.task().paginator@;
        assert(p.held == full.original_wft.work.initial_events@);
        assert(p.wf_id == full.original_wft.work.execution.workflow_id@);
        assert(p.run_id == full.original_wft.work.execution.run_id@);
    }
}

/// A failure of the server ends the request. Only a request for a whole history belongs to a task that
/// is to be answered.
pub proof fn law_failures_are_reported<P, Q, A, M, S, H>(
    open: OpenFetch<P, Q, A, M, S, H>,
    status: Status,
    res: FetchStep<P, Q, A, M, S, H>,
)
    requires
        call_ensures(OpenFetch::<P, Q, A, M, S, H>::page_received, (open, Err(status)), res),
    ensures
        res matches FetchStep::Output(
            WFTExtractorOutput::FailedFetch { run_id, err, auto_reply_fail_task },
        ) && err == status && match open {
            OpenFetch::Full { run_id: r, auto_reply_fail_task: task, fetch: _, rc: _ } => run_id
                == r && auto_reply_fail_task == Some(task),
            OpenFetch::NextPage { paginator, span: _, rc: _ } => run_id == paginator.run_id
                && auto_reply_fail_task is None,
        },
{
}

/// An answer takes a request for the next page to its end: the page comes out with the span and the
/// handle of the request, unless it is empty and has more behind it.
pub proof fn law_next_pages_come_out<P, Q, A, M, S, H>(
    p: HistoryPaginator,
    span: S,
    rc: H,
    page: HistoryPage,
    events: Seq<HistoryEvent>,
    res: FetchStep<P, Q, A, M, S, H>,
)
    requires
        call_ensures(
            OpenFetch::<P, Q, A, M, S, H>::page_received,
            (OpenFetch::NextPage { paginator: p, span, rc }, Ok(page)),
            res,
        ),
        page.events matches Some(sent) ==> events == sent@,
        page.events is None ==> events.len() == 0,
    ensures
        page.next_page_token@.len() > 0 && events.len() == 0 ==> {
            &&& res matches FetchStep::Request(
                OpenFetch::NextPage { paginator, span: s, rc: handle },
                asked,
            )
            &&& asked@ == page.next_page_token@
            &&& s == span && handle == rc
            &&& paginator.run_id@ == p.run_id@ && paginator.wf_id@ == p.wf_id@
            &&& paginator.pending_post_replay_events@ == p.pending_post_replay_events@
        },
        page.next_page_token@.len() > 0 && events.len() > 0 ==> {
            &&& res matches FetchStep::Output(
                WFTExtractorOutput::NextPage { paginator, page: out, span: s, rc: handle },
            )
            &&& out.events@ == events && !out.no_more_pages
            &&& s == span && handle == rc
            &&& paginator.next_page_token matches NextPageToken::Next(token)
            &&& token@ == page.next_page_token@
            &&& paginator.run_id@ == p.run_id@ && paginator.wf_id@ == p.wf_id@
            &&& paginator.pending_post_replay_events@ == p.pending_post_replay_events@
        },
        page.next_page_token@.len() == 0 ==> {
            &&& res matches FetchStep::Output(
                WFTExtractorOutput::NextPage { paginator, page: out, span: s, rc: handle },
            )
            &&& out.events@ == events + p.pending_post_replay_events@ && out.no_more_pages
            &&& s == span && handle == rc
            &&& paginator.next_page_token is Done
            &&& paginator.run_id@ == p.run_id@ && paginator.wf_id@ == p.wf_id@
            &&& paginator.pending_post_replay_events@.len() == 0
        },
{
    assert(page.all() =~= events);
    let before = p@;
    assert(before.held == p.pending_post_replay_events@);
    match res {
        FetchStep::Request(OpenFetch::NextPage { paginator, span: s, rc: handle }, asked) => {
            assert(paginator@.run_id == before.run_id && paginator@.wf_id == before.wf_id);
            assert(paginator@.held == before.held);
        },
        FetchStep::Output(
            WFTExtractorOutput::NextPage { paginator, page: out, span: s, rc: handle },
        ) => {
            assert(paginator@.run_id == before.run_id && paginator@.wf_id == before.wf_id);
            assert(paginator@.held == if page.next_page_token@.len() == 0 {
                Seq::<HistoryEvent>::empty()
            } else {
                before.held
            });
            assert(paginator@.token == before.received(page.all(), page.next_page_token@).token);
        },
        _ => {},
    }
}

/// An answer takes a request for a whole history on: it asks for the page behind the token of the
/// answer, or is complete.
pub proof fn law_full_requests_go_on<P, Q, A, M, S, H>(
    run_id: String,
    auto_reply_fail_task: AutoReplyTask,
    fetch: CacheMissFetch<P, Q, A, M>,
    rc: H,
    page: HistoryPage,
    events: Seq<HistoryEvent>,
    res: FetchStep<P, Q, A, M, S, H>,
)
    requires
        call_ensures(
            OpenFetch::<P, Q, A, M, S, H>::page_received,
            (OpenFetch::Full { run_id, auto_reply_fail_task, fetch, rc }, Ok(page)),
            res,
        ),
        page.events matches Some(sent) ==> events == sent@,
        page.events is None ==> events.len() == 0,
    ensures
        page.next_page_token@.len() > 0 ==> {
            &&& res matches FetchStep::Request(
                OpenFetch::Full { run_id: r, auto_reply_fail_task: task, fetch: next, rc: handle },
                asked,
            )
            &&& asked@ == page.next_page_token@
            &&& r@ == run_id@ && task == auto_reply_fail_task && handle == rc
            &&& next.fetched() == fetch.fetched() + events
            &&& same_but_for_history(next.task(), fetch.task())
            &&& next.task().paginator.pending_post_replay_events@
                == fetch.task().paginator.pending_post_replay_events@
            &&& next.task().paginator.wf_id@ == fetch.task().paginator.wf_id@
            &&& next.task().paginator.run_id@ == fetch.task().paginator.run_id@
        },
        page.next_page_token@.len() == 0 ==> {
            &&& res matches FetchStep::Output(WFTExtractorOutput::FetchResult(wft, handle))
            &&& handle == rc
            &&& wft.paginator.next_page_token is Done
            &&& wft.paginator.wf_id@ == fetch.task().paginator.wf_id@
            &&& wft.paginator.run_id@ == fetch.task().paginator.run_id@
            &&& wft.work.initial_events@ == fetch.fetched() + (events
                + fetch.task().paginator.pending_post_replay_events@)
            &&& wft.work.no_more_pages
            &&& same_but_for_history(wft, fetch.task())
        },
{
    assert(page.all() =~= events);
    let p = fetch.task().paginator@;
    assert(p.held == fetch.task().paginator.pending_post_replay_events@);
    assert(events.len() == 0 ==> fetch.fetched() + events =~= fetch.fetched());
    match res {
        FetchStep::Request(
            OpenFetch::Full { run_id: r, auto_reply_fail_task: task, fetch: next, rc: handle },
            asked,
        ) => {
            assert(next.task().paginator@.held == p.held);
            assert(next.task().paginator@.wf_id == p.wf_id);
            assert(next.task().paginator@.run_id == p.run_id);
        },
        FetchStep::Output(WFTExtractorOutput::FetchResult(wft, handle)) => {
            assert(wft.paginator@.token is Done);
            assert(wft.paginator@.wf_id == p.wf_id && wft.paginator@.run_id == p.run_id);
        },
        _ => {},
    }
}

/// A stream tells the paginator that asks for its pages.
pub proof fn law_streams_tell_their_paginator(
    s: &StreamingHistoryPaginator,
    inner: &HistoryPaginator,
)
    requires
        call_ensures(StreamingHistoryPaginator::inner, (s,), inner),
    ensures
        inner@ == s@.inner,
{
}

} // verus!
