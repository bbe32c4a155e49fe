//! Fetching a workflow's history page by page.
//!
//! The paginator decides which page to ask for next and what to make of an answer; asking is left to
//! its caller.

use super::buffer::{extended, last_event_id, BufferState, WftEnvelope};
use super::event::HistoryEvent;
use super::laws::{
    in_history_order, law_push_keeps_history_order, lemma_extended_in_order, lemma_extended_joins,
};
use crate::status::{Status, CODE_UNKNOWN};
use std::collections::VecDeque;
use vstd::prelude::*;

verus! {

/// Which page comes next.
#[derive(Debug)]
pub enum NextPageToken {
    /// No page was fetched: fetch from the beginning.
    FetchFromStart,
    /// The page behind this token.
    Next(Vec<u8>),
    /// All pages were fetched.
    Done,
}

/// Mathematical counterpart of [`NextPageToken`].
pub enum PageToken {
    FetchFromStart,
    Next(Seq<u8>),
    Done,
}

impl View for NextPageToken {
    type V = PageToken;

    open spec fn view(&self) -> PageToken {
        match *self {
            NextPageToken::FetchFromStart => PageToken::FetchFromStart,
            NextPageToken::Next(token) => PageToken::Next(token@),
            NextPageToken::Done => PageToken::Done,
        }
    }
}

/// The token that the server sends: an empty one means that there are no more pages.
pub open spec fn server_token(token: Seq<u8>) -> PageToken {
    if token.len() == 0 {
        PageToken::Done
    } else {
        PageToken::Next(token)
    }
}

impl From<Vec<u8>> for NextPageToken {
    fn from(page_token: Vec<u8>) -> (res: Self)
        ensures
            res@ == server_token(page_token@),
    {
        if page_token.len() == 0 {
            NextPageToken::Done
        } else {
            NextPageToken::Next(page_token)
        }
    }
}

impl vstd::std_specs::convert::FromSpecImpl<Vec<u8>> for NextPageToken {
    open spec fn obeys_from_spec() -> bool {
        true
    }

    open spec fn from_spec(page_token: Vec<u8>) -> Self {
        if page_token@.len() == 0 {
            NextPageToken::Done
        } else {
            NextPageToken::Next(page_token)
        }
    }
}

/// A page of history as the server sends it.
#[derive(Debug)]
pub struct HistoryPage {
    /// `None` if the answer holds no history at all.
    pub events: Option<Vec<HistoryEvent>>,
    pub next_page_token: Vec<u8>,
}

impl HistoryPage {
    /// The events of the page.
    pub open spec fn all(self) -> Seq<HistoryEvent> {
        match self.events {
            Some(events) => events@,
            None => Seq::empty(),
        }
    }
}

/// One fetched page.
#[derive(Debug)]
pub struct FetchPageOutput {
    /// The events of the page, with those held aside behind them if it is the last one.
    pub events: Vec<HistoryEvent>,
    /// Whether there is nothing more to fetch.
    pub no_more_pages: bool,
}

/// What is to be done to fetch a page.
#[derive(Debug)]
pub enum FetchAction {
    /// Ask the server for the page behind this token; an empty one means the first page. Then call
    /// [`HistoryPaginator::page_received`].
    Request(Vec<u8>),
    /// Nothing: here is the page.
    Output(FetchPageOutput),
}

/// Fetches the pages of one poll.
#[derive(Debug)]
pub struct HistoryPaginator {
    pub wf_id: String,
    pub run_id: String,
    pub next_page_token: NextPageToken,
    /// Events held aside until the pages before them are fetched.
    pub pending_post_replay_events: Vec<HistoryEvent>,
}

/// Mathematical counterpart of [`HistoryPaginator`].
pub struct PaginatorState {
    /// The workflow whose history is fetched.
    pub wf_id: Seq<char>,
    /// The run whose history is fetched.
    pub run_id: Seq<char>,
    pub token: PageToken,
    /// Events held aside.
    pub held: Seq<HistoryEvent>,
}

impl View for HistoryPaginator {
    type V = PaginatorState;

    open spec fn view(&self) -> PaginatorState {
        PaginatorState {
            wf_id: self.wf_id@,
            run_id: self.run_id@,
            token: self.next_page_token@,
            held: self.pending_post_replay_events@,
        }
    }
}

/// Mathematical counterpart of [`FetchAction`].
pub enum Fetch {
    Request(Seq<u8>),
    Output { events: Seq<HistoryEvent>, no_more_pages: bool },
}

impl View for FetchAction {
    type V = Fetch;

    open spec fn view(&self) -> Fetch {
        match *self {
            FetchAction::Request(token) => Fetch::Request(token@),
            FetchAction::Output(page) => Fetch::Output {
                events: page.events@,
                no_more_pages: page.no_more_pages,
            },
        }
    }
}

impl PaginatorState {
    /// What a fetch starts with.
    pub open spec fn fetch_action(self) -> Fetch {
        match self.token {
            PageToken::FetchFromStart => Fetch::Request(Seq::empty()),
            PageToken::Next(token) => Fetch::Request(token),
            PageToken::Done => Fetch::Output { events: self.held, no_more_pages: true },
        }
    }

    /// The paginator while a page is asked for. If the server fails, no page is asked for again.
    pub open spec fn fetching(self) -> PaginatorState {
        PaginatorState {
            token: PageToken::Done,
            held: if self.token is Done {
                Seq::empty()
            } else {
                self.held
            },
            ..self
        }
    }

    /// An answer without events that has more pages behind it is passed over.
    pub open spec fn passes_over(events: Seq<HistoryEvent>, token: Seq<u8>) -> bool {
        events.len() == 0 && token.len() > 0
    }

    /// What an answer leads to.
    pub open spec fn received_action(self, events: Seq<HistoryEvent>, token: Seq<u8>) -> Fetch {
        if Self::passes_over(events, token) {
            Fetch::Request(token)
        } else if token.len() > 0 {
            Fetch::Output { events, no_more_pages: false }
        } else {
            Fetch::Output { events: events + self.held, no_more_pages: true }
        }
    }

    /// The paginator behind an answer.
    pub open spec fn received(self, events: Seq<HistoryEvent>, token: Seq<u8>) -> PaginatorState {
        PaginatorState {
            token: if Self::passes_over(events, token) {
                PageToken::Done
            } else {
                server_token(token)
            },
            held: if token.len() == 0 {
                Seq::empty()
            } else {
                self.held
            },
            ..self
        }
    }
}

impl HistoryPaginator {
    /// Starts fetching the next page.
    pub fn fetch_next_page(&mut self) -> (res: FetchAction)
        ensures
            res@ == old(self)@.fetch_action(),
            final(self)@ == old(self)@.fetching(),
    {
        let mut token = NextPageToken::Done;
        std::mem::swap(&mut token, &mut self.next_page_token);
        match token {
            NextPageToken::FetchFromStart => FetchAction::Request(Vec::new()),
            NextPageToken::Next(token) => FetchAction::Request(token),
            NextPageToken::Done => {
                proof {
                    let none: Seq<HistoryEvent> = Seq::empty();
                    assert(none + self@.held =~= self@.held);
                }
                self.page_done(Vec::new())
            },
        }
    }

    /// Takes in the answer of the server.
    pub fn page_received(&mut self, page: HistoryPage) -> (res: FetchAction)
        ensures
            res@ == old(self)@.received_action(page.all(), page.next_page_token@),
            final(self)@ == old(self)@.received(page.all(), page.next_page_token@),
    {
        self.next_page_token = NextPageToken::from(page.next_page_token);
        let events = match page.events {
            Some(events) => events,
            None => Vec::new(),
        };
        if events.len() == 0 && matches!(self.next_page_token, NextPageToken::Next(_)) {
            // No events, but more pages: try the next one right away.
            return self.fetch_next_page();
        }
        self.page_done(events)
    }

    /// The page made of these events. All held events go behind the last page; the buffer drops those
    /// that it has already.
    fn page_done(&mut self, events: Vec<HistoryEvent>) -> (res: FetchAction)
        ensures
            res@ == if old(self)@.token is Done {
                Fetch::Output { events: events@ + old(self)@.held, no_more_pages: true }
            } else {
                Fetch::Output { events: events@, no_more_pages: false }
            },
            final(self)@ == (PaginatorState {
                held: if old(self)@.token is Done {
                    Seq::empty()
                } else {
                    old(self)@.held
                },
                ..old(self)@
            }),
    {
        let mut events = events;
        let done = matches!(self.next_page_token, NextPageToken::Done);
        if done {
            events.append(&mut self.pending_post_replay_events);
        }
        FetchAction::Output(FetchPageOutput { events, no_more_pages: done })
    }
}

/// The events of all answers, in order.
pub open spec fn answered_events(answers: Seq<(Seq<HistoryEvent>, Seq<u8>)>) -> Seq<HistoryEvent>
    decreases answers.len(),
{
    if answers.len() == 0 {
        Seq::empty()
    } else {
        answers[0].0 + answered_events(answers.drop_first())
    }
}

/// The answers are those of a whole history: each but the last has more pages behind it.
pub open spec fn whole_history(answers: Seq<(Seq<HistoryEvent>, Seq<u8>)>) -> bool {
    &&& answers.len() > 0
    &&& forall|i: int|
        0 <= i < answers.len() ==> ((#[trigger] answers[i]).1.len() == 0 <==> i == answers.len() - 1)
}

impl PaginatorState {
    /// The events that come out when these are the answers of the server, and each page is fetched as
    /// soon as the one before it came out, until no more pages are there.
    pub open spec fn fetched_events(
        self,
        answers: Seq<(Seq<HistoryEvent>, Seq<u8>)>,
    ) -> Seq<HistoryEvent>
        decreases answers.len(),
    {
        if answers.len() == 0 {
            Seq::empty()
        } else {
            let (events, token) = answers[0];
            let after = self.received(events, token);
            match self.received_action(events, token) {
                Fetch::Request(_) => after.fetched_events(answers.drop_first()),
                Fetch::Output { events: page, no_more_pages } => if no_more_pages {
                    page
                } else {
                    page + after.fetching().fetched_events(answers.drop_first())
                },
            }
        }
    }
}

/// Fetching a whole history gives every event of every answer once and in order, and behind them all
/// events held aside.
pub proof fn law_fetching_gives_whole_history(
    p: PaginatorState,
    answers: Seq<(Seq<HistoryEvent>, Seq<u8>)>,
)
    requires
        whole_history(answers),
    ensures
        p.fetched_events(answers) == answered_events(answers) + p.held,
    decreases answers.len(),
{
    let (events, token) = answers[0];
    let rest = answers.drop_first();
    let after = p.received(events, token);
    if answers.len() == 1 {
        assert(rest.len() == 0);
        assert(answered_events(answers) =~= events);
    } else {
        assert(answers[0].1.len() > 0);
        assert forall|i: int| 0 <= i < rest.len() implies ((#[trigger] rest[i]).1.len() == 0 <==> i
            == rest.len() - 1) by {
            assert(rest[i] == answers[i + 1]);
        }
        law_fetching_gives_whole_history(after, rest);
        law_fetching_gives_whole_history(after.fetching(), rest);
        assert(answered_events(answers) + p.held =~= events + (answered_events(rest) + p.held));
        if PaginatorState::passes_over(events, token) {
            assert(events + (answered_events(rest) + p.held) =~= answered_events(rest) + p.held);
        }
    }
}

pub(crate) proof fn lemma_extended_by_newer(taken: int, events: Seq<HistoryEvent>, batch: Seq<HistoryEvent>)
    requires
        in_history_order(batch),
    ensures
        extended(taken, events, batch) == events + batch.filter(
            |e: HistoryEvent| e.event_id > last_event_id(taken, events),
        ),
        batch.len() > 0 ==> last_event_id(taken, extended(taken, events, batch)) == if batch.last().event_id
            > last_event_id(taken, events) {
            batch.last().event_id as int
        } else {
            last_event_id(taken, events)
        },
    decreases batch.len(),
{
    let newer = |e: HistoryEvent| e.event_id > last_event_id(taken, events);
    reveal(Seq::filter);
    if batch.len() > 0 {
        let init = batch.drop_last();
        assert forall|i: int, j: int| 0 <= i < j < init.len() implies (
        #[trigger] init[i]).event_id < (#[trigger] init[j]).event_id by {
            assert(init[i] == batch[i] && init[j] == batch[j]);
        }
        lemma_extended_by_newer(taken, events, init);
        if init.len() > 0 {
            assert(init.last() == batch[batch.len() - 2]);
            assert(batch[batch.len() - 2].event_id < batch[batch.len() - 1].event_id);
        }
        assert(events + init.filter(newer).push(batch.last()) =~= (events + init.filter(
            newer,
        )).push(batch.last()));
    }
    assert(batch.len() == 0 ==> events + batch.filter(newer) =~= events);
}

/// A whole history that follows what a buffer holds comes out of the buffer in history order, even if
/// the events held aside overlap with it: behind what was fetched, the buffer takes those of them that
/// come later.
pub proof fn law_fetched_history_is_in_order(
    p: PaginatorState,
    answers: Seq<(Seq<HistoryEvent>, Seq<u8>)>,
    b: BufferState,
    envelope: WftEnvelope,
)
    requires
        whole_history(answers),
        in_history_order(answered_events(answers)),
        in_history_order(p.held),
        in_history_order(b.events),
        answered_events(answers).len() > 0 ==> answered_events(answers)[0].event_id
            > last_event_id(b.last_taken, b.events),
    ensures
        ({
            let known = b.events + answered_events(answers);
            let after = b.pushed(envelope, p.fetched_events(answers), true);
            &&& in_history_order(after.events)
            &&& after.events == known + p.held.filter(
                |e: HistoryEvent| e.event_id > last_event_id(b.last_taken, known),
            )
        }),
{
    let answered = answered_events(answers);
    law_fetching_gives_whole_history(p, answers);
    law_push_keeps_history_order(b, envelope, p.fetched_events(answers), true);
    lemma_extended_joins(b.last_taken, b.events, answered, p.held);
    lemma_extended_in_order(b.last_taken, b.events, answered);
    lemma_extended_by_newer(b.last_taken, b.events + answered, p.held);
}

/// A failed fetch is not repeated: behind it nothing is asked for, and what was held aside comes out
/// as the last page.
pub proof fn law_failed_fetch_ends_paging(p: PaginatorState)
    requires
        p.fetch_action() is Request,
    ensures
        p.fetching().fetch_action() == (Fetch::Output { events: p.held, no_more_pages: true }),
{
}

/// The id of a workflow and of one of its runs.
#[derive(Debug)]
pub struct WorkflowExecution {
    pub workflow_id: String,
    pub run_id: String,
}

/// A polled workflow task. `Q` is a legacy query, `A` a query and `M` a message.
#[derive(Debug)]
pub struct ValidPollWFTQResponse<Q, A, M> {
    pub task_token: Vec<u8>,
    pub workflow_execution: WorkflowExecution,
    pub workflow_type: String,
    pub history: Vec<HistoryEvent>,
    pub next_page_token: Vec<u8>,
    pub attempt: u32,
    pub previous_started_event_id: i64,
    pub started_event_id: i64,
    pub legacy_query: Option<Q>,
    pub query_requests: Vec<A>,
    pub messages: Vec<M>,
}

/// A polled workflow task, ready for use.
#[derive(Debug)]
pub struct PreparedWFT<Q, A, M> {
    pub task_token: Vec<u8>,
    pub attempt: u32,
    pub execution: WorkflowExecution,
    pub workflow_type: String,
    pub legacy_query: Option<Q>,
    pub query_requests: Vec<A>,
    pub envelope: WftEnvelope,
    pub initial_events: Vec<HistoryEvent>,
    pub no_more_pages: bool,
    pub messages: Vec<M>,
}

/// A polled workflow task with the paginator for the rest of its history.
#[derive(Debug)]
pub struct PolledWftOutput<Q, A, M> {
    pub paginator: HistoryPaginator,
    pub prep: PreparedWFT<Q, A, M>,
}

/// The message for a task that holds nothing to do.
pub open spec fn empty_task() -> Seq<char> {
    "Received an empty workflow task with no queries or history"@
}

/// The task holds neither history nor queries.
pub open spec fn is_empty_task<Q, A, M>(wft: ValidPollWFTQResponse<Q, A, M>) -> bool {
    wft.history@.len() == 0 && wft.legacy_query is None && wft.query_requests@.len() == 0
}

impl<Q, A, M> PreparedWFT<Q, A, M> {
    /// The task was made from a polled one.
    pub open spec fn is_from(self, wft: ValidPollWFTQResponse<Q, A, M>) -> bool {
        &&& self.task_token == wft.task_token
        &&& self.attempt == wft.attempt
        &&& self.execution == wft.workflow_execution
        &&& self.workflow_type == wft.workflow_type
        &&& self.legacy_query == wft.legacy_query
        &&& self.query_requests == wft.query_requests
        &&& self.envelope == (WftEnvelope {
            previous_wft_started_id: wft.previous_started_event_id,
            wft_started_id: wft.started_event_id,
            has_pending_speculative_updates: wft.messages@.len() > 0,
        })
        &&& self.initial_events == wft.history
        &&& self.no_more_pages == (wft.history@.len() == 0 || wft.next_page_token@.len() == 0)
        &&& self.messages == wft.messages
    }
}

impl HistoryPaginator {
    /// Splits a polled task into the task itself and a paginator for the rest of its history.
    ///
    /// A task without history has no more pages, whatever its token says.
    pub fn from_poll<Q, A, M>(wft: ValidPollWFTQResponse<Q, A, M>) -> (res: Result<
        PolledWftOutput<Q, A, M>,
        Status,
    >)
        ensures
            match res {
                Ok(polled) => {
                    &&& !is_empty_task(wft)
                    &&& polled.prep.is_from(wft)
                    &&& polled.paginator@ == (PaginatorState {
                        wf_id: wft.workflow_execution.workflow_id@,
                        run_id: wft.workflow_execution.run_id@,
                        token: if wft.history@.len() == 0 {
                            PageToken::Done
                        } else {
                            server_token(wft.next_page_token@)
                        },
                        held: Seq::empty(),
                    })
                },
                Err(status) => is_empty_task(wft) && status.is_plain(CODE_UNKNOWN, empty_task()),
            },
    {
        let empty_hist = wft.history.len() == 0;
        if empty_hist && wft.legacy_query.is_none() && wft.query_requests.len() == 0 {
            return Err(
                Status::new(
                    CODE_UNKNOWN,
                    "Received an empty workflow task with no queries or history".to_owned(),
                ),
            );
        }
        let next_page_token = if empty_hist {
            NextPageToken::Done
        } else {
            NextPageToken::from(wft.next_page_token)
        };
        let no_more_pages = matches!(next_page_token, NextPageToken::Done);
        let paginator = HistoryPaginator {
            wf_id: wft.workflow_execution.workflow_id.clone(),
            run_id: wft.workflow_execution.run_id.clone(),
            next_page_token,
            pending_post_replay_events: Vec::new(),
        };
        let envelope = WftEnvelope {
            previous_wft_started_id: wft.previous_started_event_id,
            wft_started_id: wft.started_event_id,
            has_pending_speculative_updates: wft.messages.len() != 0,
        };
        let prep = PreparedWFT {
            task_token: wft.task_token,
            attempt: wft.attempt,
            execution: wft.workflow_execution,
            workflow_type: wft.workflow_type,
            legacy_query: wft.legacy_query,
            query_requests: wft.query_requests,
            envelope,
            initial_events: wft.history,
            no_more_pages,
            messages: wft.messages,
        };
        Ok(PolledWftOutput { paginator, prep })
    }
}

/// A workflow task that may be worked on. `P` is the permit for it.
#[derive(Debug)]
pub struct PermittedWFT<P, Q, A, M> {
    pub work: PreparedWFT<Q, A, M>,
    pub permit: P,
    pub paginator: HistoryPaginator,
}

/// A request for the whole history of a run that is not cached.
#[derive(Debug)]
pub struct CacheMissFetchReq<P, Q, A, M> {
    pub original_wft: PermittedWFT<P, Q, A, M>,
}

/// A fetch of the whole history of a run, under way.
///
/// The events that came with the poll are held aside, and come out behind those from the start.
#[derive(Debug)]
pub struct CacheMissFetch<P, Q, A, M> {
    wft: PermittedWFT<P, Q, A, M>,
    all_events: Vec<HistoryEvent>,
}

/// What is to be done next to fetch a whole history.
#[derive(Debug)]
pub enum CacheMissStep<P, Q, A, M> {
    /// Ask the server for the page behind this token.
    Request(CacheMissFetch<P, Q, A, M>, Vec<u8>),
    /// The task has its whole history.
    Complete(PermittedWFT<P, Q, A, M>),
}

impl<P, Q, A, M> CacheMissFetch<P, Q, A, M> {
    /// The task that the fetch is for.
    pub closed spec fn task(self) -> PermittedWFT<P, Q, A, M> {
        self.wft
    }

    /// The events fetched up to now.
    pub closed spec fn fetched(self) -> Seq<HistoryEvent> {
        self.all_events@
    }
}

/// The tasks agree but for their history.
pub open spec fn same_work<Q, A, M>(a: PreparedWFT<Q, A, M>, b: PreparedWFT<Q, A, M>) -> bool {
    &&& a.task_token == b.task_token
    &&& a.attempt == b.attempt
    &&& a.execution == b.execution
    &&& a.workflow_type == b.workflow_type
    &&& a.legacy_query == b.legacy_query
    &&& a.query_requests == b.query_requests
    &&& a.envelope == b.envelope
    &&& a.messages == b.messages
}

/// Behind an action of the paginator, the fetch goes on or is complete: `events` were fetched before,
/// and the paginator is in state `state`.
pub open spec fn cache_miss_step<P, Q, A, M>(
    original: PermittedWFT<P, Q, A, M>,
    state: PaginatorState,
    action: Fetch,
    events: Seq<HistoryEvent>,
    step: CacheMissStep<P, Q, A, M>,
) -> bool {
    match step {
        CacheMissStep::Request(fetch, token) => {
            &&& same_work(fetch.task().work, original.work)
            &&& fetch.task().permit == original.permit
            &&& match action {
                Fetch::Request(asked) => token@ == asked && fetch.fetched() == events
                    && fetch.task().paginator@ == state,
                Fetch::Output { events: page, no_more_pages } => {
                    // The page came out, and the next one is asked for right away.
                    &&& !no_more_pages
                    &&& fetch.fetched() == events + page
                    &&& state.fetch_action() == Fetch::Request(token@)
                    &&& fetch.task().paginator@ == state.fetching()
                },
            }
        },
        CacheMissStep::Complete(wft) => {
            &&& action matches Fetch::Output { events: page, no_more_pages } && no_more_pages
                && wft.work.initial_events@ == events + page
            &&& wft.work.no_more_pages
            &&& same_work(wft.work, original.work)
            &&& wft.permit == original.permit
            &&& wft.paginator@ == state
        },
    }
}

impl<P, Q, A, M> CacheMissFetch<P, Q, A, M> {
    /// Starts fetching the whole history.
    pub fn from_fetchreq(req: CacheMissFetchReq<P, Q, A, M>) -> (res: CacheMissStep<P, Q, A, M>)
        ensures
            res matches CacheMissStep::Request(fetch, token) && {
                &&& token@.len() == 0
                &&& fetch.fetched().len() == 0
                &&& same_work(fetch.task().work, req.original_wft.work)
                &&& fetch.task().permit == req.original_wft.permit
                &&& fetch.task().paginator@ == (PaginatorState {
                    wf_id: req.original_wft.work.execution.workflow_id@,
                    run_id: req.original_wft.work.execution.run_id@,
                    token: PageToken::Done,
                    held: req.original_wft.work.initial_events@,
                })
            },
    {
        let original = req.original_wft;
        let mut work = original.work;
        let mut held: Vec<HistoryEvent> = Vec::new();
        std::mem::swap(&mut held, &mut work.initial_events);
        let mut paginator = HistoryPaginator {
            wf_id: work.execution.workflow_id.clone(),
            run_id: work.execution.run_id.clone(),
            next_page_token: NextPageToken::FetchFromStart,
            pending_post_replay_events: held,
        };
        match paginator.fetch_next_page() {
            FetchAction::Request(token) => CacheMissStep::Request(
                CacheMissFetch {
                    wft: PermittedWFT { work, permit: original.permit, paginator },
                    all_events: Vec::new(),
                },
                token,
            ),
            // A fetch from the start always asks for a page.
            FetchAction::Output(_) => CacheMissStep::Complete(
                PermittedWFT { work, permit: original.permit, paginator },
            ),
        }
    }

    /// Takes in the answer of the server.
    pub fn page_received(self, page: HistoryPage) -> (res: CacheMissStep<P, Q, A, M>)
        ensures
            cache_miss_step(
                self.task(),
                self.task().paginator@.received(page.all(), page.next_page_token@),
                self.task().paginator@.received_action(page.all(), page.next_page_token@),
                self.fetched(),
                res,
            ),
    {
        let mut fetch = self;
        let mut action = fetch.wft.paginator.page_received(page);
        if let FetchAction::Output(output) = action {
            let mut events = output.events;
            fetch.all_events.append(&mut events);
            if output.no_more_pages {
                fetch.wft.work.initial_events = fetch.all_events;
                fetch.wft.work.no_more_pages = true;
                return CacheMissStep::Complete(fetch.wft);
            }
            action = fetch.wft.paginator.fetch_next_page();
        }
        match action {
            FetchAction::Request(token) => CacheMissStep::Request(fetch, token),
            // Pages that are left are always asked for.
            FetchAction::Output(_) => CacheMissStep::Complete(fetch.wft),
        }
    }
}

/// Hands out the events of a history one by one.
#[derive(Debug)]
pub struct StreamingHistoryPaginator {
    inner: HistoryPaginator,
    /// Fetched events that were not handed out.
    pending: VecDeque<HistoryEvent>,
    /// Whether all pages were fetched.
    drained: bool,
}

/// What comes next of a stream of events.
#[derive(Debug)]
pub enum StreamStep {
    /// An event.
    Yield(HistoryEvent),
    /// The stream is over.
    End,
    /// Ask the server for the page behind this token, then call
    /// [`StreamingHistoryPaginator::page_received`].
    Request(Vec<u8>),
}

/// Mathematical counterpart of [`StreamStep`].
pub enum Step {
    Yield(HistoryEvent),
    End,
    Request(Seq<u8>),
}

impl View for StreamStep {
    type V = Step;

    open spec fn view(&self) -> Step {
        match *self {
            StreamStep::Yield(event) => Step::Yield(event),
            StreamStep::End => Step::End,
            StreamStep::Request(token) => Step::Request(token@),
        }
    }
}

/// Mathematical counterpart of [`StreamingHistoryPaginator`].
pub struct StreamState {
    pub inner: PaginatorState,
    pub pending: Seq<HistoryEvent>,
    pub drained: bool,
}

impl View for StreamingHistoryPaginator {
    type V = StreamState;

    closed spec fn view(&self) -> StreamState {
        StreamState { inner: self.inner@, pending: self.pending@, drained: self.drained }
    }
}

impl StreamState {
    /// The stream with a fetched page.
    pub open spec fn with_page(self, events: Seq<HistoryEvent>, no_more_pages: bool) -> StreamState {
        StreamState {
            pending: self.pending + events,
            drained: self.drained || no_more_pages,
            ..self
        }
    }

    /// What a stream hands out that has fetched events or is drained.
    pub open spec fn front(self) -> (StreamState, Step) {
        if self.pending.len() > 0 {
            (StreamState { pending: self.pending.skip(1), ..self }, Step::Yield(self.pending[0]))
        } else {
            (self, Step::End)
        }
    }

    /// The stream, and what comes next of it.
    pub open spec fn next(self) -> (StreamState, Step) {
        if self.pending.len() > 0 || self.drained {
            self.front()
        } else {
            let fetching = StreamState { inner: self.inner.fetching(), ..self };
            match self.inner.fetch_action() {
                Fetch::Request(token) => (fetching, Step::Request(token)),
                Fetch::Output { events, no_more_pages } => fetching.with_page(
                    events,
                    no_more_pages,
                ).front(),
            }
        }
    }

    /// The stream behind an answer of the server, and what comes next of it.
    pub open spec fn received(
        self,
        events: Seq<HistoryEvent>,
        token: Seq<u8>,
    ) -> (StreamState, Step) {
        let after = StreamState { inner: self.inner.received(events, token), ..self };
        match self.inner.received_action(events, token) {
            Fetch::Request(next) => (after, Step::Request(next)),
            Fetch::Output { events: page, no_more_pages } => after.with_page(
                page,
                no_more_pages,
            ).next(),
        }
    }
}

impl StreamingHistoryPaginator {
    /// A stream of the events that the paginator fetches.
    pub fn new(inner: HistoryPaginator) -> (res: Self)
        ensures
            res@ == (StreamState { inner: inner@, pending: Seq::empty(), drained: false }),
    {
        StreamingHistoryPaginator { inner, pending: VecDeque::new(), drained: false }
    }

    /// The paginator that asks for the pages.
    pub fn inner(&self) -> (res: &HistoryPaginator)
        ensures
            res@ == self@.inner,
    {
        &self.inner
    }

    /// What comes next. A page that cannot be fetched is reported in its place, and the stream may be
    /// asked on.
    pub fn poll_next(&mut self) -> (res: StreamStep)
        ensures
            (final(self)@, res@) == old(self)@.next(),
    {
        if self.pending.len() == 0 && !self.drained {
            match self.inner.fetch_next_page() {
                FetchAction::Request(token) => {
                    return StreamStep::Request(token);
                },
                FetchAction::Output(page) => {
                    self.add_page(page);
                },
            }
        }
        let ghost before = self.pending@;
        match self.pending.pop_front() {
            Some(event) => {
                assert(self.pending@ == before.skip(1));
                StreamStep::Yield(event)
            },
            None => StreamStep::End,
        }
    }

    /// Takes in the answer of the server, and says what comes next.
    pub fn page_received(&mut self, page: HistoryPage) -> (res: StreamStep)
        ensures
            (final(self)@, res@) == old(self)@.received(page.all(), page.next_page_token@),
    {
        match self.inner.page_received(page) {
            FetchAction::Request(token) => StreamStep::Request(token),
            FetchAction::Output(page) => {
                self.add_page(page);
                self.poll_next()
            },
        }
    }

    fn add_page(&mut self, page: FetchPageOutput)
        ensures
            final(self)@ == old(self)@.with_page(page.events@, page.no_more_pages),
    {
        let ghost before = self.pending@;
        let events = page.events;
        let ghost added = events@;
        for event in it: events
            invariant
                it.seq() == added,
                self.pending@ == before + added.take(it.index() as int),
                self.inner == old(self).inner,
                self.drained == old(self).drained,
        {
            proof {
                let n = it.index() as int;
                assert(added.take(n + 1) == added.take(n).push(added[n]));
            }
            self.pending.push_back(event);
        }
        assert(added.take(added.len() as int) == added);
        if page.no_more_pages {
            self.drained = true;
        }
    }
}

} // verus!
