//! Polling one routine until it is done or makes no progress.

use super::model::Failure;
use vstd::prelude::*;

verus! {

/// What came of polling a routine.
#[derive(Debug)]
pub enum RoutinePollState<T, E> {
    /// The routine is done.
    Ready { result: T, made_progress: bool },
    /// The workflow task is to fail.
    ForcedFailure { failure: Failure<E>, made_progress: bool },
    /// The routine waits, and nothing changed since it was polled.
    Stalled { made_progress: bool },
}

/// What one poll showed: the result if the routine is done, and whether the workflow changed.
#[derive(Debug)]
pub struct PollRound<T> {
    pub result: Option<T>,
    pub state_mutated: bool,
    pub runtime_progress: bool,
}

impl<T> PollRound<T> {
    /// Whether the workflow changed.
    pub open spec fn progressed(self) -> bool {
        self.state_mutated || self.runtime_progress
    }
}

/// A routine that is polled over and over.
///
/// Before each poll, [`Self::forced_failure`] is asked whether to go on; after it,
/// [`Self::polled`] says whether to poll again.
#[derive(Debug)]
pub struct RoutinePollLoop {
    made_progress: bool,
}

impl RoutinePollLoop {
    /// Whether any poll changed the workflow.
    pub closed spec fn has_progressed(&self) -> bool {
        self.made_progress
    }

    /// Starts polling.
    pub fn new() -> (res: Self)
        ensures
            !res.has_progressed(),
    {
        RoutinePollLoop { made_progress: false }
    }

    /// The outcome if the workflow task was told to fail. `forced` is the text of that failure.
    pub fn forced_failure<T, E>(&self, forced: Option<String>) -> (res: Option<
        RoutinePollState<T, E>,
    >)
        ensures
            match forced {
                Some(text) => res == Some(
                    RoutinePollState::<T, E>::ForcedFailure {
                        failure: Failure::Bare(text),
                        made_progress: self.has_progressed(),
                    },
                ),
                None => res is None,
            },
    {
        match forced {
            Some(message) => Some(
                RoutinePollState::ForcedFailure {
                    failure: Failure::Bare(message),
                    made_progress: self.made_progress,
                },
            ),
            None => None,
        }
    }

    /// The outcome of a poll, or `None` to poll again: the routine waits, but the workflow changed.
    pub fn polled<T, E>(&mut self, round: PollRound<T>) -> (res: Option<RoutinePollState<T, E>>)
        ensures
            final(self).has_progressed() == (old(self).has_progressed() || round.progressed()),
            match round.result {
                Some(result) => res == Some(
                    RoutinePollState::<T, E>::Ready {
                        result,
                        made_progress: final(self).has_progressed(),
                    },
                ),
                None => if round.progressed() {
                    res is None
                } else {
                    res == Some(
                        RoutinePollState::<T, E>::Stalled {
                            made_progress: final(self).has_progressed(),
                        },
                    )
                },
            },
            forall|forced: Seq<Option<String>>, rounds: Seq<PollRound<T>>|
                is_step(
                    round,
                    old(self).has_progressed(),
                    final(self).has_progressed(),
                    res,
                    forced,
                    rounds,
                ),
    {
        proof {
            let after = self.made_progress || round.progressed();
            assert forall|forced: Seq<Option<String>>, rounds: Seq<PollRound<T>>|
                #[trigger] poll_outcome::<T, E>(
                    seq![None::<String>] + forced,
                    seq![round] + rounds,
                    self.made_progress,
                ) == (match round.result {
                    Some(result) => Some(
                        RoutinePollState::<T, E>::Ready { result, made_progress: after },
                    ),
                    None => if round.progressed() {
                        poll_outcome(forced, rounds, after)
                    } else {
                        Some(RoutinePollState::<T, E>::Stalled { made_progress: after })
                    },
                }) by {
                let all_forced = seq![None::<String>] + forced;
                let all_rounds = seq![round] + rounds;
                assert(all_forced.drop_first() =~= forced);
                assert(all_rounds.drop_first() =~= rounds);
                assert(all_forced[0] is None);
                assert(all_rounds[0] == round);
            }
        }
        let progressed = round.state_mutated || round.runtime_progress;
        self.made_progress = self.made_progress || progressed;
        match round.result {
            Some(result) => Some(
                RoutinePollState::Ready { result, made_progress: self.made_progress },
            ),
            None => {
                if progressed {
                    None
                } else {
                    Some(RoutinePollState::Stalled { made_progress: self.made_progress })
                }
            },
        }
    }
}

/// What comes of polling a routine whose polls show these rounds, or `None` if they do not decide.
/// `forced` gives the failure that was forced before each of them, if any.
pub open spec fn poll_outcome<T, E>(
    forced: Seq<Option<String>>,
    rounds: Seq<PollRound<T>>,
    made_progress: bool,
) -> Option<RoutinePollState<T, E>>
    decreases forced.len(),
{
    if forced.len() == 0 {
        None
    } else if let Some(text) = forced[0] {
        Some(RoutinePollState::ForcedFailure { failure: Failure::Bare(text), made_progress })
    } else if rounds.len() == 0 {
        None
    } else {
        let progressed = made_progress || rounds[0].progressed();
        match rounds[0].result {
            Some(result) => Some(RoutinePollState::Ready { result, made_progress: progressed }),
            None => if rounds[0].progressed() {
                poll_outcome(forced.drop_first(), rounds.drop_first(), progressed)
            } else {
                Some(RoutinePollState::Stalled { made_progress: progressed })
            },
        }
    }
}

/// A poll that showed `round` is one step of polling: it gives the outcome, or leaves it to the
/// rounds behind it.
pub open spec fn is_step<T, E>(
    round: PollRound<T>,
    before: bool,
    after: bool,
    outcome: Option<RoutinePollState<T, E>>,
    forced: Seq<Option<String>>,
    rounds: Seq<PollRound<T>>,
) -> bool {
    poll_outcome::<T, E>(seq![None::<String>] + forced, seq![round] + rounds, before) == (
    match outcome {
        Some(state) => Some(state),
        None => poll_outcome(forced, rounds, after),
    })
}

/// A routine that stalls made progress exactly if its first poll did, and then waited through a last
/// poll that changed nothing.
pub proof fn law_stalled_routine_was_quiet<T, E>(
    forced: Seq<Option<String>>,
    rounds: Seq<PollRound<T>>,
)
    requires
        poll_outcome::<T, E>(forced, rounds, false) matches Some(
            RoutinePollState::Stalled { made_progress: _ },
        ),
    ensures
        rounds.len() > 0,
        poll_outcome::<T, E>(forced, rounds, false) == Some(
            RoutinePollState::<T, E>::Stalled { made_progress: rounds[0].progressed() },
        ),
        exists|k: int|
            0 <= k < rounds.len() && !(#[trigger] rounds[k]).progressed() && rounds[k].result is None
                && forall|j: int| 0 <= j < k ==> (#[trigger] rounds[j]).progressed(),
{
    if rounds[0].progressed() {
        lemma_stalled::<T, E>(forced.drop_first(), rounds.drop_first());
        let rest = rounds.drop_first();
        let k = choose|k: int|
            0 <= k < rest.len() && !(#[trigger] rest[k]).progressed() && rest[k].result is None
                && forall|j: int| 0 <= j < k ==> (#[trigger] rest[j]).progressed();
        assert(rounds[k + 1] == rest[k]);
        assert forall|j: int| 0 <= j < k + 1 implies (#[trigger] rounds[j]).progressed() by {
            if j > 0 {
                assert(rounds[j] == rest[j - 1]);
            }
        }
    } else {
        assert(!rounds[0].progressed() && rounds[0].result is None);
    }
}

proof fn lemma_stalled<T, E>(forced: Seq<Option<String>>, rounds: Seq<PollRound<T>>)
    requires
        poll_outcome::<T, E>(forced, rounds, true) matches Some(
            RoutinePollState::Stalled { made_progress: _ },
        ),
    ensures
        poll_outcome::<T, E>(forced, rounds, true) == Some(
            RoutinePollState::<T, E>::Stalled { made_progress: true },
        ),
        exists|k: int|
            0 <= k < rounds.len() && !(#[trigger] rounds[k]).progressed() && rounds[k].result is None
                && forall|j: int| 0 <= j < k ==> (#[trigger] rounds[j]).progressed(),
    decreases forced.len(),
{
    if rounds[0].progressed() {
        lemma_stalled::<T, E>(forced.drop_first(), rounds.drop_first());
        let rest = rounds.drop_first();
        let k = choose|k: int|
            0 <= k < rest.len() && !(#[trigger] rest[k]).progressed() && rest[k].result is None
                && forall|j: int| 0 <= j < k ==> (#[trigger] rest[j]).progressed();
        assert(rounds[k + 1] == rest[k]);
        assert forall|j: int| 0 <= j < k + 1 implies (#[trigger] rounds[j]).progressed() by {
            if j > 0 {
                assert(rounds[j] == rest[j - 1]);
            }
        }
    } else {
        assert(!rounds[0].progressed() && rounds[0].result is None);
    }
}

} // verus!
