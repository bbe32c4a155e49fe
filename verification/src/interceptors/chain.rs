//! Chains of interceptors.
//!
//! Each interceptor gets the input and a continuation, [`Next`], that stands for the rest of the
//! chain. It may change the input, run the continuation or not, and change what came out.

use vstd::prelude::*;

verus! {

/// Continuation for an interceptor operation.
#[must_use]
pub struct Next<F> {
    inner: F,
}

impl<F> Next<F> {
    /// What the continuation runs.
    pub closed spec fn function(self) -> F {
        self.inner
    }

    /// A continuation that runs `f`.
    pub fn new(f: F) -> (res: Self)
        ensures
            res.function() == f,
    {
        Next { inner: f }
    }

    /// Continues the call chain with the provided input.
    #[must_use]
    pub fn run<I, O>(self, input: I) -> (output: O) where F: FnOnce(I) -> O
        requires
            call_requires(self.function(), (input,)),
        ensures
            call_ensures(self.function(), (input,), output),
    {
        (self.inner)(input)
    }
}

/// What may come out for an input.
pub type Outcomes<I, O> = spec_fn(I, O) -> bool;

/// An interceptor of operations that take an `I` and give an `O`.
pub trait Interceptor<I, O> {
    /// What may come out of this interceptor, given what may come out of the rest of the chain.
    /// Anything, unless the interceptor says more.
    open spec fn may_give(&self, next: Outcomes<I, O>, input: I, output: O) -> bool {
        true
    }

    /// Intercepts one operation.
    fn intercept<F: FnOnce(I) -> O>(&self, input: I, next: Next<F>) -> (output: O)
        requires
            forall|i: I| #[trigger] call_requires(next.function(), (i,)),
        ensures
            self.may_give(operation(next.function()), input, output),
    ;
}

/// What may come out of an operation.
pub open spec fn operation<I, O, F: FnOnce(I) -> O>(last: F) -> Outcomes<I, O> {
    |i: I, o: O| call_ensures(last, (i,), o)
}

/// Whatever may come out by `some` may come out by `all`.
pub open spec fn within<I, O>(some: Outcomes<I, O>, all: Outcomes<I, O>) -> bool {
    forall|i: I, o: O| #[trigger] some(i, o) ==> all(i, o)
}

/// What may come out of an interceptor around the rest of a chain.
pub open spec fn around<I, O, P: Interceptor<I, O>>(
    interceptor: P,
    next: Outcomes<I, O>,
) -> Outcomes<I, O> {
    |i: I, o: O|
        exists|run: Outcomes<I, O>| within(run, next) && #[trigger] interceptor.may_give(run, i, o)
}

/// What may come out of a chain of interceptors around an operation: the first interceptor is
/// outermost.
pub open spec fn chain<I, O, P: Interceptor<I, O>>(
    interceptors: Seq<P>,
    last: Outcomes<I, O>,
) -> Outcomes<I, O>
    decreases interceptors.len(),
{
    if interceptors.len() == 0 {
        last
    } else {
        around(interceptors[0], chain(interceptors.drop_first(), last))
    }
}

/// Runs an operation within a chain of interceptors.
pub fn call_chain<I, O, P: Interceptor<I, O>, F: FnOnce(I) -> O>(
    interceptors: &[P],
    input: I,
    next: Next<F>,
) -> (output: O)
    requires
        forall|i: I| #[trigger] call_requires(next.function(), (i,)),
    ensures
        chain(interceptors@, operation(next.function()))(input, output),
    decreases interceptors@.len(),
{
    if interceptors.len() == 0 {
        next.run(input)
    } else {
        let first = &interceptors[0];
        let rest = vstd::slice::slice_subrange(interceptors, 1, interceptors.len());
        assert(rest@ == interceptors@.drop_first());
        let ghost behind = chain(rest@, operation(next.function()));
        let go_on = move |i: I| -> (o: O)
            ensures
                behind(i, o),
        {
            call_chain(rest, i, next)
        };
        let output = first.intercept(input, Next::new(go_on));
        assert(within(operation(go_on), behind));
        output
    }
}

/// An interceptor that does nothing.
#[derive(Clone, Copy, Debug)]
pub struct NoopInterceptor;

impl<I, O> Interceptor<I, O> for NoopInterceptor {
    open spec fn may_give(&self, next: Outcomes<I, O>, input: I, output: O) -> bool {
        next(input, output)
    }

    fn intercept<F: FnOnce(I) -> O>(&self, input: I, next: Next<F>) -> (output: O) {
        next.run(input)
    }
}

/// Without interceptors, what comes out is what the operation gives.
pub proof fn law_empty_chain_is_the_operation<I, O, P: Interceptor<I, O>>(last: Outcomes<I, O>)
    ensures
        chain(Seq::<P>::empty(), last) == last,
{
}

/// Interceptors that do nothing change nothing, however many they are.
pub proof fn law_noop_interceptors_are_transparent<I, O>(
    interceptors: Seq<NoopInterceptor>,
    last: Outcomes<I, O>,
    input: I,
    output: O,
)
    ensures
        chain(interceptors, last)(input, output) == last(input, output),
    decreases interceptors.len(),
{
    if interceptors.len() > 0 {
        let rest = chain(interceptors.drop_first(), last);
        law_noop_interceptors_are_transparent(interceptors.drop_first(), last, input, output);
        assert(within(rest, rest));
        if rest(input, output) {
            assert(interceptors[0].may_give(rest, input, output));
        }
    }
}

/// Chains nest: a chain is its front part around its back part.
pub proof fn law_chains_nest<I, O, P: Interceptor<I, O>>(
    front: Seq<P>,
    back: Seq<P>,
    last: Outcomes<I, O>,
)
    ensures
        chain(front + back, last) == chain(front, chain(back, last)),
    decreases front.len(),
{
    if front.len() == 0 {
        assert(front + back == back);
    } else {
        law_chains_nest(front.drop_first(), back, last);
        assert((front + back).drop_first() == front.drop_first() + back);
    }
}

/// What an interceptor does with one input. As its continuation can be run only once, it either
/// answers by itself, or runs the continuation with some input and makes its answer of what came out.
#[verifier::reject_recursive_types(O)]
pub enum Act<I, O> {
    Answer(O),
    Run(I, spec_fn(O) -> O),
}

/// The output is what an act leads to, if `next` says what may come out of the continuation.
pub open spec fn act_gives<I, O>(act: Act<I, O>, next: Outcomes<I, O>, output: O) -> bool {
    match act {
        Act::Answer(answer) => output == answer,
        Act::Run(input, finish) => exists|inner: O| #[trigger]
            next(input, inner) && output == finish(inner),
    }
}

/// Whatever comes out of the interceptor comes of one of these acts.
pub open spec fn acts_by<I, O, P: Interceptor<I, O>>(
    interceptor: P,
    acts: spec_fn(I, Act<I, O>) -> bool,
) -> bool {
    forall|next: Outcomes<I, O>, i: I, o: O| #[trigger]
        interceptor.may_give(next, i, o) ==> exists|act: Act<I, O>| #[trigger]
            acts(i, act) && act_gives(act, next, o)
}

/// The calls of one run through a chain: each entry is the input that an interceptor was called with
/// and what it did, in the order of the list. An interceptor that answers by itself ends the run;
/// behind the last interceptor the operation runs, once.
pub open spec fn is_run<I, O>(
    acts: Seq<spec_fn(I, Act<I, O>) -> bool>,
    calls: Seq<(I, Act<I, O>)>,
    last: Outcomes<I, O>,
    input: I,
    output: O,
) -> bool
    decreases acts.len(),
{
    if acts.len() == 0 {
        calls.len() == 0 && last(input, output)
    } else {
        &&& calls.len() > 0
        &&& calls[0].0 == input
        &&& acts[0](input, calls[0].1)
        &&& match calls[0].1 {
            Act::Answer(answer) => calls.len() == 1 && output == answer,
            Act::Run(passed, finish) => exists|inner: O|
                output == #[trigger] finish(inner) && is_run(
                    acts.drop_first(),
                    calls.drop_first(),
                    last,
                    passed,
                    inner,
                ),
        }
    }
}

/// What comes out of a chain comes of one run through it: there are calls of its interceptors, in the
/// order of the list, that lead from the input to the output.
pub proof fn law_outcomes_come_of_runs<I, O, P: Interceptor<I, O>>(
    interceptors: Seq<P>,
    acts: Seq<spec_fn(I, Act<I, O>) -> bool>,
    last: Outcomes<I, O>,
    input: I,
    output: O,
) -> (calls: Seq<(I, Act<I, O>)>)
    requires
        acts.len() == interceptors.len(),
        forall|k: int| 0 <= k < acts.len() ==> acts_by(interceptors[k], #[trigger] acts[k]),
        chain(interceptors, last)(input, output),
    ensures
        is_run(acts, calls, last, input, output),
    decreases interceptors.len(),
{
    if interceptors.len() == 0 {
        Seq::empty()
    } else {
        let rest = interceptors.drop_first();
        let next = chain(rest, last);
        let run = choose|run: Outcomes<I, O>|
            within(run, next) && #[trigger] interceptors[0].may_give(run, input, output);
        assert(acts_by(interceptors[0], acts[0]));
        let act = choose|act: Act<I, O>| #[trigger]
            acts[0](input, act) && act_gives(act, run, output);
        match act {
            Act::Answer(answer) => seq![(input, act)],
            Act::Run(passed, finish) => {
                let inner = choose|inner: O| #[trigger]
                    run(passed, inner) && output == finish(inner);
                assert(next(passed, inner));
                assert forall|k: int| 0 <= k < acts.drop_first().len() implies acts_by(
                    rest[k],
                    #[trigger] acts.drop_first()[k],
                ) by {
                    assert(acts_by(interceptors[k + 1], acts[k + 1]));
                }
                let behind = law_outcomes_come_of_runs(
                    rest,
                    acts.drop_first(),
                    last,
                    passed,
                    inner,
                );
                let calls = seq![(input, act)] + behind;
                assert(calls.drop_first() =~= behind);
                assert(output == finish(inner));
                calls
            },
        }
    }
}

/// In a run each interceptor is called at most once, in the order of the list: the first with the
/// input of the chain, each later one with what the one before it passed on. If one answers by
/// itself, no later one is called; if none does, all are.
pub proof fn law_runs_go_down_the_list<I, O>(
    acts: Seq<spec_fn(I, Act<I, O>) -> bool>,
    calls: Seq<(I, Act<I, O>)>,
    last: Outcomes<I, O>,
    input: I,
    output: O,
)
    requires
        is_run(acts, calls, last, input, output),
    ensures
        calls.len() <= acts.len(),
        acts.len() > 0 ==> calls.len() > 0 && calls[0].0 == input,
        forall|k: int| 0 <= k < calls.len() ==> acts[k]((#[trigger] calls[k]).0, calls[k].1),
        forall|k: int|
            0 <= k < calls.len() - 1 ==> (#[trigger] calls[k]).1 is Run && calls[k].1->Run_0
                == calls[k + 1].0,
        calls.len() < acts.len() ==> calls.last().1 is Answer,
    decreases acts.len(),
{
    if acts.len() > 0 {
        if let Act::Run(passed, finish) = calls[0].1 {
            let rest = calls.drop_first();
            let inner = choose|inner: O|
                output == #[trigger] finish(inner) && is_run(
                    acts.drop_first(),
                    rest,
                    last,
                    passed,
                    inner,
                );
            law_runs_go_down_the_list(acts.drop_first(), rest, last, passed, inner);
            assert forall|k: int| 0 <= k < calls.len() implies acts[k](
                (#[trigger] calls[k]).0,
                calls[k].1,
            ) by {
                if k > 0 {
                    assert(rest[k - 1] == calls[k]);
                    assert(acts.drop_first()[k - 1] == acts[k]);
                }
            }
            assert forall|k: int| 0 <= k < calls.len() - 1 implies (#[trigger] calls[k]).1 is Run
                && calls[k].1->Run_0 == calls[k + 1].0 by {
                assert(rest[k] == calls[k + 1]);
                if k > 0 {
                    assert(rest[k - 1] == calls[k]);
                }
            }
        }
    }
}

/// An interceptor that can answer without its continuation does so whatever is behind it.
pub proof fn law_answers_hide_the_rest<I, O, P: Interceptor<I, O>>(
    interceptors: Seq<P>,
    last: Outcomes<I, O>,
    input: I,
    output: O,
)
    requires
        interceptors.len() > 0,
        interceptors[0].may_give(|i: I, o: O| false, input, output),
    ensures
        chain(interceptors, last)(input, output),
{
    let none = |i: I, o: O| false;
    assert(within(none, chain(interceptors.drop_first(), last)));
}

/// Gives back what it is given.
pub open spec fn unchanged<O>() -> spec_fn(O) -> O {
    |o: O| o
}

/// Passes the input on and the output back.
pub open spec fn passes_on<I, O>() -> spec_fn(I, Act<I, O>) -> bool {
    |i: I, act: Act<I, O>| act == Act::Run(i, unchanged::<O>())
}

/// An interceptor that does nothing passes its input on and its output back.
pub proof fn law_noop_interceptors_pass_on<I, O>(interceptor: NoopInterceptor)
    ensures
        acts_by(interceptor, passes_on::<I, O>()),
{
    assert forall|next: Outcomes<I, O>, i: I, o: O| #[trigger]
        interceptor.may_give(next, i, o) implies exists|act: Act<I, O>| #[trigger]
        passes_on::<I, O>()(i, act) && act_gives(act, next, o) by {
        let act = Act::Run(i, unchanged::<O>());
        if let Act::Run(input, finish) = act {
            assert(next(input, o) && o == finish(o));
        }
        assert(act_gives(act, next, o));
        assert(passes_on::<I, O>()(i, act));
    }
}

} // verus!
