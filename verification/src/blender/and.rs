use vstd::prelude::*;
use crate::blender::Polled;
use crate::combine::{combine, Combine, CombinedTuples, HList, Tuple};
use crate::rejection::CombineRejection;

verus! {

/// A blender that runs `first`, then `second`, and yields both extracts combined.
#[derive(Copy, Clone, Debug)]
pub struct And<A, B> {
    pub first: A,
    pub second: B,
}

impl<A, B> And<A, B> {
    /// The blender that runs `first`, then `second`.
    pub fn new(first: A, second: B) -> (r: And<A, B>)
        ensures
            r.first == first,
            r.second == second,
    {
        And { first, second }
    }
}

/// Where the future of an `And` stands.
pub enum AndState<TE> {
    /// Waiting for the first blender's future.
    First,
    /// Waiting for the second blender's future; holds the first extract.
    Second(Option<TE>),
    /// The combined extract was handed out.
    Done,
}

/// What the poller of an `And` future found.
pub enum AndEvent<TE, UE, E1, E2> {
    /// Result of polling the first blender's future.
    FirstPolled(Polled<Result<TE, E1>>),
    /// Result of polling the second blender's future.
    SecondPolled(Polled<Result<UE, E2>>),
}

/// What the poller of an `And` future does next.
pub enum AndAction<T, E> {
    /// Blend the second blender and poll its future.
    BlendSecond,
    /// Return this from `poll`.
    Return(Polled<Result<T, E>>),
}

impl<TE> AndState<TE> {
    /// The state a fresh `And` future starts in.
    pub fn new() -> (s: AndState<TE>)
        ensures
            s is First,
    {
        AndState::First
    }

    /// In the second stage the first extract is always held.
    pub open spec fn wf(self) -> bool {
        self matches AndState::Second(held) ==> held is Some
    }

    /// Whether `event` is one that can happen in this state: the first future
    /// is polled in the first stage, the second future in the second.
    pub open spec fn expects<UE, E1, E2>(self, event: AndEvent<TE, UE, E1, E2>) -> bool {
        match event {
            AndEvent::FirstPolled(_) => self is First,
            AndEvent::SecondPolled(_) => self is Second,
        }
    }

    /// The state after `event`.
    pub open spec fn next<UE, E1, E2>(self, event: AndEvent<TE, UE, E1, E2>) -> AndState<TE> {
        match event {
            AndEvent::FirstPolled(Polled::Ready(Ok(ex1))) => AndState::Second(Some(ex1)),
            AndEvent::SecondPolled(Polled::Ready(Ok(_))) => AndState::Done,
            _ => self,
        }
    }

    /// Whether `event` starts the second stage: the first future yielded an
    /// extract while the future was waiting for it.
    pub open spec fn starts_second<UE, E1, E2>(self, event: AndEvent<TE, UE, E1, E2>) -> bool {
        self is First && event matches AndEvent::FirstPolled(Polled::Ready(Ok(_)))
    }

    /// Whether every event of `events`, taken in order from this state, is one
    /// that the state reached so far expects.
    pub open spec fn accepts_run<UE, E1, E2>(self, events: Seq<AndEvent<TE, UE, E1, E2>>) -> bool
        decreases events.len(),
    {
        events.len() == 0 || (self.expects(events[0]) && self.next(events[0]).accepts_run(
            events.drop_first(),
        ))
    }

    /// The state after all of `events`, taken in order.
    pub open spec fn run<UE, E1, E2>(self, events: Seq<AndEvent<TE, UE, E1, E2>>) -> AndState<TE>
        decreases events.len(),
    {
        if events.len() == 0 {
            self
        } else {
            self.next(events[0]).run(events.drop_first())
        }
    }

    /// How many of `events`, taken in order from this state, start the second
    /// stage.
    pub open spec fn second_starts<UE, E1, E2>(self, events: Seq<AndEvent<TE, UE, E1, E2>>) -> nat
        decreases events.len(),
    {
        if events.len() == 0 {
            0
        } else {
            (if self.starts_second(events[0]) {
                1nat
            } else {
                0nat
            }) + self.next(events[0]).second_starts(events.drop_first())
        }
    }
}

/// Once an `And` future has left its first stage it never returns to it: from a
/// state other than `First`, no expected event leads back to `First`, and none
/// starts the second stage.
pub proof fn lemma_and_never_back_to_first<TE, UE, E1, E2>(
    state: AndState<TE>,
    event: AndEvent<TE, UE, E1, E2>,
)
    requires
        !(state is First),
        state.expects(event),
    ensures
        !(state.next(event) is First),
        !state.starts_second(event),
{
}

/// Over any run of expected events from a state other than `First`, the second
/// stage is never started and the state never returns to `First`.
pub proof fn lemma_and_run_after_first<TE, UE, E1, E2>(
    state: AndState<TE>,
    events: Seq<AndEvent<TE, UE, E1, E2>>,
)
    requires
        !(state is First),
        state.accepts_run(events),
    ensures
        state.second_starts(events) == 0,
        !(state.run(events) is First),
    decreases events.len(),
{
    if events.len() > 0 {
        lemma_and_never_back_to_first(state, events[0]);
        lemma_and_run_after_first(state.next(events[0]), events.drop_first());
    }
}

/// Over any run of expected events, the second blender is started at most once,
/// and only by the first future yielding its extract while the future waits for
/// it; after that the first future is never expected again, and until then the
/// future stays in its first stage, where the second future is never polled.
pub proof fn lemma_and_second_starts_at_most_once<TE, UE, E1, E2>(
    state: AndState<TE>,
    events: Seq<AndEvent<TE, UE, E1, E2>>,
)
    requires
        state.accepts_run(events),
    ensures
        state.second_starts(events) <= 1,
        !(state is First) ==> state.second_starts(events) == 0,
        state is First && state.second_starts(events) == 0 ==> state.run(events) is First,
    decreases events.len(),
{
    if events.len() > 0 {
        if state is First {
            if state.starts_second(events[0]) {
                lemma_and_run_after_first(state.next(events[0]), events.drop_first());
            } else {
                lemma_and_second_starts_at_most_once(state.next(events[0]), events.drop_first());
            }
        } else {
            lemma_and_run_after_first(state, events);
        }
    }
}

/// The combined extract that `event` completes `state` with, if it does.
pub open spec fn and_output<TE: Tuple, UE: Tuple, E1, E2>(
    state: AndState<TE>,
    event: AndEvent<TE, UE, E1, E2>,
) -> Option<CombinedTuples<TE, UE>> where TE::HList: Combine<UE::HList> {
    match (state, event) {
        (AndState::Second(Some(ex1)), AndEvent::SecondPolled(Polled::Ready(Ok(ex2)))) => Some(
            ex1.hlist_spec().combine_spec(ex2.hlist_spec()).flatten_spec(),
        ),
        _ => None,
    }
}

/// An `And` future accepts no event once it is done: polling it again is refused.
pub proof fn lemma_and_done_is_final<TE, UE, E1, E2>(event: AndEvent<TE, UE, E1, E2>)
    ensures
        !AndState::<TE>::Done.expects(event),
{
}

/// An `And` future whose first future yields `a` and whose second future then
/// yields `b` completes with the extract of `a` followed by that of `b`, and is
/// then done.
pub proof fn lemma_and_completes<TE: Tuple, UE: Tuple, E1, E2>(a: TE, b: UE) where
    TE::HList: Combine<UE::HList>,

    ensures
        ({
            let first = AndEvent::<TE, UE, E1, E2>::FirstPolled(Polled::Ready(Ok(a)));
            let second = AndEvent::<TE, UE, E1, E2>::SecondPolled(Polled::Ready(Ok(b)));
            let mid = AndState::<TE>::First.next(first);
            &&& mid.wf()
            &&& mid.expects(second)
            &&& mid.next(second) is Done
            &&& and_output(mid, second) == Some(
                a.hlist_spec().combine_spec(b.hlist_spec()).flatten_spec(),
            )
        }),
{
}

/// One step of an `And` future's poll: takes what polling found and says what to
/// do next. A pending inner future leaves the state as it is and is returned as
/// pending. An error of either stage is converted into the combined error type
/// and returned, the state left as it is. The first stage's extract is kept and
/// the second blender started; the second stage's extract is combined with the
/// kept one, returned, and the future is done.
pub fn and_advance<TE, UE, E1, E2>(
    state: &mut AndState<TE>,
    event: AndEvent<TE, UE, E1, E2>,
) -> (action: AndAction<CombinedTuples<TE, UE>, <E2 as CombineRejection<E1>>::One>) where
    TE: Tuple,
    UE: Tuple,
    TE::HList: Combine<UE::HList>,
    E2: CombineRejection<E1>,
    requires
        old(state).wf(),
        old(state).expects(event),
    ensures
        final(state).wf(),
        *final(state) == old(state).next(event),
        (action is BlendSecond) <==> old(state).starts_second(event),
        match event {
            AndEvent::FirstPolled(Polled::Pending) => action == AndAction::<
                CombinedTuples<TE, UE>,
                <E2 as CombineRejection<E1>>::One,
            >::Return(Polled::Pending),
            AndEvent::SecondPolled(Polled::Pending) => action == AndAction::<
                CombinedTuples<TE, UE>,
                <E2 as CombineRejection<E1>>::One,
            >::Return(Polled::Pending),
            AndEvent::FirstPolled(Polled::Ready(Ok(_))) => action is BlendSecond,
            AndEvent::FirstPolled(Polled::Ready(Err(e))) => action matches AndAction::Return(
                Polled::Ready(Err(err)),
            ) && call_ensures(<E2 as CombineRejection<E1>>::One::from, (e,), err),
            AndEvent::SecondPolled(Polled::Ready(Err(e))) => action matches AndAction::Return(
                Polled::Ready(Err(err)),
            ) && call_ensures(<E2 as CombineRejection<E1>>::One::from, (e,), err),
            AndEvent::SecondPolled(Polled::Ready(Ok(_))) => action == AndAction::<
                CombinedTuples<TE, UE>,
                <E2 as CombineRejection<E1>>::One,
            >::Return(Polled::Ready(Ok(and_output(*old(state), event).unwrap()))),
        },
{
    match event {
        AndEvent::FirstPolled(Polled::Pending) => AndAction::Return(Polled::Pending),
        AndEvent::FirstPolled(Polled::Ready(Err(e))) => AndAction::Return(
            Polled::Ready(Err(<E2 as CombineRejection<E1>>::One::from(e))),
        ),
        AndEvent::FirstPolled(Polled::Ready(Ok(ex1))) => {
            *state = AndState::Second(Some(ex1));
            AndAction::BlendSecond
        },
        AndEvent::SecondPolled(Polled::Pending) => AndAction::Return(Polled::Pending),
        AndEvent::SecondPolled(Polled::Ready(Err(e))) => AndAction::Return(
            Polled::Ready(Err(<E2 as CombineRejection<E1>>::One::from(e))),
        ),
        AndEvent::SecondPolled(Polled::Ready(Ok(ex2))) => {
            let mut held = AndState::Done;
            std::mem::swap(state, &mut held);
            match held {
                AndState::Second(Some(ex1)) => AndAction::Return(
                    Polled::Ready(Ok(combine(ex1, ex2))),
                ),
                _ => AndAction::BlendSecond,
            }
        },
    }
}

} // verus!
