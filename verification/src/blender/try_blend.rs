use vstd::prelude::*;
use crate::blender::Polled;
use crate::func::Func;
use crate::rejection::CombineRejection;

verus! {

/// A blender that runs `blender`, hands its extract to `callback`, and yields what
/// the callback's future resolves to.
#[derive(Clone, Copy, Debug)]
pub struct TryBlend<A, F> {
    pub blender: A,
    pub callback: F,
}

impl<A, F> TryBlend<A, F> {
    /// The blender that runs `blender` and hands its extract to `callback`.
    pub fn new(blender: A, callback: F) -> (r: TryBlend<A, F>)
        ensures
            r.blender == blender,
            r.callback == callback,
    {
        TryBlend { blender, callback }
    }
}

/// Where the future of a `TryBlend` stands.
pub enum TryBlendState {
    /// Waiting for the inner blender's future.
    First,
    /// Waiting for the callback's future.
    Second,
    /// The result was handed out.
    Done,
}

/// What the poller of a `TryBlend` future found.
pub enum TryBlendEvent<T, E1, O, E2> {
    /// Result of polling the inner blender's future.
    FirstPolled(Polled<Result<T, E1>>),
    /// Result of polling the callback's future.
    SecondPolled(Polled<Result<O, E2>>),
}

/// What the poller of a `TryBlend` future does next.
pub enum TryBlendAction<Fut, O, E> {
    /// The callback was called; poll the future it returned.
    Called(Fut),
    /// Return this from `poll`.
    Return(Polled<Result<(O,), E>>),
}

impl TryBlendState {
    /// The state a fresh `TryBlend` future starts in.
    pub fn new() -> (s: TryBlendState)
        ensures
            s is First,
    {
        TryBlendState::First
    }

    /// Whether `event` is one that can happen in this state.
    pub open spec fn expects<T, E1, O, E2>(self, event: TryBlendEvent<T, E1, O, E2>) -> bool {
        match event {
            TryBlendEvent::FirstPolled(_) => self is First,
            TryBlendEvent::SecondPolled(_) => self is Second,
        }
    }

    /// The state after `event`.
    pub open spec fn next<T, E1, O, E2>(self, event: TryBlendEvent<T, E1, O, E2>) -> TryBlendState {
        match event {
            TryBlendEvent::FirstPolled(Polled::Ready(Ok(_))) => TryBlendState::Second,
            TryBlendEvent::SecondPolled(Polled::Ready(_)) => TryBlendState::Done,
            _ => self,
        }
    }

    /// Whether `event` makes the future call the callback: the inner blender's
    /// future yielded an extract while the future was waiting for it.
    pub open spec fn calls_callback<T, E1, O, E2>(self, event: TryBlendEvent<T, E1, O, E2>) -> bool {
        self is First && event matches TryBlendEvent::FirstPolled(Polled::Ready(Ok(_)))
    }

    /// Whether every event of `events`, taken in order from this state, is one
    /// that the state reached so far expects.
    pub open spec fn accepts_run<T, E1, O, E2>(self, events: Seq<TryBlendEvent<T, E1, O, E2>>) -> bool
        decreases events.len(),
    {
        events.len() == 0 || (self.expects(events[0]) && self.next(events[0]).accepts_run(
            events.drop_first(),
        ))
    }

    /// The state after all of `events`, taken in order.
    pub open spec fn run<T, E1, O, E2>(self, events: Seq<TryBlendEvent<T, E1, O, E2>>) -> TryBlendState
        decreases events.len(),
    {
        if events.len() == 0 {
            self
        } else {
            self.next(events[0]).run(events.drop_first())
        }
    }

    /// How many of `events`, taken in order from this state, call the callback.
    pub open spec fn callback_calls<T, E1, O, E2>(self, events: Seq<TryBlendEvent<T, E1, O, E2>>) -> nat
        decreases events.len(),
    {
        if events.len() == 0 {
            0
        } else {
            (if self.calls_callback(events[0]) {
                1nat
            } else {
                0nat
            }) + self.next(events[0]).callback_calls(events.drop_first())
        }
    }
}

/// Once a `TryBlend` future has left its first stage it never returns to it:
/// from a state other than `First`, no expected event leads back to `First`, and
/// none calls the callback.
pub proof fn lemma_try_blend_never_back_to_first<T, E1, O, E2>(
    state: TryBlendState,
    event: TryBlendEvent<T, E1, O, E2>,
)
    requires
        !(state is First),
        state.expects(event),
    ensures
        !(state.next(event) is First),
        !state.calls_callback(event),
{
}

/// Over any run of expected events from a state other than `First`, the
/// callback is never called and the state never returns to `First`.
pub proof fn lemma_try_blend_run_after_first<T, E1, O, E2>(
    state: TryBlendState,
    events: Seq<TryBlendEvent<T, E1, O, E2>>,
)
    requires
        !(state is First),
        state.accepts_run(events),
    ensures
        state.callback_calls(events) == 0,
        !(state.run(events) is First),
    decreases events.len(),
{
    if events.len() > 0 {
        lemma_try_blend_never_back_to_first(state, events[0]);
        lemma_try_blend_run_after_first(state.next(events[0]), events.drop_first());
    }
}

/// Over any run of expected events, the callback is called at most once, and
/// only when the inner blender's future yields its extract while the future
/// waits for it; after that the inner future is never expected again, and until
/// then the future stays in its first stage, where no callback future is polled.
pub proof fn lemma_try_blend_callback_at_most_once<T, E1, O, E2>(
    state: TryBlendState,
    events: Seq<TryBlendEvent<T, E1, O, E2>>,
)
    requires
        state.accepts_run(events),
    ensures
        state.callback_calls(events) <= 1,
        !(state is First) ==> state.callback_calls(events) == 0,
        state is First && state.callback_calls(events) == 0 ==> state.run(events) is First,
    decreases events.len(),
{
    if events.len() > 0 {
        if state is First {
            if state.calls_callback(events[0]) {
                lemma_try_blend_run_after_first(state.next(events[0]), events.drop_first());
            } else {
                lemma_try_blend_callback_at_most_once(state.next(events[0]), events.drop_first());
            }
        } else {
            lemma_try_blend_run_after_first(state, events);
        }
    }
}

/// A `TryBlend` future accepts no event once it is done: polling it again is
/// refused.
pub proof fn lemma_try_blend_done_is_final<T, E1, O, E2>(event: TryBlendEvent<T, E1, O, E2>)
    ensures
        !TryBlendState::Done.expects(event),
{
}

/// A `TryBlend` future runs through its stages in order: a successful inner
/// blender moves it to waiting for the callback, and any result of the
/// callback's future, value or error, finishes it.
pub proof fn lemma_try_blend_stages<T, E1, O, E2>(ex1: T, result: Result<O, E2>)
    ensures
        ({
            let first = TryBlendEvent::<T, E1, O, E2>::FirstPolled(Polled::Ready(Ok(ex1)));
            let second = TryBlendEvent::<T, E1, O, E2>::SecondPolled(Polled::Ready(result));
            let mid = TryBlendState::First.next(first);
            &&& mid is Second
            &&& mid.expects(second)
            &&& mid.next(second) is Done
        }),
{
}

/// One step of a `TryBlend` future's poll. A pending inner future leaves the
/// state as it is and is returned as pending. An error of the inner blender is
/// converted into the combined error type and returned, the state left as it is.
/// The inner blender's extract is handed to `callback`, whose future is polled
/// next. When the callback's future resolves, its value is returned as a
/// one-element tuple, or its error converted into the combined error type, and
/// the future is done.
pub fn try_blend_advance<T, E1, F, O, E2>(
    state: &mut TryBlendState,
    callback: &F,
    event: TryBlendEvent<T, E1, O, E2>,
) -> (action: TryBlendAction<F::Output, O, <E2 as CombineRejection<E1>>::One>) where
    F: Func<T>,
    E2: CombineRejection<E1>,
    requires
        old(state).expects(event),
        event matches TryBlendEvent::FirstPolled(Polled::Ready(Ok(ex1))) ==> callback.accepts(ex1),
    ensures
        *final(state) == old(state).next(event),
        (action is Called) <==> old(state).calls_callback(event),
        match event {
            TryBlendEvent::FirstPolled(Polled::Pending) => action == TryBlendAction::<
                F::Output,
                O,
                <E2 as CombineRejection<E1>>::One,
            >::Return(Polled::Pending),
            TryBlendEvent::SecondPolled(Polled::Pending) => action == TryBlendAction::<
                F::Output,
                O,
                <E2 as CombineRejection<E1>>::One,
            >::Return(Polled::Pending),
            TryBlendEvent::FirstPolled(Polled::Ready(Ok(ex1))) => action matches TryBlendAction::Called(
                fut,
            ) && callback.gives(ex1, fut),
            TryBlendEvent::FirstPolled(Polled::Ready(Err(e))) => action matches TryBlendAction::Return(
                Polled::Ready(Err(err)),
            ) && call_ensures(<E2 as CombineRejection<E1>>::One::from, (e,), err),
            TryBlendEvent::SecondPolled(Polled::Ready(Ok(item))) => action == TryBlendAction::<
                F::Output,
                O,
                <E2 as CombineRejection<E1>>::One,
            >::Return(Polled::Ready(Ok((item,)))),
            TryBlendEvent::SecondPolled(Polled::Ready(Err(e))) => action matches TryBlendAction::Return(
                Polled::Ready(Err(err)),
            ) && call_ensures(<E2 as CombineRejection<E1>>::One::from, (e,), err),
        },
{
    match event {
        TryBlendEvent::FirstPolled(Polled::Pending) => TryBlendAction::Return(Polled::Pending),
        TryBlendEvent::FirstPolled(Polled::Ready(Err(e))) => TryBlendAction::Return(
            Polled::Ready(Err(<E2 as CombineRejection<E1>>::One::from(e))),
        ),
        TryBlendEvent::FirstPolled(Polled::Ready(Ok(ex1))) => {
            let fut = callback.call(ex1);
            *state = TryBlendState::Second;
            TryBlendAction::Called(fut)
        },
        TryBlendEvent::SecondPolled(Polled::Pending) => TryBlendAction::Return(Polled::Pending),
        TryBlendEvent::SecondPolled(Polled::Ready(result)) => {
            *state = TryBlendState::Done;
            match result {
                Ok(item) => TryBlendAction::Return(Polled::Ready(Ok((item,)))),
                Err(err) => TryBlendAction::Return(
                    Polled::Ready(Err(<E2 as CombineRejection<E1>>::One::from(err))),
                ),
            }
        },
    }
}

} // verus!
