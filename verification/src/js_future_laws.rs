//! What holds of every run of an adapter.
//!
//! A run is the adapter together with the record of what came out of it: what
//! its polls answered, which settlements it took and which it refused, and
//! which wake handles it gave back to be invoked.

use vstd::prelude::*;
use crate::js_future::{JsFutureView, ProtocolViolation};
use crate::poll::{finished, Async, Poll};

verus! {

/// What the world outside the adapter does next.
pub enum Event<T, W, C> {
    /// The consuming task polls. `task` is its wake handle, `callbacks` is
    /// what registering with the promise would hand back.
    Poll { task: W, callbacks: C },
    /// The promise's settlement mechanism fires with `result`.
    Settle { result: Result<T, T> },
}

/// An adapter and the record of what it has done so far.
pub struct Run<T, W, C> {
    /// The adapter.
    pub future: JsFutureView<T, W, C>,
    /// The settlements that the adapter took, oldest first.
    pub accepted: Seq<Result<T, T>>,
    /// The settlements that the adapter refused, oldest first.
    pub refused: Seq<ProtocolViolation>,
    /// The final answers that polls gave, oldest first.
    pub delivered: Seq<Poll<T, T>>,
    /// How many polls answered "not ready".
    pub unready: nat,
    /// The wake handles that settlements handed back, oldest first.
    pub woken: Seq<W>,
    /// How often callbacks were registered with the promise.
    pub registrations: nat,
}

impl<T, W, C> Run<T, W, C> {
    /// The run of a new adapter.
    pub open spec fn begin() -> Self {
        Run {
            future: JsFutureView::fresh(),
            accepted: Seq::empty(),
            refused: Seq::empty(),
            delivered: Seq::empty(),
            unready: 0,
            woken: Seq::empty(),
            registrations: 0,
        }
    }

    /// One event, and what it adds to the record.
    pub open spec fn step(self, event: Event<T, W, C>) -> Self {
        match event {
            Event::Poll { task, callbacks } => {
                let (future, answer) = self.future.register(callbacks).poll(task);
                let registrations = if self.future.registered {
                    self.registrations
                } else {
                    self.registrations + 1
                };
                if answer == Ok::<Async<T>, T>(Async::NotReady) {
                    Run { future, registrations, unready: self.unready + 1, ..self }
                } else {
                    Run { future, registrations, delivered: self.delivered.push(answer), ..self }
                }
            },
            Event::Settle { result } => {
                let (future, outcome) = self.future.settle(result);
                match outcome {
                    Ok(Some(task)) => Run {
                        future,
                        accepted: self.accepted.push(result),
                        woken: self.woken.push(task),
                        ..self
                    },
                    Ok(None) => Run { future, accepted: self.accepted.push(result), ..self },
                    Err(violation) => Run { future, refused: self.refused.push(violation), ..self },
                }
            },
        }
    }

    /// The events of `events` in order.
    pub open spec fn run(self, events: Seq<Event<T, W, C>>) -> Self
        decreases events.len(),
    {
        if events.len() == 0 {
            self
        } else {
            self.step(events[0]).run(events.skip(1))
        }
    }

    /// The consuming task polls once with each handle of `tasks`, in order.
    pub open spec fn polls(self, tasks: Seq<W>, callbacks: C) -> Self
        decreases tasks.len(),
    {
        if tasks.len() == 0 {
            self
        } else {
            self.step(Event::Poll { task: tasks[0], callbacks }).polls(tasks.skip(1), callbacks)
        }
    }

    /// The promise has not settled: nothing was taken, nothing delivered,
    /// nobody woken, and once registered the callbacks are kept.
    pub open spec fn open(self) -> bool {
        &&& self.future.wf()
        &&& self.accepted.len() == 0
        &&& self.delivered.len() == 0
        &&& self.woken.len() == 0
        &&& self.future.result is None
        &&& self.future.registered ==> self.future.callbacks is Some
    }

    /// The promise has settled and no poll has seen it yet.
    pub open spec fn held(self) -> bool {
        &&& self.future.wf()
        &&& self.accepted.len() == 1
        &&& self.delivered.len() == 0
        &&& self.woken.len() <= 1
        &&& self.future.result == Some(self.accepted[0])
        &&& self.future.callbacks is None
    }

    /// The promise has settled and one poll has passed the settlement on.
    pub open spec fn spent(self) -> bool {
        &&& self.future.wf()
        &&& self.accepted.len() == 1
        &&& self.delivered == seq![finished(self.accepted[0])]
        &&& self.woken.len() <= 1
        &&& self.future.result is None
        &&& self.future.callbacks is None
        &&& self.future.registered
    }

    /// What holds of a run at every moment: it is in exactly one of the three
    /// situations above, and callbacks were registered once if they ever
    /// were.
    pub open spec fn inv(self) -> bool {
        &&& self.open() || self.held() || self.spent()
        &&& self.registrations == if self.future.registered {
            1nat
        } else {
            0nat
        }
    }
}

/// A new run is open, and nothing is registered.
pub proof fn lemma_begin_is_open<T, W, C>()
    ensures
        Run::<T, W, C>::begin().open(),
        Run::<T, W, C>::begin().inv(),
{
}

/// Every event keeps a run in one of its three situations. A settlement is
/// taken only while the run is open, and then recorded as it came; a final
/// answer is given only while a settlement is held, and is that settlement.
pub proof fn lemma_step<T, W, C>(run: Run<T, W, C>, event: Event<T, W, C>)
    requires
        run.inv(),
    ensures
        run.step(event).inv(),
        run.step(event).accepted != run.accepted ==> run.open() && run.future.callbacks is Some
            && event is Settle && run.step(event).accepted == seq![event->result],
        run.step(event).delivered != run.delivered ==> run.held() && event is Poll
            && run.step(event).spent(),
        run.step(event).woken != run.woken ==> run.step(event).accepted != run.accepted
            && run.future.task is Some && run.step(event).woken == seq![run.future.task->0],
{
    if run.held() && event is Poll {
        assert(run.step(event).delivered =~= seq![finished(run.accepted[0])]);
    }
}

/// Whatever happens, in whatever order: callbacks are registered at most
/// once, and the adapter takes at most one settlement, hands back at most one
/// wake handle, and gives at most one final answer, which is the settlement
/// it took.
pub proof fn lemma_settles_at_most_once<T, W, C>(run: Run<T, W, C>, events: Seq<Event<T, W, C>>)
    requires
        run.inv(),
    ensures
        run.run(events).inv(),
        run.run(events).registrations <= 1,
        run.run(events).accepted.len() <= 1,
        run.run(events).woken.len() <= 1,
        run.run(events).delivered.len() <= 1,
        run.run(events).delivered.len() == 1 ==> run.run(events).accepted.len() == 1
            && run.run(events).delivered[0] == finished(run.run(events).accepted[0]),
        run.accepted.len() == 1 ==> run.run(events).accepted == run.accepted,
    decreases events.len(),
{
    if events.len() > 0 {
        lemma_step(run, events[0]);
        lemma_settles_at_most_once(run.step(events[0]), events.skip(1));
    }
}

/// Once the promise has settled, a further settlement is refused and leaves
/// the adapter exactly as it was: the recorded result, and what a later poll
/// will answer, are those of the first settlement.
pub proof fn lemma_second_settlement_is_refused<T, W, C>(run: Run<T, W, C>, result: Result<T, T>)
    requires
        run.held() || run.spent(),
    ensures
        run.step(Event::Settle { result }).future == run.future,
        run.step(Event::Settle { result }).accepted == run.accepted,
        run.step(Event::Settle { result }).woken == run.woken,
        run.step(Event::Settle { result }).delivered == run.delivered,
        run.step(Event::Settle { result }).refused == run.refused.push(
            ProtocolViolation::AlreadySettled,
        ),
{
}

/// While the promise is open, every poll answers "not ready", registers the
/// callbacks if none are registered yet, and leaves its wake handle behind.
pub proof fn lemma_polls_while_open<T, W, C>(run: Run<T, W, C>, tasks: Seq<W>, callbacks: C)
    requires
        run.open(),
        run.inv(),
    ensures
        run.polls(tasks, callbacks).open(),
        run.polls(tasks, callbacks).inv(),
        run.polls(tasks, callbacks).unready == run.unready + tasks.len(),
        run.polls(tasks, callbacks).refused == run.refused,
        tasks.len() == 0 ==> run.polls(tasks, callbacks) == run,
        tasks.len() >= 1 ==> run.polls(tasks, callbacks).future.task == Some(tasks.last()),
        tasks.len() >= 1 ==> run.polls(tasks, callbacks).future.callbacks == Some(
            if run.future.registered {
                run.future.callbacks->0
            } else {
                callbacks
            },
        ),
    decreases tasks.len(),
{
    if tasks.len() > 0 {
        let next = run.step(Event::Poll { task: tasks[0], callbacks });
        lemma_polls_while_open(next, tasks.skip(1), callbacks);
    }
}

/// A promise that settles with `result` after the future has been polled with
/// each handle of `tasks`: every poll before the settlement answers "not
/// ready", and the first of them registers the callbacks; the settlement is
/// taken, releases the callbacks and hands back the handle of the last poll,
/// to be invoked; and the next poll answers with that result, a success as a
/// ready value and a failure as the error, the value as it came.
pub proof fn lemma_settlement_reaches_the_future<T, W, C>(
    tasks: Seq<W>,
    callbacks: C,
    result: Result<T, T>,
    task: W,
)
    requires
        tasks.len() >= 1,
    ensures
        ({
            let before = Run::<T, W, C>::begin().polls(tasks, callbacks);
            let settled = before.step(Event::Settle { result });
            let after = settled.step(Event::Poll { task, callbacks });
            &&& before.open()
            &&& before.unready == tasks.len()
            &&& before.registrations == 1
            &&& settled.held()
            &&& settled.accepted == seq![result]
            &&& settled.refused.len() == 0
            &&& settled.woken == seq![tasks.last()]
            &&& settled.future.callbacks is None
            &&& after.spent()
            &&& after.delivered == seq![finished(result)]
            &&& after.unready == tasks.len()
            &&& after.registrations == 1
        }),
{
    let before = Run::<T, W, C>::begin().polls(tasks, callbacks);
    lemma_polls_while_open(Run::<T, W, C>::begin(), tasks, callbacks);
    let settled = before.step(Event::Settle { result });
    lemma_step(before, Event::Settle { result });
    let after = settled.step(Event::Poll { task, callbacks });
    assert(after.delivered =~= seq![finished(result)]);
}

/// A promise that is fulfilled with `value`: the future derived from it
/// finishes successfully with `value`, on the first poll after the
/// settlement and on none before.
pub proof fn lemma_fulfilled_promise_completes_the_future<T, W, C>(
    tasks: Seq<W>,
    callbacks: C,
    value: T,
    task: W,
)
    requires
        tasks.len() >= 1,
    ensures
        ({
            let before = Run::<T, W, C>::begin().polls(tasks, callbacks);
            let after = before.step(Event::Settle { result: Ok(value) }).step(
                Event::Poll { task, callbacks },
            );
            &&& before.delivered.len() == 0
            &&& before.unready == tasks.len()
            &&& after.delivered == seq![Ok::<Async<T>, T>(Async::Ready(value))]
        }),
{
    lemma_settlement_reaches_the_future(tasks, callbacks, Ok(value), task);
}

/// A promise that is rejected with `value`: the future derived from it fails
/// with `value`, on the first poll after the settlement and on none before.
pub proof fn lemma_rejected_promise_fails_the_future<T, W, C>(
    tasks: Seq<W>,
    callbacks: C,
    value: T,
    task: W,
)
    requires
        tasks.len() >= 1,
    ensures
        ({
            let before = Run::<T, W, C>::begin().polls(tasks, callbacks);
            let after = before.step(Event::Settle { result: Err(value) }).step(
                Event::Poll { task, callbacks },
            );
            &&& before.delivered.len() == 0
            &&& before.unready == tasks.len()
            &&& after.delivered == seq![Err::<Async<T>, T>(value)]
        }),
{
    lemma_settlement_reaches_the_future(tasks, callbacks, Err(value), task);
}

} // verus!
