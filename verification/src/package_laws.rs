//! What holds of every run of a package.
//!
//! A run is the package together with the caller that obeys it: the caller
//! polls the future when a step says `Poll`, reports the answer, invokes the
//! callable that a `Settle` names, and starts a pass with the handle that a
//! wake gives back. The future and the host decide the rest: when wakes arrive
//! and what each poll answers.

use vstd::prelude::*;
use crate::package::{PackageView, Step};
use crate::poll::{finished, Async, Poll, Settlement};

verus! {

/// What the world outside the package does next.
pub enum Event<T> {
    /// A wake arrives: from within the poll that is in flight, from the host
    /// while the package is dormant, or after the promise has settled.
    Wake,
    /// The future answers a poll.
    Answer(Poll<T, T>),
}

/// A package and the record of what its caller has done so far.
pub struct Run<T, H> {
    /// The package.
    pub package: PackageView<H>,
    /// Whether a poll has been asked for that the future has not answered yet.
    pub polling: bool,
    /// The settlements reported to the promise, oldest first.
    pub settled: Seq<Settlement<T>>,
    /// How often the future has been polled.
    pub polls: nat,
    /// How many passes have been started.
    pub passes: nat,
}

/// How a future's "not ready" answer is surrounded by wakes.
pub struct Round {
    /// Wakes that arrive while the poll is in flight.
    pub during: nat,
    /// Wakes that arrive after the poll has answered.
    pub after: nat,
}

impl<T, H> Run<T, H> {
    /// The caller does what `step` asks.
    pub open spec fn obey(self, step: Step<T>) -> Self {
        match step {
            Step::Poll => Run { polling: true, polls: self.polls + 1, ..self },
            Step::Wait => Run { polling: false, ..self },
            Step::Settle(settlement) => Run {
                polling: false,
                settled: self.settled.push(settlement),
                ..self
            },
        }
    }

    /// The caller starts a pass with the handle `me`.
    pub open spec fn pass(self, me: H) -> Self {
        let (package, step) = self.package.enter::<T>(me);
        Run { package, passes: self.passes + 1, ..self }.obey(step)
    }

    /// The run of a new package: it is created and its first pass started.
    pub open spec fn begin(me: H) -> Self {
        Run {
            package: PackageView::fresh(),
            polling: false,
            settled: Seq::empty(),
            polls: 0,
            passes: 0,
        }.pass(me)
    }

    /// One event. A wake goes to the package, and starts a pass when the
    /// package hands its handle back. An answer goes to the package when a
    /// poll is in flight; no future answers a poll that nobody made.
    pub open spec fn step(self, event: Event<T>, me: H) -> Self {
        match event {
            Event::Wake => {
                let (package, woken) = self.package.notify();
                let run = Run { package, ..self };
                match woken {
                    Some(handle) => run.pass(handle),
                    None => run,
                }
            },
            Event::Answer(answer) => {
                if self.polling {
                    let (package, step) = self.package.polled(answer, me);
                    Run { package, ..self }.obey(step)
                } else {
                    self
                }
            },
        }
    }

    /// The events of `events` in order.
    pub open spec fn run(self, events: Seq<Event<T>>, me: H) -> Self
        decreases events.len(),
    {
        if events.len() == 0 {
            self
        } else {
            self.step(events[0], me).run(events.skip(1), me)
        }
    }

    /// `count` wakes in a row.
    pub open spec fn wakes(self, count: nat, me: H) -> Self
        decreases count,
    {
        if count == 0 {
            self
        } else {
            self.step(Event::Wake, me).wakes((count - 1) as nat, me)
        }
    }

    /// A future that answers "not ready" once for each round of `rounds`,
    /// with that round's wakes around the answer, and then finishes with
    /// `result`; `late` more wakes arrive after that.
    pub open spec fn drive(self, rounds: Seq<Round>, result: Result<T, T>, late: nat, me: H) -> Self
        decreases rounds.len(),
    {
        if rounds.len() == 0 {
            self.step(Event::Answer(finished(result)), me).wakes(late, me)
        } else {
            self.wakes(rounds[0].during, me).step(Event::Answer(Ok(Async::NotReady)), me).wakes(
                rounds[0].after,
                me,
            ).drive(rounds.skip(1), result, late, me)
        }
    }

    /// A pass is running: the future is being polled, nothing is settled.
    pub open spec fn active(self) -> bool {
        &&& self.package.wf()
        &&& self.polling
        &&& !(self.package.phase is Waiting)
        &&& self.settled.len() == 0
    }

    /// No pass is running and the promise is open: the package waits for a
    /// wake.
    pub open spec fn dormant(self) -> bool {
        &&& self.package.wf()
        &&& !self.polling
        &&& self.package.phase is Waiting
        &&& self.settled.len() == 0
    }

    /// The promise has been settled, once.
    pub open spec fn done(self) -> bool {
        &&& self.package.wf()
        &&& !self.polling
        &&& !(self.package.phase is Waiting)
        &&& self.settled.len() == 1
    }

    /// What holds of a run at every moment: it is in exactly one of the three
    /// situations above.
    pub open spec fn inv(self) -> bool {
        self.active() || self.dormant() || self.done()
    }
}

/// A new run is active: creating a package leads to a first poll at once.
pub proof fn lemma_begin_is_active<T, H>(me: H)
    ensures
        Run::<T, H>::begin(me).active(),
        Run::<T, H>::begin(me).polls == 1,
        Run::<T, H>::begin(me).passes == 1,
{
}

/// Every event keeps a run in one of its three situations, and the only way
/// out of `active` with a settlement is the future's own final answer, passed
/// on unchanged. Once done, a run stays as it is but for the phase.
pub proof fn lemma_step<T, H>(run: Run<T, H>, event: Event<T>, me: H)
    requires
        run.inv(),
    ensures
        run.step(event, me).inv(),
        run.done() ==> run.step(event, me).done() && run.step(event, me).settled == run.settled
            && run.step(event, me).polls == run.polls && run.step(event, me).passes == run.passes,
        !run.done() && run.step(event, me).done() ==> run.active() && exists|result: Result<T, T>|
            event == Event::Answer(finished(result)) && run.step(event, me).settled
                == seq![Settlement::of(result)],
{
    if !run.done() && run.step(event, me).done() {
        // The answer that settled the promise is the witness.
        match event {
            Event::Answer(Ok(Async::Ready(value))) => {
                assert(event == Event::Answer(finished(Ok::<T, T>(value))));
            },
            Event::Answer(Err(value)) => {
                assert(event == Event::Answer(finished(Err::<T, T>(value))));
            },
            _ => {},
        }
    }
}

/// Wakes that arrive while a pass is running start nothing: the pass goes on,
/// and from the first of them on the phase says that a wake is pending.
pub proof fn lemma_wakes_while_active<T, H>(run: Run<T, H>, count: nat, me: H)
    requires
        run.active(),
    ensures
        run.wakes(count, me).active(),
        run.wakes(count, me).polls == run.polls,
        run.wakes(count, me).passes == run.passes,
        count == 0 ==> run.wakes(count, me) == run,
        count >= 1 ==> run.wakes(count, me).package.phase is Notified,
    decreases count,
{
    if count > 0 {
        let next = run.step(Event::Wake, me);
        lemma_wakes_while_active(next, (count - 1) as nat, me);
    }
}

/// Wakes that arrive after the settlement change nothing that the promise or
/// the future can see.
pub proof fn lemma_wakes_when_done<T, H>(run: Run<T, H>, count: nat, me: H)
    requires
        run.done(),
    ensures
        run.wakes(count, me).done(),
        run.wakes(count, me).settled == run.settled,
        run.wakes(count, me).polls == run.polls,
        run.wakes(count, me).passes == run.passes,
    decreases count,
{
    if count > 0 {
        let next = run.step(Event::Wake, me);
        lemma_wakes_when_done(next, (count - 1) as nat, me);
    }
}

/// However many wakes reach a dormant package, they start one pass and cause
/// one poll: the first wake takes the handle, the others find a pass running.
pub proof fn lemma_wakes_while_dormant<T, H>(run: Run<T, H>, count: nat, me: H)
    requires
        run.dormant(),
        count >= 1,
    ensures
        run.wakes(count, me).active(),
        run.wakes(count, me).passes == run.passes + 1,
        run.wakes(count, me).polls == run.polls + 1,
        run.step(Event::Wake, me).package.me is None,
{
    let next = run.step(Event::Wake, me);
    lemma_wakes_while_active(next, (count - 1) as nat, me);
}

/// A wake that arrives while a poll is in flight is not lost: when that poll
/// answers "not ready", the future is polled again in the same pass, before
/// the package could go dormant.
pub proof fn lemma_wake_during_poll_is_answered<T, H>(run: Run<T, H>, count: nat, me: H)
    requires
        run.active(),
        count >= 1,
    ensures
        ({
            let end = run.wakes(count, me).step(Event::Answer(Ok(Async::NotReady)), me);
            &&& end.active()
            &&& end.package.phase is Polling
            &&& end.polls == run.polls + 1
            &&& end.passes == run.passes
        }),
{
    lemma_wakes_while_active(run, count, me);
}

/// Without a wake, a "not ready" answer sends the package to sleep with the
/// handle it was given.
pub proof fn lemma_quiet_poll_goes_dormant<T, H>(run: Run<T, H>, me: H)
    requires
        run.active(),
        run.package.phase is Polling,
    ensures
        ({
            let end = run.step(Event::Answer(Ok(Async::NotReady)), me);
            &&& end.dormant()
            &&& end.package.me == Some(me)
            &&& end.polls == run.polls
            &&& end.passes == run.passes
        }),
{
}

/// Whatever happens, in whatever order: the promise is settled at most once,
/// and if it is, then with the value of an answer that the future gave,
/// resolved for a success and rejected for a failure.
pub proof fn lemma_settles_at_most_once<T, H>(run: Run<T, H>, events: Seq<Event<T>>, me: H)
    requires
        run.inv(),
    ensures
        run.run(events, me).inv(),
        run.run(events, me).settled.len() <= 1,
        run.done() ==> run.run(events, me).settled == run.settled,
        !run.done() && run.run(events, me).done() ==> exists|i: int, result: Result<T, T>|
            0 <= i < events.len() && events[i] == Event::Answer(finished(result))
                && run.run(events, me).settled == seq![Settlement::of(result)],
    decreases events.len(),
{
    if events.len() > 0 {
        let next = run.step(events[0], me);
        let rest = events.skip(1);
        let end = run.run(events, me);
        lemma_step(run, events[0], me);
        lemma_settles_at_most_once(next, rest, me);
        if !run.done() && end.done() {
            if next.done() {
                let result = choose|result: Result<T, T>|
                    events[0] == Event::Answer(finished(result)) && next.settled
                        == seq![Settlement::of(result)];
                assert(0 <= 0 < events.len() && events[0] == Event::Answer(finished(result))
                    && end.settled == seq![Settlement::of(result)]);
            } else {
                let (i, result) = choose|i: int, result: Result<T, T>|
                    0 <= i < rest.len() && rest[i] == Event::Answer(finished(result))
                        && end.settled == seq![Settlement::of(result)];
                assert(0 <= i + 1 < events.len() && events[i + 1] == Event::Answer(
                    finished(result),
                ) && end.settled == seq![Settlement::of(result)]);
            }
        }
    }
}

/// From any moment at which a pass is running: a future that answers "not
/// ready" for each round of `rounds`, each round with at least one wake, and
/// then finishes with `result`, settles the promise once, with that result,
/// after one more poll per round.
pub proof fn lemma_drive_from_active<T, H>(
    run: Run<T, H>,
    rounds: Seq<Round>,
    result: Result<T, T>,
    late: nat,
    me: H,
)
    requires
        run.active(),
        forall|i: int| 0 <= i < rounds.len() ==> (#[trigger] rounds[i]).during + rounds[i].after >= 1,
    ensures
        run.drive(rounds, result, late, me).done(),
        run.drive(rounds, result, late, me).settled == seq![Settlement::of(result)],
        run.drive(rounds, result, late, me).polls == run.polls + rounds.len(),
    decreases rounds.len(),
{
    if rounds.len() == 0 {
        let settled = run.step(Event::Answer(finished(result)), me);
        lemma_wakes_when_done(settled, late, me);
    } else {
        let round = rounds[0];
        let woken = run.wakes(round.during, me);
        lemma_wakes_while_active(run, round.during, me);
        let answered = woken.step(Event::Answer(Ok(Async::NotReady)), me);
        let resumed = answered.wakes(round.after, me);
        if woken.package.phase is Notified {
            lemma_wakes_while_active(answered, round.after, me);
        } else {
            lemma_wakes_while_dormant(answered, round.after, me);
        }
        lemma_drive_from_active(resumed, rounds.skip(1), result, late, me);
    }
}

/// A future that is turned into a promise settles it exactly once, with the
/// value that the future finishes with: resolved for a success, rejected for a
/// failure. This holds however many "not ready" rounds the future needs and
/// however many wakes arrive, as long as each round sees at least one, as a
/// future that is not ready must arrange. The future is polled once per round
/// and once more, and wakes that arrive after the settlement change nothing.
pub proof fn lemma_driven_future_settles_once<T, H>(
    rounds: Seq<Round>,
    result: Result<T, T>,
    late: nat,
    me: H,
)
    requires
        forall|i: int| 0 <= i < rounds.len() ==> (#[trigger] rounds[i]).during + rounds[i].after >= 1,
    ensures
        Run::<T, H>::begin(me).drive(rounds, result, late, me).done(),
        Run::<T, H>::begin(me).drive(rounds, result, late, me).settled == seq![
            Settlement::of(result),
        ],
        Run::<T, H>::begin(me).drive(rounds, result, late, me).polls == rounds.len() + 1,
{
    lemma_begin_is_active::<T, H>(me);
    lemma_drive_from_active(Run::<T, H>::begin(me), rounds, result, late, me);
}

} // verus!
