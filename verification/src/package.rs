//! The driver that turns a poll-driven future into a promise.
//!
//! A package stands for one future that is being driven to completion. It
//! never polls the future itself: the caller does, and tells the package what
//! the future answered. The package decides what happens next, so that at most
//! one pass polls the future at a time, no wake is lost between a poll and the
//! decision to go dormant, and wakes that arrive together start one pass.

use vstd::prelude::*;
use crate::poll::{Async, Poll, Settlement};

verus! {

/// Where a package stands between two polls of its future.
#[derive(Clone, Copy, PartialEq, Eq, Structural, Debug)]
pub enum Phase {
    /// A pass is running and no wake has arrived since it last decided to poll.
    Polling,
    /// A wake has arrived that no poll has answered yet.
    Notified,
    /// No pass is running; the next wake starts one.
    Waiting,
}

/// What the caller of a transition does next.
#[derive(PartialEq, Eq, Debug)]
pub enum Step<T> {
    /// Poll the future and report its answer with [`Package::polled`].
    Poll,
    /// Nothing: the package is dormant until [`Package::notify`] hands its
    /// handle back.
    Wait,
    /// Invoke the chosen callable. The pass ends and none follows.
    Settle(Settlement<T>),
}

/// The state of a package as contracts see it.
pub struct PackageView<H> {
    /// The notification phase.
    pub phase: Phase,
    /// The handle that keeps the package alive while it is dormant.
    pub me: Option<H>,
}

impl<H> PackageView<H> {
    /// A package holds a handle to itself exactly while it is dormant.
    pub open spec fn wf(self) -> bool {
        self.me is Some <==> self.phase is Waiting
    }

    /// The package of a future that has not been polled yet: a first poll is
    /// due, as if a wake had arrived.
    pub open spec fn fresh() -> Self {
        PackageView { phase: Phase::Notified, me: None }
    }

    /// The head of a pass. A pending wake is consumed and answered by a poll;
    /// without one the package goes dormant and keeps `me`.
    pub open spec fn enter<T>(self, me: H) -> (Self, Step<T>) {
        if self.phase is Notified {
            (PackageView { phase: Phase::Polling, me: self.me }, Step::Poll)
        } else {
            (PackageView { phase: Phase::Waiting, me: Some(me) }, Step::Wait)
        }
    }

    /// The answer of one poll. A final value is settled as it is and leaves
    /// the package untouched; "not ready" leads back to the head of the pass.
    pub open spec fn polled<T>(self, answer: Poll<T, T>, me: H) -> (Self, Step<T>) {
        match answer {
            Ok(Async::Ready(value)) => (self, Step::Settle(Settlement::Resolve(value))),
            Err(value) => (self, Step::Settle(Settlement::Reject(value))),
            Ok(Async::NotReady) => self.enter(me),
        }
    }

    /// A wake. It is recorded in the phase; a dormant package also gives up
    /// its handle, with which the caller starts a pass.
    pub open spec fn notify(self) -> (Self, Option<H>) {
        if self.phase is Waiting {
            (PackageView { phase: Phase::Notified, me: None }, self.me)
        } else {
            (PackageView { phase: Phase::Notified, me: self.me }, None)
        }
    }
}

/// The notification state of one future that is driven towards a promise.
///
/// `H` is the handle by which the caller reaches the package again after a
/// wake; the package owns one exactly while it is dormant.
pub struct Package<H> {
    notified: Phase,
    me: Option<H>,
}

impl<H> View for Package<H> {
    type V = PackageView<H>;

    closed spec fn view(&self) -> PackageView<H> {
        PackageView { phase: self.notified, me: self.me }
    }
}

/// Creates the package for a future that is to be turned into a promise. The
/// caller then starts the first pass with [`Package::poll`].
pub fn rust2js<H>() -> (package: Package<H>)
    ensures
        package@ == PackageView::<H>::fresh(),
        package@.wf(),
{
    Package { notified: Phase::Notified, me: None }
}

impl<H> Package<H> {
    #[verifier::type_invariant]
    spec fn inv(self) -> bool {
        self@.wf()
    }

    /// The current phase.
    pub fn phase(&self) -> (phase: Phase)
        ensures
            phase == self@.phase,
            self@.wf(),
    {
        proof {
            use_type_invariant(self);
        }
        self.notified
    }

    /// The handle that the package holds, which it does exactly while it is
    /// dormant.
    pub fn me(&self) -> (me: Option<&H>)
        ensures
            me is Some <==> self@.me is Some,
            me is Some ==> *me->0 == self@.me->0,
            self@.wf(),
    {
        proof {
            use_type_invariant(self);
        }
        self.me.as_ref()
    }

    /// Starts or continues a pass: says whether the future is to be polled
    /// now. When it is not, the package has gone dormant and keeps `me`;
    /// otherwise `me` is dropped.
    pub fn poll<T>(&mut self, me: H) -> (step: Step<T>)
        ensures
            (final(self)@, step) == old(self)@.enter::<T>(me),
            final(self)@.wf(),
    {
        proof {
            use_type_invariant(&*self);
        }
        match self.notified {
            Phase::Notified => {
                self.notified = Phase::Polling;
                Step::Poll
            },
            _ => {
                *self = Package { notified: Phase::Waiting, me: Some(me) };
                Step::Wait
            },
        }
    }

    /// Takes the answer of the poll that [`Step::Poll`] asked for and says
    /// what follows: the settlement, another poll, or dormancy.
    pub fn polled<T>(&mut self, answer: Poll<T, T>, me: H) -> (step: Step<T>)
        ensures
            (final(self)@, step) == old(self)@.polled(answer, me),
            final(self)@.wf(),
    {
        proof {
            use_type_invariant(&*self);
        }
        match answer {
            Ok(Async::Ready(value)) => Step::Settle(Settlement::Resolve(value)),
            Err(value) => Step::Settle(Settlement::Reject(value)),
            Ok(Async::NotReady) => self.poll(me),
        }
    }

    /// Records a wake. Returns the package's handle when the package was
    /// dormant: the caller starts a pass with it. Returns nothing when a pass
    /// is running or a wake is already pending, which will answer this one too.
    pub fn notify(&mut self) -> (woken: Option<H>)
        ensures
            (final(self)@, woken) == old(self)@.notify(),
            final(self)@.wf(),
    {
        proof {
            use_type_invariant(&*self);
        }
        let mut previous = Package { notified: Phase::Notified, me: None };
        core::mem::swap(self, &mut previous);
        match previous.notified {
            Phase::Waiting => previous.me,
            _ => None,
        }
    }
}

} // verus!
