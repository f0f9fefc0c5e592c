//! The adapter that turns a promise into a poll-driven future.
//!
//! The adapter is the record that the future and the promise's callbacks
//! share. It never calls the promise or a wake handle itself: registering is
//! done by a closure of the caller, and the wake handle that a settlement
//! frees is handed back, to be invoked once the caller has let go of the
//! record.

use vstd::prelude::*;
use vstd::std_specs::convert::FromSpecImpl;
use crate::poll::{finished, Async, Poll};

verus! {

/// A settlement that the adapter refuses. Either means a fault in the code
/// around the adapter, not in the promise's value.
#[derive(Clone, Copy, PartialEq, Eq, Structural, Debug)]
pub enum ProtocolViolation {
    /// A settlement arrived although no callbacks were ever registered.
    NotRegistered,
    /// A settlement arrived after the promise had already settled.
    AlreadySettled,
}

/// The state of an adapter as contracts see it.
pub struct JsFutureView<T, W, C> {
    /// The settlement that no poll has passed on yet.
    pub result: Option<Result<T, T>>,
    /// The wake handle of the task that polled last and found nothing.
    pub task: Option<W>,
    /// The callbacks registered with the promise, kept until it settles.
    pub callbacks: Option<C>,
    /// Whether callbacks were ever registered with the promise.
    pub registered: bool,
}

impl<T, W, C> JsFutureView<T, W, C> {
    /// Callbacks are held only between registration and settlement, a result
    /// only after it, and a result that waits for a poll has freed the wake
    /// handle.
    pub open spec fn wf(self) -> bool {
        &&& self.callbacks is Some ==> self.registered && self.result is None
        &&& self.result is Some ==> self.registered && self.task is None
        &&& self.task is Some ==> self.registered
    }

    /// The adapter of a promise that nothing has been done with.
    pub open spec fn fresh() -> Self {
        JsFutureView { result: None, task: None, callbacks: None, registered: false }
    }

    /// Registration, which happens once: `callbacks` are kept if none were
    /// registered before, and dropped otherwise.
    pub open spec fn register(self, callbacks: C) -> Self {
        if self.registered {
            self
        } else {
            JsFutureView { callbacks: Some(callbacks), registered: true, ..self }
        }
    }

    /// One poll of a registered adapter. A recorded result is taken out and
    /// is the answer; without one the answer is "not ready" and `task` is
    /// kept, in place of an earlier handle.
    pub open spec fn poll(self, task: W) -> (Self, Poll<T, T>) {
        match self.result {
            Some(result) => (JsFutureView { result: None, ..self }, finished(result)),
            None => (JsFutureView { task: Some(task), ..self }, Ok(Async::NotReady)),
        }
    }

    /// One settlement. While callbacks are held it is recorded, the callbacks
    /// are released and the wake handle, if there is one, is given out.
    /// Otherwise it is refused and nothing changes.
    pub open spec fn settle(self, result: Result<T, T>) -> (
        Self,
        Result<Option<W>, ProtocolViolation>,
    ) {
        if self.callbacks is Some {
            (
                JsFutureView { result: Some(result), task: None, callbacks: None, ..self },
                Ok(self.task),
            )
        } else if self.registered {
            (self, Err(ProtocolViolation::AlreadySettled))
        } else {
            (self, Err(ProtocolViolation::NotRegistered))
        }
    }
}

/// A future that finishes when a promise settles, with the promise's value.
///
/// `P` is the promise, `T` the host's values, `W` the wake handle of a task
/// and `C` whatever keeps the registered callbacks alive.
pub struct JsFuture<P, T, W, C> {
    promise: P,
    result: Option<Result<T, T>>,
    task: Option<W>,
    callbacks: Option<C>,
    registered: bool,
}

impl<P, T, W, C> View for JsFuture<P, T, W, C> {
    type V = JsFutureView<T, W, C>;

    closed spec fn view(&self) -> JsFutureView<T, W, C> {
        JsFutureView {
            result: self.result,
            task: self.task,
            callbacks: self.callbacks,
            registered: self.registered,
        }
    }
}

impl<P, T, W, C> JsFuture<P, T, W, C> {
    #[verifier::type_invariant]
    spec fn inv(self) -> bool {
        self@.wf()
    }

    /// The promise that the adapter was made from.
    pub closed spec fn promise(self) -> P {
        self.promise
    }

    /// Registers callbacks with the promise unless that has been done:
    /// `subscribe` is called on the first call and never again.
    pub fn register<F: FnOnce(&P) -> C>(&mut self, subscribe: F)
        requires
            !old(self)@.registered ==> call_requires(subscribe, (&old(self).promise(),)),
        ensures
            final(self).promise() == old(self).promise(),
            final(self)@.wf(),
            old(self)@.registered ==> final(self)@ == old(self)@,
            !old(self)@.registered ==> exists|callbacks: C|
                call_ensures(subscribe, (&old(self).promise(),), callbacks)
                    && final(self)@ == old(self)@.register(callbacks),
    {
        proof {
            use_type_invariant(&*self);
        }
        if self.registered {
            return ;
        }
        self.registered = true;
        let callbacks = subscribe(&self.promise);
        let ghost made = callbacks;
        self.callbacks = Some(callbacks);
        assert(self@ == old(self)@.register(made));
    }

    /// Polls the future on behalf of the task whose wake handle is `task`.
    /// Callbacks are registered first if none are yet. A recorded settlement
    /// is then taken and returned; without one the answer is "not ready" and
    /// `task` is kept for the settlement to hand back.
    pub fn poll<F: FnOnce(&P) -> C>(&mut self, task: W, subscribe: F) -> (answer: Poll<T, T>)
        requires
            !old(self)@.registered ==> call_requires(subscribe, (&old(self).promise(),)),
        ensures
            final(self).promise() == old(self).promise(),
            final(self)@.wf(),
            old(self)@.registered ==> (final(self)@, answer) == old(self)@.poll(task),
            !old(self)@.registered ==> exists|callbacks: C|
                call_ensures(subscribe, (&old(self).promise(),), callbacks)
                    && (final(self)@, answer) == old(self)@.register(callbacks).poll(task),
    {
        self.register(subscribe);
        proof {
            use_type_invariant(&*self);
        }
        let mut found: Option<Result<T, T>> = None;
        core::mem::swap(&mut self.result, &mut found);
        match found {
            Some(Ok(value)) => Ok(Async::Ready(value)),
            Some(Err(value)) => Err(value),
            None => {
                self.task = Some(task);
                Ok(Async::NotReady)
            },
        }
    }

    /// Records that the promise has settled with `result`, releases the
    /// callbacks, and returns the wake handle of the waiting task, if one
    /// waits: the caller invokes it. A settlement that comes while no
    /// callbacks are held is refused, and the adapter stays as it was.
    pub fn settle(&mut self, result: Result<T, T>) -> (woken: Result<Option<W>, ProtocolViolation>)
        ensures
            final(self).promise() == old(self).promise(),
            final(self)@.wf(),
            (final(self)@, woken) == old(self)@.settle(result),
    {
        proof {
            use_type_invariant(&*self);
        }
        if self.callbacks.is_none() {
            if self.registered {
                return Err(ProtocolViolation::AlreadySettled);
            }
            return Err(ProtocolViolation::NotRegistered);
        }
        let mut callbacks: Option<C> = None;
        core::mem::swap(&mut self.callbacks, &mut callbacks);
        let mut task: Option<W> = None;
        core::mem::swap(&mut self.task, &mut task);
        self.result = Some(result);
        Ok(task)
    }

    /// Whether callbacks were ever registered with the promise.
    pub fn registered(&self) -> (registered: bool)
        ensures
            registered == self@.registered,
            self@.wf(),
    {
        proof {
            use_type_invariant(self);
        }
        self.registered
    }

    /// Whether the adapter still holds the callbacks, which it does from
    /// registration until the promise settles.
    pub fn holds_callbacks(&self) -> (held: bool)
        ensures
            held == self@.callbacks is Some,
            self@.wf(),
    {
        proof {
            use_type_invariant(self);
        }
        self.callbacks.is_some()
    }
}

/// What a callback of the promise does when the promise settles. `state` is
/// the adapter if it still exists: a settlement that outlives its future is
/// dropped and wakes nobody.
pub fn finish<P, T, W, C>(state: Option<&mut JsFuture<P, T, W, C>>, result: Result<T, T>) -> (woken:
    Result<Option<W>, ProtocolViolation>)
    ensures
        state is None ==> woken == Ok::<Option<W>, ProtocolViolation>(None),
        state matches Some(future) ==> final(future).promise() == future.promise()
            && final(future)@.wf()
            && (final(future)@, woken) == future@.settle(result),
{
    match state {
        Some(future) => future.settle(result),
        None => Ok(None),
    }
}

impl<P, T, W, C> From<P> for JsFuture<P, T, W, C> {
    /// The adapter of `promise`. Nothing is registered until the first poll.
    fn from(promise: P) -> (future: JsFuture<P, T, W, C>)
        ensures
            future.promise() == promise,
            future@ == JsFutureView::<T, W, C>::fresh(),
            future@.wf(),
    {
        JsFuture { promise, result: None, task: None, callbacks: None, registered: false }
    }
}

impl<P, T, W, C> FromSpecImpl<P> for JsFuture<P, T, W, C> {
    open spec fn obeys_from_spec() -> bool {
        true
    }

    closed spec fn from_spec(promise: P) -> Self {
        JsFuture { promise, result: None, task: None, callbacks: None, registered: false }
    }
}

} // verus!
