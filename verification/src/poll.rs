//! Values that cross the bridge: what one poll of a future answers, and which
//! of a promise's two callables a finished future is reported through.

use vstd::prelude::*;

verus! {

/// What a future answers to one poll when it has not failed.
#[derive(PartialEq, Eq, Debug)]
pub enum Async<T> {
    /// The future has finished with this value.
    Ready(T),
    /// The future cannot finish yet; it has arranged to be woken.
    NotReady,
}

/// The answer to one poll: a value, "not ready", or a failure.
pub type Poll<T, E> = Result<Async<T>, E>;

/// The answer with which a future finishes with `result`: a success is ready,
/// a failure is the poll's error, and the value is passed on as it is.
pub open spec fn finished<T>(result: Result<T, T>) -> Poll<T, T> {
    match result {
        Ok(value) => Ok(Async::Ready(value)),
        Err(value) => Err(value),
    }
}

/// The one-time report of a finished future to the promise that stands for it.
#[derive(PartialEq, Eq, Debug)]
pub enum Settlement<T> {
    /// Fulfil the promise with this value.
    Resolve(T),
    /// Reject the promise with this value.
    Reject(T),
}

impl<T> Settlement<T> {
    /// The value carried to the host, whichever callable receives it.
    pub open spec fn value(self) -> T {
        match self {
            Settlement::Resolve(v) => v,
            Settlement::Reject(v) => v,
        }
    }

    /// The settlement that reports `result`: success resolves, failure rejects,
    /// and the value is passed on as it is.
    pub open spec fn of(result: Result<T, T>) -> Settlement<T> {
        match result {
            Ok(v) => Settlement::Resolve(v),
            Err(e) => Settlement::Reject(e),
        }
    }

    /// The argument list with which the chosen callable is invoked: the value,
    /// alone.
    pub fn into_args(self) -> (args: Vec<T>)
        ensures
            args@ == seq![self.value()],
    {
        let mut args: Vec<T> = Vec::new();
        match self {
            Settlement::Resolve(v) => args.push(v),
            Settlement::Reject(v) => args.push(v),
        }
        args
    }
}

} // verus!
