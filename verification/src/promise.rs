//! A result that is assigned at most once.

use vstd::prelude::*;

verus! {

/// The producer's end of an asynchronous result: empty until it is resolved,
/// with a value or with a failure, and unchanged from then on.
pub struct Promise<T, E> {
    pub slot: Option<Result<T, E>>,
}

impl<T, E> Promise<T, E> {
    /// No result has been assigned yet.
    pub open spec fn is_pending(self) -> bool {
        self.slot.is_none()
    }

    /// A promise without a result.
    pub fn new() -> (promise: Promise<T, E>)
        ensures
            promise.is_pending(),
    {
        Promise { slot: None }
    }

    /// Whether a result has been assigned.
    pub fn is_resolved(&self) -> (resolved: bool)
        ensures
            resolved == !self.is_pending(),
    {
        self.slot.is_some()
    }

    /// Resolves the promise if it is still pending. The first result stays:
    /// a second one is dropped, and `false` says so.
    pub fn result(&mut self, result: Result<T, E>) -> (assigned: bool)
        ensures
            assigned == old(self).is_pending(),
            assigned ==> final(self).slot == Some(result),
            !assigned ==> final(self).slot == old(self).slot,
    {
        if self.slot.is_none() {
            self.slot = Some(result);
            true
        } else {
            false
        }
    }

    /// Resolves the promise with a value.
    pub fn ok(&mut self, value: T) -> (assigned: bool)
        ensures
            assigned == old(self).is_pending(),
            assigned ==> final(self).slot == Some(Ok::<T, E>(value)),
            !assigned ==> final(self).slot == old(self).slot,
    {
        self.result(Ok(value))
    }

    /// Resolves the promise with a failure.
    pub fn err(&mut self, error: E) -> (assigned: bool)
        ensures
            assigned == old(self).is_pending(),
            assigned ==> final(self).slot == Some(Err::<T, E>(error)),
            !assigned ==> final(self).slot == old(self).slot,
    {
        self.result(Err(error))
    }

    /// The consumer's end: the result, once there is one.
    pub fn into_result(self) -> (result: Option<Result<T, E>>)
        ensures
            result == self.slot,
    {
        self.slot
    }
}

} // verus!
