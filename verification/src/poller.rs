//! The simplest possible executor holds one future and polls it once at a time,
//! with a waker that does nothing; it does not support waking. The poll itself
//! is the future's own `Future` impl at work, so it is made by the caller
//! through [`Poller::future_mut`].

use vstd::prelude::*;
use std::future::Future;

verus! {

/// Holds the future that an executor polls.
pub struct Poller<T: Future + Unpin>(T);

impl<T: Future + Unpin> Poller<T> {
    /// The future that this poller drives.
    pub closed spec fn future(&self) -> T {
        self.0
    }

    /// A poller that drives `x`.
    pub fn new(x: T) -> (p: Self)
        ensures
            p.future() == x,
    {
        Self(x)
    }

    /// The future, to be polled in place; whatever the poll leaves it as is
    /// what the poller then holds.
    pub fn future_mut(&mut self) -> (f: &mut T)
        ensures
            *f == old(self).future(),
            final(self).future() == *final(f),
    {
        &mut self.0
    }
}

} // verus!
