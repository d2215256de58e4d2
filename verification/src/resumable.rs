//! The protocol between a future that sleeps and the executor that resumes it.
//!
//! A sleeping future puts a value into a shared one-slot [`Transport`] and pends
//! once ([`PendOnce`]); the executor, seeing the poll pend, takes that value out
//! and reports [`FutureStatus::Sleeping`] ([`settle`]). To resume, the executor
//! puts a value into the slot and polls again; the future, now ready, takes it.

use vstd::prelude::*;

verus! {

/// The outcome of polling a future once.
#[derive(Debug, PartialEq, Eq)]
pub enum Poll<T> {
    Ready(T),
    Pending,
}

/// What the executor reports after driving a future as far as it goes:
/// finished with its output, or asleep with the value it handed out and the
/// handle by which it can be resumed.
#[derive(Debug, PartialEq, Eq)]
pub enum FutureStatus<O, T, S> {
    Done(O),
    Sleeping(T, S),
}

/// The slot after a value is put into it: the value, whatever was there.
pub open spec fn slot_after_set<T>(slot: Option<T>, value: T) -> Option<T> {
    Some(value)
}

/// Taking from a slot: what it held, and the slot left empty.
pub open spec fn slot_take<T>(slot: Option<T>) -> (Option<T>, Option<T>) {
    (slot, None)
}

/// The one-slot hand-off between a sleeping future and its executor.
pub struct Transport<T> {
    slot: Option<T>,
}

impl<T> View for Transport<T> {
    type V = Option<T>;

    closed spec fn view(&self) -> Option<T> {
        self.slot
    }
}

impl<T> Transport<T> {
    /// An empty slot.
    pub fn new() -> (t: Self)
        ensures
            t@ is None,
    {
        Transport { slot: None }
    }

    /// Puts `value` into the slot, dropping what it held.
    pub fn set(&mut self, value: T)
        ensures
            final(self)@ == slot_after_set(old(self)@, value),
    {
        self.slot = Some(value);
    }

    /// Takes what the slot holds, leaving it empty.
    pub fn take(&mut self) -> (r: Option<T>)
        ensures
            (r, final(self)@) == slot_take(old(self)@),
    {
        self.slot.take()
    }

    /// Whether the slot holds a value.
    pub fn is_filled(&self) -> (b: bool)
        ensures
            b == self@ is Some,
    {
        self.slot.is_some()
    }
}

/// What the executor reports, and what the slot holds afterwards, once a poll
/// has given `polled`: the output if the future finished; otherwise the value
/// that the future left in the slot, which the executor takes out.
pub open spec fn settle_spec<O, T, S>(polled: Option<O>, slot: Option<T>, future: S) -> (
    FutureStatus<O, T, S>,
    Option<T>,
) {
    match polled {
        Some(output) => (FutureStatus::Done(output), slot),
        None => (FutureStatus::Sleeping(slot->0, future), None),
    }
}

/// Decides what the executor reports after polling `future` once with the
/// result `polled`. A future that pends without leaving a value in the slot
/// pended on something other than a sleep, which the protocol does not allow.
pub fn settle<O, T, S>(polled: Option<O>, transport: &mut Transport<T>, future: S) -> (r:
    FutureStatus<O, T, S>)
    requires
        polled is Some || old(transport)@ is Some,
    ensures
        (r, final(transport)@) == settle_spec(polled, old(transport)@, future),
{
    match polled {
        Some(output) => FutureStatus::Done(output),
        None => {
            let taken = transport.take();
            match taken {
                Some(value) => FutureStatus::Sleeping(value, future),
                None => unreached(),
            }
        },
    }
}

/// A future state that pends on its first poll and is ready on every later one.
pub struct PendOnce(bool);

impl View for PendOnce {
    type V = bool;

    /// Whether the first poll has happened.
    closed spec fn view(&self) -> bool {
        self.0
    }
}

/// One poll of a [`PendOnce`]: the outcome, and whether it has now been polled.
pub open spec fn pend_once_poll(polled_before: bool) -> (Poll<()>, bool) {
    if polled_before {
        (Poll::Ready(()), true)
    } else {
        (Poll::Pending, true)
    }
}

impl PendOnce {
    /// A [`PendOnce`] that has not been polled yet.
    pub fn new() -> (p: Self)
        ensures
            p@ == false,
    {
        Self(false)
    }

    /// Polls once: pending the first time, ready afterwards.
    pub fn poll(&mut self) -> (r: Poll<()>)
        ensures
            (r, final(self)@) == pend_once_poll(old(self)@),
    {
        if self.0 {
            Poll::Ready(())
        } else {
            self.0 = true;
            Poll::Pending
        }
    }
}

/// What a take gives back is exactly the value last put into the slot, and
/// the take leaves the slot empty.
pub proof fn take_gives_back_what_was_set<T>(slot: Option<T>, value: T)
    ensures
        slot_take(slot_after_set(slot, value)) == (Some(value), None::<T>),
{
}

/// Taking from a slot never makes a value up: an empty slot gives nothing.
pub proof fn take_from_empty_slot_gives_nothing<T>(slot: Option<T>)
    requires
        slot is None,
    ensures
        slot_take(slot) == (None::<T>, None::<T>),
{
}

/// A sleep round trip: the value that a future leaves in the slot before it
/// pends is the value that the executor reports it asleep with; the slot is then
/// empty; and the value that the executor resumes with is what the woken future
/// takes out.
pub proof fn sleep_round_trip<O, T, S>(slot: Option<T>, handed_out: T, resumed_with: T, future: S)
    ensures
        ({
            let (status, after) = settle_spec(None::<O>, slot_after_set(slot, handed_out), future);
            &&& status == FutureStatus::<O, T, S>::Sleeping(handed_out, future)
            &&& after is None
            &&& slot_take(slot_after_set(after, resumed_with)) == (Some(resumed_with), None::<T>)
        }),
{
}

/// A future that finished is reported done with its output, and the slot is
/// left as it was.
pub proof fn finished_future_is_done<O, T, S>(output: O, slot: Option<T>, future: S)
    ensures
        settle_spec(Some(output), slot, future) == (FutureStatus::<O, T, S>::Done(output), slot),
{
}

/// A [`PendOnce`] pends on its first poll only: every poll leaves it polled,
/// and once polled it is ready on every poll.
pub proof fn pend_once_pends_exactly_once(polled_before: bool)
    ensures
        pend_once_poll(polled_before).1,
        pend_once_poll(polled_before).0 is Pending <==> !polled_before,
        pend_once_poll(pend_once_poll(polled_before).1).0 == Poll::Ready(()),
{
}

} // verus!
