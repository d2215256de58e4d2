//! Taking inputs into a future through a shared input slot, with a token that
//! travels between the future and its executor.
//!
//! The executor puts an input into the slot and resumes the future with the
//! token; each waiting request, when woken, offers what the slot holds to its
//! predicate ([`offer`]): an accepted input is taken out, a rejected one is left
//! in the slot for another request.

use vstd::prelude::*;
use crate::resumable;

verus! {

/// What the executor reports about a future that takes inputs: finished with
/// its output, or awaiting an input, with the token it handed out and the
/// handle by which it is resumed.
#[derive(Debug, PartialEq, Eq)]
pub enum FutureStatus<O, T, S> {
    Done(O),
    AwaitingInput(T, S),
}

/// The report made of a poll result.
pub open spec fn convert_status_spec<O, T, S>(res: resumable::FutureStatus<O, T, S>) -> FutureStatus<
    O,
    T,
    S,
> {
    match res {
        resumable::FutureStatus::Done(output) => FutureStatus::Done(output),
        resumable::FutureStatus::Sleeping(token, future) => FutureStatus::AwaitingInput(
            token,
            future,
        ),
    }
}

/// Turns what the executor reports into what a future that takes inputs
/// reports: a sleeping future awaits input.
pub fn convert_status<O, T, S>(res: resumable::FutureStatus<O, T, S>) -> (r: FutureStatus<O, T, S>)
    ensures
        r == convert_status_spec(res),
{
    match res {
        resumable::FutureStatus::Done(output) => FutureStatus::Done(output),
        resumable::FutureStatus::Sleeping(token, future) => FutureStatus::AwaitingInput(
            token,
            future,
        ),
    }
}

/// What a request returns, and what the input slot holds afterwards, when it
/// finds `slot` and its predicate's verdict on the input is `accepted`.
pub open spec fn offer_spec<I>(slot: Option<I>, accepted: bool) -> (Option<I>, Option<I>) {
    match slot {
        None => (None, None),
        Some(item) => if accepted {
            (Some(item), None)
        } else {
            (None, Some(item))
        },
    }
}

/// Settles an input taken out of the slot once the predicate has judged it:
/// an accepted input is returned, a rejected one is put back.
pub fn settle_offer<I>(slot: &mut Option<I>, item: I, accepted: bool) -> (r: Option<I>)
    requires
        *old(slot) is None,
    ensures
        (r, *final(slot)) == offer_spec(Some(item), accepted),
{
    if accepted {
        Some(item)
    } else {
        *slot = Some(item);
        None
    }
}

/// One wake-up of a request: takes what the slot holds, if anything, and
/// keeps it if `accept` says yes, else leaves it in the slot.
pub fn offer<I, A: Fn(&I) -> bool>(slot: &mut Option<I>, accept: &A) -> (r: Option<I>)
    requires
        forall|item: &I| accept.requires((item,)),
    ensures
        *old(slot) is None ==> r is None && *final(slot) is None,
        *old(slot) is Some ==> exists|accepted: bool|
            {
                &&& accept.ensures((&(*old(slot))->0,), accepted)
                &&& (r, *final(slot)) == offer_spec(*old(slot), accepted)
            },
{
    match slot.take() {
        None => None,
        Some(item) => {
            let accepted = accept(&item);
            settle_offer(slot, item, accepted)
        },
    }
}

/// The input slot after the executor puts `input` into it: the new input
/// alone, whatever was left there before.
pub open spec fn slot_after_deliver<I>(slot: Option<I>, input: I) -> Option<I> {
    Some(input)
}

/// Puts `input` where waiting requests look; an input left there by earlier
/// requests that all rejected it is dropped.
pub fn deliver<I>(slot: &mut Option<I>, input: I)
    ensures
        *final(slot) == slot_after_deliver(*old(slot), input),
{
    *slot = Some(input);
}

/// A left-over input is dropped when the next one arrives: whatever a request
/// then finds, takes or leaves is the new input, never the old one.
pub proof fn new_input_replaces_left_over<I>(left_over: Option<I>, input: I, accepted: bool)
    ensures
        ({
            let (taken, left) = offer_spec(slot_after_deliver(left_over, input), accepted);
            &&& taken is Some ==> taken == Some(input)
            &&& left is Some ==> left == Some(input)
            &&& taken is Some || left is Some
        }),
{
}

/// An offered input is neither lost nor duplicated: it is either returned to
/// the request, with the slot left empty, or left in the slot, with nothing
/// returned; an empty slot yields nothing.
pub proof fn offered_input_is_kept_exactly_once<I>(slot: Option<I>, accepted: bool)
    ensures
        ({
            let (taken, left) = offer_spec(slot, accepted);
            &&& slot is None ==> taken is None && left is None
            &&& slot is Some ==> (taken == slot && left is None) || (left == slot && taken is None)
        }),
{
}

/// An accepted input goes to the request; a rejected one stays in the slot for
/// another request.
pub proof fn accepted_input_is_taken_rejected_stays<I>(item: I)
    ensures
        offer_spec(Some(item), true) == (Some(item), None::<I>),
        offer_spec(Some(item), false) == (None::<I>, Some(item)),
{
}

/// A sleeping future is reported as awaiting input with the token it handed
/// out; a finished one is reported done with its output.
pub proof fn status_keeps_token_and_output<O, T, S>(output: O, token: T, future: S)
    ensures
        convert_status_spec(resumable::FutureStatus::<O, T, S>::Sleeping(token, future))
            == FutureStatus::<O, T, S>::AwaitingInput(token, future),
        convert_status_spec(resumable::FutureStatus::<O, T, S>::Done(output)) == FutureStatus::<
            O,
            T,
            S,
        >::Done(output),
{
}

} // verus!
