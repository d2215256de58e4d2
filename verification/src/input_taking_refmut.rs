//! Taking inputs into a future whose state (its "world") travels with every
//! sleep.
//!
//! A future asks for an input by sleeping with the payload `(world, carried,
//! Some(hint))`; the executor reports it as awaiting input ([`convert_status`])
//! and resumes it with `(world, Some(input), None)` ([`resume_payload`]). The
//! woken future offers the input to its filter ([`request_step`]): an accepted
//! input is delivered, a rejected one is carried back out with the next sleep,
//! where the executor sees it and reports it as not accepted.

use vstd::prelude::*;
use crate::resumable;

verus! {

/// What the executor reports about a future that takes inputs: finished with
/// its output, or awaiting an input, with its world, whether the last input
/// was accepted, the handle by which it is resumed, and the hint it asked with.
#[derive(Debug, PartialEq, Eq)]
pub enum FutureStatus<O, W, S, H> {
    Done(O),
    AwaitingInput { world: W, accepted: bool, future: S, input_hint: H },
}

/// What a woken request does next: deliver a part of the input to its caller,
/// or sleep again, carrying the input it could not use.
#[derive(Debug, PartialEq, Eq)]
pub enum RequestStep<W, I, P> {
    Deliver(W, P),
    Wait(W, Option<I>),
}

/// The next step of a request woken with `world` and `input`, where `verdict`
/// is what the filter made of the input.
pub open spec fn request_step_spec<W, I, P>(world: W, input: Option<I>, verdict: Option<P>) -> RequestStep<W, I, P> {
    match input {
        None => RequestStep::Wait(world, None),
        Some(item) => match verdict {
            Some(part) => RequestStep::Deliver(world, part),
            None => RequestStep::Wait(world, Some(item)),
        },
    }
}

/// Decides the next step of a request woken with `world` and the input `item`,
/// given what the filter made of it.
pub fn judge<W, I, P>(world: W, item: I, verdict: Option<P>) -> (r: RequestStep<W, I, P>)
    ensures
        r == request_step_spec(world, Some(item), verdict),
{
    match verdict {
        Some(part) => RequestStep::Deliver(world, part),
        None => RequestStep::Wait(world, Some(item)),
    }
}

/// One wake-up of a request: a present input is offered, as a clone, to
/// `filter` together with the world, and delivered if the filter takes it.
pub fn request_step<W, I: Clone, P, F: Fn(I, &W) -> Option<P>>(
    world: W,
    input: Option<I>,
    filter: &F,
) -> (r: RequestStep<W, I, P>)
    requires
        forall|item: I, w: &W| filter.requires((item, w)),
    ensures
        input is None ==> r == RequestStep::<W, I, P>::Wait(world, None),
        input is Some ==> exists|offered: I, verdict: Option<P>|
            {
                &&& cloned(input->0, offered)
                &&& filter.ensures((offered, &world), verdict)
                &&& r == request_step_spec(world, input, verdict)
            },
{
    match input {
        None => RequestStep::Wait(world, None),
        Some(item) => {
            let offered = item.clone();
            let verdict = filter(offered, &world);
            judge(world, item, verdict)
        },
    }
}

/// What a request sleeps with: its world, the input it carries back (if any),
/// and a copy of its hint.
pub fn wait_payload<W, I, H: Clone>(world: W, carried: Option<I>, hint: &H) -> (r: (
    W,
    Option<I>,
    Option<H>,
))
    ensures
        r.0 == world,
        r.1 == carried,
        r.2 is Some,
        cloned(*hint, r.2->0),
{
    (world, carried, Some(hint.clone()))
}

/// What the executor hands a future resumed with `input`: the world, the
/// input, and no hint.
pub open spec fn resume_payload_spec<W, I, H>(world: W, input: I) -> (W, Option<I>, Option<H>) {
    (world, Some(input), None)
}

/// The payload with which the executor resumes a future awaiting input.
pub fn resume_payload<W, I, H>(world: W, input: I) -> (r: (W, Option<I>, Option<H>))
    ensures
        r == resume_payload_spec::<W, I, H>(world, input),
{
    (world, Some(input), None)
}

/// The report made of a poll result: a finished future is done; a sleeping one
/// awaits input, with the world and hint it slept with, and counts as having
/// accepted the last input exactly when it carries no input back.
pub open spec fn convert_status_spec<O, W, I, H, S>(
    res: resumable::FutureStatus<O, (W, Option<I>, Option<H>), S>,
) -> FutureStatus<O, W, S, H> {
    match res {
        resumable::FutureStatus::Done(output) => FutureStatus::Done(output),
        resumable::FutureStatus::Sleeping(payload, future) => FutureStatus::AwaitingInput {
            world: payload.0,
            accepted: payload.1 is None,
            future,
            input_hint: payload.2->0,
        },
    }
}

/// Turns what the executor reports into what a future that takes inputs
/// reports. A sleeping future always carries a hint: only a request sleeps.
pub fn convert_status<O, W, I, H, S>(
    res: resumable::FutureStatus<O, (W, Option<I>, Option<H>), S>,
) -> (r: FutureStatus<O, W, S, H>)
    requires
        res matches resumable::FutureStatus::Sleeping(payload, _) ==> payload.2 is Some,
    ensures
        r == convert_status_spec(res),
{
    match res {
        resumable::FutureStatus::Done(output) => FutureStatus::Done(output),
        resumable::FutureStatus::Sleeping(payload, future) => {
            let (world, input, input_hint) = payload;
            FutureStatus::AwaitingInput {
                world,
                accepted: input.is_none(),
                future,
                input_hint: input_hint.unwrap(),
            }
        },
    }
}

/// An input that the filter rejects is carried back out with the next sleep,
/// and the executor reports it as not accepted, with the same world and the
/// hint of the request.
pub proof fn rejected_input_is_reported<O, W, I, P, H, S>(world: W, input: I, hint: H, future: S)
    ensures
        request_step_spec(world, Some(input), None::<P>) == RequestStep::<W, I, P>::Wait(
            world,
            Some(input),
        ),
        convert_status_spec(
            resumable::FutureStatus::<O, (W, Option<I>, Option<H>), S>::Sleeping(
                (world, Some(input), Some(hint)),
                future,
            ),
        ) == (FutureStatus::<O, W, S, H>::AwaitingInput {
            world,
            accepted: false,
            future,
            input_hint: hint,
        }),
{
}

/// A request that carries no input out is reported as awaiting input with the
/// last input accepted.
pub proof fn fresh_request_is_reported_accepted<O, W, I, H, S>(world: W, hint: H, future: S)
    ensures
        convert_status_spec(
            resumable::FutureStatus::<O, (W, Option<I>, Option<H>), S>::Sleeping(
                (world, None, Some(hint)),
                future,
            ),
        ) == (FutureStatus::<O, W, S, H>::AwaitingInput {
            world,
            accepted: true,
            future,
            input_hint: hint,
        }),
{
}

/// An input handed to a waiting future reaches its filter with the world it was
/// resumed with: what the filter accepts is delivered, what it rejects is kept.
pub proof fn resumed_input_reaches_the_filter<W, I, P, H>(world: W, input: I, verdict: Option<P>)
    ensures
        ({
            let payload = resume_payload_spec::<W, I, H>(world, input);
            request_step_spec(payload.0, payload.1, verdict) == match verdict {
                Some(part) => RequestStep::<W, I, P>::Deliver(world, part),
                None => RequestStep::<W, I, P>::Wait(world, Some(input)),
            }
        }),
{
}

/// A rejected input is handed back to the executor and goes no further: the
/// report does not depend on which input was carried, and the next resumption
/// offers only the input it brings.
pub proof fn carried_input_is_dropped_on_resume<O, W, I, P, H, S>(
    world: W,
    carried: I,
    other: I,
    hint: H,
    future: S,
    resumed_world: W,
    input: I,
    verdict: Option<P>,
)
    ensures
        convert_status_spec(
            resumable::FutureStatus::<O, (W, Option<I>, Option<H>), S>::Sleeping(
                (world, Some(carried), Some(hint)),
                future,
            ),
        ) == convert_status_spec(
            resumable::FutureStatus::<O, (W, Option<I>, Option<H>), S>::Sleeping(
                (world, Some(other), Some(hint)),
                future,
            ),
        ),
        ({
            let payload = resume_payload_spec::<W, I, H>(resumed_world, input);
            request_step_spec(payload.0, payload.1, verdict) == request_step_spec(
                resumed_world,
                Some(input),
                verdict,
            )
        }),
{
}

/// A future that finished is reported done with its output.
pub proof fn finished_future_is_reported_done<O, W, I, H, S>(output: O)
    ensures
        convert_status_spec(
            resumable::FutureStatus::<O, (W, Option<I>, Option<H>), S>::Done(output),
        ) == FutureStatus::<O, W, S, H>::Done(output),
{
}

} // verus!
