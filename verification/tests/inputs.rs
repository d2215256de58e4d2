use resumable::input_taking::{self as tokened, convert_status, offer, settle_offer};
use resumable::input_taking_refmut::{
    self as refmut, judge, request_step, resume_payload, wait_payload, RequestStep,
};
use resumable::resumable::FutureStatus as Sleep;

#[derive(Clone, Debug, PartialEq)]
enum Action {
    ChooseMove(u8),
    ChooseEnergy(u16),
}

#[test]
fn judge_delivers_an_accepted_input() {
    let step = judge(5i32, "input", Some(10u8));
    assert_eq!(step, RequestStep::Deliver(5i32, 10u8));
}

#[test]
fn judge_carries_a_rejected_input_back() {
    let step = judge(5i32, "input", None::<u8>);
    assert_eq!(step, RequestStep::Wait(5i32, Some("input")));
}

#[test]
fn request_step_without_input_waits() {
    let filter = |i: u32, _: &i32| Some(i);
    let step = request_step(1i32, None, &filter);
    assert_eq!(step, RequestStep::Wait(1i32, None));
}

#[test]
fn request_step_offers_the_input_with_the_world() {
    // a player's turn only takes actions addressed to that player
    let player = 1usize;
    let filter = |(p, a): (usize, Action), w: &u32| if p == player && *w == 9 { Some(a) } else { None };
    let step = request_step(9u32, Some((1usize, Action::ChooseEnergy(34))), &filter);
    assert_eq!(step, RequestStep::Deliver(9u32, Action::ChooseEnergy(34)));
    let step = request_step(9u32, Some((7usize, Action::ChooseMove(1))), &filter);
    assert_eq!(step, RequestStep::Wait(9u32, Some((7usize, Action::ChooseMove(1)))));
}

#[test]
fn wait_payload_carries_world_input_and_hint() {
    let p = wait_payload(3u8, Some('x'), &String::from("hint"));
    assert_eq!(p, (3u8, Some('x'), Some(String::from("hint"))));
}

#[test]
fn resume_payload_has_the_input_and_no_hint() {
    let p = resume_payload::<u8, char, String>(3, 'y');
    assert_eq!(p, (3u8, Some('y'), None));
}

#[test]
fn rejected_input_is_reported_not_accepted() {
    let filter = |(p, a): (usize, Action), _: &u32| if p == 0 { Some(a) } else { None };
    let (world, input, _) = resume_payload::<u32, (usize, Action), ()>(5, (7, Action::ChooseEnergy(4)));
    let step = request_step(world, input, &filter);
    let (world, carried) = match step {
        RequestStep::Wait(w, c) => (w, c),
        RequestStep::Deliver(..) => panic!("should have rejected the input"),
    };
    let status = refmut::convert_status(Sleep::<(), _, _>::Sleeping(wait_payload(world, carried, &()), "f"));
    assert_eq!(
        status,
        refmut::FutureStatus::AwaitingInput { world: 5u32, accepted: false, future: "f", input_hint: () }
    );
}

#[test]
fn fresh_request_is_reported_accepted() {
    let status = refmut::convert_status(Sleep::<u8, _, _>::Sleeping((2i32, None::<char>, Some("hint")), 0u8));
    assert_eq!(
        status,
        refmut::FutureStatus::AwaitingInput { world: 2i32, accepted: true, future: 0u8, input_hint: "hint" }
    );
}

#[test]
fn finished_future_is_reported_done() {
    let status = refmut::convert_status(Sleep::<u8, (i32, Option<char>, Option<()>), ()>::Done(16));
    assert_eq!(status, refmut::FutureStatus::Done(16u8));
}

#[test]
fn offer_takes_an_accepted_input() {
    let mut slot = Some(4u32);
    let accept = |i: &u32| *i % 2 == 0;
    assert_eq!(offer(&mut slot, &accept), Some(4));
    assert_eq!(slot, None);
}

#[test]
fn offer_leaves_a_rejected_input_in_the_slot() {
    let mut slot = Some(5u32);
    let accept = |i: &u32| *i % 2 == 0;
    assert_eq!(offer(&mut slot, &accept), None);
    assert_eq!(slot, Some(5));
}

#[test]
fn offer_on_an_empty_slot_gives_nothing() {
    let mut slot: Option<u32> = None;
    let accept = |_: &u32| true;
    assert_eq!(offer(&mut slot, &accept), None);
    assert_eq!(slot, None);
}

#[test]
fn settle_offer_returns_or_puts_back() {
    let mut slot = None;
    assert_eq!(settle_offer(&mut slot, 'a', true), Some('a'));
    assert_eq!(slot, None);
    assert_eq!(settle_offer(&mut slot, 'b', false), None);
    assert_eq!(slot, Some('b'));
}

#[test]
fn token_status_reports_token_and_output() {
    assert_eq!(
        convert_status(Sleep::<u8, &str, i32>::Sleeping("token", 1)),
        tokened::FutureStatus::AwaitingInput("token", 1)
    );
    assert_eq!(convert_status(Sleep::<u8, &str, i32>::Done(3)), tokened::FutureStatus::Done(3u8));
}

#[test]
fn deliver_replaces_a_left_over_input() {
    let mut slot = Some(5u32);
    resumable::input_taking::deliver(&mut slot, 8);
    assert_eq!(slot, Some(8));
    let accept = |i: &u32| *i == 5;
    assert_eq!(offer(&mut slot, &accept), None);
    assert_eq!(slot, Some(8));
}
