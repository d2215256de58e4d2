# resumable

Driving futures step by step: a future sleeps by handing a value to its
executor, and the executor resumes it by handing a value back.

- `src/` (verified with Verus): the one-slot hand-off between a sleeping future
  and its executor (`resumable::Transport`), the state that pends exactly once
  (`resumable::PendOnce`), what the executor reports after a poll
  (`resumable::settle`), the poller that holds the future being driven
  (`poller::Poller`), and how inputs offered to waiting futures are delivered,
  carried back or reported (`input_taking`, `input_taking_refmut`).
- `app/` (plain Rust): the poll itself (the future's own `Future` impl, with
  the no-op waker of `futures`), and the `async` plumbing around those
  decisions: `run`,
  `SleepingFuture::resume`, `SleepingPill::sleep`, `InputSource::request_input`,
  `InputStarvedFuture::resume_with`, and the shared slots (`Rc<RefCell<..>>`,
  `ghost_cell::GhostCell`) that a future and its executor both hold.
