//! Driving futures step by step: a future sleeps by handing a value to its
//! executor, and the executor resumes it by handing a value back.
//!
//! This crate holds the verified decisions of that protocol: the one-slot
//! hand-off between a sleeping future and its executor, the future that pends
//! exactly once, what the executor reports after each poll, and how an input
//! offered to a waiting future is delivered or handed back.
//!
//! There is no combinator here that runs two requesting futures side by side
//! on one input source: such a `join` would need a driver that polls two
//! sleeping futures in turn, and no such driver is part of this crate.

pub mod input_taking;
pub mod input_taking_refmut;
pub mod poller;
pub mod resumable;
