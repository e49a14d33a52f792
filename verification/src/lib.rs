//! Decisions behind async I/O and timers.
//!
//! An async adapter for I/O handles and a timer future spend most of their time waiting: for the
//! operating system, for the clock, for a task to be polled again. What they decide between two
//! waits is small and easy to get wrong. This crate holds those decisions, each with a contract
//! that Verus proves:
//!
//! * [`timer`]: when a [`Timer`](timer::Timer) is due, and which entries of the reactor's timer
//!   table it adds and removes.
//! * [`timer_table`]: what the entries of a timer in that table are over its whole life.
//! * [`handle`]: what an [`Async`](handle::Async) handle holds, and when it is deregistered.
//! * [`retry`]: the loop that repeats an operation until it no longer would block.
//! * [`poll_io`]: one poll of a reading, writing or flushing operation.
//! * [`fairness`] and [`optimistic`]: the random yield before an operation, and the wait that
//!   trusts the first wakeup.
//! * [`connect`] and [`accept`]: opening a connection and taking one in.
//!
//! [`time`] and [`error`] hold the points in time and the errors that these speak of.
//!
//! Everything that waits or talks to the operating system stays with the caller, which performs
//! the action it is handed and reports what came of it.

pub mod accept;
pub mod connect;
pub mod error;
pub mod fairness;
pub mod handle;
pub mod optimistic;
pub mod poll_io;
pub mod retry;
pub mod time;
pub mod timer;
pub mod timer_table;

pub use handle::Async;
pub use timer::Timer;
