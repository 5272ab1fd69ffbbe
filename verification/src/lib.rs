//! A reusable spin barrier: a fixed number of participants repeatedly
//! synchronize at a checkpoint, and none proceeds past it until all have
//! arrived.
//!
//! The barrier is a centralized sense-reversing one: a shared counter tracks
//! how many participants have yet to arrive in the current round, and a shared
//! sense flag flips once per completed round to release the waiters.  The
//! `protocol` module states this algorithm over a mathematical model of the
//! shared state and proves the round invariants: exactly one arrival per round
//! is the leader, no waiter is released before the last arrival, and a
//! completed round leaves the state ready for the next one.

mod barrier;
pub mod protocol;

pub use barrier::Barrier;
pub use barrier::BarrierWaitResult;
