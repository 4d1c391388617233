//! Verified core of two classic concurrency-coordination exercises: a
//! bounded-capacity waiting room drained by a single service provider (the
//! "sleeping barber"), and a many-reader / single-writer exclusion gate.
//!
//! The engines here are sequential state machines: every public method is one
//! atomic step of the coordination protocol, taken under the exclusion that a
//! surrounding runtime provides. The runtime (task spawning, blocking waits,
//! timed sleeps, console output) lives outside this crate; it drives the
//! engines and prints the events they return.

pub mod barber;
pub mod basics;
pub mod counter;
pub mod gate;
pub mod philosopher;
pub mod pool;
