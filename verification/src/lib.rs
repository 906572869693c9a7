//! Synchronous generators driven by an async function.
//!
//! [`generate`] runs a closure that receives a [`Communication`] handle and
//! returns a future. Each call of [`Generator::next`] resumes that future until
//! it hands over one item through [`Communication::yield_`] or runs to its end.
//! Producer and consumer take turns on one logical thread of control: exactly
//! one item is in flight at a time, in a single-slot [`Handoff`] cell.
//!
//! The rules of the exchange are verified on plain values: what a cell does on
//! `put` and `try_take`, what one resumption of an emit comes to
//! ([`resume_emit`]) and what the driver makes of one resumption of the
//! computation ([`judge`]). The module [`protocol`] proves that the two sides,
//! used together as designed, hand every item over once and in order.
//!
//! Nothing here panics on a [`ProtocolViolation`]. An emit that is resumed
//! while the cell still holds an item marks the cell and stays suspended;
//! the generator then ends the sequence, and [`Generator::pull`] answers
//! with the violation where [`Generator::next`] answers `None`.

pub mod emit;
pub mod generator;
pub mod handoff;
pub mod protocol;
mod task;
mod trusted;
mod wake;

pub use generator::{generate, judge, spend_patience, Generator, Verdict, STALL_LIMIT};
pub use emit::{resume_emit, Communication, Progress, ProtocolViolation, YieldFuture};
pub use handoff::{AlreadyOccupied, Handoff};
