//! The rules of a stale-while-revalidate cache cell for one component.
//!
//! A component registers an asynchronous producer with a future engine and
//! gets a cell that holds the producer's last result. Beside it the component
//! keeps one boolean, the outdated flag. This crate derives from the engine's
//! raw state and the flag what the component may show and whether a new run
//! of the producer is due.
//!
//! The crate touches neither the engine nor the flag. Whoever holds the two
//! handles observes them, asks a [`Snapshot`] of what was observed, and
//! performs what it answers: the flag first, the engine second.
//!
//! - [`state`] holds the vocabulary: the engine's raw state, the logical state
//!   and the startup policy.
//! - [`snapshot`] holds the rules, on one observation of the cell.
//! - [`laws`] states what the rules imply, for every observation and for
//!   every course of events.

pub mod laws;
pub mod snapshot;
pub mod state;

pub use snapshot::Snapshot;
pub use state::{FutureState, RawState, StartupGuard};
