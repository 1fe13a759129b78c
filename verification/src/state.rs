//! The raw state that the future engine reports, the logical state that a
//! consumer sees, and the startup policy.

use vstd::prelude::*;

verus! {

/// The logical state of a cache cell.
///
/// It is derived from the engine's raw state and the outdated flag each time it
/// is asked for, and never stored.
#[derive(Clone, Copy, Debug, PartialEq, Eq, Structural)]
pub enum FutureState {
    /// No run of the producer has completed yet.
    Empty,
    /// The last run succeeded and its value is fresh.
    Ready,
    /// The last run failed and nothing marks its result as stale.
    Error,
    /// A result is held, and the flag marks it as stale.
    Outdated,
    /// A result is held while a new run is in flight.
    Reloading,
}

/// Whether a cell starts its life marked as outdated.
#[derive(Clone, Copy, Debug, PartialEq, Eq, Structural)]
pub enum StartupGuard {
    /// Start fresh: the flag is clear.
    Disable,
    /// Start stale: the flag is set.
    Enable,
}

impl StartupGuard {
    /// The value that the outdated flag of a new cell gets under this policy.
    pub open spec fn initial_flag(self) -> bool {
        self == StartupGuard::Enable
    }

    /// Computes the value that the outdated flag of a new cell gets.
    pub fn starts_outdated(&self) -> (flag: bool)
        ensures
            flag == self.initial_flag(),
    {
        match self {
            StartupGuard::Enable => true,
            StartupGuard::Disable => false,
        }
    }
}

/// The state of the engine's cell: how far the producer has come, and the last
/// result it completed with.
///
/// A result is held exactly when the state is not `Pending`.
pub enum RawState<'a, T, E> {
    /// No run has completed; the cell holds nothing.
    Pending,
    /// The last run completed with this result and none is in flight.
    Complete(&'a Result<T, E>),
    /// A new run is in flight; this is the result of the run before it.
    Reloading(&'a Result<T, E>),
}

impl<'a, T, E> Clone for RawState<'a, T, E> {
    /// Copies the state; a held result is shared, not copied.
    fn clone(&self) -> (copy: Self)
        ensures
            copy == *self,
    {
        match self {
            RawState::Pending => RawState::Pending,
            RawState::Complete(result) => RawState::Complete(*result),
            RawState::Reloading(result) => RawState::Reloading(*result),
        }
    }
}

impl<'a, T, E> Copy for RawState<'a, T, E> {

}

impl<'a, T, E> RawState<'a, T, E> {
    /// The result that the cell holds, if any run has completed.
    pub open spec fn held(self) -> Option<&'a Result<T, E>> {
        match self {
            RawState::Pending => None,
            RawState::Complete(result) => Some(result),
            RawState::Reloading(result) => Some(result),
        }
    }

    /// The value of the last run, if that run succeeded.
    pub open spec fn last_success(self) -> Option<&'a T> {
        match self.held() {
            Some(Ok(value)) => Some(value),
            _ => None,
        }
    }

    /// The state that the engine shows once it has started a new run on top
    /// of this one: a held result is kept and marked as being replaced.
    pub open spec fn reloading(self) -> RawState<'a, T, E> {
        match self {
            RawState::Pending => RawState::Pending,
            RawState::Complete(result) => RawState::Reloading(result),
            RawState::Reloading(result) => RawState::Reloading(result),
        }
    }

    /// Returns the value of the last run, if that run succeeded.
    pub fn success(&self) -> (value: Option<&'a T>)
        ensures
            value == self.last_success(),
    {
        match self {
            RawState::Complete(Ok(value)) => Some(value),
            RawState::Reloading(Ok(value)) => Some(value),
            _ => None,
        }
    }

    /// Returns the result that the cell holds, if any run has completed.
    pub fn value(&self) -> (held: Option<&'a Result<T, E>>)
        ensures
            held == self.held(),
    {
        match self {
            RawState::Pending => None,
            RawState::Complete(result) => Some(*result),
            RawState::Reloading(result) => Some(*result),
        }
    }
}

} // verus!
