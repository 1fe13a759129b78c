//! The rules of the cache cell, on one observation of it.
//!
//! A [`Snapshot`] is what the cell shows at one instant: the engine's raw
//! state and the outdated flag. Every rule of the cell is a function of such a
//! pair, so each rule is stated and proved here on plain values.

use vstd::pervasive::cloned;
use vstd::prelude::*;
use crate::state::{FutureState, RawState, StartupGuard};

verus! {

/// One observation of a cache cell.
pub struct Snapshot<'a, T, E> {
    /// The raw state that the engine reported.
    pub raw: RawState<'a, T, E>,
    /// The outdated flag.
    pub outdated: bool,
}

impl<'a, T, E> Clone for Snapshot<'a, T, E> {
    /// Copies the observation; a held result is shared, not copied.
    fn clone(&self) -> (copy: Self)
        ensures
            copy == *self,
    {
        Snapshot { raw: self.raw, outdated: self.outdated }
    }
}

impl<'a, T, E> Copy for Snapshot<'a, T, E> {

}

impl<'a, T, E> Snapshot<'a, T, E> {
    /// The cell as it is made: nothing is held, and the startup policy
    /// decides the flag.
    pub open spec fn initial(startup_guard: StartupGuard) -> Snapshot<'a, T, E> {
        Snapshot { raw: RawState::Pending, outdated: startup_guard.initial_flag() }
    }

    /// The logical state.
    ///
    /// A pending cell is `Empty` and a cell with a run in flight is
    /// `Reloading`, whatever the flag says. A cell with a completed run and no
    /// run in flight is `Outdated` if the flag is set, else `Ready` or `Error`
    /// by the result it holds.
    pub open spec fn state(self) -> FutureState {
        match self.raw {
            RawState::Pending => FutureState::Empty,
            RawState::Reloading(_) => FutureState::Reloading,
            RawState::Complete(result) => if self.outdated {
                FutureState::Outdated
            } else if result is Ok {
                FutureState::Ready
            } else {
                FutureState::Error
            },
        }
    }

    /// The value that a read exposes.
    ///
    /// A strict read exposes the value of a `Ready` cell and nothing else. A
    /// read that allows the cache exposes the value of the last successful
    /// run whenever the cell holds one, stale or not.
    pub open spec fn visible(self, allow_cache_while_reloading: bool) -> Option<&'a T> {
        if allow_cache_while_reloading || self.state() == FutureState::Ready {
            self.raw.last_success()
        } else {
            None
        }
    }

    /// Whether a restart request is honoured: a completed result is held and
    /// no run is in flight.
    pub open spec fn restartable(self) -> bool {
        self.raw is Complete
    }

    /// The cell after a restart request.
    ///
    /// A request that is honoured clears the flag and has the engine start a
    /// new run on top of the held result. Any other request changes nothing.
    pub open spec fn restarted(self) -> Snapshot<'a, T, E> {
        if self.restartable() {
            Snapshot { raw: self.raw.reloading(), outdated: false }
        } else {
            self
        }
    }

    /// The cell after a fetch request: a restart request if the flag is set,
    /// nothing otherwise.
    pub open spec fn fetched(self) -> Snapshot<'a, T, E> {
        if self.outdated {
            self.restarted()
        } else {
            self
        }
    }

    /// The cell after it was invalidated: the flag is set and the engine is
    /// left alone.
    pub open spec fn invalidated(self) -> Snapshot<'a, T, E> {
        Snapshot { raw: self.raw, outdated: true }
    }

    /// Derives the logical state from the raw state and the flag.
    pub fn check_state(&self) -> (state: FutureState)
        ensures
            state == self.state(),
    {
        let provisional = match self.raw {
            RawState::Pending => FutureState::Empty,
            RawState::Complete(Ok(_)) => FutureState::Ready,
            RawState::Complete(Err(_)) => FutureState::Error,
            RawState::Reloading(_) => FutureState::Reloading,
        };
        if (provisional == FutureState::Ready || provisional == FutureState::Error)
            && self.outdated {
            return FutureState::Outdated;
        }
        provisional
    }

    /// Reads the cached value under the given policy.
    ///
    /// With `allow_cache_while_reloading` clear the read is strict: a set flag
    /// hides the value, and so does every state but `Ready`. With it set, the
    /// value of the last successful run is shown while a new run is in flight,
    /// and also when the flag marks it as stale.
    pub fn read(&self, allow_cache_while_reloading: bool) -> (value: Option<&'a T>)
        ensures
            value == self.visible(allow_cache_while_reloading),
    {
        if !allow_cache_while_reloading {
            if self.outdated {
                return None;
            }
            match self.check_state() {
                FutureState::Ready => self.raw.success(),
                FutureState::Empty
                | FutureState::Reloading
                | FutureState::Error
                | FutureState::Outdated => None,
            }
        } else {
            match self.check_state() {
                FutureState::Empty | FutureState::Error => None,
                FutureState::Ready | FutureState::Reloading => self.raw.success(),
                FutureState::Outdated => match self.raw {
                    RawState::Complete(Ok(value)) => Some(value),
                    _ => None,
                },
            }
        }
    }

    /// Reads as [`Snapshot::read`] does and hands out a copy of the value.
    pub fn read_clone(&self, allow_cache_while_reloading: bool) -> (value: Option<T>) where
        T: Clone,

        ensures
            value is Some <==> self.visible(allow_cache_while_reloading) is Some,
            value is Some ==> cloned(
                *self.visible(allow_cache_while_reloading).unwrap(),
                value.unwrap(),
            ),
    {
        self.read(allow_cache_while_reloading).cloned()
    }

    /// Returns the result that the engine holds, with no policy applied.
    pub fn read_unchecked(&self) -> (held: Option<&'a Result<T, E>>)
        ensures
            held == self.raw.held(),
    {
        self.raw.value()
    }

    /// Returns the outdated flag.
    pub fn is_outdated(&self) -> (flag: bool)
        ensures
            flag == self.outdated,
    {
        self.outdated
    }

    /// Plays a restart request on the observation and says whether the engine
    /// has to start a new run.
    ///
    /// In the states `Empty` and `Reloading` nothing changes and the answer is
    /// `false`. In every other state the flag is cleared, the raw state
    /// becomes `Reloading` over the held result, and the answer is `true`.
    pub fn restart(&mut self) -> (started: bool)
        ensures
            started == old(self).restartable(),
            *final(self) == old(self).restarted(),
    {
        let state = self.check_state();
        if state == FutureState::Empty || state == FutureState::Reloading {
            return false;
        }
        self.outdated = false;
        if let RawState::Complete(result) = self.raw {
            self.raw = RawState::Reloading(result);
        }
        true
    }

    /// Plays a fetch request on the observation: a restart request if the
    /// flag is set, nothing otherwise. Says whether the engine has to start a
    /// new run.
    pub fn fetch(&mut self) -> (started: bool)
        ensures
            started == (old(self).outdated && old(self).restartable()),
            *final(self) == old(self).fetched(),
    {
        if self.is_outdated() {
            self.restart()
        } else {
            false
        }
    }

    /// Sets the outdated flag and leaves the raw state alone.
    pub fn set_outdated(&mut self)
        ensures
            *final(self) == old(self).invalidated(),
    {
        self.outdated = true;
    }
}

} // verus!
