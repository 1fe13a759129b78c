//! What the rules of the cell imply, for every observation and for every
//! course of events.

use vstd::prelude::*;
use crate::snapshot::Snapshot;
use crate::state::{FutureState, RawState, StartupGuard};

verus! {

/// The logical state follows the raw state, and the flag overrides it only
/// where a completed result is held and no run is in flight: `Ready` and
/// `Error` become `Outdated`, `Empty` and `Reloading` never do.
pub proof fn state_follows_table<T, E>(cell: Snapshot<T, E>)
    ensures
        cell.raw is Pending ==> cell.state() == FutureState::Empty,
        cell.raw is Reloading ==> cell.state() == FutureState::Reloading,
        cell.raw is Complete && cell.outdated ==> cell.state() == FutureState::Outdated,
        cell.raw is Complete && !cell.outdated && cell.raw.held().unwrap() is Ok ==> cell.state()
            == FutureState::Ready,
        cell.raw is Complete && !cell.outdated && cell.raw.held().unwrap() is Err ==> cell.state()
            == FutureState::Error,
        cell.state() == FutureState::Outdated <==> cell.outdated && cell.raw is Complete,
        cell.state() == FutureState::Empty <==> cell.raw is Pending,
        cell.state() == FutureState::Reloading <==> cell.raw is Reloading,
{
}

/// A strict read shows a value if and only if the logical state is `Ready`,
/// and the value it shows is the one that the engine holds.
pub proof fn strict_read_shows_ready_only<T, E>(cell: Snapshot<T, E>)
    ensures
        cell.visible(false) is Some <==> cell.state() == FutureState::Ready,
        cell.visible(false) matches Some(value) ==> cell.raw.held() matches Some(Ok(held))
            && held == value,
{
}

/// A read that allows the cache shows the value of the last successful run
/// in the states `Ready`, `Reloading` and `Outdated`, and there exactly when
/// the held result is a success. It shows nothing in the states `Empty` and
/// `Error`. The flag has no say in it.
pub proof fn lenient_read_shows_last_success<T, E>(cell: Snapshot<T, E>)
    ensures
        cell.state() == FutureState::Ready ==> cell.visible(true) is Some,
        cell.state() == FutureState::Reloading || cell.state() == FutureState::Outdated ==> (
        cell.visible(true) is Some <==> cell.raw.held().unwrap() is Ok),
        cell.state() == FutureState::Empty || cell.state() == FutureState::Error
            ==> cell.visible(true) is None,
        cell.visible(true) matches Some(value) ==> cell.raw.held() matches Some(Ok(held))
            && held == value,
        cell.visible(true) == cell.invalidated().visible(true),
{
}

/// Whatever a strict read shows, a read that allows the cache shows too.
pub proof fn strict_read_is_lenient_read<T, E>(cell: Snapshot<T, E>)
    ensures
        cell.visible(false) is Some ==> cell.visible(true) == cell.visible(false),
{
}

/// A restart request changes nothing in the states `Empty` and `Reloading`.
/// In every other state it clears the flag and leaves the cell `Reloading`
/// over the result that it held.
pub proof fn restart_clears_and_reloads<T, E>(cell: Snapshot<T, E>)
    ensures
        cell.restartable() <==> cell.state() != FutureState::Empty && cell.state()
            != FutureState::Reloading,
        !cell.restartable() ==> cell.restarted() == cell,
        cell.restartable() ==> !cell.restarted().outdated,
        cell.restartable() ==> cell.restarted().state() == FutureState::Reloading,
        cell.restarted().raw.held() == cell.raw.held(),
        cell.restarted().restarted() == cell.restarted(),
{
}

/// A fetch request is a restart request if the flag was set, and changes
/// nothing if it was clear.
pub proof fn fetch_restarts_iff_outdated<T, E>(cell: Snapshot<T, E>)
    ensures
        cell.outdated ==> cell.fetched() == cell.restarted(),
        !cell.outdated ==> cell.fetched() == cell,
        cell.state() == FutureState::Outdated ==> cell.fetched().state() == FutureState::Reloading
            && !cell.fetched().outdated,
{
}

/// Invalidating a cell turns `Ready` and `Error` into `Outdated`, leaves the
/// other states as they are and never touches the engine.
pub proof fn invalidate_marks_settled_results<T, E>(cell: Snapshot<T, E>)
    ensures
        cell.invalidated().outdated,
        cell.invalidated().raw == cell.raw,
        cell.restartable() ==> cell.invalidated().state() == FutureState::Outdated,
        !cell.restartable() ==> cell.invalidated().state() == cell.state(),
{
}

/// One thing that happens to a cell.
pub enum Event<'a, T, E> {
    /// The engine moved on by itself: a run completed, or a change of the
    /// dependencies started a new one. It now reports this raw state.
    Engine(RawState<'a, T, E>),
    /// The component asked for a restart.
    Restart,
    /// The component asked for a fetch.
    Fetch,
    /// Somebody invalidated the cell.
    Invalidate,
}

/// The cell after one event.
pub open spec fn step<'a, T, E>(cell: Snapshot<'a, T, E>, event: Event<'a, T, E>) -> Snapshot<
    'a,
    T,
    E,
> {
    match event {
        Event::Engine(raw) => Snapshot { raw, outdated: cell.outdated },
        Event::Restart => cell.restarted(),
        Event::Fetch => cell.fetched(),
        Event::Invalidate => cell.invalidated(),
    }
}

/// Whether the event is a restart or a fetch request that the cell honours.
pub open spec fn honoured<'a, T, E>(cell: Snapshot<'a, T, E>, event: Event<'a, T, E>) -> bool {
    match event {
        Event::Restart => cell.restartable(),
        Event::Fetch => cell.outdated && cell.restartable(),
        _ => false,
    }
}

/// The cell after a course of events, first to last.
pub open spec fn run<'a, T, E>(cell: Snapshot<'a, T, E>, events: Seq<Event<'a, T, E>>) -> Snapshot<
    'a,
    T,
    E,
>
    decreases events.len(),
{
    if events.len() == 0 {
        cell
    } else {
        step(run(cell, events.drop_last()), events.last())
    }
}

/// Whether the course of events holds no restart or fetch request that the
/// cell honours at the time it is made.
pub open spec fn undisturbed<'a, T, E>(
    cell: Snapshot<'a, T, E>,
    events: Seq<Event<'a, T, E>>,
) -> bool
    decreases events.len(),
{
    events.len() == 0 || (undisturbed(cell, events.drop_last()) && !honoured(
        run(cell, events.drop_last()),
        events.last(),
    ))
}

/// When a run completes, the cell settles by the result and the flag: it is
/// `Outdated` if the flag is set, else `Ready` after a success and `Error`
/// after a failure. The engine never touches the flag.
pub proof fn completion_settles_by_result_and_flag<T, E>(
    cell: Snapshot<T, E>,
    result: &Result<T, E>,
)
    ensures
        step(cell, Event::Engine(RawState::Complete(result))).outdated == cell.outdated,
        cell.outdated ==> step(cell, Event::Engine(RawState::Complete(result))).state()
            == FutureState::Outdated,
        !cell.outdated && result is Ok ==> step(
            cell,
            Event::Engine(RawState::Complete(result)),
        ).state() == FutureState::Ready,
        !cell.outdated && result is Err ==> step(
            cell,
            Event::Engine(RawState::Complete(result)),
        ).state() == FutureState::Error,
{
}

/// Only a restart or a fetch request that is honoured clears a set flag, and
/// such a request always clears it.
pub proof fn only_honoured_requests_clear<T, E>(cell: Snapshot<T, E>, event: Event<T, E>)
    requires
        cell.outdated,
    ensures
        step(cell, event).outdated <==> !honoured(cell, event),
{
}

/// A set flag stays set through every course of events, until the first
/// restart or fetch request that the cell honours.
pub proof fn flag_stays_until_honoured<T, E>(cell: Snapshot<T, E>, events: Seq<Event<T, E>>)
    requires
        cell.outdated,
        undisturbed(cell, events),
    ensures
        run(cell, events).outdated,
    decreases events.len(),
{
    if events.len() > 0 {
        flag_stays_until_honoured(cell, events.drop_last());
        only_honoured_requests_clear(run(cell, events.drop_last()), events.last());
    }
}

/// A cell made under the policy `Enable` starts with the flag set and keeps
/// it set until the first restart or fetch request that it honours. A cell
/// made under `Disable` starts with the flag clear.
pub proof fn enabled_guard_holds_until_first_restart<T, E>(events: Seq<Event<T, E>>)
    requires
        undisturbed(Snapshot::<T, E>::initial(StartupGuard::Enable), events),
    ensures
        Snapshot::<T, E>::initial(StartupGuard::Enable).outdated,
        !Snapshot::<T, E>::initial(StartupGuard::Disable).outdated,
        run(Snapshot::<T, E>::initial(StartupGuard::Enable), events).outdated,
{
    flag_stays_until_honoured(Snapshot::<T, E>::initial(StartupGuard::Enable), events);
}

} // verus!
