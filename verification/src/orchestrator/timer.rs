//! Deadlines of the run loop.
//!
//! Times are ticks of a monotonic clock. The loop parks until the nearest of its
//! deadlines, and turns every deadline that has passed into a [`Wake`].

use crate::orchestrator::sm::{ComponentId, Event};
use vstd::prelude::*;

verus! {

/// The latest instant: a wait until then is a wait without end.
pub const LATEST: u64 = 0xFFFF_FFFF_FFFF_FFFF;

/// A deadline that has passed.
#[derive(Debug, Clone, Copy, PartialEq, Eq, Structural)]
pub enum Expired {
    /// The boot watchdog of a component.
    Boot(ComponentId),
    /// The commit watchdog.
    Commit,
    /// The poll cadence.
    Poll,
}

/// What a passed deadline means to the run loop.
#[derive(Debug, Clone, Copy, PartialEq, Eq, Structural)]
pub enum Wake {
    /// A watchdog fired: this goes to the orchestrator.
    Event(Event),
    /// A poll is due.
    PollDue,
}

/// The instant `after` ticks from `now`. One that cannot be represented is the
/// latest: a huge window becomes a wait without end, and never fires at once.
pub fn deadline_in(now: u64, after: u64) -> (deadline: u64)
    ensures
        deadline == (if now + after <= LATEST {
            (now + after) as u64
        } else {
            LATEST
        }),
        deadline >= now,
{
    match now.checked_add(after) {
        Some(deadline) => deadline,
        None => LATEST,
    }
}

/// The deadline for a wait, given the nearest deadline that is armed.
pub fn wait_deadline(nearest: Option<u64>) -> (deadline: u64)
    ensures
        deadline == (match nearest {
            Some(t) => t,
            None => LATEST,
        }),
{
    match nearest {
        Some(t) => t,
        None => LATEST,
    }
}

/// What a passed deadline means.
pub fn wake_for(expired: Expired) -> (wake: Wake)
    ensures
        wake == (match expired {
            Expired::Boot(id) => Wake::Event(Event::Timeout(id)),
            Expired::Commit => Wake::Event(Event::CommitTimeout),
            Expired::Poll => Wake::PollDue,
        }),
{
    match expired {
        Expired::Boot(id) => Wake::Event(Event::Timeout(id)),
        Expired::Commit => Wake::Event(Event::CommitTimeout),
        Expired::Poll => Wake::PollDue,
    }
}

/// A deadline lies exactly its window ahead, unless that cannot be represented; then it
/// is the latest instant, and no window is cut short.
pub proof fn deadlines_lie_their_window_ahead(now: u64, after: u64, deadline: u64)
    requires
        call_ensures(deadline_in, (now, after), deadline),
    ensures
        deadline - now == after || (deadline == u64::MAX && now + after > u64::MAX),
{
}

/// A wait ends at the nearest deadline, and without one it does not end.
pub proof fn waits_end_at_the_nearest_deadline(nearest: Option<u64>, deadline: u64)
    requires
        call_ensures(wait_deadline, (nearest,), deadline),
    ensures
        nearest is Some ==> nearest == Some(deadline),
        nearest is None ==> deadline == u64::MAX,
{
}

/// A watchdog that fired tells the orchestrator which one it was; the cadence only says
/// that a poll is due.
pub proof fn watchdogs_tell_their_component(id: ComponentId, expired: Expired, wake: Wake)
    requires
        call_ensures(wake_for, (expired,), wake),
    ensures
        wake == Wake::Event(Event::Timeout(id)) <==> expired == Expired::Boot(id),
        wake == Wake::Event(Event::CommitTimeout) <==> expired == Expired::Commit,
        wake == Wake::PollDue <==> expired == Expired::Poll,
{
}

} // verus!
