//! Bounded round trips from the supervisor to the firmware device.
//!
//! The supervisor has deadlines of its own, so no round trip waits without end:
//! a deadline that passes is reported as a timeout, and one that cannot be
//! represented keeps the call from being made. Times are ticks of a monotonic
//! clock.

use crate::orchestrator::notify::TransportError;
use vstd::prelude::*;

verus! {

/// How a channel call ended.
#[derive(Debug, Clone, Copy, PartialEq, Eq, Structural)]
pub enum ChannelOutcome {
    /// With an answer of this size.
    Answered(usize),
    /// With its deadline.
    DeadlineExceeded,
    /// With another failure.
    Failed,
}

/// One bounded channel call per round trip.
pub struct IpcTransport {
    handle: u32,
    timeout: u64,
}

/// What an [`IpcTransport`] holds.
pub struct IpcTransportView {
    pub handle: u32,
    pub timeout: u64,
}

impl View for IpcTransport {
    type V = IpcTransportView;

    closed spec fn view(&self) -> IpcTransportView {
        IpcTransportView { handle: self.handle, timeout: self.timeout }
    }
}

impl IpcTransport {
    /// Bind to a channel, with a bound on every round trip.
    pub fn new(handle: u32, timeout: u64) -> (t: Self)
        ensures
            t@ == (IpcTransportView { handle, timeout }),
    {
        IpcTransport { handle, timeout }
    }

    /// The channel handle.
    pub fn handle(&self) -> (handle: u32)
        ensures
            handle == self@.handle,
    {
        self.handle
    }

    /// The deadline of a call that starts at `now`. Without one the call is not
    /// made.
    pub fn deadline(&self, now: u64) -> (r: Result<u64, TransportError>)
        ensures
            r == (if now + self@.timeout <= u64::MAX {
                Ok((now + self@.timeout) as u64)
            } else {
                Err(TransportError::Failed)
            }),
    {
        match now.checked_add(self.timeout) {
            Some(deadline) => Ok(deadline),
            None => Err(TransportError::Failed),
        }
    }

    /// The result of a round trip. Only a deadline that passed is a timeout.
    pub fn conclude(&self, outcome: ChannelOutcome) -> (r: Result<usize, TransportError>)
        ensures
            r == (match outcome {
                ChannelOutcome::Answered(n) => Ok(n),
                ChannelOutcome::DeadlineExceeded => Err(TransportError::Timeout),
                ChannelOutcome::Failed => Err(TransportError::Failed),
            }),
    {
        match outcome {
            ChannelOutcome::Answered(n) => Ok(n),
            ChannelOutcome::DeadlineExceeded => Err(TransportError::Timeout),
            ChannelOutcome::Failed => Err(TransportError::Failed),
        }
    }
}

/// A round trip has exactly its time, and one whose end cannot be represented is not
/// begun.
pub proof fn a_round_trip_has_its_time(t: IpcTransport, now: u64, r: Result<u64, TransportError>)
    requires
        call_ensures(IpcTransport::deadline, (&t, now), r),
    ensures
        r matches Ok(deadline) ==> deadline - now == t@.timeout,
        r is Err <==> now + t@.timeout > u64::MAX,
        r is Err ==> r == Err::<u64, TransportError>(TransportError::Failed),
{
}

/// Only a deadline that passed is a timeout, and an answer keeps its size.
pub proof fn only_a_deadline_is_a_timeout(
    t: IpcTransport,
    outcome: ChannelOutcome,
    n: usize,
    r: Result<usize, TransportError>,
)
    requires
        call_ensures(IpcTransport::conclude, (&t, outcome), r),
    ensures
        r == Err::<usize, TransportError>(TransportError::Timeout) <==> outcome
            == ChannelOutcome::DeadlineExceeded,
        r == Err::<usize, TransportError>(TransportError::Failed) <==> outcome
            == ChannelOutcome::Failed,
        r == Ok::<usize, TransportError>(n) <==> outcome == ChannelOutcome::Answered(n),
{
}

/// A transport calls on the handle that it was bound to, and its calls end after the
/// time that it was given.
pub proof fn a_transport_keeps_what_it_was_bound_to(
    handle: u32,
    timeout: u64,
    now: u64,
    t: IpcTransport,
    used: u32,
    deadline: Result<u64, TransportError>,
)
    requires
        call_ensures(IpcTransport::new, (handle, timeout), t),
        call_ensures(IpcTransport::handle, (&t,), used),
        call_ensures(IpcTransport::deadline, (&t, now), deadline),
    ensures
        used == handle,
        deadline matches Ok(end) ==> end - now == timeout,
{
}

} // verus!
