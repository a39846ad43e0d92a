//! The firmware device's end of the channel to its supervisor.
//!
//! The channel is serviced from within the terminus loop, so nothing here
//! blocks: one pass answers at most one request. Channel calls and the state
//! behind the requests belong to the platform. [`ServicePass`] decides what a
//! pass does next.

use crate::orchestrator::notify::Pending;
use crate::pldm::firmware_device::FdEvent;
use vstd::prelude::*;

verus! {

/// The channel to one supervisor.
pub struct NotifyChannel {
    channel: u32,
    max_service_interval_millis: u32,
}

/// What a [`NotifyChannel`] holds.
pub struct NotifyChannelView {
    pub channel: u32,
    pub max_service_interval_millis: u32,
}

impl View for NotifyChannel {
    type V = NotifyChannelView;

    closed spec fn view(&self) -> NotifyChannelView {
        NotifyChannelView {
            channel: self.channel,
            max_service_interval_millis: self.max_service_interval_millis,
        }
    }
}

impl NotifyChannel {
    /// Bind to a channel whose supervisor waits no longer than the deadline that
    /// the servicing interval is made for.
    pub fn new(channel: u32, max_service_interval_millis: u32) -> (c: Self)
        ensures
            c@ == (NotifyChannelView { channel, max_service_interval_millis }),
    {
        NotifyChannel { channel, max_service_interval_millis }
    }

    /// The channel handle.
    pub fn channel(&self) -> (channel: u32)
        ensures
            channel == self@.channel,
    {
        self.channel
    }

    /// What a notification of the update state machine latches for the
    /// supervisor.
    pub fn pending_for(&self, event: FdEvent) -> (pending: Option<Pending>)
        ensures
            pending == (match event {
                FdEvent::UpdateRequested => Some(Pending::UpdateRequested),
            }),
    {
        match event {
            FdEvent::UpdateRequested => Some(Pending::UpdateRequested),
        }
    }

    /// The channel whose peer is to be nudged after something was latched: a
    /// supervisor that has not subscribed is never signalled.
    pub fn latch(&self, notify_armed: bool) -> (nudge: Option<u32>)
        ensures
            nudge == (if notify_armed {
                Some(self@.channel)
            } else {
                None
            }),
    {
        if notify_armed {
            Some(self.channel)
        } else {
            None
        }
    }

    /// The servicing interval that the supervisor's deadline asks for.
    pub fn max_service_interval_millis(&self) -> (interval: Option<u32>)
        ensures
            interval == Some(self@.max_service_interval_millis),
    {
        Some(self.max_service_interval_millis)
    }
}

/// What happened in a pass.
#[derive(Debug, Clone, Copy, PartialEq, Eq, Structural)]
pub enum ServiceEvent {
    /// The channel was asked without waiting; this says whether a request is
    /// there.
    Waited { ready: bool },
    /// A request was read, with its size, or the read failed.
    ReadDone(Option<usize>),
    /// The operation of the request was looked at; this says whether it is a
    /// poll.
    Peeked { poll: bool },
    /// The request was dispatched, and the response has this size.
    Dispatched { len: usize },
    /// The response was sent, or not.
    Responded { ok: bool },
}

/// What a pass does next.
#[derive(Debug, Clone, Copy, PartialEq, Eq, Structural)]
pub enum ServiceAction {
    /// See whether a request is there, without waiting.
    Wait,
    /// Read the request.
    Read,
    /// Look at the operation in the first `len` bytes of the request buffer.
    Peek { len: usize },
    /// With `clear_signal`, take the nudge back first; then dispatch the
    /// request. The order matters: what is latched in between raises the nudge
    /// again.
    Dispatch { clear_signal: bool },
    /// Send the first `len` bytes of the response buffer.
    Respond { len: usize },
    /// The pass is over; this says whether a request was answered.
    Done { answered: bool },
}

/// What a pass waits for.
#[derive(Debug, Clone, Copy, PartialEq, Eq, Structural)]
pub enum ServicePhase {
    Waiting,
    Reading,
    Peeking,
    Dispatching,
    Responding,
    Over,
}

/// Decisions of one pass over the channel.
pub struct ServicePass {
    phase: ServicePhase,
    buf_len: usize,
}

/// What a [`ServicePass`] holds.
pub struct ServiceView {
    pub phase: ServicePhase,
    pub buf_len: usize,
}

impl View for ServicePass {
    type V = ServiceView;

    closed spec fn view(&self) -> ServiceView {
        ServiceView { phase: self.phase, buf_len: self.buf_len }
    }
}

impl ServiceView {
    pub open spec fn at(self, phase: ServicePhase, action: ServiceAction) -> (
        ServiceView,
        ServiceAction,
    ) {
        (ServiceView { phase, ..self }, action)
    }

    /// End the pass.
    pub open spec fn over(self, answered: bool) -> (ServiceView, ServiceAction) {
        self.at(ServicePhase::Over, ServiceAction::Done { answered })
    }

    /// Where a pass goes, and what it does, when it is told an event. Sizes that
    /// do not fit the buffers end the pass, as does an event out of turn.
    pub open spec fn next(self, event: ServiceEvent) -> (ServiceView, ServiceAction) {
        match (self.phase, event) {
            (ServicePhase::Waiting, ServiceEvent::Waited { ready: true }) => self.at(
                ServicePhase::Reading,
                ServiceAction::Read,
            ),
            (ServicePhase::Reading, ServiceEvent::ReadDone(Some(len))) => if len <= self.buf_len {
                self.at(ServicePhase::Peeking, ServiceAction::Peek { len })
            } else {
                self.over(false)
            },
            (ServicePhase::Peeking, ServiceEvent::Peeked { poll }) => self.at(
                ServicePhase::Dispatching,
                ServiceAction::Dispatch { clear_signal: poll },
            ),
            (ServicePhase::Dispatching, ServiceEvent::Dispatched { len }) => if len
                <= self.buf_len {
                self.at(ServicePhase::Responding, ServiceAction::Respond { len })
            } else {
                self.over(false)
            },
            (ServicePhase::Responding, ServiceEvent::Responded { ok }) => self.over(ok),
            _ => self.over(false),
        }
    }
}

impl ServicePass {
    /// A pass with buffers of `buf_len` bytes: [`ServiceAction::Wait`] is the
    /// first thing to do.
    pub fn new(buf_len: usize) -> (p: Self)
        ensures
            p@ == (ServiceView { phase: ServicePhase::Waiting, buf_len }),
    {
        ServicePass { phase: ServicePhase::Waiting, buf_len }
    }

    fn over(&mut self, answered: bool) -> (action: ServiceAction)
        ensures
            (final(self)@, action) == old(self)@.over(answered),
    {
        self.phase = ServicePhase::Over;
        ServiceAction::Done { answered }
    }

    /// Tell the pass what happened, and learn what to do next.
    pub fn step(&mut self, event: ServiceEvent) -> (action: ServiceAction)
        ensures
            (final(self)@, action) == old(self)@.next(event),
    {
        match (self.phase, event) {
            (ServicePhase::Waiting, ServiceEvent::Waited { ready }) => {
                if !ready {
                    return self.over(false);
                }
                self.phase = ServicePhase::Reading;
                ServiceAction::Read
            },
            (ServicePhase::Reading, ServiceEvent::ReadDone(read)) => match read {
                Some(len) => {
                    if len > self.buf_len {
                        return self.over(false);
                    }
                    self.phase = ServicePhase::Peeking;
                    ServiceAction::Peek { len }
                },
                None => self.over(false),
            },
            (ServicePhase::Peeking, ServiceEvent::Peeked { poll }) => {
                self.phase = ServicePhase::Dispatching;
                ServiceAction::Dispatch { clear_signal: poll }
            },
            (ServicePhase::Dispatching, ServiceEvent::Dispatched { len }) => {
                if len > self.buf_len {
                    return self.over(false);
                }
                self.phase = ServicePhase::Responding;
                ServiceAction::Respond { len }
            },
            (ServicePhase::Responding, ServiceEvent::Responded { ok }) => self.over(ok),
            _ => self.over(false),
        }
    }
}

impl ServicePhase {
    /// How many events a pass takes at most from here.
    pub open spec fn left(self) -> nat {
        match self {
            ServicePhase::Waiting => 5,
            ServicePhase::Reading => 4,
            ServicePhase::Peeking => 3,
            ServicePhase::Dispatching => 2,
            ServicePhase::Responding => 1,
            ServicePhase::Over => 0,
        }
    }
}

/// A pass ends, and answers at most one request: every event brings it closer to
/// its end, and it reads, dispatches and responds from one phase each.
pub proof fn a_pass_answers_at_most_one(p: ServiceView, event: ServiceEvent)
    ensures
        p.phase != ServicePhase::Over ==> p.next(event).0.phase.left() < p.phase.left(),
        p.next(event).1 is Read ==> p.phase == ServicePhase::Waiting,
        p.next(event).1 is Dispatch ==> p.phase == ServicePhase::Peeking,
        p.next(event).1 is Respond ==> p.phase == ServicePhase::Dispatching,
        p.next(event).1 == (ServiceAction::Done { answered: true }) ==> p.phase
            == ServicePhase::Responding && event == (ServiceEvent::Responded { ok: true }),
{
}

/// The nudge is taken back for a poll and for nothing else, and before the poll
/// is dispatched.
pub proof fn polls_clear_the_nudge_first(p: ServiceView, poll: bool)
    requires
        p.phase == ServicePhase::Peeking,
    ensures
        p.next(ServiceEvent::Peeked { poll }).1 == (ServiceAction::Dispatch {
            clear_signal: poll,
        }),
{
}

/// What a pass hands on lies within its buffers.
pub proof fn pass_sizes_are_in_bounds(p: ServiceView, event: ServiceEvent)
    ensures
        p.next(event).1 matches ServiceAction::Peek { len } ==> len <= p.buf_len,
        p.next(event).1 matches ServiceAction::Respond { len } ==> len <= p.buf_len,
        p.next(event).0.buf_len == p.buf_len,
{
}

/// A pass in its order: a request that is there is read, looked at, dispatched and
/// answered, each with the size that was reported for it; the pass reports an answer
/// exactly where it was sent.
pub proof fn a_pass_keeps_its_order(p: ServiceView, len: usize, poll: bool, ok: bool)
    requires
        len <= p.buf_len,
    ensures
        p.phase == ServicePhase::Waiting ==> ({
            let ready = p.next(ServiceEvent::Waited { ready: true });
            ready.1 == ServiceAction::Read && ready.0.phase == ServicePhase::Reading
        }),
        p.phase == ServicePhase::Reading ==> ({
            let read = p.next(ServiceEvent::ReadDone(Some(len)));
            read.1 == (ServiceAction::Peek { len }) && read.0.phase == ServicePhase::Peeking
        }),
        p.phase == ServicePhase::Peeking ==> p.next(ServiceEvent::Peeked { poll }).0.phase
            == ServicePhase::Dispatching,
        p.phase == ServicePhase::Dispatching ==> ({
            let dispatched = p.next(ServiceEvent::Dispatched { len });
            dispatched.1 == (ServiceAction::Respond { len }) && dispatched.0.phase
                == ServicePhase::Responding
        }),
        p.phase == ServicePhase::Responding ==> ({
            let responded = p.next(ServiceEvent::Responded { ok });
            responded.1 == (ServiceAction::Done { answered: ok }) && responded.0.phase
                == ServicePhase::Over
        }),
{
}

/// What ends a pass without an answer: no request, a read that fails, a request or a
/// response that is larger than its buffer, and an event out of turn.
pub proof fn a_pass_ends_without_an_answer(p: ServiceView, event: ServiceEvent)
    ensures
        p.next(event).1 == (ServiceAction::Done { answered: false }) <==> !(match event {
            ServiceEvent::Waited { ready } => p.phase == ServicePhase::Waiting && ready,
            ServiceEvent::ReadDone(read) => p.phase == ServicePhase::Reading && (
            read matches Some(len) && len <= p.buf_len),
            ServiceEvent::Peeked { .. } => p.phase == ServicePhase::Peeking,
            ServiceEvent::Dispatched { len } => p.phase == ServicePhase::Dispatching && len
                <= p.buf_len,
            ServiceEvent::Responded { ok } => p.phase == ServicePhase::Responding && ok,
        }),
        p.next(event).1 is Done <==> p.next(event).0.phase == ServicePhase::Over,
{
}

/// A supervisor is nudged on its own channel, and only where it has subscribed.
pub proof fn only_subscribers_are_nudged(c: NotifyChannel, armed: bool, nudge: Option<u32>)
    requires
        call_ensures(NotifyChannel::latch, (&c, armed), nudge),
    ensures
        nudge is Some <==> armed,
        nudge matches Some(channel) ==> channel == c@.channel,
{
}

/// An accepted update request is what is latched for the supervisor.
pub proof fn requests_are_latched_as_requests(
    c: NotifyChannel,
    event: FdEvent,
    pending: Option<Pending>,
)
    requires
        call_ensures(NotifyChannel::pending_for, (&c, event), pending),
        event == FdEvent::UpdateRequested,
    ensures
        pending == Some(Pending::UpdateRequested),
{
}

/// A pass moves as its view foresees, at every event.
pub proof fn a_pass_moves_as_foreseen(
    p: &mut ServicePass,
    event: ServiceEvent,
    action: ServiceAction,
)
    requires
        call_ensures(ServicePass::step, (p, event), action),
    ensures
        action == old(p)@.next(event).1,
        final(p)@ == old(p)@.next(event).0,
{
}

/// A channel is signalled on the handle that it was bound to, and asks for the servicing
/// interval that it was given.
pub proof fn a_channel_keeps_what_it_was_bound_to(
    handle: u32,
    interval_millis: u32,
    c: NotifyChannel,
    channel: u32,
    interval: Option<u32>,
)
    requires
        call_ensures(NotifyChannel::new, (handle, interval_millis), c),
        call_ensures(NotifyChannel::channel, (&c,), channel),
        call_ensures(NotifyChannel::max_service_interval_millis, (&c,), interval),
    ensures
        channel == handle,
        interval == Some(interval_millis),
{
}

} // verus!
