//! The lifecycle event queue over a kernel channel.
//!
//! Waiting on the channel and reading it belong to the platform. This module
//! holds what the queue buffers, and decides when the channel is to be read and
//! what becomes of a message that came from it.

use crate::ipc_event_queue::PendingQueue;
use crate::lifecycle::api::Event;
use crate::lifecycle::wire;
use vstd::prelude::*;

verus! {

/// How many follow-up events are buffered. A handler emits at most one per step;
/// the rest is headroom.
pub const PENDING_CAPACITY: usize = 4;

/// Size of the buffer for one message of the channel.
pub const READ_BUFFER_LEN: usize = 16;

/// The buffer of follow-up events is full.
#[derive(Debug, Clone, Copy, PartialEq, Eq, Structural)]
pub struct ResourceExhausted;

/// What a blocking receive does next.
#[derive(Debug, Clone, Copy, PartialEq, Eq, Structural)]
pub enum RecvAction {
    /// Return this event.
    Deliver(Event),
    /// Wait for the channel, read one message, and hand it to
    /// [`IpcEventQueue::on_message`].
    WaitForChannel,
}

/// Event queue over a channel: follow-up events are buffered in process, and
/// outside events come from the channel.
pub struct IpcEventQueue {
    ipc_handle: u32,
    pending: PendingQueue<Event, 4>,
}

impl View for IpcEventQueue {
    type V = Seq<Event>;

    /// The buffered events, oldest first.
    closed spec fn view(&self) -> Seq<Event> {
        self.pending@
    }
}

impl IpcEventQueue {
    /// The channel of the queue.
    pub closed spec fn handle_spec(&self) -> u32 {
        self.ipc_handle
    }

    /// A queue over a channel handle.
    pub fn new(ipc_handle: u32) -> (q: Self)
        ensures
            q@ == Seq::<Event>::empty(),
            q.handle_spec() == ipc_handle,
    {
        IpcEventQueue { ipc_handle, pending: PendingQueue::new() }
    }

    /// The channel handle.
    pub fn handle(&self) -> (handle: u32)
        ensures
            handle == self.handle_spec(),
    {
        self.ipc_handle
    }

    /// Start a blocking receive: a buffered event is delivered ahead of anything
    /// from the channel.
    pub fn begin_recv(&mut self) -> (action: RecvAction)
        ensures
            final(self).handle_spec() == old(self).handle_spec(),
            if old(self)@.len() > 0 {
                &&& action == RecvAction::Deliver(old(self)@[0])
                &&& final(self)@ == old(self)@.skip(1)
            } else {
                &&& action == RecvAction::WaitForChannel
                &&& final(self)@ == old(self)@
            },
    {
        match self.pending.pop() {
            Some(event) => RecvAction::Deliver(event),
            None => RecvAction::WaitForChannel,
        }
    }

    /// Go on with a blocking receive after the channel gave `message`. A message
    /// that is not an event is dropped, and the wait goes on.
    pub fn on_message(&self, message: &[u8]) -> (action: RecvAction)
        ensures
            action == (match Event::parse(message@) {
                Ok(event) => RecvAction::Deliver(event),
                Err(_) => RecvAction::WaitForChannel,
            }),
    {
        match wire::decode_event(message) {
            Ok(event) => RecvAction::Deliver(event),
            Err(_) => RecvAction::WaitForChannel,
        }
    }

    /// Buffer a follow-up event. A full buffer refuses it.
    pub fn push(&mut self, event: Event) -> (r: Result<(), ResourceExhausted>)
        ensures
            final(self).handle_spec() == old(self).handle_spec(),
            if old(self)@.len() < PENDING_CAPACITY {
                &&& r is Ok
                &&& final(self)@ == old(self)@.push(event)
            } else {
                &&& r == Err::<(), ResourceExhausted>(ResourceExhausted)
                &&& final(self)@ == old(self)@
            },
    {
        match self.pending.push(event) {
            Ok(()) => Ok(()),
            Err(_) => Err(ResourceExhausted),
        }
    }

    /// Take a buffered event without touching the channel.
    pub fn try_recv(&mut self) -> (r: Option<Event>)
        ensures
            final(self).handle_spec() == old(self).handle_spec(),
            if old(self)@.len() > 0 {
                &&& r == Some(old(self)@[0])
                &&& final(self)@ == old(self)@.skip(1)
            } else {
                &&& r == None::<Event>
                &&& final(self)@ == old(self)@
            },
    {
        self.pending.pop()
    }
}

/// Follow-up events come before the channel, oldest first: a blocking receive turns to
/// the channel exactly where nothing is buffered.
pub proof fn follow_ups_come_first(q: &mut IpcEventQueue, action: RecvAction)
    requires
        call_ensures(IpcEventQueue::begin_recv, (q,), action),
    ensures
        action == RecvAction::WaitForChannel <==> old(q)@.len() == 0,
        action matches RecvAction::Deliver(event) ==> old(q)@ == seq![event] + final(q)@,
        old(q)@.len() == 0 ==> final(q)@.len() == 0,
        final(q).handle_spec() == old(q).handle_spec(),
{
}

/// Taking an event without blocking gives the oldest one that is buffered, and never
/// looks at the channel.
pub proof fn the_oldest_follow_up_is_taken(q: &mut IpcEventQueue, r: Option<Event>)
    requires
        call_ensures(IpcEventQueue::try_recv, (q,), r),
    ensures
        r is None <==> old(q)@.len() == 0,
        r matches Some(event) ==> old(q)@ == seq![event] + final(q)@,
        r is None ==> final(q)@.len() == 0,
{
}

/// Four follow-up events are kept, in their order; a fifth is refused.
pub proof fn four_follow_ups_are_kept(
    q: &mut IpcEventQueue,
    event: Event,
    r: Result<(), ResourceExhausted>,
)
    requires
        call_ensures(IpcEventQueue::push, (q, event), r),
    ensures
        r is Ok <==> old(q)@.len() < 4,
        r is Ok ==> final(q)@ == old(q)@ + seq![event],
        r is Err ==> final(q)@ == old(q)@,
{
}

/// A message of the channel is delivered where it is an event, and skipped otherwise.
pub proof fn messages_are_events_or_skipped(
    q: IpcEventQueue,
    message: &[u8],
    event: Event,
    action: RecvAction,
)
    requires
        call_ensures(IpcEventQueue::on_message, (&q, message), action),
    ensures
        message@ == event.wire() ==> action == RecvAction::Deliver(event),
        action == RecvAction::WaitForChannel <==> Event::parse(message@) is Err,
{
    wire::messages_round_trip(
        event,
        wire::Request::QueryState,
        wire::Response::Rejected,
        Seq::empty(),
    );
    assert(event.wire() + Seq::empty() =~= event.wire());
}

} // verus!
