//! Update-request input of the orchestrator.

use crate::orchestrator::sm::Event;
use crate::pldm::firmware_device::{FdEvent, FdEventSink};
use vstd::prelude::*;

verus! {

/// Holds an accepted update request until the orchestrator takes it.
///
/// It is a flag and no counter: requests that come before the flag is taken are
/// one event.
pub struct UpdateRequestLatch {
    pending: bool,
}

impl View for UpdateRequestLatch {
    type V = bool;

    /// Whether a request is pending.
    closed spec fn view(&self) -> bool {
        self.pending
    }
}

impl Default for UpdateRequestLatch {
    fn default() -> (latch: Self)
        ensures
            !latch@,
    {
        UpdateRequestLatch::new()
    }
}

impl UpdateRequestLatch {
    /// A latch with nothing pending.
    pub fn new() -> (latch: Self)
        ensures
            !latch@,
    {
        UpdateRequestLatch { pending: false }
    }

    /// Drain the latch.
    pub fn take(&mut self) -> (event: Option<Event>)
        ensures
            event == (if old(self)@ {
                Some(Event::UpdateRequest)
            } else {
                None
            }),
            !final(self)@,
    {
        if self.pending {
            self.pending = false;
            Some(Event::UpdateRequest)
        } else {
            None
        }
    }
}

/// Latches accepted update requests.
impl FdEventSink for UpdateRequestLatch {
    open spec fn notify_post(pre: Self, post: Self, event: FdEvent) -> bool {
        post@ == (pre@ || event == FdEvent::UpdateRequested)
    }

    open spec fn service_post(pre: Self, post: Self) -> bool {
        post@ == pre@
    }

    open spec fn asks_for(&self, interval: Option<u32>) -> bool {
        interval is None
    }

    fn notify(&mut self, event: FdEvent) {
        if event == FdEvent::UpdateRequested {
            self.pending = true;
        }
    }
}

/// A notified request is pending afterwards, whatever was pending before; servicing
/// changes nothing, and the latch asks for no interval.
pub proof fn the_latch_keeps_a_request(
    pre: UpdateRequestLatch,
    post: UpdateRequestLatch,
    event: FdEvent,
    interval: Option<u32>,
)
    ensures
        UpdateRequestLatch::notify_post(pre, post, event) ==> post@,
        UpdateRequestLatch::service_post(pre, post) ==> (post@ <==> pre@),
        pre.asks_for(interval) <==> interval is None,
{
}

/// A pending request is taken once: it comes out as one event, and the latch is empty
/// afterwards.
pub proof fn a_request_is_taken_once(latch: &mut UpdateRequestLatch, event: Option<Event>)
    requires
        call_ensures(UpdateRequestLatch::take, (latch,), event),
    ensures
        event is Some <==> old(latch)@,
        event matches Some(e) ==> e == Event::UpdateRequest,
        !final(latch)@,
{
}

} // verus!
