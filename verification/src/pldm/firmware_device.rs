//! Firmware device service.
//!
//! A firmware device answers commands of an update agent, and while an update
//! runs it sends requests of its own. Transports and the update state machine
//! belong to the platform. [`Terminus`] decides what their loop does next: it is
//! told what happened, and says what to do.

use vstd::prelude::*;

verus! {

/// Largest message, with its type byte.
pub const FD_MAX_MSG: usize = 1024;

/// Poll timeout of the responder while a request of the device is active. It is
/// short, so that the transfer keeps moving, and not zero, so that a command of
/// the update agent is seen between two requests.
pub const RESPONDER_POLL_TIMEOUT_MILLIS: u32 = 1;

/// Choose the poll timeout of the responder for one iteration.
///
/// While a request of the device is active the poll is short. Otherwise it is
/// the smaller of the timeout of the caller and the servicing interval that the
/// sink asks for. A caller whose timeout is 0 waits without end, with a sink or
/// without.
#[verifier::allow_in_spec]
pub fn responder_poll_timeout(
    initiator_active: bool,
    timeout_millis: u32,
    service_interval_millis: Option<u32>,
) -> u32
    returns
        (if initiator_active {
            RESPONDER_POLL_TIMEOUT_MILLIS
        } else {
            match service_interval_millis {
                Some(cap) => if cap < timeout_millis {
                    cap
                } else {
                    timeout_millis
                },
                None => timeout_millis,
            }
        }),
{
    if initiator_active {
        return RESPONDER_POLL_TIMEOUT_MILLIS;
    }
    match service_interval_millis {
        Some(cap) => if cap < timeout_millis {
            cap
        } else {
            timeout_millis
        },
        None => timeout_millis,
    }
}

/// Whether the sink makes a poll shorter than the caller asked for.
#[verifier::allow_in_spec]
pub fn poll_is_capped(
    initiator_active: bool,
    timeout_millis: u32,
    service_interval_millis: Option<u32>,
) -> bool
    returns
        (!initiator_active && (service_interval_millis matches Some(cap) && cap < timeout_millis)),
{
    if initiator_active {
        return false;
    }
    match service_interval_millis {
        Some(cap) => cap < timeout_millis,
        None => false,
    }
}

/// The timeout of an idle poll is never above the caller's, nor above the
/// interval that a sink asks for; and a sink never slows an active transfer
/// down.
pub proof fn the_cap_only_shortens(timeout_millis: u32, interval: Option<u32>)
    ensures
        responder_poll_timeout(false, timeout_millis, interval) <= timeout_millis,
        interval matches Some(cap) ==> responder_poll_timeout(false, timeout_millis, interval)
            <= cap,
        responder_poll_timeout(false, timeout_millis, None) == timeout_millis,
        responder_poll_timeout(true, timeout_millis, interval) == RESPONDER_POLL_TIMEOUT_MILLIS,
{
}

/// Notification out of the update state machine.
#[non_exhaustive]
#[derive(Debug, Clone, Copy, PartialEq, Eq, Structural)]
pub enum FdEvent {
    /// A request for an update was accepted, and the answer has been sent.
    UpdateRequested,
}

/// Receiver of notifications.
///
/// An implementation says by the spec predicates what its methods may do; one
/// that leaves a predicate out says nothing of the method.
pub trait FdEventSink: Sized {
    /// Whether `notify` may take `pre` to `post`.
    open spec fn notify_post(pre: Self, post: Self, event: FdEvent) -> bool {
        true
    }

    /// Whether `service` may take `pre` to `post`.
    open spec fn service_post(pre: Self, post: Self) -> bool {
        true
    }

    /// Whether a sink may ask for a servicing interval.
    open spec fn asks_for(&self, interval: Option<u32>) -> bool {
        true
    }

    /// Receive one notification.
    fn notify(&mut self, event: FdEvent)
        ensures
            Self::notify_post(*old(self), *final(self), event),
    ;

    /// Run the work that the sink owes its own peers, once per iteration of the
    /// loop. By default there is none.
    fn service(&mut self)
        ensures
            Self::service_post(*old(self), *final(self)) || *final(self) == *old(self),
    {
    }

    /// The longest time between two calls of [`service`](Self::service) in
    /// milliseconds, or `None` for no constraint, which is the default.
    fn max_service_interval_millis(&self) -> (interval: Option<u32>)
        ensures
            self.asks_for(interval) || interval is None,
    {
        None
    }
}

/// Drop notifications.
impl FdEventSink for () {
    open spec fn notify_post(pre: Self, post: Self, event: FdEvent) -> bool {
        post == pre
    }

    open spec fn asks_for(&self, interval: Option<u32>) -> bool {
        interval is None
    }

    fn notify(&mut self, _event: FdEvent) {
    }
}

/// Why a terminus loop stopped.
#[derive(Debug, Clone, Copy, PartialEq, Eq)]
pub enum TerminusError<E> {
    /// A transport or the update state machine failed.
    Service(E),
    /// The size of a response cannot be represented.
    OverflowMaxSize,
    /// A response is larger than the message buffer.
    BufferTooSmall,
    /// The loop was told something that it did not wait for.
    OutOfTurn,
}

/// Outcome of a terminus loop.
pub enum RunTerminusResult<E> {
    /// The loop ended normally. No loop does today.
    Completed,
    /// The loop was stopped by an error.
    StoppedByError(TerminusError<E>),
}

/// What happened, as the loop reports it.
pub enum TerminusEvent<E> {
    /// The responder listener was registered, or not.
    ListenerReady(Result<(), E>),
    /// The sink was serviced; this says whether the device is in initiator mode.
    Serviced { initiator_active: bool },
    /// A request of the device was generated into the message buffer, with its
    /// size, or there was none to make.
    Generated(Result<Option<usize>, E>),
    /// The request was answered, with the size of the answer behind its type
    /// byte.
    Sent(Result<usize, E>),
    /// The answer was processed.
    Processed(Result<(), E>),
    /// The servicing interval of the sink, and whether an update is in progress.
    Sampled { service_interval_millis: Option<u32>, update_mode: bool },
    /// A command of the update agent was answered; this says whether an update
    /// is in progress now.
    Answered { update_mode: bool },
    /// No command came within the poll timeout.
    TimedOut(E),
    /// The poll failed.
    PollFailed(E),
}

/// What the loop is to do next.
pub enum TerminusAction<E> {
    /// Register the responder listener.
    Listen { timeout_millis: u32 },
    /// Deliver the notification, if there is one, then service the sink.
    Service { notify: Option<FdEvent> },
    /// Generate a request of the device.
    Generate,
    /// Send the request, and wait for the answer.
    Send { remote_eid: u8, pldm_len: usize, timeout_millis: u32 },
    /// Process this many bytes of the message buffer as the answer.
    Process { len: usize },
    /// Ask the sink for its servicing interval, and see whether an update is in
    /// progress.
    Sample,
    /// Poll once for a command of the update agent, with this timeout.
    Poll { timeout_millis: u32 },
    /// Leave the loop.
    Stop(TerminusError<E>),
}

/// What a loop waits for.
#[derive(Debug, Clone, Copy, PartialEq, Eq, Structural)]
pub enum Phase {
    Listening,
    Servicing,
    Generating,
    Sending,
    Processing,
    Sampling,
    /// A poll runs. `capped` says that it is shorter than the caller's timeout
    /// because the sink asks for it.
    Polling { was_update_mode: bool, capped: bool },
    Stopped,
}

/// Decisions of a terminus loop.
pub struct Terminus {
    remote_eid: u8,
    timeout_millis: u32,
    requester_timeout_millis: u32,
    phase: Phase,
    initiator_active: bool,
}

/// What a [`Terminus`] holds.
pub struct TerminusView {
    pub remote_eid: u8,
    pub timeout_millis: u32,
    pub requester_timeout_millis: u32,
    pub phase: Phase,
    pub initiator_active: bool,
}

impl View for Terminus {
    type V = TerminusView;

    closed spec fn view(&self) -> TerminusView {
        TerminusView {
            remote_eid: self.remote_eid,
            timeout_millis: self.timeout_millis,
            requester_timeout_millis: self.requester_timeout_millis,
            phase: self.phase,
            initiator_active: self.initiator_active,
        }
    }
}

impl TerminusView {
    /// The loop with another phase.
    pub open spec fn at(self, phase: Phase) -> TerminusView {
        TerminusView { phase, ..self }
    }

    /// Leave the loop.
    pub open spec fn stop<E>(self, error: TerminusError<E>) -> (TerminusView, TerminusAction<E>) {
        (self.at(Phase::Stopped), TerminusAction::Stop(error))
    }

    /// Go on to the responder half of the iteration.
    pub open spec fn respond<E>(self) -> (TerminusView, TerminusAction<E>) {
        (self.at(Phase::Sampling), TerminusAction::Sample)
    }

    /// Begin the next iteration.
    pub open spec fn again<E>(self, notify: Option<FdEvent>) -> (TerminusView, TerminusAction<E>) {
        (self.at(Phase::Servicing), TerminusAction::Service { notify })
    }

    /// Where a loop goes, and what it does, when it is told an event.
    pub open spec fn next<E>(self, event: TerminusEvent<E>) -> (TerminusView, TerminusAction<E>) {
        match (self.phase, event) {
            (Phase::Listening, TerminusEvent::ListenerReady(r)) => match r {
                Ok(_) => self.again(None),
                Err(e) => self.stop(TerminusError::Service(e)),
            },
            (Phase::Servicing, TerminusEvent::Serviced { initiator_active }) => {
                let s = TerminusView { initiator_active, ..self };
                if initiator_active {
                    (s.at(Phase::Generating), TerminusAction::Generate)
                } else {
                    s.respond()
                }
            },
            (Phase::Generating, TerminusEvent::Generated(r)) => match r {
                Ok(Some(pldm_len)) => (
                    self.at(Phase::Sending),
                    TerminusAction::Send {
                        remote_eid: self.remote_eid,
                        pldm_len,
                        timeout_millis: self.requester_timeout_millis,
                    },
                ),
                Ok(None) => self.respond(),
                Err(e) => self.stop(TerminusError::Service(e)),
            },
            (Phase::Sending, TerminusEvent::Sent(r)) => match r {
                Ok(len) => if len == usize::MAX {
                    self.stop(TerminusError::OverflowMaxSize)
                } else if len + 1 > FD_MAX_MSG {
                    self.stop(TerminusError::BufferTooSmall)
                } else {
                    (
                        self.at(Phase::Processing),
                        TerminusAction::Process { len: (len + 1) as usize },
                    )
                },
                Err(e) => self.stop(TerminusError::Service(e)),
            },
            (Phase::Processing, TerminusEvent::Processed(r)) => match r {
                Ok(_) => self.respond(),
                Err(e) => self.stop(TerminusError::Service(e)),
            },
            (
                Phase::Sampling,
                TerminusEvent::Sampled { service_interval_millis, update_mode },
            ) => (
                self.at(
                    Phase::Polling {
                        was_update_mode: update_mode,
                        capped: poll_is_capped(
                            self.initiator_active,
                            self.timeout_millis,
                            service_interval_millis,
                        ),
                    },
                ),
                TerminusAction::Poll {
                    timeout_millis: responder_poll_timeout(
                        self.initiator_active,
                        self.timeout_millis,
                        service_interval_millis,
                    ),
                },
            ),
            (Phase::Polling { was_update_mode, .. }, TerminusEvent::Answered { update_mode }) => if
            !was_update_mode && update_mode {
                self.again(Some(FdEvent::UpdateRequested))
            } else {
                self.again(None)
            },
            (Phase::Polling { capped, .. }, TerminusEvent::TimedOut(e)) => if self.initiator_active
                || capped {
                self.again(None)
            } else {
                self.stop(TerminusError::Service(e))
            },
            (Phase::Polling { .. }, TerminusEvent::PollFailed(e)) => self.stop(
                TerminusError::Service(e),
            ),
            _ => self.stop(TerminusError::OutOfTurn),
        }
    }
}

impl Terminus {
    /// Decisions of a loop that serves the update agent at `remote_eid`. The
    /// timeouts are those of an idle poll and of a request of the device.
    pub fn new(remote_eid: u8, timeout_millis: u32, requester_timeout_millis: u32) -> (t: Self)
        ensures
            t@ == (TerminusView {
                remote_eid,
                timeout_millis,
                requester_timeout_millis,
                phase: Phase::Listening,
                initiator_active: false,
            }),
    {
        Terminus {
            remote_eid,
            timeout_millis,
            requester_timeout_millis,
            phase: Phase::Listening,
            initiator_active: false,
        }
    }

    /// The first thing to do.
    pub fn start<E>(&self) -> (action: TerminusAction<E>)
        ensures
            action == (TerminusAction::Listen::<E> { timeout_millis: self@.timeout_millis }),
    {
        TerminusAction::Listen { timeout_millis: self.timeout_millis }
    }

    /// Whether a command is to be acted on: those of other endpoints are dropped
    /// without an answer.
    pub fn accepts(&self, source_eid: u8) -> (r: bool)
        ensures
            r == (source_eid == self@.remote_eid),
    {
        source_eid == self.remote_eid
    }

    fn stop<E>(&mut self, error: TerminusError<E>) -> (action: TerminusAction<E>)
        ensures
            (final(self)@, action) == old(self)@.stop(error),
    {
        self.phase = Phase::Stopped;
        TerminusAction::Stop(error)
    }

    fn respond<E>(&mut self) -> (action: TerminusAction<E>)
        ensures
            (final(self)@, action) == old(self)@.respond::<E>(),
    {
        self.phase = Phase::Sampling;
        TerminusAction::Sample
    }

    fn again<E>(&mut self, notify: Option<FdEvent>) -> (action: TerminusAction<E>)
        ensures
            (final(self)@, action) == old(self)@.again::<E>(notify),
    {
        self.phase = Phase::Servicing;
        TerminusAction::Service { notify }
    }

    /// Tell the loop what happened, and learn what to do next.
    pub fn step<E>(&mut self, event: TerminusEvent<E>) -> (action: TerminusAction<E>)
        ensures
            (final(self)@, action) == old(self)@.next(event),
    {
        match (self.phase, event) {
            (Phase::Listening, TerminusEvent::ListenerReady(r)) => match r {
                Ok(_) => self.again(None),
                Err(e) => self.stop(TerminusError::Service(e)),
            },
            (Phase::Servicing, TerminusEvent::Serviced { initiator_active }) => {
                self.initiator_active = initiator_active;
                if initiator_active {
                    self.phase = Phase::Generating;
                    TerminusAction::Generate
                } else {
                    self.respond()
                }
            },
            (Phase::Generating, TerminusEvent::Generated(r)) => match r {
                Ok(Some(pldm_len)) => {
                    self.phase = Phase::Sending;
                    TerminusAction::Send {
                        remote_eid: self.remote_eid,
                        pldm_len,
                        timeout_millis: self.requester_timeout_millis,
                    }
                },
                Ok(None) => self.respond(),
                Err(e) => self.stop(TerminusError::Service(e)),
            },
            (Phase::Sending, TerminusEvent::Sent(r)) => match r {
                Ok(resp_len) => match resp_len.checked_add(1) {
                    None => self.stop(TerminusError::OverflowMaxSize),
                    Some(total) => if total > FD_MAX_MSG {
                        self.stop(TerminusError::BufferTooSmall)
                    } else {
                        self.phase = Phase::Processing;
                        TerminusAction::Process { len: total }
                    },
                },
                Err(e) => self.stop(TerminusError::Service(e)),
            },
            (Phase::Processing, TerminusEvent::Processed(r)) => match r {
                Ok(_) => self.respond(),
                Err(e) => self.stop(TerminusError::Service(e)),
            },
            (
                Phase::Sampling,
                TerminusEvent::Sampled { service_interval_millis, update_mode },
            ) => {
                let timeout_millis: u32 = responder_poll_timeout(
                    self.initiator_active,
                    self.timeout_millis,
                    service_interval_millis,
                );
                let capped: bool = poll_is_capped(
                    self.initiator_active,
                    self.timeout_millis,
                    service_interval_millis,
                );
                self.phase = Phase::Polling { was_update_mode: update_mode, capped };
                TerminusAction::Poll { timeout_millis }
            },
            (Phase::Polling { was_update_mode, .. }, TerminusEvent::Answered { update_mode }) => {
                if !was_update_mode && update_mode {
                    self.again(Some(FdEvent::UpdateRequested))
                } else {
                    self.again(None)
                }
            },
            (Phase::Polling { capped, .. }, TerminusEvent::TimedOut(e)) => {
                if self.initiator_active || capped {
                    self.again(None)
                } else {
                    self.stop(TerminusError::Service(e))
                }
            },
            (Phase::Polling { .. }, TerminusEvent::PollFailed(e)) => self.stop(
                TerminusError::Service(e),
            ),
            _ => self.stop(TerminusError::OutOfTurn),
        }
    }
}

/// An accepted update request is notified exactly once: at the answer that took
/// the device into update mode, and at no other event.
pub proof fn update_requests_are_notified_once<E>(t: TerminusView, event: TerminusEvent<E>)
    ensures
        t.next(event).1 == (TerminusAction::Service::<E> {
            notify: Some(FdEvent::UpdateRequested),
        }) <==> (t.phase matches Phase::Polling { was_update_mode, .. } && !was_update_mode)
            && event == (TerminusEvent::Answered::<E> { update_mode: true }),
{
}

/// A poll that times out ends the loop only where the caller's own timeout ran
/// out: not while a request of the device is active, and not where the sink
/// shortened the poll. Any other failure of the poll ends it.
pub proof fn only_the_callers_timeout_ends_the_loop<E>(
    t: TerminusView,
    interval: Option<u32>,
    update_mode: bool,
    e: E,
)
    requires
        t.phase == Phase::Sampling,
    ensures
        ({
            let sampled = t.next(
                TerminusEvent::Sampled::<E> { service_interval_millis: interval, update_mode },
            );
            &&& sampled.0.next(TerminusEvent::TimedOut(e)).1 is Stop <==> !t.initiator_active
                && sampled.1 == (TerminusAction::Poll::<E> { timeout_millis: t.timeout_millis })
            &&& sampled.0.next(TerminusEvent::PollFailed(e)).1 == TerminusAction::Stop(
                TerminusError::Service(e),
            )
        }),
{
}

/// A sink that asks for an interval keeps a quiet device alive: an idle poll that
/// the sink shortened goes on to the next iteration, which services the sink.
pub proof fn a_capped_poll_keeps_the_loop_alive<E>(
    t: TerminusView,
    cap: u32,
    update_mode: bool,
    e: E,
)
    requires
        t.phase == Phase::Sampling,
        cap < t.timeout_millis,
    ensures
        t.next(
            TerminusEvent::Sampled::<E> { service_interval_millis: Some(cap), update_mode },
        ).0.next(TerminusEvent::TimedOut(e)).1 == (TerminusAction::Service::<E> { notify: None }),
{
}

impl Phase {
    /// How far an iteration is from its poll.
    pub open spec fn distance(self) -> nat {
        match self {
            Phase::Servicing => 5,
            Phase::Generating => 4,
            Phase::Sending => 3,
            Phase::Processing => 2,
            Phase::Sampling => 1,
            _ => 0,
        }
    }
}

/// Every iteration polls for a command, and sends at most one request before it:
/// between two polls the loop only gets closer to the next one, a request is
/// sent from one phase only, and the loop polls where the distance is one. The
/// update agent can therefore cancel between any two requests.
pub proof fn every_iteration_polls<E>(t: TerminusView, event: TerminusEvent<E>)
    ensures
        t.phase.distance() > 0 && t.next(event).1 !is Stop ==> t.next(event).0.phase.distance()
            < t.phase.distance(),
        t.phase.distance() > 0 ==> t.next(event).1 !is Service,
        t.next(event).1 is Send ==> t.phase == Phase::Generating,
        t.next(event).1 is Poll <==> t.phase == Phase::Sampling && event is Sampled,
{
}

/// What the loop hands on is in bounds, and a stopped loop stays stopped.
pub proof fn terminus_keeps_its_bounds<E>(t: TerminusView, event: TerminusEvent<E>)
    ensures
        t.next(event).1 matches TerminusAction::Process { len } ==> 1 <= len <= FD_MAX_MSG,
        t.next(event).0.remote_eid == t.remote_eid,
        t.next(event).0.timeout_millis == t.timeout_millis,
        t.next(event).0.requester_timeout_millis == t.requester_timeout_millis,
        t.phase == Phase::Stopped ==> t.next(event).0.phase == Phase::Stopped,
        t.next(event).1 is Stop <==> t.next(event).0.phase == Phase::Stopped,
{
}

/// The answer to a request is processed in full, with its type byte: one byte more
/// than the transport reports. An answer that is larger than the message buffer, or
/// whose size cannot be represented, ends the loop.
pub proof fn answers_are_processed_in_full<E>(t: TerminusView, n: usize)
    requires
        t.phase == Phase::Sending,
    ensures
        n < FD_MAX_MSG ==> t.next(TerminusEvent::Sent(Ok::<usize, E>(n))).1 == (
        TerminusAction::Process::<E> { len: (n + 1) as usize }),
        FD_MAX_MSG <= n < usize::MAX ==> t.next(TerminusEvent::Sent(Ok::<usize, E>(n))).1
            == TerminusAction::Stop(TerminusError::BufferTooSmall::<E>),
        n == usize::MAX ==> t.next(TerminusEvent::Sent(Ok::<usize, E>(n))).1
            == TerminusAction::Stop(TerminusError::OverflowMaxSize::<E>),
        FD_MAX_MSG == 1024,
{
}

/// A generated request is sent to the update agent in its full size, with the timeout
/// of a request.
pub proof fn requests_are_sent_in_full<E>(t: TerminusView, n: usize)
    requires
        t.phase == Phase::Generating,
    ensures
        t.next(TerminusEvent::Generated(Ok::<Option<usize>, E>(Some(n)))).1 == (
        TerminusAction::Send::<E> {
            remote_eid: t.remote_eid,
            pldm_len: n,
            timeout_millis: t.requester_timeout_millis,
        }),
{
}

/// The order of an iteration. The sink is serviced first. In initiator mode a request
/// is generated, sent and its answer processed; where there is none to make, or outside
/// initiator mode, that part is left out. Then the interval is sampled.
pub proof fn an_iteration_keeps_its_order<E>(t: TerminusView, n: usize)
    ensures
        t.phase == Phase::Listening ==> ({
            let step = t.next(TerminusEvent::ListenerReady(Ok::<(), E>(())));
            step.1 == (TerminusAction::Service::<E> { notify: None }) && step.0.phase
                == Phase::Servicing
        }),
        t.phase == Phase::Servicing ==> ({
            let busy = t.next(TerminusEvent::Serviced::<E> { initiator_active: true });
            let idle = t.next(TerminusEvent::Serviced::<E> { initiator_active: false });
            &&& busy.1 == TerminusAction::Generate::<E> && busy.0.phase == Phase::Generating
            &&& idle.1 == TerminusAction::Sample::<E> && idle.0.phase == Phase::Sampling
        }),
        t.phase == Phase::Generating ==> ({
            let some = t.next(TerminusEvent::Generated(Ok::<Option<usize>, E>(Some(n))));
            let none = t.next(TerminusEvent::Generated(Ok::<Option<usize>, E>(None)));
            &&& some.0.phase == Phase::Sending
            &&& none.1 == TerminusAction::Sample::<E> && none.0.phase == Phase::Sampling
        }),
        t.phase == Phase::Sending && n < FD_MAX_MSG ==> t.next(
            TerminusEvent::Sent(Ok::<usize, E>(n)),
        ).0.phase == Phase::Processing,
        t.phase == Phase::Processing ==> ({
            let step = t.next(TerminusEvent::Processed(Ok::<(), E>(())));
            step.1 == TerminusAction::Sample::<E> && step.0.phase == Phase::Sampling
        }),
{
}

/// Servicing alone says whether the device is in initiator mode; no other event
/// changes what the loop knows of it.
pub proof fn servicing_sets_the_mode<E>(t: TerminusView, event: TerminusEvent<E>)
    ensures
        t.phase == Phase::Servicing ==> (event matches TerminusEvent::Serviced { initiator_active }
            ==> t.next(event).0.initiator_active == initiator_active),
        t.phase != Phase::Servicing || event !is Serviced ==> t.next(event).0.initiator_active
            == t.initiator_active,
{
}

/// The poll of an iteration: a millisecond in initiator mode, and otherwise the
/// smaller of the caller's timeout and the interval of the sink. The loop remembers
/// whether an update was in progress, and whether the sink shortened the poll.
pub proof fn the_poll_takes_the_smaller_timeout<E>(
    t: TerminusView,
    interval: Option<u32>,
    update_mode: bool,
)
    requires
        t.phase == Phase::Sampling,
    ensures
        ({
            let step = t.next(
                TerminusEvent::Sampled::<E> { service_interval_millis: interval, update_mode },
            );
            let shortened = !t.initiator_active && interval is Some && interval->0
                < t.timeout_millis;
            &&& t.initiator_active ==> step.1 == (TerminusAction::Poll::<E> { timeout_millis: 1 })
            &&& !t.initiator_active && !shortened ==> step.1 == (TerminusAction::Poll::<E> {
                timeout_millis: t.timeout_millis,
            })
            &&& shortened ==> step.1 == (TerminusAction::Poll::<E> { timeout_millis: interval->0 })
            &&& step.0.phase == (Phase::Polling {
                was_update_mode: update_mode,
                capped: shortened,
            })
        }),
{
}

/// After a poll that did not end the loop the next iteration begins, with no
/// notification but that of an accepted update request.
pub proof fn a_poll_begins_the_next_iteration<E>(
    t: TerminusView,
    was_update_mode: bool,
    capped: bool,
    update_mode: bool,
    e: E,
)
    requires
        t.phase == (Phase::Polling { was_update_mode, capped }),
    ensures
        ({
            let answered = t.next(TerminusEvent::Answered::<E> { update_mode });
            let timed_out = t.next(TerminusEvent::TimedOut(e));
            &&& answered.0.phase == Phase::Servicing
            &&& was_update_mode || !update_mode ==> answered.1 == (TerminusAction::Service::<E> {
                notify: None,
            })
            &&& !was_update_mode && update_mode ==> answered.1 == (TerminusAction::Service::<E> {
                notify: Some(FdEvent::UpdateRequested),
            })
            &&& t.initiator_active || capped ==> timed_out.0.phase == Phase::Servicing
                && timed_out.1 == (TerminusAction::Service::<E> { notify: None })
            &&& !t.initiator_active && !capped ==> timed_out.1 == TerminusAction::Stop(
                TerminusError::Service(e),
            )
        }),
{
}

/// A failure of a transport or of the state machine ends the loop, and is handed on
/// as it came.
pub proof fn failures_are_handed_on<E>(t: TerminusView, e: E)
    ensures
        t.phase == Phase::Listening ==> t.next(TerminusEvent::ListenerReady(Err(e))).1
            == TerminusAction::Stop(TerminusError::Service(e)),
        t.phase == Phase::Generating ==> t.next(TerminusEvent::Generated(Err(e))).1
            == TerminusAction::Stop(TerminusError::Service(e)),
        t.phase == Phase::Sending ==> t.next(TerminusEvent::Sent(Err(e))).1 == TerminusAction::Stop(
            TerminusError::Service(e),
        ),
        t.phase == Phase::Processing ==> t.next(TerminusEvent::Processed(Err(e))).1
            == TerminusAction::Stop(TerminusError::Service(e)),
        t.phase is Polling ==> t.next(TerminusEvent::PollFailed(e)).1 == TerminusAction::Stop(
            TerminusError::Service(e),
        ),
{
}

/// The loop stops as out of turn exactly at an event that its phase does not wait for.
pub proof fn every_phase_has_its_events<E>(t: TerminusView, event: TerminusEvent<E>)
    ensures
        t.next(event).1 == TerminusAction::Stop(TerminusError::OutOfTurn::<E>) <==> !(match event {
            TerminusEvent::ListenerReady(_) => t.phase == Phase::Listening,
            TerminusEvent::Serviced { .. } => t.phase == Phase::Servicing,
            TerminusEvent::Generated(_) => t.phase == Phase::Generating,
            TerminusEvent::Sent(_) => t.phase == Phase::Sending,
            TerminusEvent::Processed(_) => t.phase == Phase::Processing,
            TerminusEvent::Sampled { .. } => t.phase == Phase::Sampling,
            TerminusEvent::Answered { .. } => t.phase is Polling,
            TerminusEvent::TimedOut(_) => t.phase is Polling,
            TerminusEvent::PollFailed(_) => t.phase is Polling,
        }),
{
}

/// The poll timeout is one of the values it is chosen from, and the sink counts as
/// shortening a poll exactly where the timeout comes out below the caller's outside
/// initiator mode.
pub proof fn the_cap_counts_where_it_shortens(
    active: bool,
    timeout_millis: u32,
    interval: Option<u32>,
)
    ensures
        responder_poll_timeout(false, timeout_millis, interval) == timeout_millis || interval
            == Some(responder_poll_timeout(false, timeout_millis, interval)),
        poll_is_capped(active, timeout_millis, interval) <==> !active && responder_poll_timeout(
            false,
            timeout_millis,
            interval,
        ) != timeout_millis,
        responder_poll_timeout(true, timeout_millis, interval) == 1,
{
}

/// The loop moves as its view foresees, at every event.
pub proof fn the_loop_moves_as_foreseen<E>(
    t: &mut Terminus,
    event: TerminusEvent<E>,
    action: TerminusAction<E>,
)
    requires
        call_ensures(Terminus::step::<E>, (t, event), action),
    ensures
        action == old(t)@.next(event).1,
        final(t)@ == old(t)@.next(event).0,
{
}

/// A loop starts by listening with the caller's timeout, and acts on the commands of
/// the update agent alone.
pub proof fn the_loop_serves_its_agent<E>(
    t: Terminus,
    source_eid: u8,
    accepted: bool,
    action: TerminusAction<E>,
)
    requires
        call_ensures(Terminus::accepts, (&t, source_eid), accepted),
        call_ensures(Terminus::start::<E>, (&t,), action),
    ensures
        accepted <==> source_eid == t@.remote_eid,
        action == (TerminusAction::Listen::<E> { timeout_millis: t@.timeout_millis }),
{
}

/// A new loop waits for its listener, outside initiator mode, and keeps the three values
/// that it was made with apart: an idle poll takes the first timeout, a request of the
/// device the second.
pub proof fn a_new_loop_keeps_its_timeouts_apart<E>(
    remote_eid: u8,
    timeout_millis: u32,
    requester_timeout_millis: u32,
    t: Terminus,
)
    requires
        call_ensures(Terminus::new, (remote_eid, timeout_millis, requester_timeout_millis), t),
    ensures
        t@.phase == Phase::Listening,
        !t@.initiator_active,
        t@.remote_eid == remote_eid,
        t@.at(Phase::Sampling).next(
            TerminusEvent::Sampled::<E> { service_interval_millis: None, update_mode: false },
        ).1 == (TerminusAction::Poll::<E> { timeout_millis }),
        t@.at(Phase::Generating).next(
            TerminusEvent::Generated(Ok::<Option<usize>, E>(Some(0))),
        ).1 == (TerminusAction::Send::<E> {
            remote_eid,
            pldm_len: 0,
            timeout_millis: requester_timeout_millis,
        }),
{
}

} // verus!
