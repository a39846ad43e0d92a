//! What the notification channel of the update service means to the
//! orchestrator.
//!
//! The update agent behind the channel is not trusted. The mappings here are the
//! boundary: nothing that arrives over the channel can say that an image was
//! authenticated.

use crate::orchestrator::sm::{Effect, Event};
use vstd::prelude::*;

verus! {

/// Something that the update service has latched.
#[derive(Debug, Clone, Copy, PartialEq, Eq, Structural)]
pub enum Pending {
    /// An update was requested.
    UpdateRequested,
    /// An image is offered for a target.
    Offer { target: u32, total: u32 },
    /// The transfer finished.
    Complete { written: u32 },
    /// Activation is asked for.
    Activate,
    /// The update was cancelled.
    Abort,
}

/// Progress of an update, as the update agent sees it.
#[derive(Debug, Clone, Copy, PartialEq, Eq, Structural)]
pub enum Phase {
    Staging,
    Verifying,
    Activating,
    Failed,
}

/// Failure of a round trip.
#[derive(Debug, Clone, Copy, PartialEq, Eq, Structural)]
pub enum TransportError {
    /// The deadline passed without an answer.
    Timeout,
    /// The round trip failed otherwise.
    Failed,
}

/// Status of an answer that reports an error.
#[derive(Debug, Clone, Copy, PartialEq, Eq, Structural)]
pub enum NotifyError {
    InternalError,
    /// Another status.
    Status(u8),
}

/// Failure of an exchange with the update service.
#[derive(Debug, Clone, Copy, PartialEq, Eq, Structural)]
pub enum ClientError {
    Transport(TransportError),
    ServerError(NotifyError),
    InvalidResponse,
}

impl Pending {
    /// The event that this authorises, if any.
    pub open spec fn event(self) -> Option<Event> {
        match self {
            Pending::UpdateRequested => Some(Event::UpdateRequest),
            Pending::Abort => Some(Event::UpdateRejected),
            Pending::Offer { .. } | Pending::Complete { .. } | Pending::Activate => None,
        }
    }
}

/// The event that something latched authorises, if any. A cancelled update
/// discards what is staged; the rest is the platform's business and moves
/// nothing.
pub fn pending_to_event(pending: Pending) -> (event: Option<Event>)
    ensures
        event == pending.event(),
{
    match pending {
        Pending::UpdateRequested => Some(Event::UpdateRequest),
        Pending::Abort => Some(Event::UpdateRejected),
        Pending::Offer { .. } | Pending::Complete { .. } | Pending::Activate => None,
    }
}

/// No message of the channel can say that the staged image was authenticated.
pub proof fn no_message_asserts_verification(pending: Pending)
    ensures
        pending.event() != Some(Event::UpdateVerified),
{
}

/// The phase that is reported for an effect. Only effects of an update have one.
pub fn phase_for_effect(effect: Effect) -> (phase: Option<Phase>)
    ensures
        phase == (match effect {
            Effect::StageUpdate => Some(Phase::Staging),
            Effect::AuthenticateUpdate => Some(Phase::Verifying),
            Effect::ActivateUpdate => Some(Phase::Activating),
            Effect::DiscardStaged => Some(Phase::Failed),
            _ => None,
        }),
{
    match effect {
        Effect::StageUpdate => Some(Phase::Staging),
        Effect::AuthenticateUpdate => Some(Phase::Verifying),
        Effect::ActivateUpdate => Some(Phase::Activating),
        Effect::DiscardStaged => Some(Phase::Failed),
        Effect::ReadFirmware(_)
        | Effect::VerifyFirmware(_)
        | Effect::ReleaseReset(_)
        | Effect::AssertReset(_)
        | Effect::SignAttestation
        | Effect::CommitSvnFloor(_)
        | Effect::RecoverComponent { .. }
        | Effect::ReportIsolated(_)
        | Effect::ReportRecoveryFailed(_)
        | Effect::ReportUpdateDeferred
        | Effect::ReportUpdateAborted
        | Effect::LatchLockdown
        | Effect::Emit(_) => None,
    }
}

/// What one poll means to the run loop.
#[derive(Debug, Clone, Copy, PartialEq, Eq, Structural)]
pub enum PollOutcome {
    /// Nothing was latched.
    Idle,
    /// This event drives the orchestrator.
    Dispatch(Event),
    /// The platform handles this without the orchestrator.
    Runtime(Pending),
    /// The peer did not answer in time.
    Unhealthy,
    /// The peer answered, but not usably. It is alive.
    Failed(ClientError),
}

impl PollOutcome {
    /// What the result of a poll means.
    pub open spec fn of(result: Result<Option<Pending>, ClientError>) -> PollOutcome {
        match result {
            Ok(None) => PollOutcome::Idle,
            Ok(Some(pending)) => match pending.event() {
                Some(event) => PollOutcome::Dispatch(event),
                None => PollOutcome::Runtime(pending),
            },
            Err(e) => if e == ClientError::Transport(TransportError::Timeout) {
                PollOutcome::Unhealthy
            } else {
                PollOutcome::Failed(e)
            },
        }
    }
}

/// Classify the result of a poll. Only a deadline that passed condemns the peer:
/// anything else means that bytes came back.
pub fn classify_poll(result: Result<Option<Pending>, ClientError>) -> (outcome: PollOutcome)
    ensures
        outcome == PollOutcome::of(result),
{
    match result {
        Ok(None) => PollOutcome::Idle,
        Ok(Some(pending)) => match pending_to_event(pending) {
            Some(event) => PollOutcome::Dispatch(event),
            None => PollOutcome::Runtime(pending),
        },
        Err(ClientError::Transport(TransportError::Timeout)) => PollOutcome::Unhealthy,
        Err(e) => PollOutcome::Failed(e),
    }
}

/// The event that unwinds an update once the peer is unhealthy: the staged image
/// is discarded through the orchestrator.
#[verifier::allow_in_spec]
pub fn unhealthy_unwind_event() -> Event
    returns
        Event::UpdateRejected,
{
    Event::UpdateRejected
}

/// What the run loop does after a poll.
#[derive(Debug, Clone, Copy, PartialEq, Eq, Structural)]
pub struct Reaction {
    /// The event for the orchestrator, if any.
    pub dispatch: Option<Event>,
    /// Whether the next poll is to be armed.
    pub rearm: bool,
}

/// Tracks whether the peer answers. A peer that misses its deadline once stays
/// unhealthy.
#[derive(Debug)]
pub struct NotifySupervisor {
    unhealthy: bool,
}

impl View for NotifySupervisor {
    type V = bool;

    /// Whether the peer is healthy.
    closed spec fn view(&self) -> bool {
        !self.unhealthy
    }
}

impl Default for NotifySupervisor {
    fn default() -> (s: Self)
        ensures
            s@,
    {
        NotifySupervisor::new()
    }
}

/// The reaction to a poll, given the health of the peer before it.
pub open spec fn reaction(healthy: bool, outcome: PollOutcome) -> Reaction {
    match outcome {
        PollOutcome::Unhealthy => Reaction {
            dispatch: if healthy {
                Some(unhealthy_unwind_event())
            } else {
                None
            },
            rearm: false,
        },
        PollOutcome::Dispatch(event) if healthy => Reaction { dispatch: Some(event), rearm: true },
        _ => Reaction { dispatch: None, rearm: healthy },
    }
}

/// The health of the peer after a poll.
pub open spec fn health_after(healthy: bool, outcome: PollOutcome) -> bool {
    healthy && outcome != PollOutcome::Unhealthy
}

impl NotifySupervisor {
    /// A supervisor whose peer is presumed healthy.
    pub fn new() -> (s: Self)
        ensures
            s@,
    {
        NotifySupervisor { unhealthy: false }
    }

    /// Whether the peer is considered able to answer.
    pub fn is_healthy(&self) -> (r: bool)
        ensures
            r == self@,
    {
        !self.unhealthy
    }

    /// Fold the outcome of a poll into the health of the peer, and say what the
    /// loop does next.
    pub fn on_poll(&mut self, outcome: PollOutcome) -> (r: Reaction)
        ensures
            r == reaction(old(self)@, outcome),
            final(self)@ == health_after(old(self)@, outcome),
    {
        match outcome {
            PollOutcome::Unhealthy => {
                let first: bool = !self.unhealthy;
                self.unhealthy = true;
                let dispatch = if first {
                    Some(unhealthy_unwind_event())
                } else {
                    None
                };
                Reaction { dispatch, rearm: false }
            },
            _ => if self.unhealthy {
                Reaction { dispatch: None, rearm: false }
            } else {
                match outcome {
                    PollOutcome::Dispatch(event) => Reaction {
                        dispatch: Some(event),
                        rearm: true,
                    },
                    _ => Reaction { dispatch: None, rearm: true },
                }
            },
        }
    }
}

/// The health of the peer after a run of polls.
pub open spec fn health_after_all(healthy: bool, outcomes: Seq<PollOutcome>) -> bool
    decreases outcomes.len(),
{
    if outcomes.len() == 0 {
        healthy
    } else {
        health_after(health_after_all(healthy, outcomes.drop_last()), outcomes.last())
    }
}

/// Health is lost once and for good: after a deadline was missed, no run of
/// polls brings the peer back, dispatches anything, or arms another poll. The
/// unwinding event is therefore dispatched once.
pub proof fn a_condemned_peer_stays_condemned(outcomes: Seq<PollOutcome>, next: PollOutcome)
    ensures
        !health_after_all(false, outcomes),
        reaction(health_after_all(false, outcomes), next) == (Reaction {
            dispatch: None,
            rearm: false,
        }),
    decreases outcomes.len(),
{
    if outcomes.len() > 0 {
        a_condemned_peer_stays_condemned(outcomes.drop_last(), next);
    }
}

/// A peer is condemned by a missed deadline and by nothing else, and the first
/// one unwinds the update.
pub proof fn only_silence_condemns(result: Result<Option<Pending>, ClientError>)
    ensures
        !health_after(true, PollOutcome::of(result)) <==> result == Err::<
            Option<Pending>,
            ClientError,
        >(ClientError::Transport(TransportError::Timeout)),
        !health_after(true, PollOutcome::of(result)) ==> reaction(true, PollOutcome::of(result))
            == (Reaction { dispatch: Some(Event::UpdateRejected), rearm: false }),
{
}

/// Nothing that a poll brings makes the orchestrator believe that an image was
/// authenticated.
pub proof fn polls_never_assert_verification(
    healthy: bool,
    result: Result<Option<Pending>, ClientError>,
)
    ensures
        reaction(healthy, PollOutcome::of(result)).dispatch != Some(Event::UpdateVerified),
{
}

/// What the channel can ask of the orchestrator: a requested update starts one, a
/// cancelled update discards it, and nothing else moves it.
pub proof fn two_messages_move_the_orchestrator(pending: Pending)
    ensures
        pending.event() == Some(Event::UpdateRequest) <==> pending == Pending::UpdateRequested,
        pending.event() == Some(Event::UpdateRejected) <==> pending == Pending::Abort,
        pending.event() is None <==> pending != Pending::UpdateRequested && pending
            != Pending::Abort,
{
}

/// What the result of a poll means: silence is told from failure, what the
/// orchestrator acts on from what the platform handles, and everything is handed on as
/// it came.
pub proof fn polls_mean_one_thing(
    result: Result<Option<Pending>, ClientError>,
    pending: Pending,
    e: ClientError,
)
    ensures
        ({
            let outcome = PollOutcome::of(result);
            let silence = ClientError::Transport(TransportError::Timeout);
            let some = Ok::<Option<Pending>, ClientError>(Some(pending));
            let failed = Err::<Option<Pending>, ClientError>(e);
            &&& outcome == PollOutcome::Idle <==> result == Ok::<Option<Pending>, ClientError>(None)
            &&& outcome == PollOutcome::Unhealthy <==> result == Err::<
                Option<Pending>,
                ClientError,
            >(silence)
            &&& outcome == PollOutcome::Failed(e) <==> result == failed && e != silence
            &&& outcome == PollOutcome::Runtime(pending) <==> result == some && pending
                != Pending::UpdateRequested && pending != Pending::Abort
            &&& result == Ok::<Option<Pending>, ClientError>(Some(Pending::UpdateRequested))
                <==> outcome == PollOutcome::Dispatch(Event::UpdateRequest)
            &&& result == Ok::<Option<Pending>, ClientError>(Some(Pending::Abort)) <==> outcome
                == PollOutcome::Dispatch(Event::UpdateRejected)
        }),
{
}

/// A healthy peer is polled again whatever it answered, and an event that it brought is
/// dispatched as it is. Silence unwinds the update and ends the polling.
pub proof fn reactions_to_a_healthy_peer(event: Event, pending: Pending, e: ClientError)
    ensures
        reaction(true, PollOutcome::Dispatch(event)) == (Reaction {
            dispatch: Some(event),
            rearm: true,
        }),
        reaction(true, PollOutcome::Idle) == (Reaction { dispatch: None, rearm: true }),
        reaction(true, PollOutcome::Runtime(pending)) == (Reaction { dispatch: None, rearm: true }),
        reaction(true, PollOutcome::Failed(e)) == (Reaction { dispatch: None, rearm: true }),
        reaction(true, PollOutcome::Unhealthy) == (Reaction {
            dispatch: Some(Event::UpdateRejected),
            rearm: false,
        }),
{
}

/// Health is kept at every outcome but silence.
pub proof fn only_silence_costs_health(healthy: bool, outcome: PollOutcome)
    ensures
        health_after(healthy, outcome) <==> healthy && outcome != PollOutcome::Unhealthy,
{
}

/// A phase is reported for the four effects of an update, each under its own name.
pub proof fn update_effects_have_phases(effect: Effect, phase: Option<Phase>)
    requires
        call_ensures(phase_for_effect, (effect,), phase),
    ensures
        phase == Some(Phase::Staging) <==> effect == Effect::StageUpdate,
        phase == Some(Phase::Verifying) <==> effect == Effect::AuthenticateUpdate,
        phase == Some(Phase::Activating) <==> effect == Effect::ActivateUpdate,
        phase == Some(Phase::Failed) <==> effect == Effect::DiscardStaged,
{
}

/// What the run loop is told: a poll is classified by what came back, and the outcome
/// is folded into the health of the peer, which silence alone ends.
pub proof fn polls_are_folded_into_health(
    result: Result<Option<Pending>, ClientError>,
    outcome: PollOutcome,
    supervisor: &mut NotifySupervisor,
    r: Reaction,
)
    requires
        call_ensures(classify_poll, (result,), outcome),
        call_ensures(NotifySupervisor::on_poll, (supervisor, outcome), r),
    ensures
        ({
            let silent = result == Err::<Option<Pending>, ClientError>(
                ClientError::Transport(TransportError::Timeout),
            );
            let requested = result == Ok::<Option<Pending>, ClientError>(
                Some(Pending::UpdateRequested),
            );
            let cancelled = result == Ok::<Option<Pending>, ClientError>(Some(Pending::Abort));
            &&& final(supervisor)@ <==> old(supervisor)@ && !silent
            &&& r.rearm <==> old(supervisor)@ && !silent
            &&& r.dispatch == Some(Event::UpdateRequest) <==> old(supervisor)@ && requested
            &&& r.dispatch == Some(Event::UpdateRejected) <==> old(supervisor)@ && (cancelled
                || silent)
            &&& r.dispatch is None <==> !old(supervisor)@ || !(requested || cancelled || silent)
        }),
{
}

/// What something latched asks of the orchestrator is what its own event says.
pub proof fn latched_messages_ask_for_their_event(pending: Pending, event: Option<Event>)
    requires
        call_ensures(pending_to_event, (pending,), event),
    ensures
        event == Some(Event::UpdateRequest) <==> pending == Pending::UpdateRequested,
        event == Some(Event::UpdateRejected) <==> pending == Pending::Abort,
        event is None <==> pending != Pending::UpdateRequested && pending != Pending::Abort,
{
}

} // verus!
