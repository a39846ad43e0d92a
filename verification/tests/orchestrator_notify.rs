//! Translation between the notification channel and the orchestrator.

use openprot::orchestrator::latch::UpdateRequestLatch;
use openprot::orchestrator::notify::{
    classify_poll, pending_to_event, phase_for_effect, unhealthy_unwind_event, ClientError,
    NotifyError, NotifySupervisor, Pending, Phase, PollOutcome, Reaction, TransportError,
};
use openprot::orchestrator::sm::{ComponentId, Effect, Event};
use openprot::pldm::firmware_device::{FdEvent, FdEventSink};

#[test]
fn empty_latch_yields_nothing() {
    assert_eq!(UpdateRequestLatch::new().take(), None);
}

#[test]
fn accepted_request_yields_one_event() {
    let mut latch = UpdateRequestLatch::new();
    latch.notify(FdEvent::UpdateRequested);
    assert_eq!(latch.take(), Some(Event::UpdateRequest));
    assert_eq!(latch.take(), None, "a drained latch must not re-fire");
}

#[test]
fn undrained_notifications_coalesce() {
    let mut latch = UpdateRequestLatch::new();
    latch.notify(FdEvent::UpdateRequested);
    latch.notify(FdEvent::UpdateRequested);
    assert_eq!(latch.take(), Some(Event::UpdateRequest));
    assert_eq!(latch.take(), None);
}

#[test]
fn a_latch_has_no_peer() {
    let mut latch = UpdateRequestLatch::default();
    latch.service();
    assert_eq!(latch.max_service_interval_millis(), None);
    assert_eq!(latch.take(), None);
}

#[test]
fn update_requested_is_the_intake_event() {
    assert_eq!(
        pending_to_event(Pending::UpdateRequested),
        Some(Event::UpdateRequest)
    );
}

#[test]
fn abort_discards_through_the_core() {
    assert_eq!(
        pending_to_event(Pending::Abort),
        Some(Event::UpdateRejected),
        "abort must produce the event that emits DiscardStaged"
    );
}

#[test]
fn no_wire_message_can_assert_verification() {
    for pending in [
        Pending::UpdateRequested,
        Pending::Offer {
            target: 0x8000_0000,
            total: 4096,
        },
        Pending::Complete { written: 4096 },
        Pending::Activate,
        Pending::Abort,
    ] {
        assert_ne!(
            pending_to_event(pending),
            Some(Event::UpdateVerified),
            "{pending:?} must not assert UpdateVerified"
        );
    }
}

#[test]
fn transfer_shaped_events_stay_out_of_the_core() {
    for pending in [
        Pending::Offer {
            target: 1,
            total: 2,
        },
        Pending::Complete { written: 2 },
        Pending::Activate,
    ] {
        assert_eq!(pending_to_event(pending), None);
    }
}

#[test]
fn update_effects_map_to_phases() {
    assert_eq!(phase_for_effect(Effect::StageUpdate), Some(Phase::Staging));
    assert_eq!(
        phase_for_effect(Effect::AuthenticateUpdate),
        Some(Phase::Verifying)
    );
    assert_eq!(
        phase_for_effect(Effect::ActivateUpdate),
        Some(Phase::Activating)
    );
    assert_eq!(phase_for_effect(Effect::DiscardStaged), Some(Phase::Failed));
}

#[test]
fn boot_chain_effects_have_no_phase() {
    let id = ComponentId::new(0);
    for effect in [
        Effect::ReleaseReset(id),
        Effect::VerifyFirmware(id),
        Effect::CommitSvnFloor(id),
        Effect::LatchLockdown,
        Effect::ReportUpdateDeferred,
    ] {
        assert_eq!(phase_for_effect(effect), None);
    }
}

#[test]
fn the_other_effects_have_no_phase_either() {
    let id = ComponentId::new(3);
    assert_eq!(id.get(), 3);
    for effect in [
        Effect::ReadFirmware(id),
        Effect::AssertReset(id),
        Effect::SignAttestation,
        Effect::RecoverComponent { id },
        Effect::ReportIsolated(id),
        Effect::ReportRecoveryFailed(id),
        Effect::ReportUpdateAborted,
        Effect::Emit(Event::CommitTimeout),
    ] {
        assert_eq!(phase_for_effect(effect), None);
    }
}

#[test]
fn nothing_latched_is_idle() {
    assert_eq!(classify_poll(Ok(None)), PollOutcome::Idle);
}

#[test]
fn latched_intake_is_dispatched() {
    assert_eq!(
        classify_poll(Ok(Some(Pending::UpdateRequested))),
        PollOutcome::Dispatch(Event::UpdateRequest)
    );
}

#[test]
fn latched_transfer_event_is_runtime_only() {
    let offer = Pending::Offer {
        target: 0x1000,
        total: 64,
    };
    assert_eq!(classify_poll(Ok(Some(offer))), PollOutcome::Runtime(offer));
}

#[test]
fn bounded_deadline_timeout_condemns_the_peer() {
    assert_eq!(
        classify_poll(Err(ClientError::Transport(TransportError::Timeout))),
        PollOutcome::Unhealthy
    );
}

#[test]
fn a_live_but_wrong_peer_is_not_unhealthy() {
    for err in [
        ClientError::InvalidResponse,
        ClientError::Transport(TransportError::Failed),
        ClientError::ServerError(NotifyError::InternalError),
    ] {
        assert_eq!(classify_poll(Err(err)), PollOutcome::Failed(err));
    }
}

#[test]
fn unhealthy_unwind_is_the_discarding_event() {
    assert_eq!(unhealthy_unwind_event(), Event::UpdateRejected);
}

#[test]
fn a_healthy_peer_keeps_the_cadence_armed() {
    let mut sup = NotifySupervisor::new();
    assert_eq!(
        sup.on_poll(PollOutcome::Idle),
        Reaction {
            dispatch: None,
            rearm: true
        }
    );
    assert!(sup.is_healthy());
}

#[test]
fn a_dispatched_event_still_re_arms() {
    let mut sup = NotifySupervisor::new();
    assert_eq!(
        sup.on_poll(PollOutcome::Dispatch(Event::UpdateRequest)),
        Reaction {
            dispatch: Some(Event::UpdateRequest),
            rearm: true
        }
    );
}

#[test]
fn a_silent_peer_unwinds_the_update_and_stops_the_cadence() {
    let mut sup = NotifySupervisor::new();
    let reaction = sup.on_poll(PollOutcome::Unhealthy);
    assert_eq!(
        reaction,
        Reaction {
            dispatch: Some(Event::UpdateRejected),
            rearm: false
        },
        "the first timeout must release staging through the core"
    );
    assert!(!sup.is_healthy());
}

#[test]
fn the_unwind_is_dispatched_only_once() {
    let mut sup = NotifySupervisor::new();
    let _ = sup.on_poll(PollOutcome::Unhealthy);
    assert_eq!(
        sup.on_poll(PollOutcome::Unhealthy),
        Reaction {
            dispatch: None,
            rearm: false
        }
    );
}

#[test]
fn an_unhealthy_peer_is_not_re_admitted_by_a_late_answer() {
    let mut sup = NotifySupervisor::new();
    let _ = sup.on_poll(PollOutcome::Unhealthy);
    assert_eq!(
        sup.on_poll(PollOutcome::Dispatch(Event::UpdateRequest)),
        Reaction {
            dispatch: None,
            rearm: false
        }
    );
    assert!(!sup.is_healthy());
}

#[test]
fn usable_and_unusable_answers_keep_a_peer_healthy() {
    let mut sup = NotifySupervisor::default();
    for outcome in [
        PollOutcome::Runtime(Pending::Activate),
        PollOutcome::Failed(ClientError::InvalidResponse),
        PollOutcome::Failed(ClientError::ServerError(NotifyError::Status(7))),
    ] {
        assert_eq!(
            sup.on_poll(outcome),
            Reaction {
                dispatch: None,
                rearm: true
            }
        );
    }
    assert!(sup.is_healthy());
}
