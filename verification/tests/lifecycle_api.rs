//! Transitions and wire encodings of the lifecycle.

use openprot::lifecycle::api::{transition, Event, State};
use openprot::lifecycle::wire::{
    decode_event, decode_request, decode_response, encode_event, encode_request, encode_response,
    Request, Response, WireError, EVENT_WIRE_SIZE, OP_INJECT, REQUEST_WIRE_SIZE,
    RESPONSE_WIRE_SIZE,
};

const ALL_EVENTS: &[Event] = &[
    Event::Start,
    Event::InitDone,
    Event::InitRotSecondaryBooted,
    Event::VerifyUnprovisioned,
    Event::VerifyFailed,
    Event::VerifyDone,
    Event::RecoveryFailed,
    Event::RecoveryDone,
    Event::UpdateRequested,
    Event::UpdateDone,
    Event::UpdateFailed,
    Event::ProvisionCmd,
    Event::HandshakeFailed,
];

const ALL_STATES: &[State] = &[
    State::Boot,
    State::Init,
    State::RotRecovery,
    State::FirmwareVerify,
    State::FirmwareRecovery,
    State::FirmwareUpdate,
    State::Unprovisioned,
    State::Runtime,
    State::Lockdown,
    State::Reboot,
];

#[test]
fn boot_starts_into_init() {
    assert_eq!(transition(State::Boot, Event::Start), Some(State::Init));
}

#[test]
fn unknown_event_is_discarded() {
    assert_eq!(transition(State::Boot, Event::VerifyDone), None);
}

#[test]
fn verify_failure_routes_to_recovery() {
    assert_eq!(
        transition(State::FirmwareVerify, Event::VerifyFailed),
        Some(State::FirmwareRecovery)
    );
}

#[test]
fn repeated_recovery_failure_locks_down() {
    assert_eq!(
        transition(State::FirmwareRecovery, Event::RecoveryFailed),
        Some(State::Lockdown)
    );
}

#[test]
fn successful_update_revalidates() {
    assert_eq!(
        transition(State::FirmwareUpdate, Event::UpdateDone),
        Some(State::FirmwareVerify)
    );
}

#[test]
fn event_round_trips_every_variant() {
    for &event in ALL_EVENTS {
        let mut buf = [0u8; 8];
        let n = encode_event(&mut buf, event).unwrap();
        assert_eq!(n, EVENT_WIRE_SIZE);
        assert_eq!(decode_event(&buf[..n]), Ok(event), "round-trip {event:?}");
    }
}

#[test]
fn inject_request_round_trips_every_event() {
    for &event in ALL_EVENTS {
        let mut buf = [0u8; REQUEST_WIRE_SIZE];
        encode_request(&mut buf, Request::Inject(event)).unwrap();
        assert_eq!(decode_request(&buf), Ok(Request::Inject(event)));
    }
}

#[test]
fn query_request_round_trips() {
    let mut buf = [0u8; REQUEST_WIRE_SIZE];
    encode_request(&mut buf, Request::QueryState).unwrap();
    assert_eq!(decode_request(&buf), Ok(Request::QueryState));
}

#[test]
fn state_response_round_trips_every_state() {
    for &state in ALL_STATES {
        let mut buf = [0u8; RESPONSE_WIRE_SIZE];
        encode_response(&mut buf, Response::State(state)).unwrap();
        assert_eq!(decode_response(&buf), Ok(Response::State(state)));
    }
}

#[test]
fn rejected_response_round_trips() {
    let mut buf = [0u8; RESPONSE_WIRE_SIZE];
    encode_response(&mut buf, Response::Rejected).unwrap();
    assert_eq!(decode_response(&buf), Ok(Response::Rejected));
}

#[test]
fn tags_are_stable() {
    let mut buf = [0u8; EVENT_WIRE_SIZE];
    encode_event(&mut buf, Event::Start).unwrap();
    assert_eq!(buf, 1u32.to_le_bytes());
    encode_event(&mut buf, Event::HandshakeFailed).unwrap();
    assert_eq!(buf, 13u32.to_le_bytes());

    let mut rb = [0u8; REQUEST_WIRE_SIZE];
    encode_request(&mut rb, Request::Inject(Event::Start)).unwrap();
    assert_eq!(rb, [OP_INJECT, 1]);
}

#[test]
fn decode_rejects_truncated_and_unknown() {
    assert_eq!(decode_event(&[1, 0, 0]), Err(WireError::Truncated));
    assert_eq!(decode_event(&999u32.to_le_bytes()), Err(WireError::Malformed));
    assert_eq!(decode_request(&[OP_INJECT]), Err(WireError::Truncated));
    assert_eq!(decode_request(&[0xFF, 0]), Err(WireError::Malformed));
    assert_eq!(decode_request(&[OP_INJECT, 0xFF]), Err(WireError::Malformed));
}

#[test]
fn encode_rejects_small_buffer() {
    let mut buf = [0u8; EVENT_WIRE_SIZE - 1];
    assert_eq!(encode_event(&mut buf, Event::Start), Err(WireError::BufferTooSmall));
    let mut rb = [0u8; REQUEST_WIRE_SIZE - 1];
    assert_eq!(
        encode_request(&mut rb, Request::QueryState),
        Err(WireError::BufferTooSmall)
    );
}

#[test]
fn encoding_leaves_the_rest_of_the_buffer() {
    let mut buf = [9u8; 6];
    assert_eq!(encode_event(&mut buf, Event::InitDone), Ok(4));
    assert_eq!(buf, [2, 0, 0, 0, 9, 9]);
    let mut rb = [9u8; 3];
    assert_eq!(encode_response(&mut rb, Response::State(State::Reboot)), Ok(2));
    assert_eq!(rb, [1, 10, 9]);
    let mut small = [9u8; 1];
    assert_eq!(
        encode_response(&mut small, Response::Rejected),
        Err(WireError::BufferTooSmall)
    );
    assert_eq!(small, [9]);
}

#[test]
fn responses_with_unknown_bytes_are_malformed() {
    assert_eq!(decode_response(&[1]), Err(WireError::Truncated));
    assert_eq!(decode_response(&[1, 0]), Err(WireError::Malformed));
    assert_eq!(decode_response(&[1, 11]), Err(WireError::Malformed));
    assert_eq!(decode_response(&[3, 1]), Err(WireError::Malformed));
    assert_eq!(decode_response(&[2, 77]), Ok(Response::Rejected));
    assert_eq!(decode_event(&[0, 0, 0, 0]), Err(WireError::Malformed));
    assert_eq!(decode_event(&[1, 1, 0, 0]), Err(WireError::Malformed));
    assert_eq!(decode_event(&[14, 0, 0, 0]), Err(WireError::Malformed));
}

#[test]
fn terminal_states_discard_everything() {
    for &event in ALL_EVENTS {
        assert_eq!(transition(State::Lockdown, event), None);
        assert_eq!(transition(State::Reboot, event), None);
    }
}

#[test]
fn runtime_is_entered_by_verification_alone() {
    for &state in ALL_STATES {
        for &event in ALL_EVENTS {
            let next = transition(state, event);
            assert_eq!(
                next == Some(State::Runtime),
                state == State::FirmwareVerify && event == Event::VerifyDone
            );
            assert_ne!(next, Some(State::Boot));
        }
    }
}

#[test]
fn every_defined_transition() {
    let mut count = 0;
    for &state in ALL_STATES {
        for &event in ALL_EVENTS {
            if transition(state, event).is_some() {
                count += 1;
            }
        }
    }
    assert_eq!(count, 18);
    assert_eq!(transition(State::Init, Event::InitDone), Some(State::FirmwareVerify));
    assert_eq!(
        transition(State::Init, Event::InitRotSecondaryBooted),
        Some(State::RotRecovery)
    );
    assert_eq!(transition(State::RotRecovery, Event::RecoveryDone), Some(State::Reboot));
    assert_eq!(transition(State::RotRecovery, Event::RecoveryFailed), Some(State::Lockdown));
    assert_eq!(
        transition(State::FirmwareVerify, Event::HandshakeFailed),
        Some(State::Lockdown)
    );
    assert_eq!(
        transition(State::FirmwareVerify, Event::VerifyUnprovisioned),
        Some(State::Unprovisioned)
    );
    assert_eq!(transition(State::Unprovisioned, Event::ProvisionCmd), Some(State::Init));
    assert_eq!(
        transition(State::FirmwareUpdate, Event::UpdateFailed),
        Some(State::FirmwareRecovery)
    );
    assert_eq!(
        transition(State::Runtime, Event::UpdateRequested),
        Some(State::FirmwareUpdate)
    );
}
