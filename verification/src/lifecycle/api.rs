//! States, events and transitions of the platform lifecycle.
//!
//! Only data and pure logic stand here: secure boot, verification, recovery,
//! update and runtime as one flat, total transition function.

use vstd::prelude::*;

verus! {

/// States of the lifecycle.
#[derive(Debug, Clone, Copy, PartialEq, Eq, Structural)]
#[non_exhaustive]
pub enum State {
    /// Power-on entry state: the machine waits for [`Event::Start`].
    Boot,
    /// One-time platform initialisation.
    Init,
    /// The root of trust booted from its secondary image and must recover
    /// itself.
    RotRecovery,
    /// Authenticate the active firmware image.
    FirmwareVerify,
    /// Restore firmware from a known-good image.
    FirmwareRecovery,
    /// Apply a staged firmware update.
    FirmwareUpdate,
    /// Provisioning has not been performed.
    Unprovisioned,
    /// Firmware is authenticated and running.
    Runtime,
    /// Terminal safe state: the platform stays in reset.
    Lockdown,
    /// Request a platform reset.
    Reboot,
}

/// Events that drive the lifecycle.
#[derive(Debug, Clone, Copy, PartialEq, Eq, Structural)]
#[non_exhaustive]
pub enum Event {
    /// Leave [`State::Boot`].
    Start,
    /// Initialisation completed.
    InitDone,
    /// The root of trust runs from its secondary image.
    InitRotSecondaryBooted,
    /// The device is unprovisioned.
    VerifyUnprovisioned,
    /// Firmware did not authenticate.
    VerifyFailed,
    /// Firmware authenticated.
    VerifyDone,
    /// A recovery attempt failed.
    RecoveryFailed,
    /// A recovery attempt succeeded.
    RecoveryDone,
    /// A firmware update was requested.
    UpdateRequested,
    /// A firmware update completed.
    UpdateDone,
    /// A firmware update failed.
    UpdateFailed,
    /// A provisioning command was received.
    ProvisionCmd,
    /// A handshake with a platform component failed.
    HandshakeFailed,
}

impl State {
    /// The state that an event leads to, or `None` where the event has no
    /// meaning in this state.
    pub open spec fn next(self, event: Event) -> Option<State> {
        match (self, event) {
            (State::Boot, Event::Start) => Some(State::Init),
            (State::Init, Event::InitDone) => Some(State::FirmwareVerify),
            (State::Init, Event::InitRotSecondaryBooted) => Some(State::RotRecovery),
            (State::RotRecovery, Event::RecoveryDone) => Some(State::Reboot),
            (State::RotRecovery, Event::RecoveryFailed) => Some(State::Lockdown),
            (State::FirmwareVerify, Event::UpdateRequested) => Some(State::FirmwareUpdate),
            (State::FirmwareVerify, Event::VerifyUnprovisioned) => Some(State::Unprovisioned),
            (State::FirmwareVerify, Event::VerifyFailed) => Some(State::FirmwareRecovery),
            (State::FirmwareVerify, Event::VerifyDone) => Some(State::Runtime),
            (State::FirmwareVerify, Event::RecoveryFailed) => Some(State::Lockdown),
            (State::FirmwareVerify, Event::HandshakeFailed) => Some(State::Lockdown),
            (State::FirmwareRecovery, Event::RecoveryDone) => Some(State::FirmwareVerify),
            (State::FirmwareRecovery, Event::RecoveryFailed) => Some(State::Lockdown),
            (State::FirmwareUpdate, Event::UpdateDone) => Some(State::FirmwareVerify),
            (State::FirmwareUpdate, Event::UpdateFailed) => Some(State::FirmwareRecovery),
            (State::Unprovisioned, Event::ProvisionCmd) => Some(State::Init),
            (State::Runtime, Event::UpdateRequested) => Some(State::FirmwareUpdate),
            (State::Runtime, Event::VerifyFailed) => Some(State::FirmwareRecovery),
            _ => None,
        }
    }

    /// The state in which an event leaves the machine: an event without meaning
    /// is discarded.
    pub open spec fn after(self, event: Event) -> State {
        match self.next(event) {
            Some(state) => state,
            None => self,
        }
    }

    /// The state in which a run of events leaves the machine.
    pub open spec fn after_all(self, events: Seq<Event>) -> State
        decreases events.len(),
    {
        if events.len() == 0 {
            self
        } else {
            self.after_all(events.drop_last()).after(events.last())
        }
    }
}

/// Compute the next state. `None` says that the event is discarded.
pub fn transition(state: State, event: Event) -> (next: Option<State>)
    ensures
        next == state.next(event),
{
    match (state, event) {
        (State::Boot, Event::Start) => Some(State::Init),
        (State::Init, Event::InitDone) => Some(State::FirmwareVerify),
        (State::Init, Event::InitRotSecondaryBooted) => Some(State::RotRecovery),
        (State::RotRecovery, Event::RecoveryDone) => Some(State::Reboot),
        (State::RotRecovery, Event::RecoveryFailed) => Some(State::Lockdown),
        (State::FirmwareVerify, Event::UpdateRequested) => Some(State::FirmwareUpdate),
        (State::FirmwareVerify, Event::VerifyUnprovisioned) => Some(State::Unprovisioned),
        (State::FirmwareVerify, Event::VerifyFailed) => Some(State::FirmwareRecovery),
        (State::FirmwareVerify, Event::VerifyDone) => Some(State::Runtime),
        (State::FirmwareVerify, Event::RecoveryFailed | Event::HandshakeFailed) => Some(
            State::Lockdown,
        ),
        (State::FirmwareRecovery, Event::RecoveryDone) => Some(State::FirmwareVerify),
        (State::FirmwareRecovery, Event::RecoveryFailed) => Some(State::Lockdown),
        (State::FirmwareUpdate, Event::UpdateDone) => Some(State::FirmwareVerify),
        (State::FirmwareUpdate, Event::UpdateFailed) => Some(State::FirmwareRecovery),
        (State::Unprovisioned, Event::ProvisionCmd) => Some(State::Init),
        (State::Runtime, Event::UpdateRequested) => Some(State::FirmwareUpdate),
        (State::Runtime, Event::VerifyFailed) => Some(State::FirmwareRecovery),
        _ => None,
    }
}

/// Lockdown and reboot are terminal: no run of events leaves them.
pub proof fn terminal_states_are_kept(events: Seq<Event>)
    ensures
        State::Lockdown.after_all(events) == State::Lockdown,
        State::Reboot.after_all(events) == State::Reboot,
    decreases events.len(),
{
    if events.len() > 0 {
        terminal_states_are_kept(events.drop_last());
    }
}

/// Runtime is entered in one way only: firmware verification that succeeds.
pub proof fn only_verification_reaches_runtime(state: State, event: Event)
    ensures
        state.next(event) == Some(State::Runtime) <==> state == State::FirmwareVerify && event
            == Event::VerifyDone,
{
}

/// An update or a recovery that succeeds is followed by verification: the new
/// image is never trusted as it stands.
pub proof fn update_and_recovery_revalidate(event: Event)
    ensures
        State::FirmwareUpdate.next(Event::UpdateDone) == Some(State::FirmwareVerify),
        State::FirmwareRecovery.next(Event::RecoveryDone) == Some(State::FirmwareVerify),
        State::FirmwareUpdate.next(event) != Some(State::Runtime),
        State::FirmwareRecovery.next(event) != Some(State::Runtime),
{
}

/// The power-on state is left once, by the start event, and never entered again.
pub proof fn boot_is_left_for_good(state: State, event: Event)
    ensures
        state.next(event) != Some(State::Boot),
        State::Boot.next(event) is Some <==> event == Event::Start,
{
}

/// A machine that runs from power-on is in runtime only while the last event
/// that moved it was a successful verification.
pub proof fn runtime_is_always_verified(events: Seq<Event>)
    requires
        State::Boot.after_all(events) == State::Runtime,
    ensures
        exists|i: int|
            0 <= i < events.len() && #[trigger] events[i] == Event::VerifyDone
                && State::Boot.after_all(events.take(i)) == State::FirmwareVerify && (forall|j: int|
                i < j <= events.len() ==> #[trigger] State::Boot.after_all(events.take(j))
                    == State::Runtime),
    decreases events.len(),
{
    let shorter = events.drop_last();
    let last = events.len() - 1;
    assert(events.take(last) =~= shorter);
    assert(events.take(events.len() as int) =~= events);
    if State::Boot.after_all(shorter) == State::Runtime {
        runtime_is_always_verified(shorter);
        let i = choose|i: int|
            0 <= i < shorter.len() && #[trigger] shorter[i] == Event::VerifyDone
                && State::Boot.after_all(shorter.take(i)) == State::FirmwareVerify && (forall|
                j: int,
            |
                i < j <= shorter.len() ==> #[trigger] State::Boot.after_all(shorter.take(j))
                    == State::Runtime);
        assert(events[i] == Event::VerifyDone);
        assert(shorter.take(i) =~= events.take(i));
        assert forall|j: int| i < j <= events.len() implies #[trigger] State::Boot.after_all(
            events.take(j),
        ) == State::Runtime by {
            if j < events.len() {
                assert(shorter.take(j) =~= events.take(j));
            }
        }
    } else {
        assert(events[last] == Event::VerifyDone);
    }
}

/// Firmware that does not authenticate is recovered, wherever that is noticed:
/// verification and runtime have no other answer to it, and no other state knows it.
pub proof fn failed_verification_leads_to_recovery(state: State)
    ensures
        state.next(Event::VerifyFailed) is Some <==> state == State::FirmwareVerify || state
            == State::Runtime,
        state.next(Event::VerifyFailed) is Some ==> state.next(Event::VerifyFailed) == Some(
            State::FirmwareRecovery,
        ),
{
}

/// An update is applied on request alone, and only during verification or at runtime.
pub proof fn only_a_request_reaches_the_update(state: State, event: Event)
    ensures
        state.next(event) == Some(State::FirmwareUpdate) <==> event == Event::UpdateRequested && (
        state == State::FirmwareVerify || state == State::Runtime),
{
}

/// Initialisation runs from power-on, and again once the device was provisioned.
pub proof fn initialisation_follows_start_or_provisioning(state: State, event: Event)
    ensures
        state.next(event) == Some(State::Init) <==> (state == State::Boot && event
            == Event::Start) || (state == State::Unprovisioned && event == Event::ProvisionCmd),
{
}

/// Firmware is verified after initialisation, after an update and after a recovery of
/// firmware, and never else.
pub proof fn verification_follows_new_images(state: State, event: Event)
    ensures
        state.next(event) == Some(State::FirmwareVerify) <==> (state == State::Init && event
            == Event::InitDone) || (state == State::FirmwareRecovery && event
            == Event::RecoveryDone) || (state == State::FirmwareUpdate && event
            == Event::UpdateDone),
{
}

/// Firmware is recovered where it did not authenticate or could not be updated.
pub proof fn recovery_follows_failure(state: State, event: Event)
    ensures
        state.next(event) == Some(State::FirmwareRecovery) <==> (event == Event::VerifyFailed && (
        state == State::FirmwareVerify || state == State::Runtime)) || (state
            == State::FirmwareUpdate && event == Event::UpdateFailed),
{
}

/// The root of trust recovers itself where it booted from its secondary image.
pub proof fn rot_recovery_follows_a_secondary_boot(state: State, event: Event)
    ensures
        state.next(event) == Some(State::RotRecovery) <==> state == State::Init && event
            == Event::InitRotSecondaryBooted,
{
}

/// Only verification finds a device unprovisioned.
pub proof fn only_verification_finds_no_provisioning(state: State, event: Event)
    ensures
        state.next(event) == Some(State::Unprovisioned) <==> state == State::FirmwareVerify
            && event == Event::VerifyUnprovisioned,
{
}

/// The platform reboots where the root of trust has recovered itself.
pub proof fn reboot_follows_rot_recovery(state: State, event: Event)
    ensures
        state.next(event) == Some(State::Reboot) <==> state == State::RotRecovery && event
            == Event::RecoveryDone,
{
}

/// The platform locks down where a recovery fails, and where a handshake fails during
/// verification.
pub proof fn lockdown_follows_failed_recovery(state: State, event: Event)
    ensures
        state.next(event) == Some(State::Lockdown) <==> (event == Event::RecoveryFailed && (state
            == State::RotRecovery || state == State::FirmwareVerify || state
            == State::FirmwareRecovery)) || (state == State::FirmwareVerify && event
            == Event::HandshakeFailed),
{
}

/// An event without meaning leaves the machine where it is, any other one takes it to
/// the state that the event leads to, and a run of events is taken one by one, the
/// first one first.
pub proof fn runs_take_one_event_after_the_other(state: State, event: Event, events: Seq<Event>)
    ensures
        state.next(event) is None ==> state.after(event) == state,
        state.next(event) is Some ==> Some(state.after(event)) == state.next(event),
        state.after_all(Seq::<Event>::empty()) == state,
        state.after_all(seq![event] + events) == state.after(event).after_all(events),
    decreases events.len(),
{
    let whole = seq![event] + events;
    if events.len() == 0 {
        assert(whole.drop_last() =~= Seq::<Event>::empty());
    } else {
        runs_take_one_event_after_the_other(state, event, events.drop_last());
        assert(whole.drop_last() =~= seq![event] + events.drop_last());
    }
}

/// [`transition`] moves along the graph: it gives the state that the event leads to,
/// and nothing where the event has no meaning.
pub proof fn transition_moves_along_the_graph(state: State, event: Event, next: Option<State>)
    requires
        call_ensures(transition, (state, event), next),
    ensures
        next is Some ==> state.after(event) == next->0,
        next is None ==> state.after(event) == state,
        next is Some <==> state.next(event) is Some,
        event == Event::VerifyFailed && next is Some ==> next == Some(State::FirmwareRecovery),
        next == Some(State::FirmwareUpdate) <==> event == Event::UpdateRequested && (state
            == State::FirmwareVerify || state == State::Runtime),
        next == Some(State::Runtime) <==> event == Event::VerifyDone && state
            == State::FirmwareVerify,
{
}

} // verus!
