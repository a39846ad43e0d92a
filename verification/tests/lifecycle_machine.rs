//! The lifecycle machine, driven by hand over an in-memory queue.

use std::collections::VecDeque;
use std::convert::Infallible;

use openprot::lifecycle::sm::{Actions, Event, EventQueue, State, StateMachine};

#[derive(Default)]
struct TestQueue {
    events: VecDeque<Event>,
}

impl EventQueue for TestQueue {
    type Error = Infallible;

    fn recv(&mut self) -> Result<Event, Infallible> {
        Ok(self.events.pop_front().expect("queue drained unexpectedly"))
    }

    fn push(&mut self, event: Event) -> Result<(), Infallible> {
        self.events.push_back(event);
        Ok(())
    }

    fn try_recv(&mut self) -> Result<Option<Event>, Infallible> {
        Ok(self.events.pop_front())
    }
}

impl TestQueue {
    fn is_empty(&self) -> bool {
        self.events.is_empty()
    }
}

/// Each handler returns a programmed follow-up event and records that it ran.
#[derive(Default)]
struct ScriptedActions {
    init: Option<Event>,
    verify: Option<Event>,
    recover: Option<Event>,
    update: Option<Event>,
    trace: Vec<State>,
}

impl Actions for ScriptedActions {
    fn init(&mut self) -> Option<Event> {
        self.trace.push(State::Init);
        self.init
    }
    fn rot_recovery(&mut self) -> Option<Event> {
        self.trace.push(State::RotRecovery);
        None
    }
    fn verify(&mut self) -> Option<Event> {
        self.trace.push(State::FirmwareVerify);
        self.verify
    }
    fn recover(&mut self) -> Option<Event> {
        self.trace.push(State::FirmwareRecovery);
        self.recover
    }
    fn update(&mut self) -> Option<Event> {
        self.trace.push(State::FirmwareUpdate);
        self.update
    }
    fn enter_runtime(&mut self) {
        self.trace.push(State::Runtime);
    }
    fn enter_lockdown(&mut self) {
        self.trace.push(State::Lockdown);
    }
}

/// Drive the machine until the queue is empty.
fn drive(actions: &mut ScriptedActions) -> (State, TestQueue) {
    let mut sm = StateMachine::new();
    let mut q = TestQueue::default();
    q.push(Event::Start).unwrap();
    while !q.is_empty() {
        let ev = q.recv().unwrap();
        sm.step(ev, &mut q, actions).unwrap();
    }
    (sm.state(), q)
}

#[test]
fn happy_path_boots_to_runtime() {
    let mut actions = ScriptedActions {
        init: Some(Event::InitDone),
        verify: Some(Event::VerifyDone),
        ..Default::default()
    };
    let (final_state, _q) = drive(&mut actions);

    assert_eq!(final_state, State::Runtime);
    assert_eq!(
        actions.trace,
        vec![State::Init, State::FirmwareVerify, State::Runtime]
    );
}

#[derive(Default)]
struct RecoverThenPass {
    verify_calls: u32,
    trace: Vec<State>,
}

impl Actions for RecoverThenPass {
    fn init(&mut self) -> Option<Event> {
        self.trace.push(State::Init);
        Some(Event::InitDone)
    }
    fn rot_recovery(&mut self) -> Option<Event> {
        None
    }
    fn verify(&mut self) -> Option<Event> {
        self.trace.push(State::FirmwareVerify);
        self.verify_calls += 1;
        if self.verify_calls == 1 {
            Some(Event::VerifyFailed)
        } else {
            Some(Event::VerifyDone)
        }
    }
    fn recover(&mut self) -> Option<Event> {
        self.trace.push(State::FirmwareRecovery);
        Some(Event::RecoveryDone)
    }
    fn update(&mut self) -> Option<Event> {
        None
    }
    fn enter_runtime(&mut self) {
        self.trace.push(State::Runtime);
    }
}

#[test]
fn verify_failure_recovers_then_revalidates() {
    let mut sm = StateMachine::new();
    let mut q = TestQueue::default();
    let mut actions = RecoverThenPass::default();
    q.push(Event::Start).unwrap();
    while !q.is_empty() {
        let ev = q.recv().unwrap();
        sm.step(ev, &mut q, &mut actions).unwrap();
    }

    assert_eq!(sm.state(), State::Runtime);
    assert_eq!(
        actions.trace,
        vec![
            State::Init,
            State::FirmwareVerify,
            State::FirmwareRecovery,
            State::FirmwareVerify,
            State::Runtime,
        ]
    );
}

#[test]
fn unrecoverable_failure_locks_down() {
    let mut actions = ScriptedActions {
        init: Some(Event::InitDone),
        verify: Some(Event::VerifyFailed),
        recover: Some(Event::RecoveryFailed),
        ..Default::default()
    };
    let (final_state, q) = drive(&mut actions);

    assert_eq!(final_state, State::Lockdown);
    assert!(q.is_empty(), "lockdown is terminal: no follow-up events");
    assert_eq!(
        actions.trace,
        vec![
            State::Init,
            State::FirmwareVerify,
            State::FirmwareRecovery,
            State::Lockdown,
        ]
    );
}

#[derive(Default)]
struct UpdateOnReset {
    verify_calls: u32,
}

impl Actions for UpdateOnReset {
    fn init(&mut self) -> Option<Event> {
        Some(Event::InitDone)
    }
    fn rot_recovery(&mut self) -> Option<Event> {
        None
    }
    fn verify(&mut self) -> Option<Event> {
        self.verify_calls += 1;
        if self.verify_calls == 1 {
            None
        } else {
            Some(Event::VerifyDone)
        }
    }
    fn recover(&mut self) -> Option<Event> {
        None
    }
    fn update(&mut self) -> Option<Event> {
        Some(Event::UpdateDone)
    }
}

#[test]
fn update_on_reset_then_runtime() {
    let mut sm = StateMachine::new();
    let mut q = TestQueue::default();
    let mut actions = UpdateOnReset::default();

    sm.step(Event::Start, &mut q, &mut actions).unwrap();
    let ev = q.recv().unwrap();
    sm.step(ev, &mut q, &mut actions).unwrap();
    assert_eq!(sm.state(), State::FirmwareVerify);
    assert!(q.is_empty(), "verify parked awaiting update intent");

    sm.step(Event::UpdateRequested, &mut q, &mut actions).unwrap();
    assert_eq!(sm.state(), State::FirmwareUpdate);

    while !q.is_empty() {
        let ev = q.recv().unwrap();
        sm.step(ev, &mut q, &mut actions).unwrap();
    }
    assert_eq!(sm.state(), State::Runtime);
}

/// A queue that takes nothing.
struct FullQueue;

impl EventQueue for FullQueue {
    type Error = &'static str;

    fn recv(&mut self) -> Result<Event, &'static str> {
        Err("empty")
    }

    fn push(&mut self, _event: Event) -> Result<(), &'static str> {
        Err("full")
    }

    fn try_recv(&mut self) -> Result<Option<Event>, &'static str> {
        Err("broken")
    }
}

#[test]
fn a_full_queue_is_reported_after_the_state_is_entered() {
    let mut sm = StateMachine::default();
    let mut actions = ScriptedActions {
        init: Some(Event::InitDone),
        ..Default::default()
    };
    assert_eq!(sm.step(Event::Start, &mut FullQueue, &mut actions), Err("full"));
    assert_eq!(sm.state(), State::Init);
    assert_eq!(actions.trace, vec![State::Init]);
}

#[test]
fn a_discarded_event_runs_no_handler() {
    let mut sm = StateMachine::new();
    let mut actions = ScriptedActions::default();
    assert_eq!(
        sm.step(Event::UpdateDone, &mut FullQueue, &mut actions),
        Ok(State::Boot)
    );
    assert!(actions.trace.is_empty());
}

/// Records every handler that runs, by its state.
#[derive(Default)]
struct Recorder {
    trace: Vec<State>,
    reboot: Option<Event>,
}

impl Actions for Recorder {
    fn init(&mut self) -> Option<Event> {
        self.trace.push(State::Init);
        None
    }
    fn rot_recovery(&mut self) -> Option<Event> {
        self.trace.push(State::RotRecovery);
        None
    }
    fn verify(&mut self) -> Option<Event> {
        self.trace.push(State::FirmwareVerify);
        None
    }
    fn recover(&mut self) -> Option<Event> {
        self.trace.push(State::FirmwareRecovery);
        None
    }
    fn update(&mut self) -> Option<Event> {
        self.trace.push(State::FirmwareUpdate);
        None
    }
    fn enter_lockdown(&mut self) {
        self.trace.push(State::Lockdown);
    }
    fn enter_runtime(&mut self) {
        self.trace.push(State::Runtime);
    }
    fn reboot(&mut self) -> Option<Event> {
        self.trace.push(State::Reboot);
        self.reboot
    }
    fn enter_unprovisioned(&mut self) {
        self.trace.push(State::Unprovisioned);
    }
}

#[test]
fn every_entered_state_runs_its_handler_once() {
    let runs = [
        vec![Event::Start, Event::InitDone, Event::VerifyUnprovisioned],
        vec![Event::Start, Event::InitDone, Event::VerifyDone],
        vec![Event::Start, Event::InitDone, Event::HandshakeFailed],
        vec![
            Event::Start,
            Event::InitRotSecondaryBooted,
            Event::RecoveryDone,
        ],
    ];
    for run in runs {
        let mut sm = StateMachine::new();
        let mut q = TestQueue::default();
        let mut actions = Recorder {
            trace: Vec::new(),
            reboot: Some(Event::Start),
        };
        let mut entered = Vec::new();
        for event in run {
            entered.push(sm.step(event, &mut q, &mut actions).unwrap());
        }
        assert_eq!(actions.trace, entered);
        // Of these only a reboot reports an event.
        let rebooted = sm.state() == State::Reboot;
        assert_eq!(q.try_recv().unwrap(), rebooted.then_some(Event::Start));
    }
}
