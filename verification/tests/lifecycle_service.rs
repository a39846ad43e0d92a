//! The lifecycle service and its queue.

use std::collections::VecDeque;
use std::convert::Infallible;

use openprot::lifecycle::ipc::{
    IpcEventQueue, RecvAction, ResourceExhausted, PENDING_CAPACITY, READ_BUFFER_LEN,
};
use openprot::lifecycle::server::{
    wire, Actions, Event, EventQueue, HandleError, LifecycleServer, Request, Response, State,
};

#[derive(Default)]
struct TestQueue {
    events: VecDeque<Event>,
}

impl EventQueue for TestQueue {
    type Error = Infallible;

    fn recv(&mut self) -> Result<Event, Infallible> {
        Ok(self.events.pop_front().expect("queue drained unexpectedly"))
    }

    fn push(&mut self, event: Event) -> Result<(), Infallible> {
        self.events.push_back(event);
        Ok(())
    }

    fn try_recv(&mut self) -> Result<Option<Event>, Infallible> {
        Ok(self.events.pop_front())
    }
}

#[derive(Default)]
struct ScriptedActions {
    init: Option<Event>,
    verify: Option<Event>,
    recover: Option<Event>,
    update: Option<Event>,
}

impl Actions for ScriptedActions {
    fn init(&mut self) -> Option<Event> {
        self.init
    }
    fn rot_recovery(&mut self) -> Option<Event> {
        None
    }
    fn verify(&mut self) -> Option<Event> {
        self.verify
    }
    fn recover(&mut self) -> Option<Event> {
        self.recover
    }
    fn update(&mut self) -> Option<Event> {
        self.update
    }
}

#[test]
fn start_request_drives_boot_to_verify_wait() {
    let actions = ScriptedActions {
        init: Some(Event::InitDone),
        verify: None,
        ..Default::default()
    };
    let mut server = LifecycleServer::new(actions);
    let mut q = TestQueue::default();

    let resp = server.dispatch(Request::Inject(Event::Start), &mut q).unwrap();
    assert_eq!(resp, Response::State(State::FirmwareVerify));
    assert_eq!(server.state(), State::FirmwareVerify);
}

#[test]
fn start_request_runs_all_the_way_to_runtime() {
    let actions = ScriptedActions {
        init: Some(Event::InitDone),
        verify: Some(Event::VerifyDone),
        ..Default::default()
    };
    let mut server = LifecycleServer::new(actions);
    let mut q = TestQueue::default();

    let resp = server.dispatch(Request::Inject(Event::Start), &mut q).unwrap();
    assert_eq!(resp, Response::State(State::Runtime));
}

#[test]
fn query_state_does_not_advance_the_machine() {
    let mut server = LifecycleServer::new(ScriptedActions::default());
    let mut q = TestQueue::default();

    let resp = server.dispatch(Request::QueryState, &mut q).unwrap();
    assert_eq!(resp, Response::State(State::Boot));
    assert_eq!(server.state(), State::Boot);
}

#[test]
fn update_requested_from_runtime_routes_to_update() {
    let actions = ScriptedActions {
        init: Some(Event::InitDone),
        verify: Some(Event::VerifyDone),
        update: Some(Event::UpdateDone),
        ..Default::default()
    };
    let mut server = LifecycleServer::new(actions);
    let mut q = TestQueue::default();

    server.dispatch(Request::Inject(Event::Start), &mut q).unwrap();
    assert_eq!(server.state(), State::Runtime);

    let resp = server
        .dispatch(Request::Inject(Event::UpdateRequested), &mut q)
        .unwrap();
    assert_eq!(resp, Response::State(State::Runtime));
}

#[test]
fn handle_request_decodes_dispatches_and_encodes() {
    let actions = ScriptedActions {
        init: Some(Event::InitDone),
        verify: Some(Event::VerifyDone),
        ..Default::default()
    };
    let mut server = LifecycleServer::new(actions);
    let mut q = TestQueue::default();

    let mut req_buf = [0u8; 8];
    let req_len = wire::encode_request(&mut req_buf, Request::Inject(Event::Start)).unwrap();

    let mut resp_buf = [0u8; 8];
    let resp_len = server
        .handle_request(&req_buf[..req_len], &mut resp_buf, &mut q)
        .unwrap();

    assert_eq!(
        wire::decode_response(&resp_buf[..resp_len]),
        Ok(Response::State(State::Runtime))
    );
}

#[test]
fn malformed_request_is_rejected_not_fatal() {
    let mut server = LifecycleServer::new(ScriptedActions::default());
    let mut q = TestQueue::default();

    let mut resp_buf = [0u8; 8];
    let resp_len = server
        .handle_request(&[0xFF, 0xFF], &mut resp_buf, &mut q)
        .unwrap();

    assert_eq!(
        wire::decode_response(&resp_buf[..resp_len]),
        Ok(Response::Rejected)
    );
    assert_eq!(server.state(), State::Boot);
}

#[test]
fn a_small_response_buffer_is_reported() {
    let mut server = LifecycleServer::new(ScriptedActions::default());
    let mut q = TestQueue::default();
    let mut resp_buf = [7u8; 1];
    assert_eq!(
        server.handle_request(&[2, 0], &mut resp_buf, &mut q),
        Err(HandleError::ResponseBufferTooSmall)
    );
    assert_eq!(resp_buf, [7]);
}

struct BrokenQueue;

impl EventQueue for BrokenQueue {
    type Error = u8;

    fn recv(&mut self) -> Result<Event, u8> {
        Err(1)
    }

    fn push(&mut self, _event: Event) -> Result<(), u8> {
        Err(2)
    }

    fn try_recv(&mut self) -> Result<Option<Event>, u8> {
        Err(3)
    }
}

#[test]
fn a_queue_failure_is_surfaced() {
    let mut server = LifecycleServer::new(ScriptedActions {
        init: Some(Event::InitDone),
        ..Default::default()
    });
    let mut resp_buf = [0u8; 2];
    assert_eq!(
        server.handle_request(&[1, 1], &mut resp_buf, &mut BrokenQueue),
        Err(HandleError::Queue(2))
    );
    assert_eq!(server.state(), State::Init);
    assert!(server.actions().init == Some(Event::InitDone));

    let mut idle = LifecycleServer::new(ScriptedActions::default());
    assert_eq!(
        idle.dispatch(Request::Inject(Event::Start), &mut BrokenQueue),
        Err(3)
    );
    assert_eq!(
        idle.dispatch(Request::QueryState, &mut BrokenQueue),
        Ok(Response::State(State::Init))
    );
}

#[test]
fn lockdown_ignores_every_request() {
    let mut server = LifecycleServer::new(ScriptedActions {
        init: Some(Event::InitDone),
        verify: Some(Event::VerifyFailed),
        recover: Some(Event::RecoveryFailed),
        ..Default::default()
    });
    let mut q = TestQueue::default();
    assert_eq!(
        server.dispatch(Request::Inject(Event::Start), &mut q),
        Ok(Response::State(State::Lockdown))
    );
    for event in [Event::Start, Event::UpdateRequested, Event::ProvisionCmd] {
        assert_eq!(
            server.dispatch(Request::Inject(event), &mut q),
            Ok(Response::State(State::Lockdown))
        );
    }
}

#[test]
fn follow_ups_are_delivered_ahead_of_the_channel() {
    let mut q = IpcEventQueue::new(42);
    assert_eq!(q.handle(), 42);
    assert_eq!(q.begin_recv(), RecvAction::WaitForChannel);
    assert_eq!(q.push(Event::VerifyDone), Ok(()));
    assert_eq!(q.push(Event::UpdateDone), Ok(()));
    assert_eq!(q.begin_recv(), RecvAction::Deliver(Event::VerifyDone));
    assert_eq!(q.try_recv(), Some(Event::UpdateDone));
    assert_eq!(q.try_recv(), None);
}

#[test]
fn a_full_follow_up_buffer_refuses() {
    let mut q = IpcEventQueue::new(1);
    for _ in 0..PENDING_CAPACITY {
        assert_eq!(q.push(Event::Start), Ok(()));
    }
    assert_eq!(q.push(Event::Start), Err(ResourceExhausted));
}

#[test]
fn a_message_that_is_no_event_is_dropped() {
    let q = IpcEventQueue::new(1);
    assert_eq!(q.on_message(&[1, 0]), RecvAction::WaitForChannel);
    assert_eq!(q.on_message(&[99, 0, 0, 0]), RecvAction::WaitForChannel);
    let mut long = [0u8; READ_BUFFER_LEN];
    long[0] = 6;
    assert_eq!(q.on_message(&long), RecvAction::Deliver(Event::VerifyDone));
}

#[test]
fn a_request_is_answered_when_the_queue_is_empty() {
    let actions = ScriptedActions {
        init: Some(Event::InitDone),
        verify: Some(Event::VerifyFailed),
        recover: Some(Event::RecoveryDone),
        ..Default::default()
    };
    let mut server = LifecycleServer::new(actions);
    let mut q = TestQueue::default();
    // Events without meaning are taken too.
    for _ in 0..100_000 {
        q.events.push_back(Event::ProvisionCmd);
    }
    server.dispatch(Request::Inject(Event::ProvisionCmd), &mut q).unwrap();
    assert!(q.events.is_empty());
    assert_eq!(server.state(), State::Boot);

    q.events.push_back(Event::InitDone);
    q.events.push_back(Event::HandshakeFailed);
    let resp = server.dispatch(Request::Inject(Event::Start), &mut q).unwrap();
    assert_eq!(resp, Response::State(State::Lockdown));
    assert!(q.events.is_empty());
}
