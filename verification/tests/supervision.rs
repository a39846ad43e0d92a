//! The supervisor's half of the notification channel, and its run loop.

use openprot::orchestrator::notify::{
    classify_poll, ClientError, NotifySupervisor, Pending, Phase, PollOutcome, Reaction,
    TransportError,
};
use openprot::orchestrator::sm::{ComponentId, Event};
use openprot::orchestrator::supervisor::{
    push_status_timed_out, Cadence, LoopAction, LoopEvent, SupervisorLoop,
};
use openprot::orchestrator::timer::{
    deadline_in, wait_deadline, wake_for, Expired, Wake, LATEST,
};
use openprot::pldm::firmware_device::FdEvent;
use openprot::pldm::notify_channel::{NotifyChannel, ServiceAction, ServiceEvent, ServicePass};
use openprot::pldm::notify_transport::{ChannelOutcome, IpcTransport};

/// What carries one poll or status report to the peer.
trait Link {
    fn poll(&mut self) -> Result<Option<Pending>, ClientError>;
    fn push_status(&mut self, phase: Phase) -> Result<(), ClientError>;
}

/// A peer that answers with what it has latched.
#[derive(Default)]
struct Answering {
    latched: Option<Pending>,
}

impl Answering {
    fn latch(&mut self, pending: Pending) {
        self.latched = Some(pending);
    }
}

impl Link for Answering {
    fn poll(&mut self) -> Result<Option<Pending>, ClientError> {
        Ok(self.latched.take())
    }

    fn push_status(&mut self, _phase: Phase) -> Result<(), ClientError> {
        Ok(())
    }
}

/// A peer that never answers: every round trip ends with its deadline.
struct SilentPldm {
    transport: IpcTransport,
}

impl SilentPldm {
    fn new() -> Self {
        SilentPldm {
            transport: IpcTransport::new(3, 50),
        }
    }

    fn transact(&mut self) -> Result<usize, ClientError> {
        self.transport
            .deadline(1000)
            .and_then(|_| self.transport.conclude(ChannelOutcome::DeadlineExceeded))
            .map_err(ClientError::Transport)
    }
}

impl Link for SilentPldm {
    fn poll(&mut self) -> Result<Option<Pending>, ClientError> {
        self.transact().map(|_| None)
    }

    fn push_status(&mut self, _phase: Phase) -> Result<(), ClientError> {
        self.transact().map(|_| ())
    }
}

#[test]
fn a_nudged_update_request_reaches_the_core() {
    let mut link = Answering::default();
    let mut supervisor = NotifySupervisor::new();
    assert_eq!(
        supervisor.on_poll(classify_poll(link.poll())),
        Reaction {
            dispatch: None,
            rearm: true
        }
    );

    link.latch(Pending::UpdateRequested);

    let reaction = supervisor.on_poll(classify_poll(link.poll()));
    assert_eq!(
        reaction,
        Reaction {
            dispatch: Some(Event::UpdateRequest),
            rearm: true
        }
    );
    assert!(supervisor.is_healthy());
}

#[test]
fn transfer_events_drain_without_touching_the_core() {
    let mut link = Answering::default();
    let mut supervisor = NotifySupervisor::new();
    let offer = Pending::Offer {
        target: 0x8000_0000,
        total: 65536,
    };
    link.latch(offer);

    let outcome = classify_poll(link.poll());
    assert_eq!(outcome, PollOutcome::Runtime(offer));
    assert_eq!(
        supervisor.on_poll(outcome),
        Reaction {
            dispatch: None,
            rearm: true
        }
    );
}

#[test]
fn a_silent_pldm_is_condemned_and_unwinds_the_update() {
    let mut supervisor = NotifySupervisor::new();
    let mut link = SilentPldm::new();

    let reaction = supervisor.on_poll(classify_poll(link.poll()));
    assert_eq!(
        reaction,
        Reaction {
            dispatch: Some(Event::UpdateRejected),
            rearm: false
        },
        "a silent peer must release staging and stop the cadence"
    );
    assert!(!supervisor.is_healthy());
}

#[test]
fn a_dead_peer_is_not_polled_again() {
    let mut supervisor = NotifySupervisor::new();
    let mut link = SilentPldm::new();

    let first = supervisor.on_poll(classify_poll(link.poll()));
    assert_eq!(first.dispatch, Some(Event::UpdateRejected));

    for _ in 0..3 {
        let again = supervisor.on_poll(classify_poll(link.poll()));
        assert_eq!(
            again,
            Reaction {
                dispatch: None,
                rearm: false
            },
            "the unwind is dispatched once and the cadence stays stopped"
        );
    }
}

#[test]
fn a_status_push_to_a_silent_peer_times_out() {
    let mut link = SilentPldm::new();
    let pushed = link.push_status(Phase::Staging);
    assert_eq!(pushed, Err(ClientError::Transport(TransportError::Timeout)));
    assert!(push_status_timed_out(pushed));
    assert!(!push_status_timed_out(Answering::default().push_status(Phase::Staging)));
    assert!(!push_status_timed_out(Err(ClientError::InvalidResponse)));
    assert!(!push_status_timed_out(Err(ClientError::Transport(
        TransportError::Failed
    ))));
}

fn waiting() -> SupervisorLoop {
    let mut l = SupervisorLoop::new();
    assert_eq!(
        l.step(LoopEvent::Subscribed(Ok(()))),
        LoopAction::Wait {
            cadence: Cadence::Arm
        }
    );
    l
}

const TIMEOUT: ClientError = ClientError::Transport(TransportError::Timeout);

#[test]
fn an_unanswered_subscription_condemns_the_peer() {
    let mut l = SupervisorLoop::default();
    assert_eq!(
        l.step(LoopEvent::Subscribed(Err(TIMEOUT))),
        LoopAction::Wait {
            cadence: Cadence::Keep
        }
    );
    assert!(!l.is_healthy());
    assert_eq!(l.step(LoopEvent::Woke { nudged: true }), LoopAction::Drain);
    assert_eq!(
        l.step(LoopEvent::Expired(None)),
        LoopAction::Wait {
            cadence: Cadence::Keep
        }
    );
    let mut l = SupervisorLoop::new();
    assert_eq!(
        l.step(LoopEvent::Subscribed(Err(ClientError::InvalidResponse))),
        LoopAction::Wait {
            cadence: Cadence::Arm
        }
    );
    assert!(l.is_healthy());
}

#[test]
fn a_nudge_and_a_due_poll_are_one_errand() {
    let mut l = waiting();
    assert_eq!(l.step(LoopEvent::Woke { nudged: true }), LoopAction::Drain);
    assert_eq!(
        l.step(LoopEvent::Expired(Some(Wake::PollDue))),
        LoopAction::Drain
    );
    assert_eq!(l.step(LoopEvent::Expired(None)), LoopAction::Poll);
    assert_eq!(
        l.step(LoopEvent::Polled(Ok(None))),
        LoopAction::Wait {
            cadence: Cadence::Arm
        }
    );
    // Nothing is due any more.
    l.step(LoopEvent::Woke { nudged: false });
    assert_eq!(
        l.step(LoopEvent::Expired(None)),
        LoopAction::Wait {
            cadence: Cadence::Keep
        }
    );
}

#[test]
fn watchdogs_are_dispatched_before_the_poll() {
    let mut l = waiting();
    l.step(LoopEvent::Woke { nudged: false });
    l.step(LoopEvent::Expired(Some(Wake::PollDue)));
    let event = Event::Timeout(ComponentId::new(1));
    assert_eq!(
        l.step(LoopEvent::Expired(Some(Wake::Event(event)))),
        LoopAction::Dispatch {
            event,
            report: true
        }
    );
    assert_eq!(
        l.step(LoopEvent::Dispatched {
            push_timed_out: false
        }),
        LoopAction::Drain
    );
    assert_eq!(l.step(LoopEvent::Expired(None)), LoopAction::Poll);
    assert_eq!(
        l.step(LoopEvent::Polled(Ok(Some(Pending::UpdateRequested)))),
        LoopAction::Dispatch {
            event: Event::UpdateRequest,
            report: true
        }
    );
    assert_eq!(
        l.step(LoopEvent::Dispatched {
            push_timed_out: false
        }),
        LoopAction::Wait {
            cadence: Cadence::Arm
        }
    );
}

#[test]
fn a_timed_out_report_unwinds_once_without_reporting() {
    let mut l = waiting();
    for first in [true, false] {
        l.step(LoopEvent::Woke { nudged: false });
        l.step(LoopEvent::Expired(Some(Wake::Event(Event::CommitTimeout))));
        let after = l.step(LoopEvent::Dispatched {
            push_timed_out: true,
        });
        if first {
            assert_eq!(
                after,
                LoopAction::Dispatch {
                    event: Event::UpdateRejected,
                    report: false
                }
            );
            assert_eq!(
                l.step(LoopEvent::Dispatched {
                    push_timed_out: false
                }),
                LoopAction::Drain
            );
        } else {
            assert_eq!(after, LoopAction::Drain);
        }
        assert!(!l.is_healthy());
        l.step(LoopEvent::Expired(None));
    }
}

#[test]
fn a_peer_condemned_while_its_poll_is_dispatched_is_not_armed_again() {
    let mut l = waiting();
    l.step(LoopEvent::Woke { nudged: true });
    l.step(LoopEvent::Expired(None));
    assert_eq!(
        l.step(LoopEvent::Polled(Ok(Some(Pending::UpdateRequested)))),
        LoopAction::Dispatch {
            event: Event::UpdateRequest,
            report: true
        }
    );
    assert_eq!(
        l.step(LoopEvent::Dispatched {
            push_timed_out: true
        }),
        LoopAction::Dispatch {
            event: Event::UpdateRejected,
            report: false
        }
    );
    assert!(!l.is_healthy());
    assert_eq!(
        l.step(LoopEvent::Dispatched {
            push_timed_out: false
        }),
        LoopAction::Wait {
            cadence: Cadence::Cancel
        }
    );
}

#[test]
fn a_missed_poll_cancels_the_cadence_for_good() {
    let mut l = waiting();
    l.step(LoopEvent::Woke { nudged: true });
    l.step(LoopEvent::Expired(None));
    assert_eq!(
        l.step(LoopEvent::Polled(Err(TIMEOUT))),
        LoopAction::Dispatch {
            event: Event::UpdateRejected,
            report: true
        }
    );
    // The report to the dead peer times out too; the unwind is not repeated.
    assert_eq!(
        l.step(LoopEvent::Dispatched {
            push_timed_out: true
        }),
        LoopAction::Wait {
            cadence: Cadence::Cancel
        }
    );
    for _ in 0..3 {
        l.step(LoopEvent::Woke { nudged: true });
        l.step(LoopEvent::Expired(Some(Wake::PollDue)));
        assert_eq!(
            l.step(LoopEvent::Expired(None)),
            LoopAction::Wait {
                cadence: Cadence::Keep
            }
        );
    }
    assert_eq!(l.step(LoopEvent::Polled(Ok(None))), LoopAction::OutOfTurn);
}

#[test]
fn deadlines_saturate() {
    assert_eq!(deadline_in(10, 5), 15);
    assert_eq!(deadline_in(10, u64::MAX), LATEST);
    assert_eq!(deadline_in(u64::MAX, 0), LATEST);
    assert_eq!(wait_deadline(Some(7)), 7);
    assert_eq!(wait_deadline(None), LATEST);
}

#[test]
fn expired_deadlines_become_wakes() {
    let id = ComponentId::new(2);
    assert_eq!(wake_for(Expired::Boot(id)), Wake::Event(Event::Timeout(id)));
    assert_eq!(wake_for(Expired::Commit), Wake::Event(Event::CommitTimeout));
    assert_eq!(wake_for(Expired::Poll), Wake::PollDue);
}

#[test]
fn round_trips_are_bounded() {
    let t = IpcTransport::new(4, 50);
    assert_eq!(t.handle(), 4);
    assert_eq!(t.deadline(100), Ok(150));
    assert_eq!(t.deadline(u64::MAX - 49), Err(TransportError::Failed));
    assert_eq!(t.deadline(u64::MAX - 50), Ok(u64::MAX));
    assert_eq!(t.conclude(ChannelOutcome::Answered(9)), Ok(9));
    assert_eq!(
        t.conclude(ChannelOutcome::DeadlineExceeded),
        Err(TransportError::Timeout)
    );
    assert_eq!(t.conclude(ChannelOutcome::Failed), Err(TransportError::Failed));
}

#[test]
fn a_pass_answers_one_request() {
    for poll in [true, false] {
        let mut pass = ServicePass::new(32);
        assert_eq!(
            pass.step(ServiceEvent::Waited { ready: true }),
            ServiceAction::Read
        );
        assert_eq!(
            pass.step(ServiceEvent::ReadDone(Some(32))),
            ServiceAction::Peek { len: 32 }
        );
        assert_eq!(
            pass.step(ServiceEvent::Peeked { poll }),
            ServiceAction::Dispatch { clear_signal: poll }
        );
        assert_eq!(
            pass.step(ServiceEvent::Dispatched { len: 7 }),
            ServiceAction::Respond { len: 7 }
        );
        assert_eq!(
            pass.step(ServiceEvent::Responded { ok: true }),
            ServiceAction::Done { answered: true }
        );
        assert_eq!(
            pass.step(ServiceEvent::Responded { ok: true }),
            ServiceAction::Done { answered: false }
        );
    }
}

#[test]
fn a_pass_gives_up_early() {
    let done = ServiceAction::Done { answered: false };
    assert_eq!(ServicePass::new(8).step(ServiceEvent::Waited { ready: false }), done);
    for read in [None, Some(9)] {
        let mut pass = ServicePass::new(8);
        pass.step(ServiceEvent::Waited { ready: true });
        assert_eq!(pass.step(ServiceEvent::ReadDone(read)), done);
    }
    let mut pass = ServicePass::new(8);
    pass.step(ServiceEvent::Waited { ready: true });
    pass.step(ServiceEvent::ReadDone(Some(8)));
    pass.step(ServiceEvent::Peeked { poll: false });
    assert_eq!(pass.step(ServiceEvent::Dispatched { len: 9 }), done);
    let mut pass = ServicePass::new(8);
    pass.step(ServiceEvent::Waited { ready: true });
    pass.step(ServiceEvent::ReadDone(Some(8)));
    pass.step(ServiceEvent::Peeked { poll: false });
    pass.step(ServiceEvent::Dispatched { len: 8 });
    assert_eq!(pass.step(ServiceEvent::Responded { ok: false }), done);
}

#[test]
fn an_unsubscribed_supervisor_is_not_nudged() {
    let c = NotifyChannel::new(6, 10);
    assert_eq!(c.channel(), 6);
    assert_eq!(c.latch(true), Some(6));
    assert_eq!(c.latch(false), None);
    assert_eq!(c.max_service_interval_millis(), Some(10));
    assert_eq!(
        c.pending_for(FdEvent::UpdateRequested),
        Some(Pending::UpdateRequested)
    );
}
