//! Decisions of the terminus loop.

use openprot::pldm::firmware_device::{
    poll_is_capped, responder_poll_timeout, FdEvent, FdEventSink, RunTerminusResult, Terminus, TerminusAction,
    TerminusError, TerminusEvent, FD_MAX_MSG, RESPONDER_POLL_TIMEOUT_MILLIS,
};

/// A sink with a peer that waits for it.
struct ChannelSink(u32);

impl FdEventSink for ChannelSink {
    fn notify(&mut self, _event: FdEvent) {}
    fn max_service_interval_millis(&self) -> Option<u32> {
        Some(self.0)
    }
}

#[test]
fn an_active_transfer_always_polls_fast() {
    assert_eq!(
        responder_poll_timeout(true, 1000, None),
        RESPONDER_POLL_TIMEOUT_MILLIS
    );
    assert_eq!(
        responder_poll_timeout(true, 1000, Some(500)),
        RESPONDER_POLL_TIMEOUT_MILLIS
    );
}

#[test]
fn an_idle_loop_with_no_sink_constraint_is_unchanged() {
    assert_eq!(responder_poll_timeout(false, 1000, None), 1000);
}

#[test]
fn a_sink_with_a_peer_caps_the_idle_poll() {
    assert_eq!(responder_poll_timeout(false, 1000, Some(10)), 10);
}

#[test]
fn the_cap_never_extends_the_poll() {
    assert_eq!(responder_poll_timeout(false, 5, Some(1000)), 5);
}

#[test]
fn the_default_sink_declares_no_constraint() {
    assert_eq!(().max_service_interval_millis(), None);
    assert_eq!(ChannelSink(25).max_service_interval_millis(), Some(25));
}

type Event = TerminusEvent<&'static str>;
type Action = TerminusAction<&'static str>;

fn serving(t: &mut Terminus) {
    let action: Action = t.start();
    assert!(matches!(action, TerminusAction::Listen { timeout_millis: 1000 }));
    assert!(matches!(
        t.step(Event::ListenerReady(Ok(()))),
        TerminusAction::Service { notify: None }
    ));
}

fn sampled(update_mode: bool) -> Event {
    Event::Sampled {
        service_interval_millis: Some(20),
        update_mode,
    }
}

#[test]
fn an_idle_iteration_polls_and_serves_again() {
    let mut t = Terminus::new(8, 1000, 50);
    serving(&mut t);
    assert!(matches!(
        t.step(Event::Serviced {
            initiator_active: false
        }),
        TerminusAction::Sample
    ));
    assert!(matches!(
        t.step(sampled(false)),
        TerminusAction::Poll { timeout_millis: 20 }
    ));
    assert!(matches!(
        t.step(Event::Answered { update_mode: false }),
        TerminusAction::Service { notify: None }
    ));
}

#[test]
fn an_accepted_request_is_notified_at_its_edge() {
    let mut t = Terminus::new(8, 1000, 50);
    serving(&mut t);
    for (was, now, notified) in [
        (false, true, true),
        (true, true, false),
        (true, false, false),
        (false, false, false),
    ] {
        t.step(Event::Serviced {
            initiator_active: false,
        });
        t.step(sampled(was));
        let action = t.step(Event::Answered { update_mode: now });
        if notified {
            assert!(matches!(
                action,
                TerminusAction::Service {
                    notify: Some(FdEvent::UpdateRequested)
                }
            ));
        } else {
            assert!(matches!(action, TerminusAction::Service { notify: None }));
        }
    }
}

#[test]
fn an_active_iteration_sends_one_request_and_then_polls() {
    let mut t = Terminus::new(8, 1000, 50);
    serving(&mut t);
    assert!(matches!(
        t.step(Event::Serviced {
            initiator_active: true
        }),
        TerminusAction::Generate
    ));
    assert!(matches!(
        t.step(Event::Generated(Ok(Some(12)))),
        TerminusAction::Send {
            remote_eid: 8,
            pldm_len: 12,
            timeout_millis: 50
        }
    ));
    assert!(matches!(
        t.step(Event::Sent(Ok(FD_MAX_MSG - 1))),
        TerminusAction::Process { len: 1024 }
    ));
    assert!(matches!(t.step(Event::Processed(Ok(()))), TerminusAction::Sample));
    assert!(matches!(
        t.step(sampled(true)),
        TerminusAction::Poll { timeout_millis: 1 }
    ));
    // A timeout is expected while a request is active.
    assert!(matches!(
        t.step(Event::TimedOut("timeout")),
        TerminusAction::Service { notify: None }
    ));
}

#[test]
fn nothing_to_send_goes_straight_to_the_poll() {
    let mut t = Terminus::new(8, 1000, 50);
    serving(&mut t);
    t.step(Event::Serviced {
        initiator_active: true,
    });
    assert!(matches!(t.step(Event::Generated(Ok(None))), TerminusAction::Sample));
}

#[test]
fn a_quiet_interval_of_the_sink_keeps_the_loop_alive() {
    let mut t = Terminus::new(8, 1000, 50);
    serving(&mut t);
    for _ in 0..3 {
        t.step(Event::Serviced {
            initiator_active: false,
        });
        assert!(matches!(
            t.step(sampled(false)),
            TerminusAction::Poll { timeout_millis: 20 }
        ));
        assert!(matches!(
            t.step(Event::TimedOut("timeout")),
            TerminusAction::Service { notify: None }
        ));
    }
    assert!(poll_is_capped(false, 1000, Some(20)));
    assert!(!poll_is_capped(true, 1000, Some(20)));
    assert!(!poll_is_capped(false, 20, Some(20)));
    assert!(!poll_is_capped(false, 0, Some(20)));
    assert!(!poll_is_capped(false, 1000, None));
}

#[test]
fn an_idle_timeout_ends_the_loop() {
    // An interval that is no shorter than the caller's timeout changes nothing.
    for service_interval_millis in [None, Some(1000), Some(2000)] {
        let mut t = Terminus::new(8, 1000, 50);
        serving(&mut t);
        t.step(Event::Serviced {
            initiator_active: false,
        });
        assert!(matches!(
            t.step(Event::Sampled {
                service_interval_millis,
                update_mode: false,
            }),
            TerminusAction::Poll {
                timeout_millis: 1000
            }
        ));
        assert!(matches!(
            t.step(Event::TimedOut("timeout")),
            TerminusAction::Stop(TerminusError::Service("timeout"))
        ));
    }
    let mut t = Terminus::new(8, 1000, 50);
    serving(&mut t);
    t.step(Event::Serviced {
        initiator_active: false,
    });
    t.step(Event::Sampled {
        service_interval_millis: None,
        update_mode: false,
    });
    assert!(matches!(
        t.step(Event::TimedOut("timeout")),
        TerminusAction::Stop(TerminusError::Service("timeout"))
    ));
    assert!(matches!(
        t.step(Event::Answered { update_mode: true }),
        TerminusAction::Stop(TerminusError::OutOfTurn)
    ));
}

#[test]
fn failures_end_the_loop() {
    let mut t = Terminus::new(8, 1000, 50);
    assert!(matches!(
        t.step(Event::ListenerReady(Err("no listener"))),
        TerminusAction::Stop(TerminusError::Service("no listener"))
    ));

    let mut t = Terminus::new(8, 1000, 50);
    serving(&mut t);
    t.step(Event::Serviced {
        initiator_active: true,
    });
    assert!(matches!(
        t.step(Event::Generated(Err("bad"))),
        TerminusAction::Stop(TerminusError::Service("bad"))
    ));

    for (sent, error) in [
        (Err("lost"), TerminusError::Service("lost")),
        (Ok(usize::MAX), TerminusError::OverflowMaxSize),
        (Ok(FD_MAX_MSG), TerminusError::BufferTooSmall),
    ] {
        let mut t = Terminus::new(8, 1000, 50);
        serving(&mut t);
        t.step(Event::Serviced {
            initiator_active: true,
        });
        t.step(Event::Generated(Ok(Some(1))));
        match t.step(Event::Sent(sent)) {
            TerminusAction::Stop(e) => assert_eq!(e, error),
            _ => panic!("the loop goes on"),
        }
    }

    let mut t = Terminus::new(8, 1000, 50);
    serving(&mut t);
    t.step(Event::Serviced {
        initiator_active: true,
    });
    t.step(Event::Generated(Ok(Some(1))));
    t.step(Event::Sent(Ok(3)));
    assert!(matches!(
        t.step(Event::Processed(Err("refused"))),
        TerminusAction::Stop(TerminusError::Service("refused"))
    ));

    let mut t = Terminus::new(8, 1000, 50);
    serving(&mut t);
    t.step(Event::Serviced {
        initiator_active: true,
    });
    t.step(Event::Generated(Ok(None)));
    t.step(sampled(false));
    assert!(matches!(
        t.step(Event::PollFailed("broken")),
        TerminusAction::Stop(TerminusError::Service("broken"))
    ));
}

#[test]
fn only_the_update_agent_is_answered() {
    let t = Terminus::new(8, 0, 0);
    assert!(t.accepts(8));
    assert!(!t.accepts(9));
    let r: RunTerminusResult<()> = RunTerminusResult::StoppedByError(TerminusError::OutOfTurn);
    assert!(matches!(r, RunTerminusResult::StoppedByError(TerminusError::OutOfTurn)));
}

#[test]
fn the_empty_sink_drops_everything() {
    let mut sink = ();
    sink.notify(FdEvent::UpdateRequested);
    sink.service();
}
