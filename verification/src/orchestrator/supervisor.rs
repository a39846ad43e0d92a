//! The run loop of the orchestrator.
//!
//! One park and one deadline: watchdogs and the poll cadence expire through the
//! same wait. Waiting, polling and dispatching belong to the platform.
//! [`SupervisorLoop`] decides what the loop does next: it is told what happened,
//! and says what to do.

use crate::orchestrator::notify;
use crate::orchestrator::notify::{
    classify_poll, ClientError, NotifySupervisor, Pending, PollOutcome, TransportError,
};
use crate::orchestrator::sm::Event;
use crate::orchestrator::timer::Wake;
use vstd::prelude::*;

verus! {

/// A change of the poll cadence.
#[derive(Debug, Clone, Copy, PartialEq, Eq, Structural)]
pub enum Cadence {
    /// Leave it as it is.
    Keep,
    /// Arm the next poll.
    Arm,
    /// Cancel it.
    Cancel,
}

/// What happened, as the loop reports it.
#[derive(Debug, Clone, Copy, PartialEq, Eq)]
pub enum LoopEvent {
    /// The subscription was accepted, or not.
    Subscribed(Result<(), ClientError>),
    /// The wait ended; this says whether the peer nudged.
    Woke { nudged: bool },
    /// The next deadline that has passed, or none is left.
    Expired(Option<Wake>),
    /// An event was dispatched; this says whether a status report to the peer
    /// timed out meanwhile.
    Dispatched { push_timed_out: bool },
    /// The peer was polled.
    Polled(Result<Option<Pending>, ClientError>),
}

/// What the loop is to do next.
#[derive(Debug, Clone, Copy, PartialEq, Eq, Structural)]
pub enum LoopAction {
    /// Subscribe to the notifications of the peer.
    Subscribe,
    /// Change the cadence, then wait until the nearest deadline.
    Wait { cadence: Cadence },
    /// Take the next deadline that has passed.
    Drain,
    /// Dispatch an event to the orchestrator; with `report`, tell the peer of
    /// each phase before its effect runs.
    Dispatch { event: Event, report: bool },
    /// Poll the peer once.
    Poll,
    /// The loop was told something that it did not wait for.
    OutOfTurn,
}

/// Where the loop goes on after a dispatch.
#[derive(Debug, Clone, Copy, PartialEq, Eq, Structural)]
pub enum Then {
    /// With the deadlines.
    Drain,
    /// With the next wait. The poll is armed again with `rearm` and a peer that
    /// is healthy by then, and cancelled otherwise.
    Finish { rearm: bool },
}

/// What the loop waits for.
#[derive(Debug, Clone, Copy, PartialEq, Eq, Structural)]
pub enum LoopPhase {
    Subscribing,
    Waiting,
    Draining,
    Dispatching { report: bool, then_go: Then },
    Polling,
}

/// Decisions of the run loop.
pub struct SupervisorLoop {
    supervisor: NotifySupervisor,
    phase: LoopPhase,
    poll_due: bool,
    nudged: bool,
}

/// What a [`SupervisorLoop`] holds.
pub struct LoopView {
    pub healthy: bool,
    pub phase: LoopPhase,
    pub poll_due: bool,
    pub nudged: bool,
}

impl View for SupervisorLoop {
    type V = LoopView;

    closed spec fn view(&self) -> LoopView {
        LoopView {
            healthy: self.supervisor@,
            phase: self.phase,
            poll_due: self.poll_due,
            nudged: self.nudged,
        }
    }
}

impl LoopView {
    /// Go on with the next wait.
    pub open spec fn wait(self, cadence: Cadence) -> (LoopView, LoopAction) {
        (LoopView { phase: LoopPhase::Waiting, ..self }, LoopAction::Wait { cadence })
    }

    /// Go on after a dispatch.
    pub open spec fn go_on(self, then_go: Then) -> (LoopView, LoopAction) {
        match then_go {
            Then::Drain => (LoopView { phase: LoopPhase::Draining, ..self }, LoopAction::Drain),
            Then::Finish { rearm } => self.wait(
                if rearm && self.healthy {
                    Cadence::Arm
                } else {
                    Cadence::Cancel
                },
            ),
        }
    }

    /// Dispatch an event.
    pub open spec fn dispatch(self, event: Event, report: bool, then_go: Then) -> (
        LoopView,
        LoopAction,
    ) {
        (
            LoopView { phase: LoopPhase::Dispatching { report, then_go }, ..self },
            LoopAction::Dispatch { event, report },
        )
    }

    /// Where the loop goes, and what it does, when it is told an event.
    pub open spec fn next(self, event: LoopEvent) -> (LoopView, LoopAction) {
        match (self.phase, event) {
            (LoopPhase::Subscribing, LoopEvent::Subscribed(r)) => {
                let healthy = match r {
                    Ok(_) => self.healthy,
                    Err(e) => notify::health_after(self.healthy, PollOutcome::of(Err(e))),
                };
                let s = LoopView { healthy, ..self };
                s.wait(
                    if healthy {
                        Cadence::Arm
                    } else {
                        Cadence::Keep
                    },
                )
            },
            (LoopPhase::Waiting, LoopEvent::Woke { nudged }) => (
                LoopView { phase: LoopPhase::Draining, poll_due: false, nudged, ..self },
                LoopAction::Drain,
            ),
            (LoopPhase::Draining, LoopEvent::Expired(wake)) => match wake {
                Some(Wake::Event(e)) => self.dispatch(e, true, Then::Drain),
                Some(Wake::PollDue) => (LoopView { poll_due: true, ..self }, LoopAction::Drain),
                None => if (self.poll_due || self.nudged) && self.healthy {
                    (LoopView { phase: LoopPhase::Polling, ..self }, LoopAction::Poll)
                } else {
                    self.wait(Cadence::Keep)
                },
            },
            (LoopPhase::Polling, LoopEvent::Polled(r)) => {
                let outcome = PollOutcome::of(r);
                let reaction = notify::reaction(self.healthy, outcome);
                let s = LoopView { healthy: notify::health_after(self.healthy, outcome), ..self };
                match reaction.dispatch {
                    Some(e) => s.dispatch(e, true, Then::Finish { rearm: reaction.rearm }),
                    None => s.go_on(Then::Finish { rearm: reaction.rearm }),
                }
            },
            (
                LoopPhase::Dispatching { report, then_go },
                LoopEvent::Dispatched { push_timed_out },
            ) => if report && push_timed_out {
                let s = LoopView { healthy: false, ..self };
                match notify::reaction(self.healthy, PollOutcome::Unhealthy).dispatch {
                    Some(unwind) => s.dispatch(unwind, false, then_go),
                    None => s.go_on(then_go),
                }
            } else {
                self.go_on(then_go)
            },
            _ => (self, LoopAction::OutOfTurn),
        }
    }

    /// The loop after a run of events.
    pub open spec fn after_all(self, events: Seq<LoopEvent>) -> LoopView
        decreases events.len(),
    {
        if events.len() == 0 {
            self
        } else {
            self.after_all(events.drop_last()).next(events.last()).0
        }
    }

    /// What the loop does at event number `i` of a run.
    pub open spec fn action_at(self, events: Seq<LoopEvent>, i: int) -> LoopAction {
        self.after_all(events.take(i)).next(events[i]).1
    }
}

/// Whether a status report timed out. A peer that rejects a report or answers
/// badly is alive.
pub fn push_status_timed_out(result: Result<(), ClientError>) -> (r: bool)
    ensures
        r == (result == Err::<(), ClientError>(ClientError::Transport(TransportError::Timeout))),
{
    match result {
        Err(ClientError::Transport(TransportError::Timeout)) => true,
        Err(_) => false,
        Ok(_) => false,
    }
}

impl Default for SupervisorLoop {
    fn default() -> (l: Self)
        ensures
            l@ == (LoopView {
                healthy: true,
                phase: LoopPhase::Subscribing,
                poll_due: false,
                nudged: false,
            }),
    {
        SupervisorLoop::new()
    }
}

impl SupervisorLoop {
    /// The loop before its subscription: [`LoopAction::Subscribe`] is the first
    /// thing to do.
    pub fn new() -> (l: Self)
        ensures
            l@ == (LoopView {
                healthy: true,
                phase: LoopPhase::Subscribing,
                poll_due: false,
                nudged: false,
            }),
    {
        SupervisorLoop {
            supervisor: NotifySupervisor::new(),
            phase: LoopPhase::Subscribing,
            poll_due: false,
            nudged: false,
        }
    }

    /// Whether the peer is considered able to answer.
    pub fn is_healthy(&self) -> (r: bool)
        ensures
            r == self@.healthy,
    {
        self.supervisor.is_healthy()
    }

    fn wait(&mut self, cadence: Cadence) -> (action: LoopAction)
        ensures
            (final(self)@, action) == old(self)@.wait(cadence),
    {
        self.phase = LoopPhase::Waiting;
        LoopAction::Wait { cadence }
    }

    fn go_on(&mut self, then_go: Then) -> (action: LoopAction)
        ensures
            (final(self)@, action) == old(self)@.go_on(then_go),
    {
        match then_go {
            Then::Drain => {
                self.phase = LoopPhase::Draining;
                LoopAction::Drain
            },
            Then::Finish { rearm } => {
                // A status report may have condemned the peer meanwhile.
                let cadence = if rearm && self.supervisor.is_healthy() {
                    Cadence::Arm
                } else {
                    Cadence::Cancel
                };
                self.wait(cadence)
            },
        }
    }

    fn dispatch(&mut self, event: Event, report: bool, then_go: Then) -> (action: LoopAction)
        ensures
            (final(self)@, action) == old(self)@.dispatch(event, report, then_go),
    {
        self.phase = LoopPhase::Dispatching { report, then_go };
        LoopAction::Dispatch { event, report }
    }

    /// Tell the loop what happened, and learn what to do next.
    pub fn step(&mut self, event: LoopEvent) -> (action: LoopAction)
        ensures
            (final(self)@, action) == old(self)@.next(event),
    {
        match (self.phase, event) {
            (LoopPhase::Subscribing, LoopEvent::Subscribed(r)) => {
                if let Err(e) = r {
                    // There is no update to unwind yet: only the health counts.
                    let _ = self.supervisor.on_poll(classify_poll(Err(e)));
                }
                let cadence = if self.supervisor.is_healthy() {
                    Cadence::Arm
                } else {
                    Cadence::Keep
                };
                self.wait(cadence)
            },
            (LoopPhase::Waiting, LoopEvent::Woke { nudged }) => {
                self.nudged = nudged;
                self.poll_due = false;
                self.phase = LoopPhase::Draining;
                LoopAction::Drain
            },
            (LoopPhase::Draining, LoopEvent::Expired(wake)) => match wake {
                Some(Wake::Event(e)) => self.dispatch(e, true, Then::Drain),
                Some(Wake::PollDue) => {
                    self.poll_due = true;
                    LoopAction::Drain
                },
                None => if (self.poll_due || self.nudged) && self.supervisor.is_healthy() {
                    self.phase = LoopPhase::Polling;
                    LoopAction::Poll
                } else {
                    self.wait(Cadence::Keep)
                },
            },
            (LoopPhase::Polling, LoopEvent::Polled(r)) => {
                let reaction = self.supervisor.on_poll(classify_poll(r));
                let then_go = Then::Finish { rearm: reaction.rearm };
                match reaction.dispatch {
                    Some(e) => self.dispatch(e, true, then_go),
                    None => self.go_on(then_go),
                }
            },
            (
                LoopPhase::Dispatching { report, then_go },
                LoopEvent::Dispatched { push_timed_out },
            ) => {
                if report && push_timed_out {
                    let reaction = self.supervisor.on_poll(PollOutcome::Unhealthy);
                    match reaction.dispatch {
                        Some(unwind) => self.dispatch(unwind, false, then_go),
                        None => self.go_on(then_go),
                    }
                } else {
                    self.go_on(then_go)
                }
            },
            _ => LoopAction::OutOfTurn,
        }
    }
}

/// A peer that has become unhealthy stays so, whatever happens.
pub proof fn health_is_lost_for_good(l: LoopView, events: Seq<LoopEvent>)
    requires
        !l.healthy,
    ensures
        !l.after_all(events).healthy,
    decreases events.len(),
{
    if events.len() > 0 {
        health_is_lost_for_good(l, events.drop_last());
    }
}

proof fn lemma_after_take(l: LoopView, events: Seq<LoopEvent>, i: int, j: int)
    requires
        0 <= i <= j <= events.len(),
    ensures
        l.after_all(events.take(j)) == l.after_all(events.take(i)).after_all(
            events.subrange(i, j),
        ),
    decreases j - i,
{
    if i < j {
        lemma_after_take(l, events, i, j - 1);
        assert(events.take(j).drop_last() =~= events.take(j - 1));
        assert(events.subrange(i, j).drop_last() =~= events.subrange(i, j - 1));
    }
}

/// A dead peer is never polled again: once the loop has seen the peer unhealthy,
/// no later event makes it poll, whatever the peer signals.
pub proof fn a_dead_peer_is_never_polled(l: LoopView, events: Seq<LoopEvent>, i: int, j: int)
    requires
        0 <= i <= j < events.len(),
        !l.after_all(events.take(i)).healthy,
    ensures
        l.action_at(events, j) != LoopAction::Poll,
{
    lemma_after_take(l, events, i, j);
    health_is_lost_for_good(l.after_all(events.take(i)), events.subrange(i, j));
}

/// The cadence is never armed for a condemned peer, whatever condemned it and
/// when: not by a poll that the peer answered before a status report timed out
/// either.
pub proof fn a_condemned_peer_is_never_armed(l: LoopView, event: LoopEvent)
    ensures
        !l.next(event).0.healthy ==> l.next(event).1 != (LoopAction::Wait {
            cadence: Cadence::Arm,
        }),
{
}

/// The unwinding of an update after a failed status report happens at most once
/// in a run of the loop: two events of a run never both dispatch without
/// reporting.
pub proof fn the_silent_unwind_happens_once(l: LoopView, events: Seq<LoopEvent>, i: int, j: int)
    requires
        0 <= i < j < events.len(),
        l.action_at(events, i) matches LoopAction::Dispatch { report, .. } && !report,
    ensures
        !(l.action_at(events, j) matches LoopAction::Dispatch { report, .. } && !report),
        l.action_at(events, i) == (LoopAction::Dispatch {
            event: Event::UpdateRejected,
            report: false,
        }),
{
    assert(events.take(i + 1).drop_last() =~= events.take(i));
    lemma_after_take(l, events, i + 1, j);
    health_is_lost_for_good(l.after_all(events.take(i + 1)), events.subrange(i + 1, j));
}

/// A watchdog that fired always reaches the orchestrator, whatever woke the loop
/// and however the peer is.
pub proof fn watchdogs_always_reach_the_core(l: LoopView, event: Event)
    requires
        l.phase == LoopPhase::Draining,
    ensures
        l.next(LoopEvent::Expired(Some(Wake::Event(event)))).1 == (LoopAction::Dispatch {
            event,
            report: true,
        }),
        l.next(LoopEvent::Expired(Some(Wake::Event(event)))).0.phase == (LoopPhase::Dispatching {
            report: true,
            then_go: Then::Drain,
        }),
{
}

/// A nudge and a due poll in the same wake-up are one errand: the loop polls at
/// most once between two waits.
pub proof fn one_poll_per_wake_up(l: LoopView, event: LoopEvent)
    ensures
        l.next(event).1 is Poll ==> l.phase == LoopPhase::Draining && (l.poll_due || l.nudged),
        l.phase == LoopPhase::Polling && l.next(event).1 !is OutOfTurn ==> match l.next(event).1 {
            LoopAction::Wait { .. } => true,
            LoopAction::Dispatch { .. } => l.next(event).0.phase matches LoopPhase::Dispatching {
                then_go: Then::Finish { .. },
                ..
            },
            _ => false,
        },
{
}

/// The subscription decides on the cadence. It is armed unless the peer is condemned,
/// and only a missed deadline condemns it; another failure does not.
pub proof fn subscribing_arms_a_healthy_peer(l: LoopView, e: ClientError)
    requires
        l.phase == LoopPhase::Subscribing,
        l.healthy,
    ensures
        ({
            let accepted = l.next(LoopEvent::Subscribed(Ok(())));
            let refused = l.next(LoopEvent::Subscribed(Err(e)));
            let silent = e == ClientError::Transport(TransportError::Timeout);
            &&& accepted.0.healthy && accepted.1 == (LoopAction::Wait { cadence: Cadence::Arm })
            &&& refused.0.healthy <==> !silent
            &&& !silent ==> refused.1 == (LoopAction::Wait { cadence: Cadence::Arm })
            &&& silent ==> refused.1 == (LoopAction::Wait { cadence: Cadence::Keep })
            &&& accepted.0.phase == LoopPhase::Waiting && refused.0.phase == LoopPhase::Waiting
        }),
{
}

/// A wake-up starts anew: the loop remembers whether the peer nudged, forgets the poll
/// that was due before, and takes the deadlines.
pub proof fn a_wake_up_starts_anew(l: LoopView, nudged: bool)
    requires
        l.phase == LoopPhase::Waiting,
    ensures
        ({
            let woke = l.next(LoopEvent::Woke { nudged });
            &&& woke.1 == LoopAction::Drain
            &&& woke.0.phase == LoopPhase::Draining
            &&& woke.0.nudged == nudged
            &&& !woke.0.poll_due
            &&& woke.0.healthy == l.healthy
        }),
{
}

/// Draining. A due poll is remembered and the draining goes on. When no deadline is
/// left, the loop polls a healthy peer that nudged or whose poll is due, and otherwise
/// waits with the cadence as it is.
pub proof fn draining_ends_in_a_poll_where_one_is_due(l: LoopView)
    requires
        l.phase == LoopPhase::Draining,
    ensures
        ({
            let due = l.next(LoopEvent::Expired(Some(Wake::PollDue)));
            let none = l.next(LoopEvent::Expired(None));
            let errand = l.healthy && (l.nudged || l.poll_due);
            &&& due == (LoopView { poll_due: true, ..l }, LoopAction::Drain)
            &&& none.1 == LoopAction::Poll <==> errand
            &&& errand ==> none.0.phase == LoopPhase::Polling
            &&& !errand ==> none.1 == (LoopAction::Wait { cadence: Cadence::Keep })
                && none.0.phase == LoopPhase::Waiting
            &&& none.0.healthy == l.healthy
        }),
{
}

/// A poll of a healthy peer. A requested or cancelled update is dispatched and reported,
/// and the next poll is armed behind it; silence condemns the peer, discards the update
/// and arms nothing; whatever else came, the next poll is armed at once.
pub proof fn a_poll_is_acted_on(l: LoopView, result: Result<Option<Pending>, ClientError>)
    requires
        l.phase == LoopPhase::Polling,
        l.healthy,
    ensures
        ({
            let step = l.next(LoopEvent::Polled(result));
            let silent = result == Err::<Option<Pending>, ClientError>(
                ClientError::Transport(TransportError::Timeout),
            );
            let requested = result == Ok::<Option<Pending>, ClientError>(
                Some(Pending::UpdateRequested),
            );
            let cancelled = result == Ok::<Option<Pending>, ClientError>(Some(Pending::Abort));
            let behind = |rearm: bool|
                LoopPhase::Dispatching { report: true, then_go: Then::Finish { rearm } };
            &&& step.0.healthy <==> !silent
            &&& requested ==> step.1 == (LoopAction::Dispatch {
                event: Event::UpdateRequest,
                report: true,
            }) && step.0.phase == behind(true)
            &&& cancelled ==> step.1 == (LoopAction::Dispatch {
                event: Event::UpdateRejected,
                report: true,
            }) && step.0.phase == behind(true)
            &&& silent ==> step.1 == (LoopAction::Dispatch {
                event: Event::UpdateRejected,
                report: true,
            }) && step.0.phase == behind(false)
            &&& !requested && !cancelled && !silent ==> step.1 == (LoopAction::Wait {
                cadence: Cadence::Arm,
            }) && step.0.phase == LoopPhase::Waiting
        }),
{
}

/// After a dispatch the loop goes on where it was: with the deadlines, or with a wait
/// whose cadence is armed where it was to be and the peer is healthy, and cancelled
/// otherwise.
pub proof fn a_dispatch_goes_on_where_it_was(
    l: LoopView,
    report: bool,
    rearm: bool,
    push_timed_out: bool,
)
    requires
        !(report && push_timed_out) || !l.healthy,
    ensures
        ({
            let done = LoopEvent::Dispatched { push_timed_out };
            let draining = LoopView {
                phase: LoopPhase::Dispatching { report, then_go: Then::Drain },
                ..l
            }.next(done);
            let finishing = LoopView {
                phase: LoopPhase::Dispatching { report, then_go: Then::Finish { rearm } },
                ..l
            }.next(done);
            &&& draining.1 == LoopAction::Drain && draining.0.phase == LoopPhase::Draining
            &&& rearm && l.healthy ==> finishing.1 == (LoopAction::Wait { cadence: Cadence::Arm })
            &&& !rearm || !l.healthy ==> finishing.1 == (LoopAction::Wait {
                cadence: Cadence::Cancel,
            })
            &&& finishing.0.phase == LoopPhase::Waiting
            &&& draining.0.healthy == l.healthy && finishing.0.healthy == l.healthy
        }),
{
}

/// A status report that times out condemns a healthy peer and discards the update at
/// once, without a report; then the loop goes on where it was.
pub proof fn a_report_that_times_out_unwinds(l: LoopView, then_go: Then)
    requires
        l.phase == (LoopPhase::Dispatching { report: true, then_go }),
        l.healthy,
    ensures
        ({
            let step = l.next(LoopEvent::Dispatched { push_timed_out: true });
            &&& step.1 == (LoopAction::Dispatch { event: Event::UpdateRejected, report: false })
            &&& step.0.phase == (LoopPhase::Dispatching { report: false, then_go })
            &&& !step.0.healthy
        }),
{
}

/// The loop is out of turn exactly at an event that its phase does not wait for, and
/// then nothing changes.
pub proof fn every_phase_has_its_event(l: LoopView, event: LoopEvent)
    ensures
        l.next(event).1 == LoopAction::OutOfTurn <==> !(match event {
            LoopEvent::Subscribed(_) => l.phase == LoopPhase::Subscribing,
            LoopEvent::Woke { .. } => l.phase == LoopPhase::Waiting,
            LoopEvent::Expired(_) => l.phase == LoopPhase::Draining,
            LoopEvent::Dispatched { .. } => l.phase is Dispatching,
            LoopEvent::Polled(_) => l.phase == LoopPhase::Polling,
        }),
        l.next(event).1 == LoopAction::OutOfTurn ==> l.next(event).0 == l,
{
}

/// What woke the loop is known until the next wake-up: no other event changes whether
/// the peer nudged, and only a due poll makes one due.
pub proof fn errands_are_kept(l: LoopView, event: LoopEvent)
    ensures
        !(l.phase == LoopPhase::Waiting && event is Woke) ==> l.next(event).0.nudged == l.nudged,
        !(l.phase == LoopPhase::Waiting && event is Woke) && event != LoopEvent::Expired(
            Some(Wake::PollDue),
        ) ==> l.next(event).0.poll_due == l.poll_due,
{
}

/// A status report timed out where its deadline passed, and at no other result.
pub proof fn only_a_deadline_times_a_report_out(result: Result<(), ClientError>, r: bool)
    requires
        call_ensures(push_status_timed_out, (result,), r),
    ensures
        r <==> (result matches Err(ClientError::Transport(TransportError::Timeout))),
{
}

/// The loop moves as its view foresees, at every event.
pub proof fn the_loop_moves_as_foreseen(
    l: &mut SupervisorLoop,
    event: LoopEvent,
    action: LoopAction,
)
    requires
        call_ensures(SupervisorLoop::step, (l, event), action),
    ensures
        action == old(l)@.next(event).1,
        final(l)@ == old(l)@.next(event).0,
{
}

/// A new loop subscribes first, presumes its peer healthy and has no errand.
pub proof fn a_new_loop_presumes_health(l: SupervisorLoop, healthy: bool)
    requires
        call_ensures(SupervisorLoop::new, (), l),
        call_ensures(SupervisorLoop::is_healthy, (&l,), healthy),
    ensures
        healthy,
        l@.phase == LoopPhase::Subscribing,
        !l@.poll_due && !l@.nudged,
{
}

} // verus!
