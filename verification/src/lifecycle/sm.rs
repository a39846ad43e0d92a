//! The event-driven lifecycle machine.
//!
//! The machine is generic over the queue that its follow-up events go to and
//! over the work that it performs on entering a state, so it carries no
//! transport or hardware.

pub use crate::lifecycle::api::{transition, Event, State};
use vstd::prelude::*;

verus! {

/// A source and sink of lifecycle events.
///
/// An implementation says by the spec predicates what its methods may do; one
/// that leaves a predicate out says nothing of the method.
pub trait EventQueue: Sized {
    /// Failure of the queue.
    type Error;

    /// Whether `recv` may take `pre` to `post` with the result `r`.
    open spec fn recv_post(pre: Self, post: Self, r: Result<Event, Self::Error>) -> bool {
        true
    }

    /// Whether `push` of an event may take `pre` to `post` with the result `r`.
    open spec fn push_post(
        pre: Self,
        post: Self,
        event: Event,
        r: Result<(), Self::Error>,
    ) -> bool {
        true
    }

    /// Whether `try_recv` may take `pre` to `post` with the result `r`.
    open spec fn try_recv_post(
        pre: Self,
        post: Self,
        r: Result<Option<Event>, Self::Error>,
    ) -> bool {
        true
    }

    /// Block until the next event is available.
    fn recv(&mut self) -> (r: Result<Event, Self::Error>)
        ensures
            Self::recv_post(*old(self), *final(self), r),
    ;

    /// Enqueue an event.
    fn push(&mut self, event: Event) -> (r: Result<(), Self::Error>)
        ensures
            Self::push_post(*old(self), *final(self), event, r),
    ;

    /// Take a buffered event without blocking.
    fn try_recv(&mut self) -> (r: Result<Option<Event>, Self::Error>)
        ensures
            Self::try_recv_post(*old(self), *final(self), r),
    ;
}

/// Work that the machine performs on entering a state.
///
/// A handler reports the outcome of its work as the event that follows, or
/// `None` where the machine is to wait for an outside event. An implementation
/// says by the spec predicate what its handlers may do; one that leaves it out
/// says nothing of them.
pub trait Actions: Sized {
    /// Whether the handler of `state` may take `pre` to `post` and report
    /// `follow_up`.
    open spec fn handles(state: State, pre: Self, post: Self, follow_up: Option<Event>) -> bool {
        true
    }

    /// One-time platform initialisation.
    fn init(&mut self) -> (follow_up: Option<Event>)
        ensures
            Self::handles(State::Init, *old(self), *final(self), follow_up),
    ;

    /// Recover the root of trust itself.
    fn rot_recovery(&mut self) -> (follow_up: Option<Event>)
        ensures
            Self::handles(State::RotRecovery, *old(self), *final(self), follow_up),
    ;

    /// Authenticate the active firmware image.
    fn verify(&mut self) -> (follow_up: Option<Event>)
        ensures
            Self::handles(State::FirmwareVerify, *old(self), *final(self), follow_up),
    ;

    /// Restore firmware from a known-good image.
    fn recover(&mut self) -> (follow_up: Option<Event>)
        ensures
            Self::handles(State::FirmwareRecovery, *old(self), *final(self), follow_up),
    ;

    /// Apply a staged firmware update.
    fn update(&mut self) -> (follow_up: Option<Event>)
        ensures
            Self::handles(State::FirmwareUpdate, *old(self), *final(self), follow_up),
    ;

    /// Called on entering [`State::Lockdown`]. By default nothing is done.
    fn enter_lockdown(&mut self)
        ensures
            Self::handles(State::Lockdown, *old(self), *final(self), None) || *final(self) == *old(
                self,
            ),
    {
    }

    /// Called on entering [`State::Runtime`]. By default nothing is done.
    fn enter_runtime(&mut self)
        ensures
            Self::handles(State::Runtime, *old(self), *final(self), None) || *final(self) == *old(
                self,
            ),
    {
    }

    /// Called on entering [`State::Reboot`]. By default nothing is done.
    fn reboot(&mut self) -> (follow_up: Option<Event>)
        ensures
            Self::handles(State::Reboot, *old(self), *final(self), follow_up) || (*final(self)
                == *old(self) && follow_up is None),
    {
        None
    }

    /// Called on entering [`State::Unprovisioned`]. By default nothing is done.
    fn enter_unprovisioned(&mut self)
        ensures
            Self::handles(State::Unprovisioned, *old(self), *final(self), None) || *final(self)
                == *old(self),
    {
    }
}

impl State {
    /// Whether entering this state may take the handlers from `pre` to `post`
    /// and report `follow_up`. Power-on has no work, and the states whose
    /// handlers have a default may do none.
    pub open spec fn entered<A: Actions>(self, pre: A, post: A, follow_up: Option<Event>) -> bool {
        let nothing = post == pre && follow_up is None;
        match self {
            State::Boot => nothing,
            State::Init
            | State::RotRecovery
            | State::FirmwareVerify
            | State::FirmwareRecovery
            | State::FirmwareUpdate => A::handles(self, pre, post, follow_up),
            State::Reboot => A::handles(self, pre, post, follow_up) || nothing,
            State::Lockdown | State::Runtime | State::Unprovisioned => follow_up is None && (
            A::handles(self, pre, post, None) || nothing),
        }
    }
}

/// Run the work of a state and return the event that follows. The handler of the
/// state is called, also where it may do nothing.
pub fn run_state<A: Actions>(state: State, actions: &mut A) -> (follow_up: Option<Event>)
    ensures
        state.entered(*old(actions), *final(actions), follow_up),
        state == State::Lockdown ==> exists|m: &mut A| #[trigger]
            call_ensures(A::enter_lockdown, (m,), ()) && *m == *old(actions) && *final(m)
                == *final(actions),
        state == State::Runtime ==> exists|m: &mut A| #[trigger]
            call_ensures(A::enter_runtime, (m,), ()) && *m == *old(actions) && *final(m)
                == *final(actions),
        state == State::Unprovisioned ==> exists|m: &mut A| #[trigger]
            call_ensures(A::enter_unprovisioned, (m,), ()) && *m == *old(actions) && *final(m)
                == *final(actions),
        state == State::Reboot ==> exists|m: &mut A| #[trigger]
            call_ensures(A::reboot, (m,), follow_up) && *m == *old(actions) && *final(m)
                == *final(actions),
{
    match state {
        State::Init => actions.init(),
        State::RotRecovery => actions.rot_recovery(),
        State::FirmwareVerify => actions.verify(),
        State::FirmwareRecovery => actions.recover(),
        State::FirmwareUpdate => actions.update(),
        State::Reboot => actions.reboot(),
        State::Lockdown => {
            actions.enter_lockdown();
            None
        },
        State::Runtime => {
            actions.enter_runtime();
            None
        },
        State::Unprovisioned => {
            actions.enter_unprovisioned();
            None
        },
        State::Boot => None,
    }
}

/// The lifecycle machine: its current state.
pub struct StateMachine {
    state: State,
}

impl View for StateMachine {
    type V = State;

    closed spec fn view(&self) -> State {
        self.state
    }
}

impl Default for StateMachine {
    fn default() -> (machine: Self)
        ensures
            machine@ == State::Boot,
    {
        StateMachine::new()
    }
}

impl StateMachine {
    /// A machine that waits in [`State::Boot`].
    pub fn new() -> (machine: Self)
        ensures
            machine@ == State::Boot,
    {
        StateMachine { state: State::Boot }
    }

    /// The current state.
    pub fn state(&self) -> (state: State)
        ensures
            state == self@,
    {
        self.state
    }

    /// Whether handing on `follow_up` to a queue may take it from `pre` to
    /// `post`, and the step to the result `r` in the state `next`.
    pub open spec fn handed_on<Q: EventQueue>(
        pre: Q,
        post: Q,
        follow_up: Option<Event>,
        next: State,
        r: Result<State, Q::Error>,
    ) -> bool {
        match follow_up {
            None => post == pre && r == Ok::<State, Q::Error>(next),
            Some(event) => match r {
                Ok(s) => s == next && Q::push_post(pre, post, event, Ok(())),
                Err(e) => Q::push_post(pre, post, event, Err(e)),
            },
        }
    }

    /// Whether entering `next` may take handlers and queue from their first to
    /// their second state with the result `r`: the handler runs, and the event
    /// that it reports is enqueued.
    pub open spec fn moved<Q: EventQueue, A: Actions>(
        next: State,
        queue_pre: Q,
        queue_post: Q,
        actions_pre: A,
        actions_post: A,
        r: Result<State, Q::Error>,
    ) -> bool {
        exists|follow_up: Option<Event>| #[trigger]
            next.entered(actions_pre, actions_post, follow_up) && StateMachine::handed_on(
                queue_pre,
                queue_post,
                follow_up,
                next,
                r,
            )
    }

    /// Whether one event may take the machine from `pre` to `post`, and queue
    /// and handlers with it, with the result `r`. An event without meaning is
    /// discarded and touches nothing.
    pub open spec fn stepped<Q: EventQueue, A: Actions>(
        event: Event,
        pre: State,
        post: State,
        queue_pre: Q,
        queue_post: Q,
        actions_pre: A,
        actions_post: A,
        r: Result<State, Q::Error>,
    ) -> bool {
        match pre.next(event) {
            None => {
                &&& post == pre
                &&& queue_post == queue_pre
                &&& actions_post == actions_pre
                &&& r == Ok::<State, Q::Error>(pre)
            },
            Some(next) => {
                &&& post == next
                &&& StateMachine::moved(next, queue_pre, queue_post, actions_pre, actions_post, r)
            },
        }
    }

    /// Process one event: apply the transition, and if the state is entered run
    /// its handler and enqueue the event that follows. Returns the state in
    /// which the machine is then.
    pub fn step<Q: EventQueue, A: Actions>(
        &mut self,
        event: Event,
        queue: &mut Q,
        actions: &mut A,
    ) -> (r: Result<State, Q::Error>)
        ensures
            StateMachine::stepped(
                event,
                old(self)@,
                final(self)@,
                *old(queue),
                *final(queue),
                *old(actions),
                *final(actions),
                r,
            ),
            final(self)@ == old(self)@.after(event),
            r matches Ok(s) ==> s == final(self)@,
            old(self)@.next(event) == Some(State::Lockdown) ==> exists|m: &mut A| #[trigger]
                call_ensures(A::enter_lockdown, (m,), ()) && *m == *old(actions) && *final(m)
                    == *final(actions),
            old(self)@.next(event) == Some(State::Runtime) ==> exists|m: &mut A| #[trigger]
                call_ensures(A::enter_runtime, (m,), ()) && *m == *old(actions) && *final(m)
                    == *final(actions),
            old(self)@.next(event) == Some(State::Unprovisioned) ==> exists|m: &mut A| #[trigger]
                call_ensures(A::enter_unprovisioned, (m,), ()) && *m == *old(actions) && *final(m)
                    == *final(actions),
            old(self)@.next(event) == Some(State::Reboot) ==> exists|
                m: &mut A,
                follow_up: Option<Event>,
            | #[trigger]
                call_ensures(A::reboot, (m,), follow_up) && *m == *old(actions) && *final(m)
                    == *final(actions) && StateMachine::handed_on(
                    *old(queue),
                    *final(queue),
                    follow_up,
                    State::Reboot,
                    r,
                ),
    {
        if let Some(next) = transition(self.state, event) {
            self.state = next;
            let follow_up = run_state(next, actions);
            if let Some(event) = follow_up {
                match queue.push(event) {
                    Ok(unit) => {
                        assert(unit == ());
                    },
                    Err(e) => return Err(e),
                }
            }
        }
        Ok(self.state)
    }
}

/// A state runs its own handler on entry. Power-on has none; the states that only wait
/// for what comes next report no event, and their handlers may do nothing.
pub proof fn a_state_runs_its_own_handler<A: Actions>(
    state: State,
    actions: &mut A,
    follow_up: Option<Event>,
)
    requires
        call_ensures(run_state::<A>, (state, actions), follow_up),
    ensures
        ({
            let pre = *old(actions);
            let post = *final(actions);
            let idle = post == pre && follow_up is None;
            let quiet = follow_up is None;
            match state {
                State::Boot => idle,
                State::Init => A::handles(State::Init, pre, post, follow_up),
                State::RotRecovery => A::handles(State::RotRecovery, pre, post, follow_up),
                State::FirmwareVerify => A::handles(State::FirmwareVerify, pre, post, follow_up),
                State::FirmwareRecovery => A::handles(
                    State::FirmwareRecovery,
                    pre,
                    post,
                    follow_up,
                ),
                State::FirmwareUpdate => A::handles(State::FirmwareUpdate, pre, post, follow_up),
                State::Reboot => A::handles(State::Reboot, pre, post, follow_up) || idle,
                State::Lockdown => (quiet && A::handles(State::Lockdown, pre, post, None)) || idle,
                State::Runtime => (quiet && A::handles(State::Runtime, pre, post, None)) || idle,
                State::Unprovisioned => (quiet && A::handles(
                    State::Unprovisioned,
                    pre,
                    post,
                    None,
                )) || idle,
            }
        }),
{
}

/// An event that has no meaning in a state moves nothing: machine, queue and handlers
/// stay as they were, and the step succeeds in the same state.
pub proof fn discarded_events_move_nothing<Q: EventQueue, A: Actions>(
    machine: &mut StateMachine,
    event: Event,
    queue: &mut Q,
    actions: &mut A,
    r: Result<State, Q::Error>,
)
    requires
        old(machine)@.next(event) is None,
        call_ensures(StateMachine::step::<Q, A>, (machine, event, queue, actions), r),
    ensures
        final(machine)@ == old(machine)@,
        *final(queue) == *old(queue),
        *final(actions) == *old(actions),
        r == Ok::<State, Q::Error>(old(machine)@),
{
}

/// An event that leads to a state enters it once: the work of the state runs, and the
/// event that it reports, if any, is pushed once. The step succeeds in the new state,
/// or fails with the queue; the machine has moved either way.
pub proof fn a_step_enters_and_hands_on<Q: EventQueue, A: Actions>(
    machine: &mut StateMachine,
    event: Event,
    queue: &mut Q,
    actions: &mut A,
    r: Result<State, Q::Error>,
)
    requires
        old(machine)@.next(event) is Some,
        call_ensures(StateMachine::step::<Q, A>, (machine, event, queue, actions), r),
    ensures
        Some(final(machine)@) == old(machine)@.next(event),
        exists|follow_up: Option<Event>| #[trigger]
            final(machine)@.entered(*old(actions), *final(actions), follow_up) && (follow_up is None
                ==> *final(queue) == *old(queue) && r == Ok::<State, Q::Error>(final(machine)@))
                && (follow_up matches Some(e) ==> (r matches Ok(s) ==> s == final(machine)@
                && Q::push_post(
                *old(queue),
                *final(queue),
                e,
                Ok(()),
            ))) && (follow_up matches Some(e) ==> (r matches Err(fault) ==> Q::push_post(
                *old(queue),
                *final(queue),
                e,
                Err(fault),
            ))),
{
}

} // verus!
