//! The lifecycle service: the server end of the lifecycle channel.
//!
//! Outside producers inject events or ask for the state. The service decodes
//! their requests, drives the machine until it waits for an outside event, and
//! answers with the state in which it settled.

use crate::lifecycle::api;
pub use crate::lifecycle::sm::{Actions, Event, EventQueue, State, StateMachine};
pub use crate::lifecycle::wire;
pub use crate::lifecycle::wire::{
    Request, Response, WireError, REQUEST_WIRE_SIZE, RESPONSE_WIRE_SIZE,
};
use vstd::prelude::*;

verus! {

/// Failure of [`LifecycleServer::handle_request`].
#[derive(Debug, Clone, Copy, PartialEq, Eq)]
#[non_exhaustive]
pub enum HandleError<E> {
    /// The queue of the machine failed.
    Queue(E),
    /// The response buffer is too small.
    ResponseBufferTooSmall,
}

/// The lifecycle service: the machine and its handlers.
pub struct LifecycleServer<A: Actions> {
    machine: StateMachine,
    actions: A,
}

/// What a [`LifecycleServer`] holds.
pub struct ServerView<A> {
    pub state: State,
    pub actions: A,
}

impl<A: Actions> View for LifecycleServer<A> {
    type V = ServerView<A>;

    closed spec fn view(&self) -> ServerView<A> {
        ServerView { state: self.machine@, actions: self.actions }
    }
}

/// Machine, handlers and queue at one moment.
pub struct Moment<A, Q> {
    pub state: State,
    pub actions: A,
    pub queue: Q,
}

/// Whether one event may take a service from one moment to another.
pub open spec fn stepped<A: Actions, Q: EventQueue>(
    event: Event,
    pre: Moment<A, Q>,
    post: Moment<A, Q>,
    r: Result<State, Q::Error>,
) -> bool {
    StateMachine::stepped(
        event,
        pre.state,
        post.state,
        pre.queue,
        post.queue,
        pre.actions,
        post.actions,
        r,
    )
}

/// Whether taking the next buffered event may lead from one moment to another.
pub open spec fn polled<A: Actions, Q: EventQueue>(
    pre: Moment<A, Q>,
    post: Moment<A, Q>,
    r: Result<Option<Event>, Q::Error>,
) -> bool {
    &&& post.state == pre.state
    &&& post.actions == pre.actions
    &&& Q::try_recv_post(pre.queue, post.queue, r)
}

/// Whether draining the queue, in fewer than `bound` events, may lead from `pre` to
/// `post` with the result `r`. The drain ends where the queue has no event, with
/// the state reached, or where the queue fails, with that failure.
pub open spec fn drained<A: Actions, Q: EventQueue>(
    bound: nat,
    pre: Moment<A, Q>,
    post: Moment<A, Q>,
    r: Result<State, Q::Error>,
) -> bool
    decreases bound, 1nat,
{
    if bound == 0 {
        false
    } else {
        ||| polled(pre, post, Ok::<Option<Event>, Q::Error>(None)) && r == Ok::<State, Q::Error>(
            pre.state,
        )
        ||| (r matches Err(e) && polled(pre, post, Err::<Option<Event>, Q::Error>(e)))
        ||| exists|mid: Moment<A, Q>, event: Event| #[trigger]
            polled(pre, mid, Ok::<Option<Event>, Q::Error>(Some(event))) && drained_event(
                bound,
                event,
                mid,
                post,
                r,
            )
    }
}

/// Whether processing one buffered event, and draining on, may lead from `pre`
/// to `post` with the result `r`.
pub open spec fn drained_event<A: Actions, Q: EventQueue>(
    bound: nat,
    event: Event,
    pre: Moment<A, Q>,
    post: Moment<A, Q>,
    r: Result<State, Q::Error>,
) -> bool
    decreases bound, 0nat,
{
    ||| (r is Err && stepped(event, pre, post, r))
    ||| (bound > 0 && exists|next: Moment<A, Q>, s: State| #[trigger]
        stepped(event, pre, next, Ok::<State, Q::Error>(s)) && drained(
            (bound - 1) as nat,
            next,
            post,
            r,
        ))
}

/// Whether processing an event, and the events that follow from it until the queue
/// has none, may lead from `pre` to `post` with the result `r`.
pub open spec fn settled<A: Actions, Q: EventQueue>(
    event: Event,
    pre: Moment<A, Q>,
    post: Moment<A, Q>,
    r: Result<State, Q::Error>,
) -> bool {
    exists|bound: nat| #[trigger] drained_event(bound, event, pre, post, r)
}

/// Whether a request may lead a service from `pre` to `post` with the answer
/// `r`. An injected event is processed, and the events that follow from it; a
/// query touches nothing.
pub open spec fn dispatched<A: Actions, Q: EventQueue>(
    request: Request,
    pre: Moment<A, Q>,
    post: Moment<A, Q>,
    r: Result<Response, Q::Error>,
) -> bool {
    match request {
        Request::QueryState => post == pre && r == Ok::<Response, Q::Error>(
            Response::State(pre.state),
        ),
        Request::Inject(event) => match r {
            Ok(response) => response == Response::State(post.state) && settled(
                event,
                pre,
                post,
                Ok::<State, Q::Error>(post.state),
            ),
            Err(e) => settled(event, pre, post, Err::<State, Q::Error>(e)),
        },
    }
}

impl<A: Actions> LifecycleServer<A> {
    /// Service and queue at one moment.
    pub open spec fn with<Q>(&self, queue: Q) -> Moment<A, Q> {
        Moment { state: self@.state, actions: self@.actions, queue }
    }

    /// A service with a machine that waits in [`State::Boot`].
    pub fn new(actions: A) -> (server: Self)
        ensures
            server@ == (ServerView { state: State::Boot, actions }),
    {
        LifecycleServer { machine: StateMachine::new(), actions }
    }

    /// The current state of the machine.
    pub fn state(&self) -> (state: State)
        ensures
            state == self@.state,
    {
        self.machine.state()
    }

    /// The handlers.
    pub fn actions(&self) -> (actions: &A)
        ensures
            *actions == self@.actions,
    {
        &self.actions
    }

    /// Process an event and the events that follow from it, until the queue has
    /// none. Returns the state reached.
    fn run_to_quiescence<Q: EventQueue>(&mut self, event: Event, queue: &mut Q) -> (r: Result<
        State,
        Q::Error,
    >)
        ensures
            settled(
                event,
                old(self).with(*old(queue)),
                final(self).with(*final(queue)),
                r,
            ),
            r matches Ok(s) ==> s == final(self)@.state,
    {
        let ghost pre = self.with(*queue);
        let mut state = match self.machine.step(event, queue, &mut self.actions) {
            Ok(s) => s,
            Err(e) => {
                assert(drained_event(0, event, pre, self.with(*queue), Err::<State, Q::Error>(e)));
                return Err(e);
            },
        };
        let ghost start = self.with(*queue);
        let ghost mut done: nat = 0;
        // Nothing bounds the events that may follow, so no count of them ends the
        // drain: a lap of the counter takes a unit, which takes no memory.
        let mut laps: Vec<()> = Vec::new();
        let mut left: u64 = u64::MAX;
        loop
            invariant
                pre == old(self).with(*old(queue)),
                state == self@.state,
                stepped(event, pre, start, Ok::<State, Q::Error>(start.state)),
                forall|bound: nat, post: Moment<A, Q>, r: Result<State, Q::Error>| #[trigger]
                    drained(bound, self.with(*queue), post, r) ==> drained(
                        bound + done,
                        start,
                        post,
                        r,
                    ),
            decreases usize::MAX - laps.len(), left,
        {
            let ghost before = self.with(*queue);
            let follow_up = match queue.try_recv() {
                Ok(Some(e)) => e,
                Ok(None) => {
                    let ghost end = self.with(*queue);
                    assert(drained(1, before, end, Ok::<State, Q::Error>(state)));
                    assert(drained_event(done + 2, event, pre, end, Ok::<State, Q::Error>(state)));
                    return Ok(state);
                },
                Err(e) => {
                    let ghost end = self.with(*queue);
                    assert(drained(1, before, end, Err::<State, Q::Error>(e)));
                    assert(drained_event(done + 2, event, pre, end, Err::<State, Q::Error>(e)));
                    return Err(e);
                },
            };
            let ghost mid = self.with(*queue);
            assert(polled(before, mid, Ok::<Option<Event>, Q::Error>(Some(follow_up))));
            state = match self.machine.step(follow_up, queue, &mut self.actions) {
                Ok(s) => s,
                Err(e) => {
                    let ghost end = self.with(*queue);
                    assert(drained(1, before, end, Err::<State, Q::Error>(e)));
                    assert(drained_event(done + 2, event, pre, end, Err::<State, Q::Error>(e)));
                    return Err(e);
                },
            };
            let ghost next = self.with(*queue);
            assert(stepped(follow_up, mid, next, Ok::<State, Q::Error>(state)));
            proof {
                assert forall|bound: nat, post: Moment<A, Q>, r: Result<State, Q::Error>| #[trigger]
                    drained(bound, next, post, r) implies drained(
                    bound + (done + 1),
                    start,
                    post,
                    r,
                ) by {
                    assert(drained(bound + 1, before, post, r));
                }
                done = done + 1;
            }
            if left > 0 {
                left -= 1;
            } else {
                laps.push(());
                left = u64::MAX;
            }
        }
    }

    /// Apply a decoded request and let the machine settle. The queue is the one
    /// that the machine hands its follow-up events to.
    pub fn dispatch<Q: EventQueue>(&mut self, request: Request, queue: &mut Q) -> (r: Result<
        Response,
        Q::Error,
    >)
        ensures
            dispatched(
                request,
                old(self).with(*old(queue)),
                final(self).with(*final(queue)),
                r,
            ),
            r matches Ok(response) ==> response == Response::State(final(self)@.state),
    {
        match request {
            Request::Inject(event) => {
                match self.run_to_quiescence(event, queue) {
                    Ok(state) => Ok(Response::State(state)),
                    Err(e) => Err(e),
                }
            },
            Request::QueryState => Ok(Response::State(self.machine.state())),
        }
    }

    /// Decode a request, apply it, and encode the answer. Returns the size of
    /// the answer. A request that does not decode is answered with
    /// [`Response::Rejected`] and touches nothing.
    pub fn handle_request<Q: EventQueue>(
        &mut self,
        request_bytes: &[u8],
        response_buf: &mut [u8],
        queue: &mut Q,
    ) -> (r: Result<usize, HandleError<Q::Error>>)
        ensures
            handled(
                request_bytes@,
                old(self).with(*old(queue)),
                final(self).with(*final(queue)),
                old(response_buf)@,
                final(response_buf)@,
                r,
            ),
    {
        let response = match wire::decode_request(request_bytes) {
            Ok(request) => match self.dispatch(request, queue) {
                Ok(response) => response,
                Err(e) => return Err(HandleError::Queue(e)),
            },
            Err(_) => Response::Rejected,
        };
        match wire::encode_response(response_buf, response) {
            Ok(n) => Ok(n),
            Err(_) => Err(HandleError::ResponseBufferTooSmall),
        }
    }
}

/// Whether `r` and the buffer `post` carry an answer, written over a buffer that
/// held `pre`.
pub open spec fn answered<E>(
    response: Response,
    pre: Seq<u8>,
    post: Seq<u8>,
    r: Result<usize, HandleError<E>>,
) -> bool {
    if pre.len() < RESPONSE_WIRE_SIZE {
        &&& r == Err::<usize, HandleError<E>>(HandleError::ResponseBufferTooSmall)
        &&& post == pre
    } else {
        &&& r == Ok::<usize, HandleError<E>>(RESPONSE_WIRE_SIZE)
        &&& post == response.wire() + pre.skip(2)
    }
}

/// Whether a request, as bytes, may lead a service from `pre` to `post` and the
/// response buffer from `buf_pre` to `buf_post`, with the result `r`.
pub open spec fn handled<A: Actions, Q: EventQueue>(
    request: Seq<u8>,
    pre: Moment<A, Q>,
    post: Moment<A, Q>,
    buf_pre: Seq<u8>,
    buf_post: Seq<u8>,
    r: Result<usize, HandleError<Q::Error>>,
) -> bool {
    match Request::parse(request) {
        Err(_) => post == pre && answered(Response::Rejected, buf_pre, buf_post, r),
        Ok(request) => match r {
            Err(HandleError::Queue(e)) => buf_post == buf_pre && dispatched(
                request,
                pre,
                post,
                Err::<Response, Q::Error>(e),
            ),
            _ => {
                &&& dispatched(
                    request,
                    pre,
                    post,
                    Ok::<Response, Q::Error>(Response::State(post.state)),
                )
                &&& answered(Response::State(post.state), buf_pre, buf_post, r)
            },
        },
    }
}

/// A first event, and then the rest of a run.
proof fn lemma_after_first(state: State, event: Event, rest: Seq<Event>)
    ensures
        state.after_all(seq![event] + rest) == state.after(event).after_all(rest),
    decreases rest.len(),
{
    let run = seq![event] + rest;
    if rest.len() == 0 {
        reveal_with_fuel(State::after_all, 2);
    } else {
        lemma_after_first(state, event, rest.drop_last());
        assert(run.drop_last() =~= seq![event] + rest.drop_last());
    }
}

/// Whether a run of events that starts with `event` leads from one state to
/// another.
pub open spec fn reached(event: Event, from: State, to: State) -> bool {
    exists|rest: Seq<Event>| to == #[trigger] from.after_all(seq![event] + rest)
}

proof fn lemma_drained_follows<A: Actions, Q: EventQueue>(
    bound: nat,
    pre: Moment<A, Q>,
    post: Moment<A, Q>,
    r: Result<State, Q::Error>,
)
    requires
        drained(bound, pre, post, r),
    ensures
        exists|run: Seq<Event>| post.state == #[trigger] pre.state.after_all(run),
    decreases bound, 1nat,
{
    if post.state == pre.state {
        assert(pre.state.after_all(Seq::<Event>::empty()) == pre.state);
    }
    if bound > 0 && !(polled(pre, post, Ok::<Option<Event>, Q::Error>(None)) && r == Ok::<
        State,
        Q::Error,
    >(pre.state)) && !(r matches Err(e) && polled(
        pre,
        post,
        Err::<Option<Event>, Q::Error>(e),
    )) {
        let (mid, event) = choose|mid: Moment<A, Q>, event: Event| #[trigger]
            polled(pre, mid, Ok::<Option<Event>, Q::Error>(Some(event))) && drained_event(
                bound,
                event,
                mid,
                post,
                r,
            );
        lemma_drained_event_follows(bound, event, mid, post, r);
    }
}

proof fn lemma_drained_event_follows<A: Actions, Q: EventQueue>(
    bound: nat,
    event: Event,
    pre: Moment<A, Q>,
    post: Moment<A, Q>,
    r: Result<State, Q::Error>,
)
    requires
        drained_event(bound, event, pre, post, r),
    ensures
        reached(event, pre.state, post.state),
    decreases bound, 0nat,
{
    if r is Err && stepped(event, pre, post, r) {
        lemma_after_first(pre.state, event, Seq::empty());
    } else {
        let (next, s) = choose|next: Moment<A, Q>, s: State| #[trigger]
            stepped(event, pre, next, Ok::<State, Q::Error>(s)) && drained(
                (bound - 1) as nat,
                next,
                post,
                r,
            );
        lemma_drained_follows((bound - 1) as nat, next, post, r);
        let run = choose|run: Seq<Event>| post.state == #[trigger] next.state.after_all(run);
        lemma_after_first(pre.state, event, run);
    }
}

/// The service moves along the lifecycle graph and nowhere else: an injected
/// event takes the machine where some run of events takes it that starts with
/// the injected one.
pub proof fn service_follows_the_graph<A: Actions, Q: EventQueue>(
    event: Event,
    pre: Moment<A, Q>,
    post: Moment<A, Q>,
    r: Result<Response, Q::Error>,
)
    requires
        dispatched(Request::Inject(event), pre, post, r),
    ensures
        reached(event, pre.state, post.state),
{
    let s = match r {
        Ok(_) => Ok::<State, Q::Error>(post.state),
        Err(e) => Err::<State, Q::Error>(e),
    };
    let bound = choose|bound: nat| #[trigger] drained_event(bound, event, pre, post, s);
    lemma_drained_event_follows(bound, event, pre, post, s);
}

/// Whether the last thing that happened was that the queue had no event left.
pub open spec fn emptied<A: Actions, Q: EventQueue>(post: Moment<A, Q>) -> bool {
    exists|last: Moment<A, Q>| #[trigger]
        polled(last, post, Ok::<Option<Event>, Q::Error>(None))
}

/// Whether the last thing that happened to a queue was that a call of it failed
/// with `e`.
pub open spec fn queue_failed<Q: EventQueue>(queue: Q, e: Q::Error) -> bool {
    ||| exists|q: Q| #[trigger] Q::try_recv_post(q, queue, Err(e))
    ||| exists|q: Q, event: Event| #[trigger] Q::push_post(q, queue, event, Err(e))
}

/// A drain that succeeds ends with an empty queue.
proof fn lemma_drained_settles<A: Actions, Q: EventQueue>(
    bound: nat,
    pre: Moment<A, Q>,
    post: Moment<A, Q>,
    s: State,
)
    requires
        drained(bound, pre, post, Ok::<State, Q::Error>(s)),
    ensures
        emptied(post),
    decreases bound,
{
    if !polled(pre, post, Ok::<Option<Event>, Q::Error>(None)) {
        let (mid, event) = choose|mid: Moment<A, Q>, event: Event| #[trigger]
            polled(pre, mid, Ok::<Option<Event>, Q::Error>(Some(event))) && drained_event(
                bound,
                event,
                mid,
                post,
                Ok::<State, Q::Error>(s),
            );
        let (next, t) = choose|next: Moment<A, Q>, t: State| #[trigger]
            stepped(event, mid, next, Ok::<State, Q::Error>(t)) && drained(
                (bound - 1) as nat,
                next,
                post,
                Ok::<State, Q::Error>(s),
            );
        lemma_drained_settles((bound - 1) as nat, next, post, s);
    }
}

/// A step that fails fails with its queue.
proof fn lemma_step_fails_with_the_queue<A: Actions, Q: EventQueue>(
    event: Event,
    pre: Moment<A, Q>,
    post: Moment<A, Q>,
    e: Q::Error,
)
    requires
        stepped(event, pre, post, Err::<State, Q::Error>(e)),
    ensures
        queue_failed(post.queue, e),
{
}

/// A drain that fails fails with its queue.
proof fn lemma_drain_fails_with_the_queue<A: Actions, Q: EventQueue>(
    bound: nat,
    pre: Moment<A, Q>,
    post: Moment<A, Q>,
    e: Q::Error,
)
    requires
        drained(bound, pre, post, Err::<State, Q::Error>(e)),
    ensures
        queue_failed(post.queue, e),
    decreases bound,
{
    if !polled(pre, post, Err::<Option<Event>, Q::Error>(e)) {
        let (mid, event) = choose|mid: Moment<A, Q>, event: Event| #[trigger]
            polled(pre, mid, Ok::<Option<Event>, Q::Error>(Some(event))) && drained_event(
                bound,
                event,
                mid,
                post,
                Err::<State, Q::Error>(e),
            );
        if stepped(event, mid, post, Err::<State, Q::Error>(e)) {
            lemma_step_fails_with_the_queue(event, mid, post, e);
        } else {
            let (next, t) = choose|next: Moment<A, Q>, t: State| #[trigger]
                stepped(event, mid, next, Ok::<State, Q::Error>(t)) && drained(
                    (bound - 1) as nat,
                    next,
                    post,
                    Err::<State, Q::Error>(e),
                );
            lemma_drain_fails_with_the_queue((bound - 1) as nat, next, post, e);
        }
    }
}

/// An injected event is answered with the state in which the machine settled: the
/// last attempt to take an event found the queue empty, and the machine has not
/// moved since.
pub proof fn dispatch_settles<A: Actions, Q: EventQueue>(
    event: Event,
    pre: Moment<A, Q>,
    post: Moment<A, Q>,
    response: Response,
)
    requires
        dispatched(Request::Inject(event), pre, post, Ok::<Response, Q::Error>(response)),
    ensures
        response == Response::State(post.state),
        emptied(post),
{
    let r = Ok::<State, Q::Error>(post.state);
    let bound = choose|bound: nat| #[trigger] drained_event(bound, event, pre, post, r);
    let (first, s) = choose|first: Moment<A, Q>, s: State| #[trigger]
        stepped(event, pre, first, Ok::<State, Q::Error>(s)) && drained(
            (bound - 1) as nat,
            first,
            post,
            r,
        );
    lemma_drained_settles((bound - 1) as nat, first, post, post.state);
}

/// A request fails only where a call of the queue failed, and with that failure.
pub proof fn failures_come_from_the_queue<A: Actions, Q: EventQueue>(
    request: Request,
    pre: Moment<A, Q>,
    post: Moment<A, Q>,
    e: Q::Error,
)
    requires
        dispatched(request, pre, post, Err::<Response, Q::Error>(e)),
    ensures
        request is Inject,
        queue_failed(post.queue, e),
{
    if let Request::Inject(event) = request {
        let r = Err::<State, Q::Error>(e);
        let bound = choose|bound: nat| #[trigger] drained_event(bound, event, pre, post, r);
        if stepped(event, pre, post, r) {
            lemma_step_fails_with_the_queue(event, pre, post, e);
        } else {
            let (first, s) = choose|first: Moment<A, Q>, s: State| #[trigger]
                stepped(event, pre, first, Ok::<State, Q::Error>(s)) && drained(
                    (bound - 1) as nat,
                    first,
                    post,
                    r,
                );
            lemma_drain_fails_with_the_queue((bound - 1) as nat, first, post, e);
        }
    }
}

/// No request gets a platform out of lockdown.
pub proof fn lockdown_holds<A: Actions, Q: EventQueue>(
    request: Request,
    pre: Moment<A, Q>,
    post: Moment<A, Q>,
    r: Result<Response, Q::Error>,
)
    requires
        pre.state == State::Lockdown,
        dispatched(request, pre, post, r),
    ensures
        post.state == State::Lockdown,
{
    if let Request::Inject(event) = request {
        service_follows_the_graph(event, pre, post, r);
        let rest = choose|rest: Seq<Event>|
            post.state == #[trigger] pre.state.after_all(seq![event] + rest);
        api::terminal_states_are_kept(seq![event] + rest);
    }
}

/// A request that does not decode moves nothing, and its producer reads that it
/// was rejected.
pub proof fn malformed_requests_are_rejected<A: Actions, Q: EventQueue>(
    request: Seq<u8>,
    pre: Moment<A, Q>,
    post: Moment<A, Q>,
    buf_pre: Seq<u8>,
    buf_post: Seq<u8>,
    r: Result<usize, HandleError<Q::Error>>,
)
    requires
        handled(request, pre, post, buf_pre, buf_post, r),
        Request::parse(request) is Err,
    ensures
        post == pre,
        r matches Ok(n) ==> Response::parse(buf_post.take(n as int)) == Ok::<Response, WireError>(
            Response::Rejected,
        ),
{
    if let Ok(n) = r {
        wire::messages_round_trip(
            Event::Start,
            Request::QueryState,
            Response::Rejected,
            Seq::empty(),
        );
    }
}

/// What a producer reads is the state in which the machine settled.
pub proof fn answers_tell_the_settled_state<A: Actions, Q: EventQueue>(
    request: Seq<u8>,
    pre: Moment<A, Q>,
    post: Moment<A, Q>,
    buf_pre: Seq<u8>,
    buf_post: Seq<u8>,
    r: Result<usize, HandleError<Q::Error>>,
)
    requires
        handled(request, pre, post, buf_pre, buf_post, r),
        Request::parse(request) is Ok,
    ensures
        r matches Ok(n) ==> Response::parse(buf_post.take(n as int)) == Ok::<Response, WireError>(
            Response::State(post.state),
        ),
{
    if let Ok(n) = r {
        let response = Response::State(post.state);
        wire::messages_round_trip(Event::Start, Request::QueryState, response, Seq::empty());
    }
}

/// Asking for the state moves nothing, and is answered with the state.
pub proof fn queries_move_nothing<A: Actions, Q: EventQueue>(
    pre: Moment<A, Q>,
    post: Moment<A, Q>,
    r: Result<Response, Q::Error>,
)
    requires
        dispatched(Request::QueryState, pre, post, r),
    ensures
        post == pre,
        r == Ok::<Response, Q::Error>(Response::State(pre.state)),
{
}

/// Whether a service, told the first of `events` at `pre`, processed all of them one
/// after the other and ended at `post` with the result `r`. Event number `i` is
/// processed from `from[i]` to `to[i]`, and every event but the first is what the queue
/// gave next. The run ends where the queue has no event or fails, or with a step that
/// fails.
pub open spec fn is_run<A: Actions, Q: EventQueue>(
    events: Seq<Event>,
    from: Seq<Moment<A, Q>>,
    to: Seq<Moment<A, Q>>,
    post: Moment<A, Q>,
    r: Result<State, Q::Error>,
) -> bool {
    let last = events.len() - 1;
    let whole = stepped(events[last], from[last], to[last], Ok::<State, Q::Error>(to[last].state));
    &&& events.len() > 0 && from.len() == events.len() && to.len() == events.len()
    &&& forall|i: int|
        0 <= i < last ==> stepped(
            #[trigger] events[i],
            from[i],
            to[i],
            Ok::<State, Q::Error>(to[i].state),
        ) && polled(to[i], from[i + 1], Ok::<Option<Event>, Q::Error>(Some(events[i + 1])))
    &&& match r {
        Ok(s) => whole && s == to[last].state && polled(
            to[last],
            post,
            Ok::<Option<Event>, Q::Error>(None),
        ),
        Err(e) => (whole && polled(to[last], post, Err::<Option<Event>, Q::Error>(e))) || (to[last]
            == post && stepped(events[last], from[last], post, r)),
    }
}

/// One more event in front of a run.
proof fn lemma_longer_run<A: Actions, Q: EventQueue>(
    event: Event,
    pre: Moment<A, Q>,
    next: Moment<A, Q>,
    events: Seq<Event>,
    from: Seq<Moment<A, Q>>,
    to: Seq<Moment<A, Q>>,
    post: Moment<A, Q>,
    r: Result<State, Q::Error>,
)
    requires
        is_run(events, from, to, post, r),
        stepped(event, pre, next, Ok::<State, Q::Error>(next.state)),
        polled(next, from[0], Ok::<Option<Event>, Q::Error>(Some(events[0]))),
    ensures
        is_run(seq![event] + events, seq![pre] + from, seq![next] + to, post, r),
{
    let all = seq![event] + events;
    let starts = seq![pre] + from;
    let ends = seq![next] + to;
    assert forall|i: int| 0 <= i < all.len() - 1 implies stepped(
        #[trigger] all[i],
        starts[i],
        ends[i],
        Ok::<State, Q::Error>(ends[i].state),
    ) && polled(ends[i], starts[i + 1], Ok::<Option<Event>, Q::Error>(Some(all[i + 1]))) by {
        if i > 0 {
            assert(all[i] == events[i - 1]);
        }
    }
}

/// A step that succeeds reports the state that it leaves.
proof fn lemma_step_reports_its_state<A: Actions, Q: EventQueue>(
    event: Event,
    pre: Moment<A, Q>,
    post: Moment<A, Q>,
    s: State,
)
    requires
        stepped(event, pre, post, Ok::<State, Q::Error>(s)),
    ensures
        s == post.state,
{
}

proof fn lemma_drained_event_is_a_run<A: Actions, Q: EventQueue>(
    bound: nat,
    event: Event,
    pre: Moment<A, Q>,
    post: Moment<A, Q>,
    r: Result<State, Q::Error>,
) -> (run: (Seq<Event>, Seq<Moment<A, Q>>, Seq<Moment<A, Q>>))
    requires
        drained_event(bound, event, pre, post, r),
    ensures
        is_run(run.0, run.1, run.2, post, r),
        run.0[0] == event,
        run.1[0] == pre,
    decreases bound,
{
    if r is Err && stepped(event, pre, post, r) {
        (seq![event], seq![pre], seq![post])
    } else {
        let (next, s) = choose|next: Moment<A, Q>, s: State| #[trigger]
            stepped(event, pre, next, Ok::<State, Q::Error>(s)) && drained(
                (bound - 1) as nat,
                next,
                post,
                r,
            );
        lemma_step_reports_its_state(event, pre, next, s);
        let left = (bound - 1) as nat;
        if polled(next, post, Ok::<Option<Event>, Q::Error>(None)) && r == Ok::<State, Q::Error>(
            next.state,
        ) {
            (seq![event], seq![pre], seq![next])
        } else if r matches Err(e) && polled(next, post, Err::<Option<Event>, Q::Error>(e)) {
            (seq![event], seq![pre], seq![next])
        } else {
            let (mid, second) = choose|mid: Moment<A, Q>, second: Event| #[trigger]
                polled(next, mid, Ok::<Option<Event>, Q::Error>(Some(second))) && drained_event(
                    left,
                    second,
                    mid,
                    post,
                    r,
                );
            let rest = lemma_drained_event_is_a_run(left, second, mid, post, r);
            lemma_longer_run(event, pre, next, rest.0, rest.1, rest.2, post, r);
            (seq![event] + rest.0, seq![pre] + rest.1, seq![next] + rest.2)
        }
    }
}

/// No event is lost and none is made up: an injected event is processed first, and
/// then, one after the other, exactly the events that the queue gives until it has
/// none. A success is the state that the last of them left.
pub proof fn every_event_taken_is_processed<A: Actions, Q: EventQueue>(
    server: &mut LifecycleServer<A>,
    event: Event,
    queue: &mut Q,
    r: Result<Response, Q::Error>,
    settled_in: Result<State, Q::Error>,
)
    requires
        call_ensures(
            LifecycleServer::<A>::dispatch::<Q>,
            (server, Request::Inject(event), queue),
            r,
        ),
        r is Ok ==> settled_in == Ok::<State, Q::Error>(final(server)@.state),
        r matches Err(e) ==> settled_in == Err::<State, Q::Error>(e),
    ensures
        r matches Ok(response) ==> response == Response::State(final(server)@.state),
        exists|events: Seq<Event>, from: Seq<Moment<A, Q>>, to: Seq<Moment<A, Q>>|
            events[0] == event && from[0] == old(server).with(*old(queue)) && #[trigger] is_run(
                events,
                from,
                to,
                final(server).with(*final(queue)),
                settled_in,
            ),
{
    let pre = old(server).with(*old(queue));
    let post = final(server).with(*final(queue));
    let bound = choose|bound: nat| #[trigger] drained_event(bound, event, pre, post, settled_in);
    let run = lemma_drained_event_is_a_run(bound, event, pre, post, settled_in);
    assert(is_run(run.0, run.1, run.2, post, settled_in));
}

/// A query is answered with the state of the machine, and moves nothing.
pub proof fn a_query_reads_the_state<A: Actions, Q: EventQueue>(
    server: &mut LifecycleServer<A>,
    queue: &mut Q,
    r: Result<Response, Q::Error>,
)
    requires
        call_ensures(LifecycleServer::<A>::dispatch::<Q>, (server, Request::QueryState, queue), r),
    ensures
        r == Ok::<Response, Q::Error>(Response::State(old(server)@.state)),
        final(server)@ == old(server)@,
        *final(queue) == *old(queue),
{
    let pre = old(server).with(*old(queue));
    let post = final(server).with(*final(queue));
    assert(post == pre);
}

/// What a producer gets back. The answer takes two bytes in front of its buffer, and
/// the rest is kept; a buffer without room for them is reported and kept. Where the
/// queue failed there is no answer, and the failure is handed on.
pub proof fn answers_take_two_bytes<A: Actions, Q: EventQueue>(
    server: &mut LifecycleServer<A>,
    request: &[u8],
    buf: &mut [u8],
    queue: &mut Q,
    r: Result<usize, HandleError<Q::Error>>,
)
    requires
        call_ensures(
            LifecycleServer::<A>::handle_request::<Q>,
            (server, request, buf, queue),
            r,
        ),
    ensures
        ({
            let pre = old(server).with(*old(queue));
            let post = final(server).with(*final(queue));
            let asked = Request::parse(request@);
            let queue_failed = r matches Err(HandleError::Queue(_));
            &&& final(buf)@.len() == old(buf)@.len()
            &&& r matches Ok(n) ==> n == 2 && final(buf)@.skip(2) == old(buf)@.skip(2)
            &&& r is Ok && asked is Ok ==> final(buf)@[0] == 1 && final(buf)@[1] == post.state.tag()
            &&& r is Ok && asked is Err ==> final(buf)@[0] == 2 && final(buf)@[1] == 0
            &&& r is Err ==> final(buf)@ == old(buf)@
            &&& r is Ok ==> old(buf)@.len() >= 2
            &&& r == Err::<usize, HandleError<Q::Error>>(HandleError::ResponseBufferTooSmall)
                ==> old(buf)@.len() < 2
            &&& asked is Err ==> post == pre && !queue_failed
            &&& r matches Err(HandleError::Queue(e)) ==> (asked matches Ok(q) && dispatched(
                q,
                pre,
                post,
                Err::<Response, Q::Error>(e),
            ))
            &&& !queue_failed ==> (asked matches Ok(q) ==> dispatched(
                q,
                pre,
                post,
                Ok::<Response, Q::Error>(Response::State(post.state)),
            ))
        }),
{
}

/// A new service waits in power-on, and tells the state of its machine.
pub proof fn a_new_service_waits_in_boot<A: Actions>(
    actions: A,
    server: LifecycleServer<A>,
    state: State,
)
    requires
        call_ensures(LifecycleServer::<A>::new, (actions,), server),
        call_ensures(LifecycleServer::<A>::state, (&server,), state),
    ensures
        state == State::Boot,
        server@.actions == actions,
{
}

/// What a step and a poll of a run are. A poll asks the queue once, without blocking,
/// and moves neither machine nor handlers. A step takes the machine where the event
/// leads; one that leads nowhere moves nothing, and one that leads to a state runs the
/// work of that state.
pub proof fn runs_are_made_of_steps_and_polls<A: Actions, Q: EventQueue>(
    event: Event,
    pre: Moment<A, Q>,
    post: Moment<A, Q>,
    taken: Result<Option<Event>, Q::Error>,
    r: Result<State, Q::Error>,
)
    ensures
        polled(pre, post, taken) ==> post.state == pre.state && post.actions == pre.actions
            && Q::try_recv_post(pre.queue, post.queue, taken),
        stepped(event, pre, post, r) ==> post.state == pre.state.after(event),
        stepped(event, pre, post, r) && pre.state.next(event) is None ==> post == pre && r == Ok::<
            State,
            Q::Error,
        >(pre.state),
        stepped(event, pre, post, r) && pre.state.next(event) is Some ==> exists|
            follow_up: Option<Event>,
        | #[trigger]
            post.state.entered(pre.actions, post.actions, follow_up) && (follow_up is None
                ==> post.queue == pre.queue && r == Ok::<State, Q::Error>(post.state)) && (
            follow_up matches Some(e) ==> (r matches Ok(s) ==> s == post.state && Q::push_post(
                pre.queue,
                post.queue,
                e,
                Ok(()),
            ))) && (follow_up matches Some(e) ==> (r matches Err(fault) ==> Q::push_post(
                pre.queue,
                post.queue,
                e,
                Err(fault),
            ))),
{
}

} // verus!
