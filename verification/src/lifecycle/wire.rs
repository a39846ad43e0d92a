//! Wire protocol of the lifecycle service.
//!
//! Two layers: a single event that crosses the queue channel, and the requests
//! and responses by which an outside producer injects an event or reads the
//! state. All tags are frozen.

use crate::bytes;
use crate::lifecycle::api::{Event, State};
use vstd::prelude::*;

verus! {

/// Bytes of an encoded [`Event`] on the queue channel.
pub const EVENT_WIRE_SIZE: usize = 4;

/// Bytes of an encoded [`Request`]: opcode and argument.
pub const REQUEST_WIRE_SIZE: usize = 2;

/// Bytes of an encoded [`Response`]: status and argument.
pub const RESPONSE_WIRE_SIZE: usize = 2;

/// Opcode of [`Request::Inject`].
pub const OP_INJECT: u8 = 1;

/// Opcode of [`Request::QueryState`].
pub const OP_QUERY_STATE: u8 = 2;

/// Status of [`Response::State`].
pub const ST_STATE: u8 = 1;

/// Status of [`Response::Rejected`].
pub const ST_REJECTED: u8 = 2;

/// Failure of encoding or decoding.
#[derive(Debug, Clone, Copy, PartialEq, Eq, Structural)]
#[non_exhaustive]
pub enum WireError {
    /// The destination buffer is too small.
    BufferTooSmall,
    /// There are fewer bytes than the message needs.
    Truncated,
    /// An opcode, a status or a tag is unknown.
    Malformed,
}

/// A request of an outside producer.
#[derive(Debug, Clone, Copy, PartialEq, Eq, Structural)]
#[non_exhaustive]
pub enum Request {
    /// Inject an event.
    Inject(Event),
    /// Ask for the current state without changing it.
    QueryState,
}

/// An answer of the service.
#[derive(Debug, Clone, Copy, PartialEq, Eq, Structural)]
#[non_exhaustive]
pub enum Response {
    /// The machine settled in this state.
    State(State),
    /// The request could not be decoded and was ignored.
    Rejected,
}

impl Event {
    /// The frozen wire tag of an event.
    pub open spec fn tag(self) -> u8 {
        match self {
            Event::Start => 1,
            Event::InitDone => 2,
            Event::InitRotSecondaryBooted => 3,
            Event::VerifyUnprovisioned => 4,
            Event::VerifyFailed => 5,
            Event::VerifyDone => 6,
            Event::RecoveryFailed => 7,
            Event::RecoveryDone => 8,
            Event::UpdateRequested => 9,
            Event::UpdateDone => 10,
            Event::UpdateFailed => 11,
            Event::ProvisionCmd => 12,
            Event::HandshakeFailed => 13,
        }
    }

    /// The value that a wire tag stands for.
    pub open spec fn of_tag(tag: u8) -> Option<Event> {
        match tag {
            1 => Some(Event::Start),
            2 => Some(Event::InitDone),
            3 => Some(Event::InitRotSecondaryBooted),
            4 => Some(Event::VerifyUnprovisioned),
            5 => Some(Event::VerifyFailed),
            6 => Some(Event::VerifyDone),
            7 => Some(Event::RecoveryFailed),
            8 => Some(Event::RecoveryDone),
            9 => Some(Event::UpdateRequested),
            10 => Some(Event::UpdateDone),
            11 => Some(Event::UpdateFailed),
            12 => Some(Event::ProvisionCmd),
            13 => Some(Event::HandshakeFailed),
            _ => None,
        }
    }
}

/// The frozen wire tag of an event. The match is exhaustive: a new variant does
/// not compile until it is given a tag.
fn event_tag(event: Event) -> (tag: u8)
    ensures
        tag == event.tag(),
{
    match event {
        Event::Start => 1,
        Event::InitDone => 2,
        Event::InitRotSecondaryBooted => 3,
        Event::VerifyUnprovisioned => 4,
        Event::VerifyFailed => 5,
        Event::VerifyDone => 6,
        Event::RecoveryFailed => 7,
        Event::RecoveryDone => 8,
        Event::UpdateRequested => 9,
        Event::UpdateDone => 10,
        Event::UpdateFailed => 11,
        Event::ProvisionCmd => 12,
        Event::HandshakeFailed => 13,
    }
}

fn event_from_tag(tag: u8) -> (r: Option<Event>)
    ensures
        r == Event::of_tag(tag),
{
    match tag {
        1 => Some(Event::Start),
        2 => Some(Event::InitDone),
        3 => Some(Event::InitRotSecondaryBooted),
        4 => Some(Event::VerifyUnprovisioned),
        5 => Some(Event::VerifyFailed),
        6 => Some(Event::VerifyDone),
        7 => Some(Event::RecoveryFailed),
        8 => Some(Event::RecoveryDone),
        9 => Some(Event::UpdateRequested),
        10 => Some(Event::UpdateDone),
        11 => Some(Event::UpdateFailed),
        12 => Some(Event::ProvisionCmd),
        13 => Some(Event::HandshakeFailed),
        _ => None,
    }
}

impl State {
    /// The frozen wire tag of a state.
    pub open spec fn tag(self) -> u8 {
        match self {
            State::Boot => 1,
            State::Init => 2,
            State::RotRecovery => 3,
            State::FirmwareVerify => 4,
            State::FirmwareRecovery => 5,
            State::FirmwareUpdate => 6,
            State::Unprovisioned => 7,
            State::Runtime => 8,
            State::Lockdown => 9,
            State::Reboot => 10,
        }
    }

    /// The value that a wire tag stands for.
    pub open spec fn of_tag(tag: u8) -> Option<State> {
        match tag {
            1 => Some(State::Boot),
            2 => Some(State::Init),
            3 => Some(State::RotRecovery),
            4 => Some(State::FirmwareVerify),
            5 => Some(State::FirmwareRecovery),
            6 => Some(State::FirmwareUpdate),
            7 => Some(State::Unprovisioned),
            8 => Some(State::Runtime),
            9 => Some(State::Lockdown),
            10 => Some(State::Reboot),
            _ => None,
        }
    }
}

/// The frozen wire tag of a state. The match is exhaustive: a new variant does
/// not compile until it is given a tag.
fn state_tag(state: State) -> (tag: u8)
    ensures
        tag == state.tag(),
{
    match state {
        State::Boot => 1,
        State::Init => 2,
        State::RotRecovery => 3,
        State::FirmwareVerify => 4,
        State::FirmwareRecovery => 5,
        State::FirmwareUpdate => 6,
        State::Unprovisioned => 7,
        State::Runtime => 8,
        State::Lockdown => 9,
        State::Reboot => 10,
    }
}

fn state_from_tag(tag: u8) -> (r: Option<State>)
    ensures
        r == State::of_tag(tag),
{
    match tag {
        1 => Some(State::Boot),
        2 => Some(State::Init),
        3 => Some(State::RotRecovery),
        4 => Some(State::FirmwareVerify),
        5 => Some(State::FirmwareRecovery),
        6 => Some(State::FirmwareUpdate),
        7 => Some(State::Unprovisioned),
        8 => Some(State::Runtime),
        9 => Some(State::Lockdown),
        10 => Some(State::Reboot),
        _ => None,
    }
}

impl Event {
    /// The encoded event.
    pub open spec fn wire(self) -> Seq<u8> {
        bytes::le_bytes(self.tag() as nat, 4)
    }

    /// The event at the front of `s`.
    pub open spec fn parse(s: Seq<u8>) -> Result<Event, WireError> {
        let tag = bytes::le_value(s.subrange(0, 4));
        if s.len() < EVENT_WIRE_SIZE {
            Err(WireError::Truncated)
        } else if tag > u8::MAX {
            Err(WireError::Malformed)
        } else {
            match Event::of_tag(tag as u8) {
                Some(event) => Ok(event),
                None => Err(WireError::Malformed),
            }
        }
    }
}

impl Request {
    /// The encoded request.
    pub open spec fn wire(self) -> Seq<u8> {
        match self {
            Request::Inject(event) => seq![OP_INJECT, event.tag()],
            Request::QueryState => seq![OP_QUERY_STATE, 0u8],
        }
    }

    /// The request at the front of `s`.
    pub open spec fn parse(s: Seq<u8>) -> Result<Request, WireError> {
        if s.len() < REQUEST_WIRE_SIZE {
            Err(WireError::Truncated)
        } else if s[0] == OP_INJECT {
            match Event::of_tag(s[1]) {
                Some(event) => Ok(Request::Inject(event)),
                None => Err(WireError::Malformed),
            }
        } else if s[0] == OP_QUERY_STATE {
            Ok(Request::QueryState)
        } else {
            Err(WireError::Malformed)
        }
    }
}

impl Response {
    /// The encoded response.
    pub open spec fn wire(self) -> Seq<u8> {
        match self {
            Response::State(state) => seq![ST_STATE, state.tag()],
            Response::Rejected => seq![ST_REJECTED, 0u8],
        }
    }

    /// The response at the front of `s`.
    pub open spec fn parse(s: Seq<u8>) -> Result<Response, WireError> {
        if s.len() < RESPONSE_WIRE_SIZE {
            Err(WireError::Truncated)
        } else if s[0] == ST_STATE {
            match State::of_tag(s[1]) {
                Some(state) => Ok(Response::State(state)),
                None => Err(WireError::Malformed),
            }
        } else if s[0] == ST_REJECTED {
            Ok(Response::Rejected)
        } else {
            Err(WireError::Malformed)
        }
    }
}

/// Whether `r` and the buffer `post` carry the bytes `wire`, written over a
/// buffer that held `pre`. A buffer that is too small is left alone.
pub open spec fn encoded(
    wire: Seq<u8>,
    r: Result<usize, WireError>,
    pre: Seq<u8>,
    post: Seq<u8>,
) -> bool {
    if pre.len() < wire.len() {
        &&& r == Err::<usize, WireError>(WireError::BufferTooSmall)
        &&& post == pre
    } else {
        &&& r == Ok::<usize, WireError>(wire.len() as usize)
        &&& post == wire + pre.skip(wire.len() as int)
    }
}

/// Encode one event at the front of `buf`. Returns the number of bytes written.
pub fn encode_event(buf: &mut [u8], event: Event) -> (r: Result<usize, WireError>)
    ensures
        encoded(event.wire(), r, old(buf)@, final(buf)@),
        event.wire().len() == EVENT_WIRE_SIZE,
{
    let tag: u8 = event_tag(event);
    proof {
        lemma_event_wire(event);
    }
    if buf.len() < EVENT_WIRE_SIZE {
        return Err(WireError::BufferTooSmall);
    }
    let b: [u8; 4] = [tag, 0, 0, 0];
    bytes::copy_into(buf, 0, b.as_slice());
    Ok(EVENT_WIRE_SIZE)
}

/// An encoded event is its tag and three zero bytes.
proof fn lemma_event_wire(event: Event)
    ensures
        event.wire() =~= seq![event.tag(), 0u8, 0u8, 0u8],
{
    reveal_with_fuel(bytes::le_bytes, 5);
}

/// Decode one event from the front of `bytes`.
pub fn decode_event(bytes: &[u8]) -> (r: Result<Event, WireError>)
    ensures
        r == Event::parse(bytes@),
{
    if bytes.len() < EVENT_WIRE_SIZE {
        return Err(WireError::Truncated);
    }
    let tag: u32 = bytes::read_le32(bytes, 0);
    if tag > u8::MAX as u32 {
        return Err(WireError::Malformed);
    }
    match event_from_tag(tag as u8) {
        Some(event) => Ok(event),
        None => Err(WireError::Malformed),
    }
}

/// Write two bytes at the front of `buf`.
fn put_pair(buf: &mut [u8], first: u8, second: u8)
    requires
        old(buf)@.len() >= 2,
    ensures
        final(buf)@ == seq![first, second] + old(buf)@.skip(2),
{
    buf[0] = first;
    buf[1] = second;
}

/// Encode a request at the front of `buf`. Returns the number of bytes written.
pub fn encode_request(buf: &mut [u8], request: Request) -> (r: Result<usize, WireError>)
    ensures
        encoded(request.wire(), r, old(buf)@, final(buf)@),
        request.wire().len() == REQUEST_WIRE_SIZE,
{
    if buf.len() < REQUEST_WIRE_SIZE {
        return Err(WireError::BufferTooSmall);
    }
    let (op, arg): (u8, u8) = match request {
        Request::Inject(event) => (OP_INJECT, event_tag(event)),
        Request::QueryState => (OP_QUERY_STATE, 0),
    };
    put_pair(buf, op, arg);
    Ok(REQUEST_WIRE_SIZE)
}

/// Decode a request from the front of `bytes`.
pub fn decode_request(bytes: &[u8]) -> (r: Result<Request, WireError>)
    ensures
        r == Request::parse(bytes@),
{
    if bytes.len() < REQUEST_WIRE_SIZE {
        return Err(WireError::Truncated);
    }
    if bytes[0] == OP_INJECT {
        match event_from_tag(bytes[1]) {
            Some(event) => Ok(Request::Inject(event)),
            None => Err(WireError::Malformed),
        }
    } else if bytes[0] == OP_QUERY_STATE {
        Ok(Request::QueryState)
    } else {
        Err(WireError::Malformed)
    }
}

/// Encode a response at the front of `buf`. Returns the number of bytes written.
pub fn encode_response(buf: &mut [u8], response: Response) -> (r: Result<usize, WireError>)
    ensures
        encoded(response.wire(), r, old(buf)@, final(buf)@),
        response.wire().len() == RESPONSE_WIRE_SIZE,
{
    if buf.len() < RESPONSE_WIRE_SIZE {
        return Err(WireError::BufferTooSmall);
    }
    let (status, arg): (u8, u8) = match response {
        Response::State(state) => (ST_STATE, state_tag(state)),
        Response::Rejected => (ST_REJECTED, 0),
    };
    put_pair(buf, status, arg);
    Ok(RESPONSE_WIRE_SIZE)
}

/// Decode a response from the front of `bytes`.
pub fn decode_response(bytes: &[u8]) -> (r: Result<Response, WireError>)
    ensures
        r == Response::parse(bytes@),
{
    if bytes.len() < RESPONSE_WIRE_SIZE {
        return Err(WireError::Truncated);
    }
    if bytes[0] == ST_STATE {
        match state_from_tag(bytes[1]) {
            Some(state) => Ok(Response::State(state)),
            None => Err(WireError::Malformed),
        }
    } else if bytes[0] == ST_REJECTED {
        Ok(Response::Rejected)
    } else {
        Err(WireError::Malformed)
    }
}

/// Every message survives its encoding, whatever follows it on the wire.
pub proof fn messages_round_trip(event: Event, request: Request, response: Response, rest: Seq<u8>)
    ensures
        Event::parse(event.wire() + rest) == Ok::<Event, WireError>(event),
        Request::parse(request.wire() + rest) == Ok::<Request, WireError>(request),
        Response::parse(response.wire() + rest) == Ok::<Response, WireError>(response),
{
    lemma_event_wire(event);
    reveal_with_fuel(bytes::le_value, 5);
}

/// A tag stands for one value only: two events, or two states, with the same tag
/// are the same.
pub proof fn tags_are_distinct(e1: Event, e2: Event, s1: State, s2: State)
    ensures
        e1.tag() == e2.tag() ==> e1 == e2,
        s1.tag() == s2.tag() ==> s1 == s2,
{
}

/// What decodes is what was encoded: two bytes that decode to a request or a
/// response are its encoding, unless it carries no argument and the second byte
/// is not zero.
pub proof fn decoding_is_exact(s: Seq<u8>)
    requires
        s.len() == 2,
    ensures
        Request::parse(s) matches Ok(r) ==> (r == Request::QueryState && s[1] != 0) || r.wire()
            == s,
        Response::parse(s) matches Ok(r) ==> (r == Response::Rejected && s[1] != 0) || r.wire()
            == s,
{
}

/// The frozen tags of events: they count from one, in the order of the lifecycle, and
/// every other byte is no event. An event goes out under the tag by which it is read.
pub proof fn event_tags_are_frozen(tag: u8, event: Event)
    ensures
        Event::of_tag(tag) == Some(Event::Start) <==> tag == 1,
        Event::of_tag(tag) == Some(Event::InitDone) <==> tag == 2,
        Event::of_tag(tag) == Some(Event::InitRotSecondaryBooted) <==> tag == 3,
        Event::of_tag(tag) == Some(Event::VerifyUnprovisioned) <==> tag == 4,
        Event::of_tag(tag) == Some(Event::VerifyFailed) <==> tag == 5,
        Event::of_tag(tag) == Some(Event::VerifyDone) <==> tag == 6,
        Event::of_tag(tag) == Some(Event::RecoveryFailed) <==> tag == 7,
        Event::of_tag(tag) == Some(Event::RecoveryDone) <==> tag == 8,
        Event::of_tag(tag) == Some(Event::UpdateRequested) <==> tag == 9,
        Event::of_tag(tag) == Some(Event::UpdateDone) <==> tag == 10,
        Event::of_tag(tag) == Some(Event::UpdateFailed) <==> tag == 11,
        Event::of_tag(tag) == Some(Event::ProvisionCmd) <==> tag == 12,
        Event::of_tag(tag) == Some(Event::HandshakeFailed) <==> tag == 13,
        Event::of_tag(tag) is None <==> tag == 0 || tag > 13,
        Event::of_tag(event.tag()) == Some(event),
{
}

/// The frozen tags of states: they count from one, in the order of the lifecycle, and
/// every other byte is no state. A state goes out under the tag by which it is read.
pub proof fn state_tags_are_frozen(tag: u8, state: State)
    ensures
        State::of_tag(tag) == Some(State::Boot) <==> tag == 1,
        State::of_tag(tag) == Some(State::Init) <==> tag == 2,
        State::of_tag(tag) == Some(State::RotRecovery) <==> tag == 3,
        State::of_tag(tag) == Some(State::FirmwareVerify) <==> tag == 4,
        State::of_tag(tag) == Some(State::FirmwareRecovery) <==> tag == 5,
        State::of_tag(tag) == Some(State::FirmwareUpdate) <==> tag == 6,
        State::of_tag(tag) == Some(State::Unprovisioned) <==> tag == 7,
        State::of_tag(tag) == Some(State::Runtime) <==> tag == 8,
        State::of_tag(tag) == Some(State::Lockdown) <==> tag == 9,
        State::of_tag(tag) == Some(State::Reboot) <==> tag == 10,
        State::of_tag(tag) is None <==> tag == 0 || tag > 10,
        State::of_tag(state.tag()) == Some(state),
{
}

/// The bytes of an event: its tag, and three bytes that are zero. Fewer bytes are
/// truncated, and any other ones are malformed.
pub proof fn events_on_the_wire(event: Event, s: Seq<u8>)
    ensures
        event.wire() == seq![event.tag(), 0u8, 0u8, 0u8],
        s.len() < 4 ==> Event::parse(s) == Err::<Event, WireError>(WireError::Truncated),
        s.len() >= 4 ==> (Event::parse(s) == Ok::<Event, WireError>(event) <==> s[0] == event.tag()
            && s[1] == 0 && s[2] == 0 && s[3] == 0),
        s.len() >= 4 && (Event::of_tag(s[0]) is None || s[1] != 0 || s[2] != 0 || s[3] != 0)
            ==> Event::parse(s) == Err::<Event, WireError>(WireError::Malformed),
{
    lemma_event_wire(event);
    if s.len() >= 4 {
        bytes::four_bytes_by_place(s.subrange(0, 4));
    }
}

/// The bytes of a request: one and the tag of the event to inject, or two. Fewer bytes
/// are truncated, and any other ones are malformed.
pub proof fn requests_on_the_wire(event: Event, s: Seq<u8>)
    ensures
        Request::Inject(event).wire() == seq![1u8, event.tag()],
        Request::QueryState.wire() == seq![2u8, 0u8],
        s.len() < 2 ==> Request::parse(s) == Err::<Request, WireError>(WireError::Truncated),
        s.len() >= 2 ==> {
            &&& Request::parse(s) == Ok::<Request, WireError>(Request::Inject(event)) <==> s[0] == 1
                && s[1] == event.tag()
            &&& Request::parse(s) == Ok::<Request, WireError>(Request::QueryState) <==> s[0] == 2
            &&& Request::parse(s) == Err::<Request, WireError>(WireError::Malformed) <==> (s[0] == 1
                && Event::of_tag(s[1]) is None) || (s[0] != 1 && s[0] != 2)
        },
{
}

/// The bytes of a response: one and the tag of the state, or two. Fewer bytes are
/// truncated, and any other ones are malformed.
pub proof fn responses_on_the_wire(state: State, s: Seq<u8>)
    ensures
        Response::State(state).wire() == seq![1u8, state.tag()],
        Response::Rejected.wire() == seq![2u8, 0u8],
        s.len() < 2 ==> Response::parse(s) == Err::<Response, WireError>(WireError::Truncated),
        s.len() >= 2 ==> {
            &&& Response::parse(s) == Ok::<Response, WireError>(Response::State(state)) <==> s[0]
                == 1 && s[1] == state.tag()
            &&& Response::parse(s) == Ok::<Response, WireError>(Response::Rejected) <==> s[0] == 2
            &&& Response::parse(s) == Err::<Response, WireError>(WireError::Malformed) <==> (s[0]
                == 1 && State::of_tag(s[1]) is None) || (s[0] != 1 && s[0] != 2)
        },
{
}

/// An encoded message stands in front of the buffer, reported with its size, and the
/// buffer behind it is kept. A buffer that is too small is reported and kept whole.
pub proof fn messages_stand_in_front(
    wire: Seq<u8>,
    r: Result<usize, WireError>,
    pre: Seq<u8>,
    post: Seq<u8>,
)
    requires
        wire.len() <= usize::MAX,
        encoded(wire, r, pre, post),
    ensures
        post.len() == pre.len(),
        r is Ok <==> wire.len() <= pre.len(),
        r matches Ok(n) ==> n == wire.len(),
        r matches Err(e) ==> e == WireError::BufferTooSmall,
        forall|i: int|
            0 <= i < pre.len() ==> #[trigger] post[i] == (if r is Ok && i < wire.len() {
                wire[i]
            } else {
                pre[i]
            }),
{
}

/// An event is written in four bytes, and the rest of the buffer is kept.
pub proof fn events_are_written_in_front(buf: &mut [u8], event: Event, r: Result<usize, WireError>)
    requires
        call_ensures(encode_event, (buf, event), r),
    ensures
        final(buf)@.len() == old(buf)@.len(),
        old(buf)@.len() < 4 ==> r == Err::<usize, WireError>(WireError::BufferTooSmall) && (
        final(buf)@ == old(buf)@),
        old(buf)@.len() >= 4 ==> r == Ok::<usize, WireError>(4) && final(buf)@.take(4)
            == event.wire() && final(buf)@.skip(4) == old(buf)@.skip(4),
{
    lemma_event_wire(event);
}

/// A request is written in two bytes, and the rest of the buffer is kept.
pub proof fn requests_are_written_in_front(
    buf: &mut [u8],
    request: Request,
    r: Result<usize, WireError>,
)
    requires
        call_ensures(encode_request, (buf, request), r),
    ensures
        final(buf)@.len() == old(buf)@.len(),
        old(buf)@.len() < 2 ==> r == Err::<usize, WireError>(WireError::BufferTooSmall) && (
        final(buf)@ == old(buf)@),
        old(buf)@.len() >= 2 ==> r == Ok::<usize, WireError>(2) && final(buf)@.take(2)
            == request.wire() && final(buf)@.skip(2) == old(buf)@.skip(2),
{
}

/// A response is written in two bytes, and the rest of the buffer is kept.
pub proof fn responses_are_written_in_front(
    buf: &mut [u8],
    response: Response,
    r: Result<usize, WireError>,
)
    requires
        call_ensures(encode_response, (buf, response), r),
    ensures
        final(buf)@.len() == old(buf)@.len(),
        old(buf)@.len() < 2 ==> r == Err::<usize, WireError>(WireError::BufferTooSmall) && (
        final(buf)@ == old(buf)@),
        old(buf)@.len() >= 2 ==> r == Ok::<usize, WireError>(2) && final(buf)@.take(2)
            == response.wire() && final(buf)@.skip(2) == old(buf)@.skip(2),
{
}

/// What was written is read back: a decoder gives the value whose encoding stands in
/// front of its bytes.
#[verifier::rlimit(40)]
pub proof fn decoders_read_what_was_written(
    bytes: &[u8],
    event: Event,
    request: Request,
    response: Response,
    rest: Seq<u8>,
    e: Result<Event, WireError>,
    q: Result<Request, WireError>,
    p: Result<Response, WireError>,
)
    ensures
        call_ensures(decode_event, (bytes,), e) && bytes@ == event.wire() + rest ==> e == Ok::<
            Event,
            WireError,
        >(event),
        call_ensures(decode_request, (bytes,), q) && bytes@ == request.wire() + rest ==> q == Ok::<
            Request,
            WireError,
        >(request),
        call_ensures(decode_response, (bytes,), p) && bytes@ == response.wire() + rest ==> p
            == Ok::<Response, WireError>(response),
{
    messages_round_trip(event, request, response, rest);
}

/// Which bytes the decoders refuse, and how: fewer bytes than a message takes are
/// truncated; an unknown opcode, status or tag is malformed.
#[verifier::rlimit(40)]
pub proof fn decoders_refuse_the_rest(
    bytes: &[u8],
    e: Result<Event, WireError>,
    q: Result<Request, WireError>,
    p: Result<Response, WireError>,
)
    requires
        call_ensures(decode_event, (bytes,), e),
        call_ensures(decode_request, (bytes,), q),
        call_ensures(decode_response, (bytes,), p),
    ensures
        e == Err::<Event, WireError>(WireError::Truncated) <==> bytes@.len() < 4,
        q == Err::<Request, WireError>(WireError::Truncated) <==> bytes@.len() < 2,
        p == Err::<Response, WireError>(WireError::Truncated) <==> bytes@.len() < 2,
        bytes@.len() >= 4 ==> (e is Ok <==> 1 <= bytes@[0] <= 13 && bytes@[1] == 0 && bytes@[2] == 0
            && bytes@[3] == 0),
        bytes@.len() >= 2 ==> (q is Ok <==> bytes@[0] == 2 || (bytes@[0] == 1 && 1 <= bytes@[1]
            <= 13)),
        bytes@.len() >= 2 ==> (p is Ok <==> bytes@[0] == 2 || (bytes@[0] == 1 && 1 <= bytes@[1]
            <= 10)),
{
    if bytes@.len() >= 4 {
        crate::bytes::four_bytes_by_place(bytes@.subrange(0, 4));
    }
}

} // verus!
