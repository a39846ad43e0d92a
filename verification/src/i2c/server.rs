//! I2C server: translates one request into one backend call and one reply.
//!
//! The dispatcher works on a decoded request header and on the bodies of request
//! and response; a transport puts the headers around them.

use crate::bytes;
pub use crate::i2c::backend::I2cBackend;
use crate::i2c::backend::{I2cCall, I2cOutcome, ResponseCode, SlaveEventKind};
use crate::i2c::mock::{LastCall, MockI2cBackend};
use vstd::prelude::*;

verus! {

/// Operation of a request.
#[derive(Debug, Clone, Copy, PartialEq, Eq, Structural)]
pub enum I2cOp {
    Write,
    Read,
    WriteRead,
    Probe,
    ConfigureSpeed,
    RecoverBus,
    Transaction,
    ConfigureSlave,
    EnableSlave,
    DisableSlave,
    SlaveReceive,
    SlaveWaitEvent,
    SlaveSetResponse,
    EnableSlaveNotification,
    DisableSlaveNotification,
}

/// Decoded request header. An operation that does not decode is `None`.
#[derive(Debug, Clone, Copy, PartialEq, Eq, Structural)]
pub struct I2cRequestHeader {
    pub op: Option<I2cOp>,
    pub bus: u8,
    pub address: u8,
    pub write_len: u16,
    pub read_len: u16,
}

/// Reply to a request: what its header says, and how much of the response body
/// belongs to it.
#[derive(Debug, Clone, Copy, PartialEq, Eq, Structural)]
pub enum I2cReply {
    /// The operation failed; there is no body.
    Error(ResponseCode),
    /// Success, with this many bytes of body.
    Data(usize),
    /// A slave event: its kind is the first byte of the body, and this many
    /// received bytes follow it.
    Event(SlaveEventKind, usize),
}

impl I2cReply {
    /// The size of the body.
    pub open spec fn body_len_spec(self) -> nat {
        match self {
            I2cReply::Error(_) => 0,
            I2cReply::Data(n) => n as nat,
            I2cReply::Event(_, n) => 1 + n as nat,
        }
    }

    /// The size of the body.
    pub fn body_len(&self) -> (n: usize)
        requires
            self.body_len_spec() <= usize::MAX,
        ensures
            n == self.body_len_spec(),
    {
        match *self {
            I2cReply::Error(_) => 0,
            I2cReply::Data(n) => n,
            I2cReply::Event(_, n) => 1 + n,
        }
    }

    /// The size of the body as the response header announces it, in sixteen
    /// bits.
    pub fn announced_len(&self) -> (n: u16)
        requires
            self.body_len_spec() <= usize::MAX,
        ensures
            n == self.body_len_spec() as u16,
    {
        let n: usize = self.body_len();
        #[verifier::truncate]
        (n as u16)
    }
}

/// What a request asks for.
pub enum Plan {
    /// The request is answered with this status.
    Reject(ResponseCode),
    /// This call is made. Its output goes into the response body at `at`.
    Call { call: I2cCall, at: nat },
}

/// The size of the buffer that a wait for a slave event gets: as asked for, but
/// no more than stands behind the byte for the kind.
pub open spec fn event_room(read_len: u16, body_len: nat) -> nat {
    if read_len <= body_len - 1 {
        read_len as nat
    } else {
        (body_len - 1) as nat
    }
}

/// What a request asks for, given its header, the bytes behind it, and the body
/// of the response.
pub open spec fn plan(
    header: Option<I2cRequestHeader>,
    payload: Seq<u8>,
    body: Seq<u8>,
) -> Plan {
    match header {
        Some(h) => match h.op {
            Some(op) => plan_op(op, h, payload, body),
            None => Plan::Reject(ResponseCode::ServerError),
        },
        None => Plan::Reject(ResponseCode::ServerError),
    }
}

/// As [`plan`], for a request whose operation decoded.
pub open spec fn plan_op(
    op: I2cOp,
    h: I2cRequestHeader,
    payload: Seq<u8>,
    body: Seq<u8>,
) -> Plan {
    let bus = h.bus;
    let addr = h.address;
    let short = payload.len() < h.write_len;
    let long = h.read_len > body.len();
    let data = payload.take(h.write_len as int);
    let buf = body.subrange(0, h.read_len as int);
    match op {
        I2cOp::Write => if short {
            Plan::Reject(ResponseCode::BufferTooSmall)
        } else {
            Plan::Call { call: I2cCall::Write { bus, addr, data }, at: 0 }
        },
        I2cOp::Read => if long {
            Plan::Reject(ResponseCode::BufferTooLarge)
        } else {
            Plan::Call { call: I2cCall::Read { bus, addr, buf }, at: 0 }
        },
        I2cOp::WriteRead => if short {
            Plan::Reject(ResponseCode::BufferTooSmall)
        } else if long {
            Plan::Reject(ResponseCode::BufferTooLarge)
        } else {
            Plan::Call { call: I2cCall::WriteRead { bus, addr, data, buf }, at: 0 }
        },
        I2cOp::Probe => Plan::Call { call: I2cCall::Probe { bus, addr }, at: 0 },
        I2cOp::ConfigureSpeed => Plan::Call {
            call: I2cCall::ConfigureSpeed {
                bus,
                hz: (h.write_len * 65536 + h.read_len) as u32,
            },
            at: 0,
        },
        I2cOp::RecoverBus => Plan::Call { call: I2cCall::RecoverBus { bus }, at: 0 },
        I2cOp::Transaction => Plan::Reject(ResponseCode::ServerError),
        I2cOp::ConfigureSlave => Plan::Call { call: I2cCall::ConfigureSlave { bus, addr }, at: 0 },
        I2cOp::EnableSlave => Plan::Call { call: I2cCall::EnableSlave { bus }, at: 0 },
        I2cOp::DisableSlave => Plan::Call { call: I2cCall::DisableSlave { bus }, at: 0 },
        I2cOp::SlaveReceive => if long {
            Plan::Reject(ResponseCode::BufferTooLarge)
        } else {
            Plan::Call { call: I2cCall::SlaveReceive { bus, buf }, at: 0 }
        },
        I2cOp::SlaveWaitEvent => Plan::Call {
            call: I2cCall::SlaveWaitEvent {
                bus,
                buf: body.subrange(1, (1 + event_room(h.read_len, body.len())) as int),
            },
            at: 1,
        },
        I2cOp::SlaveSetResponse => if short {
            Plan::Reject(ResponseCode::BufferTooSmall)
        } else {
            Plan::Call { call: I2cCall::SlaveSetResponse { bus, data }, at: 0 }
        },
        I2cOp::EnableSlaveNotification => Plan::Call {
            call: I2cCall::EnableSlaveNotification { bus },
            at: 0,
        },
        I2cOp::DisableSlaveNotification => Plan::Call {
            call: I2cCall::DisableSlaveNotification { bus },
            at: 0,
        },
    }
}

/// The reply that reports an outcome.
pub open spec fn reply_of(outcome: I2cOutcome) -> I2cReply {
    match outcome.result {
        Err(code) => I2cReply::Error(code),
        Ok(n) => match outcome.event {
            Some(kind) => I2cReply::Event(kind, n),
            None => I2cReply::Data(n),
        },
    }
}

/// Whether one call, with an outcome of its shape, accounts for the reply and for
/// the response body `post`, written over a body that held `pre`.
pub open spec fn called<B: I2cBackend>(
    backend_pre: B,
    backend_post: B,
    call: I2cCall,
    at: nat,
    pre: Seq<u8>,
    post: Seq<u8>,
    reply: I2cReply,
) -> bool {
    exists|outcome: I2cOutcome| #[trigger]
        B::serves(backend_pre, backend_post, call, outcome) && call.admits(outcome) && reply
            == reply_of(outcome) && post == bytes::splice(pre, at as int, outcome.buf)
}

/// Whether carrying out a plan may take the backend from its first to its second
/// state, the response body from `pre` to `post`, and end in the reply.
pub open spec fn carried_out<B: I2cBackend>(
    plan: Plan,
    backend_pre: B,
    backend_post: B,
    pre: Seq<u8>,
    post: Seq<u8>,
    reply: I2cReply,
) -> bool {
    match plan {
        Plan::Reject(code) => {
            &&& backend_post == backend_pre
            &&& post == pre
            &&& reply == I2cReply::Error(code)
        },
        Plan::Call { call, at } => called(backend_pre, backend_post, call, at, pre, post, reply),
    }
}

/// The reply that reports the result of a call without output.
fn plain_reply(r: Result<(), ResponseCode>) -> (reply: I2cReply)
    ensures
        reply == reply_of(I2cOutcome::plain(r)),
{
    match r {
        Ok(()) => I2cReply::Data(0),
        Err(code) => I2cReply::Error(code),
    }
}

/// Dispatch a decoded request to the backend. Output of the backend lands
/// directly in `body`, the part of the response behind its header.
pub fn dispatch_request<B: I2cBackend>(
    backend: &mut B,
    header: Option<I2cRequestHeader>,
    payload: &[u8],
    body: &mut [u8],
) -> (reply: I2cReply)
    requires
        header matches Some(h) && h.op == Some(I2cOp::SlaveWaitEvent) ==> old(body)@.len() >= 1,
    ensures
        carried_out(
            plan(header, payload@, old(body)@),
            *old(backend),
            *final(backend),
            old(body)@,
            final(body)@,
            reply,
        ),
        final(body)@.len() == old(body)@.len(),
        reply.body_len_spec() <= old(body)@.len(),
{
    let h = match header {
        Some(h) => h,
        None => return I2cReply::Error(ResponseCode::ServerError),
    };
    let op = match h.op {
        Some(op) => op,
        None => return I2cReply::Error(ResponseCode::ServerError),
    };
    let wlen: usize = h.write_len as usize;
    let rlen: usize = h.read_len as usize;
    assert(bytes::splice(body@, 0, Seq::empty()) =~= body@);
    match op {
        I2cOp::Write => {
            if payload.len() < wlen {
                return I2cReply::Error(ResponseCode::BufferTooSmall);
            }
            let data: &[u8] = vstd::slice::slice_subrange(payload, 0, wlen);
            plain_reply(backend.write(h.bus, h.address, data))
        },
        I2cOp::Read => {
            if rlen > body.len() {
                return I2cReply::Error(ResponseCode::BufferTooLarge);
            }
            match backend.read(h.bus, h.address, bytes::window(body, 0, rlen)) {
                Ok(()) => I2cReply::Data(rlen),
                Err(code) => I2cReply::Error(code),
            }
        },
        I2cOp::WriteRead => {
            if payload.len() < wlen {
                return I2cReply::Error(ResponseCode::BufferTooSmall);
            }
            if rlen > body.len() {
                return I2cReply::Error(ResponseCode::BufferTooLarge);
            }
            let data: &[u8] = vstd::slice::slice_subrange(payload, 0, wlen);
            match backend.write_read(h.bus, h.address, data, bytes::window(body, 0, rlen)) {
                Ok(()) => I2cReply::Data(rlen),
                Err(code) => I2cReply::Error(code),
            }
        },
        I2cOp::Probe => plain_reply(backend.probe(h.bus, h.address)),
        I2cOp::ConfigureSpeed => {
            // The two length fields carry the halves of the speed.
            let high: u32 = h.write_len as u32;
            let low: u32 = h.read_len as u32;
            let speed_hz: u32 = (high << 16) | low;
            assert(speed_hz == high * 65536 + low) by (bit_vector)
                requires
                    speed_hz == (high << 16) | low,
                    high <= 0xFFFF,
                    low <= 0xFFFF,
            ;
            plain_reply(backend.configure_speed(h.bus, speed_hz))
        },
        I2cOp::RecoverBus => plain_reply(backend.recover_bus(h.bus)),
        I2cOp::Transaction => I2cReply::Error(ResponseCode::ServerError),
        I2cOp::ConfigureSlave => plain_reply(backend.configure_slave(h.bus, h.address)),
        I2cOp::EnableSlave => plain_reply(backend.enable_slave(h.bus)),
        I2cOp::DisableSlave => plain_reply(backend.disable_slave(h.bus)),
        I2cOp::SlaveReceive => {
            if rlen > body.len() {
                return I2cReply::Error(ResponseCode::BufferTooLarge);
            }
            match backend.slave_receive(h.bus, bytes::window(body, 0, rlen)) {
                Ok(n) => I2cReply::Data(n),
                Err(code) => I2cReply::Error(code),
            }
        },
        I2cOp::SlaveWaitEvent => {
            let avail: usize = body.len() - 1;
            let room: usize = if rlen <= avail {
                rlen
            } else {
                avail
            };
            match backend.slave_wait_event(h.bus, bytes::window(body, 1, room)) {
                Ok((kind, n)) => I2cReply::Event(kind, n),
                Err(code) => I2cReply::Error(code),
            }
        },
        I2cOp::SlaveSetResponse => {
            if payload.len() < wlen {
                return I2cReply::Error(ResponseCode::BufferTooSmall);
            }
            let data: &[u8] = vstd::slice::slice_subrange(payload, 0, wlen);
            plain_reply(backend.slave_set_response(h.bus, data))
        },
        I2cOp::EnableSlaveNotification => plain_reply(backend.enable_slave_notification(h.bus)),
        I2cOp::DisableSlaveNotification => plain_reply(backend.disable_slave_notification(h.bus)),
    }
}

/// Every clock speed can be asked for: the halves of a speed in the two length
/// fields configure that speed.
pub proof fn speed_survives_packing(hz: u32, bus: u8, address: u8, payload: Seq<u8>, body: Seq<u8>)
    ensures
        plan(
            Some(
                (I2cRequestHeader {
                    op: Some(I2cOp::ConfigureSpeed),
                    bus,
                    address,
                    write_len: (hz / 65536) as u16,
                    read_len: (hz % 65536) as u16,
                }),
            ),
            payload,
            body,
        ) == (Plan::Call { call: I2cCall::ConfigureSpeed { bus, hz }, at: 0 }),
{
}

/// A read that succeeds is answered with as many bytes as were asked for, and the
/// body behind them is left alone, whatever the backend. So is a combined
/// transaction. One that does not fit is refused, and the backend is not called.
pub proof fn reads_are_answered_in_full<B: I2cBackend>(
    header: I2cRequestHeader,
    payload: Seq<u8>,
    backend_pre: B,
    backend_post: B,
    pre: Seq<u8>,
    post: Seq<u8>,
    reply: I2cReply,
)
    requires
        header.op == Some(I2cOp::Read) || (header.op == Some(I2cOp::WriteRead) && header.write_len
            <= payload.len()),
        carried_out(
            plan(Some(header), payload, pre),
            backend_pre,
            backend_post,
            pre,
            post,
            reply,
        ),
    ensures
        if header.read_len > pre.len() {
            &&& reply == I2cReply::Error(ResponseCode::BufferTooLarge)
            &&& backend_post == backend_pre
            &&& post == pre
        } else {
            &&& reply is Error || reply == I2cReply::Data(header.read_len as usize)
            &&& post.len() == pre.len()
            &&& post.skip(header.read_len as int) == pre.skip(header.read_len as int)
        },
{
}

/// An operation without output is answered without a body, and leaves the body
/// alone.
pub proof fn plain_operations_have_no_body<B: I2cBackend>(
    op: I2cOp,
    header: I2cRequestHeader,
    payload: Seq<u8>,
    backend_pre: B,
    backend_post: B,
    pre: Seq<u8>,
    post: Seq<u8>,
    reply: I2cReply,
)
    requires
        header.op == Some(op),
        op != I2cOp::Read && op != I2cOp::WriteRead && op != I2cOp::SlaveReceive && op
            != I2cOp::SlaveWaitEvent,
        carried_out(
            plan(Some(header), payload, pre),
            backend_pre,
            backend_post,
            pre,
            post,
            reply,
        ),
    ensures
        reply is Error || reply == I2cReply::Data(0),
        post == pre,
{
    assert(bytes::splice(pre, 0, Seq::empty()) =~= pre);
}

/// What a mock backend was programmed with is what a read request brings back,
/// with zeros behind it.
pub proof fn mock_reads_are_served(
    pre: MockI2cBackend,
    post: MockI2cBackend,
    header: I2cRequestHeader,
    payload: Seq<u8>,
    body_pre: Seq<u8>,
    body_post: Seq<u8>,
    reply: I2cReply,
)
    requires
        header.op == Some(I2cOp::Read),
        header.read_len <= body_pre.len(),
        carried_out(plan(Some(header), payload, body_pre), pre, post, body_pre, body_post, reply),
    ensures
        reply == I2cReply::Data(header.read_len as usize),
        body_post.take(header.read_len as int) == pre@.read_back(header.read_len as nat),
        post@.last_call == (LastCall::Read {
            bus: header.bus,
            addr: header.address,
            len: header.read_len as usize,
        }),
{
}

/// Every call goes to the bus that the header names, whatever the operation.
pub proof fn calls_name_the_bus(header: I2cRequestHeader, payload: Seq<u8>, body: Seq<u8>)
    ensures
        plan(Some(header), payload, body) matches Plan::Call { call, .. } ==> (match call {
            I2cCall::Write { bus, .. } => bus == header.bus,
            I2cCall::Read { bus, .. } => bus == header.bus,
            I2cCall::WriteRead { bus, .. } => bus == header.bus,
            I2cCall::Probe { bus, .. } => bus == header.bus,
            I2cCall::ConfigureSpeed { bus, .. } => bus == header.bus,
            I2cCall::RecoverBus { bus } => bus == header.bus,
            I2cCall::ConfigureSlave { bus, .. } => bus == header.bus,
            I2cCall::EnableSlave { bus } => bus == header.bus,
            I2cCall::DisableSlave { bus } => bus == header.bus,
            I2cCall::SlaveReceive { bus, .. } => bus == header.bus,
            I2cCall::SlaveWaitEvent { bus, .. } => bus == header.bus,
            I2cCall::SlaveSetResponse { bus, .. } => bus == header.bus,
            I2cCall::EnableSlaveNotification { bus } => bus == header.bus,
            I2cCall::DisableSlaveNotification { bus } => bus == header.bus,
            I2cCall::DrainSlaveRx { .. } => false,
        }),
{
}

/// A call to a device carries the address of the header, a call with data the first
/// bytes of the payload, as many as the header announces, and a call with output a
/// buffer of the size that the header asks for.
pub proof fn calls_carry_the_request(header: I2cRequestHeader, payload: Seq<u8>, body: Seq<u8>)
    ensures
        ({
            let data_is = |data: Seq<u8>|
                data.len() == header.write_len && forall|i: int|
                    0 <= i < data.len() ==> #[trigger] data[i] == payload[i];
            let buf_is = |buf: Seq<u8>|
                buf.len() == header.read_len && forall|i: int|
                    0 <= i < buf.len() ==> #[trigger] buf[i] == body[i];
            plan(Some(header), payload, body) matches Plan::Call { call, at } ==> (match call {
                I2cCall::Write { addr, data, .. } => addr == header.address && data_is(data) && at
                    == 0,
                I2cCall::Read { addr, buf, .. } => addr == header.address && buf_is(buf) && at == 0,
                I2cCall::WriteRead { addr, data, buf, .. } => addr == header.address && data_is(
                    data,
                ) && buf_is(buf) && at == 0,
                I2cCall::Probe { addr, .. } => addr == header.address,
                I2cCall::ConfigureSpeed { hz, .. } => hz == 65536 * header.write_len
                    + header.read_len,
                I2cCall::ConfigureSlave { addr, .. } => addr == header.address,
                I2cCall::SlaveReceive { buf, .. } => buf_is(buf) && at == 0,
                I2cCall::SlaveSetResponse { data, .. } => data_is(data),
                _ => true,
            })
        }),
{
}

/// The operation of the header selects the call, and nothing else does.
pub proof fn operations_select_the_call(
    op: I2cOp,
    header: I2cRequestHeader,
    payload: Seq<u8>,
    body: Seq<u8>,
)
    requires
        header.op == Some(op),
    ensures
        plan(Some(header), payload, body) matches Plan::Call { call, .. } ==> {
            &&& call is Write <==> op == I2cOp::Write
            &&& call is Read <==> op == I2cOp::Read
            &&& call is WriteRead <==> op == I2cOp::WriteRead
            &&& call is Probe <==> op == I2cOp::Probe
            &&& call is ConfigureSpeed <==> op == I2cOp::ConfigureSpeed
            &&& call is RecoverBus <==> op == I2cOp::RecoverBus
            &&& call is ConfigureSlave <==> op == I2cOp::ConfigureSlave
            &&& call is EnableSlave <==> op == I2cOp::EnableSlave
            &&& call is DisableSlave <==> op == I2cOp::DisableSlave
            &&& call is SlaveReceive <==> op == I2cOp::SlaveReceive
            &&& call is SlaveWaitEvent <==> op == I2cOp::SlaveWaitEvent
            &&& call is SlaveSetResponse <==> op == I2cOp::SlaveSetResponse
            &&& call is EnableSlaveNotification <==> op == I2cOp::EnableSlaveNotification
            &&& call is DisableSlaveNotification <==> op == I2cOp::DisableSlaveNotification
        },
{
}

/// Which requests the backend never sees, and how they are answered: a request that
/// does not decode and a transaction are server errors, data that is not all there is
/// too small a buffer, and output that does not fit is too large a one. Missing data is
/// reported first. Every other request is a call.
pub proof fn rejections_name_their_reason<B: I2cBackend>(
    header: Option<I2cRequestHeader>,
    payload: &[u8],
    backend: &mut B,
    body: &mut [u8],
    reply: I2cReply,
)
    requires
        call_ensures(dispatch_request::<B>, (backend, header, payload, body), reply),
    ensures
        ({
            let undecoded = header is None || header->0.op is None || header->0.op == Some(
                I2cOp::Transaction,
            );
            let h = header->0;
            let takes_data = h.op == Some(I2cOp::Write) || h.op == Some(I2cOp::WriteRead) || h.op
                == Some(I2cOp::SlaveSetResponse);
            let fills = h.op == Some(I2cOp::Read) || h.op == Some(I2cOp::WriteRead) || h.op == Some(
                I2cOp::SlaveReceive,
            );
            let short = !undecoded && takes_data && payload@.len() < h.write_len;
            let long = !undecoded && fills && old(body)@.len() < h.read_len;
            let untouched = *final(backend) == *old(backend) && final(body)@ == old(body)@;
            &&& undecoded ==> untouched && reply == I2cReply::Error(ResponseCode::ServerError)
            &&& short ==> untouched && reply == I2cReply::Error(ResponseCode::BufferTooSmall)
            &&& long && !short ==> untouched && reply == I2cReply::Error(
                ResponseCode::BufferTooLarge,
            )
            &&& plan(header, payload@, old(body)@) is Call <==> !undecoded && !short && !long
        }),
{
}

/// A call is answered with its outcome. A failure is answered with its code; a success
/// announces as many bytes as the backend reports, behind the kind of the event where
/// there is one. The output stands in the body where the call had its buffer, and the
/// body around it is untouched.
#[verifier::rlimit(40)]
pub proof fn a_call_is_answered_with_its_outcome<B: I2cBackend>(
    header: Option<I2cRequestHeader>,
    payload: &[u8],
    backend: &mut B,
    body: &mut [u8],
    reply: I2cReply,
    call: I2cCall,
    at: int,
)
    requires
        header matches Some(h) && h.op == Some(I2cOp::SlaveWaitEvent) ==> old(body)@.len() >= 1,
        0 <= at,
        plan(header, payload@, old(body)@) == (Plan::Call { call, at: at as nat }),
        call_ensures(dispatch_request::<B>, (backend, header, payload, body), reply),
    ensures
        final(body)@.len() == old(body)@.len(),
        exists|outcome: I2cOutcome| #[trigger]
            B::serves(*old(backend), *final(backend), call, outcome) && (
            outcome.result matches Err(code) ==> reply == I2cReply::Error(code)) && (
            outcome.result matches Ok(n) ==> outcome.event is None ==> reply == I2cReply::Data(n))
                && (outcome.result matches Ok(n) ==> outcome.event matches Some(kind) ==> reply
                == I2cReply::Event(kind, n)) && final(body)@.subrange(
                at,
                at + outcome.buf.len(),
            ) == outcome.buf && final(body)@.take(at) == old(body)@.take(at) && final(body)@.skip(
                at + outcome.buf.len(),
            ) == old(body)@.skip(at + outcome.buf.len()) && (outcome.event is Some ==> call
                is SlaveWaitEvent),
{
    let outcome = choose|outcome: I2cOutcome| #[trigger]
        B::serves(*old(backend), *final(backend), call, outcome) && call.admits(outcome) && reply
            == reply_of(outcome) && final(body)@ == bytes::splice(old(body)@, at, outcome.buf);
    assert(at + outcome.buf.len() <= old(body)@.len());
    bytes::splicing_changes_its_window_alone(old(body)@, at, outcome.buf);
    assert(final(body)@.subrange(at, at + outcome.buf.len()) =~= outcome.buf);
    assert(final(body)@.take(at) =~= old(body)@.take(at));
    assert(final(body)@.skip(at + outcome.buf.len()) =~= old(body)@.skip(
        at + outcome.buf.len(),
    ));
}

/// Slave bytes are announced as they were taken: never more than were asked for, and
/// the body behind that is untouched.
pub proof fn slave_bytes_are_announced<B: I2cBackend>(
    header: I2cRequestHeader,
    payload: &[u8],
    backend: &mut B,
    body: &mut [u8],
    reply: I2cReply,
)
    requires
        header.op == Some(I2cOp::SlaveReceive),
        header.read_len <= old(body)@.len(),
        call_ensures(dispatch_request::<B>, (backend, Some(header), payload, body), reply),
    ensures
        reply is Error || (reply matches I2cReply::Data(n) && n <= header.read_len),
        final(body)@.skip(header.read_len as int) == old(body)@.skip(header.read_len as int),
{
}

/// A slave event is waited for with the body behind its first byte, which is left for
/// the kind: as much of it as the header asks for, or all of it. The answer is the kind
/// and the number of bytes that the backend reports.
pub proof fn slave_events_leave_room_for_their_kind<B: I2cBackend>(
    header: I2cRequestHeader,
    payload: &[u8],
    backend: &mut B,
    body: &mut [u8],
    reply: I2cReply,
    room: int,
)
    requires
        header.op == Some(I2cOp::SlaveWaitEvent),
        old(body)@.len() >= 1,
        0 <= room <= header.read_len,
        room <= old(body)@.len() - 1,
        room == header.read_len || room == old(body)@.len() - 1,
        call_ensures(dispatch_request::<B>, (backend, Some(header), payload, body), reply),
    ensures
        final(body)@.len() == old(body)@.len(),
        final(body)@[0] == old(body)@[0],
        final(body)@.skip(1 + room) == old(body)@.skip(1 + room),
        reply is Error || (reply matches I2cReply::Event(_, n) && n <= room),
        exists|outcome: I2cOutcome| #[trigger]
            B::serves(
                *old(backend),
                *final(backend),
                (I2cCall::SlaveWaitEvent {
                    bus: header.bus,
                    buf: old(body)@.subrange(1, 1 + room),
                }),
                outcome,
            ) && outcome.buf == final(body)@.subrange(1, 1 + room) && (outcome.result matches Ok(n)
                ==> outcome.event matches Some(kind) && reply == I2cReply::Event(kind, n)) && (
            outcome.result matches Err(code) ==> reply == I2cReply::Error(code)),
{
    let call = I2cCall::SlaveWaitEvent { bus: header.bus, buf: old(body)@.subrange(1, 1 + room) };
    let outcome = choose|outcome: I2cOutcome| #[trigger]
        B::serves(*old(backend), *final(backend), call, outcome) && call.admits(outcome) && reply
            == reply_of(outcome) && final(body)@ == bytes::splice(old(body)@, 1, outcome.buf);
    assert(final(body)@.subrange(1, 1 + room) =~= outcome.buf);
    assert(final(body)@.skip(1 + room) =~= old(body)@.skip(1 + room));
}

/// The body of a reply: nothing for an error, the announced bytes for data, and one
/// byte more for an event, which holds its kind.
pub proof fn bodies_have_their_size(code: ResponseCode, kind: SlaveEventKind, n: usize)
    ensures
        I2cReply::Error(code).body_len_spec() == 0,
        I2cReply::Data(n).body_len_spec() == n,
        I2cReply::Event(kind, n).body_len_spec() == n + 1,
{
}

/// The announced size of a body is its size, where sixteen bits hold it.
pub proof fn bodies_are_announced(reply: I2cReply, n: usize, announced: u16)
    requires
        reply.body_len_spec() <= u16::MAX,
        call_ensures(I2cReply::body_len, (&reply,), n),
        call_ensures(I2cReply::announced_len, (&reply,), announced),
    ensures
        announced == n,
        reply matches I2cReply::Data(k) ==> n == k,
        reply matches I2cReply::Event(_, k) ==> n == k + 1,
        reply is Error ==> n == 0,
{
}

} // verus!
