//! Flash service: the backend contract and the dispatcher.
//!
//! The dispatcher works on a decoded request header and on the bodies of request
//! and response; a transport puts the headers around them. Every request is
//! served synchronously. A backend that cannot complete at once reports so as
//! its own error, and the client retries.

use crate::bytes;
use vstd::prelude::*;

verus! {

/// Size of the request buffer of a server loop.
pub const MAX_REQUEST_SIZE: usize = 512;

/// Size of the response buffer of a server loop.
pub const MAX_RESPONSE_SIZE: usize = 512;

/// Geometry of a flash part.
#[derive(Debug, Clone, Copy, PartialEq, Eq, Structural)]
pub struct FlashInfo {
    pub capacity: u32,
    pub chunk_size: u32,
}

/// Operation of a request.
#[derive(Debug, Clone, Copy, PartialEq, Eq, Structural)]
pub enum FlashOp {
    Exists,
    GetCapacity,
    GetChunkSize,
    Read,
    Write,
    Erase,
}

/// Decoded request header. An operation that does not decode is `None`.
#[derive(Debug, Clone, Copy, PartialEq, Eq, Structural)]
pub struct FlashRequestHeader {
    pub op: Option<FlashOp>,
    pub payload_len: usize,
    pub address: u32,
    pub length: u32,
}

/// Why a request failed.
#[derive(Debug, Clone, Copy, PartialEq, Eq)]
pub enum FlashFailure<E> {
    /// The request is malformed.
    InvalidOperation,
    /// The header names no known operation.
    UnknownOperation,
    /// The announced length is not that of the payload.
    InvalidLength,
    /// The backend failed.
    Backend(E),
}

/// Reply to a request: what its header says, and how much of the response body
/// belongs to it.
#[derive(Debug, Clone, Copy, PartialEq, Eq)]
pub enum FlashReply<E> {
    /// The request failed; there is no body.
    Error(FlashFailure<E>),
    /// Success, with a value and this many bytes of body.
    Success { value: u32, payload_len: u16 },
}

/// Outcome of a dispatch: there is always a reply at once.
pub enum DispatchOutcome<E> {
    Respond(FlashReply<E>),
}

/// Outcome of a read: how many bytes it produced, and the buffer as it left it.
pub struct FlashRead<E> {
    pub result: Result<usize, E>,
    pub buf: Seq<u8>,
}

/// Contract of a flash backend.
///
/// An implementation says by the spec predicates what its methods may do; one
/// that leaves a predicate out says nothing of the method.
pub trait FlashBackend: Sized {
    /// Failure of the backend.
    type Error;

    /// Whether `info` may take `pre` to `post` and report `info`.
    open spec fn info_post(pre: Self, post: Self, info: FlashInfo) -> bool {
        true
    }

    /// Whether `read` may take `pre` to `post` with the outcome `read`, on a
    /// buffer that held `buf`.
    open spec fn read_post(
        pre: Self,
        post: Self,
        address: u32,
        buf: Seq<u8>,
        read: FlashRead<Self::Error>,
    ) -> bool {
        true
    }

    /// Whether `write` may take `pre` to `post` with the result `r`.
    open spec fn write_post(
        pre: Self,
        post: Self,
        address: u32,
        data: Seq<u8>,
        r: Result<usize, Self::Error>,
    ) -> bool {
        true
    }

    /// Whether `erase` may take `pre` to `post` with the result `r`.
    open spec fn erase_post(
        pre: Self,
        post: Self,
        address: u32,
        length: u32,
        r: Result<(), Self::Error>,
    ) -> bool {
        true
    }

    /// The geometry of the part.
    fn info(&mut self) -> (info: FlashInfo)
        ensures
            Self::info_post(*old(self), *final(self), info),
    ;

    /// Read from `address` into `buf`. Returns how many bytes were read, which
    /// is at most the size of `buf`.
    fn read(&mut self, address: u32, buf: &mut [u8]) -> (r: Result<usize, Self::Error>)
        ensures
            final(buf)@.len() == old(buf)@.len(),
            r matches Ok(n) ==> n <= old(buf)@.len(),
            Self::read_post(
                *old(self),
                *final(self),
                address,
                old(buf)@,
                (FlashRead { result: r, buf: final(buf)@ }),
            ),
    ;

    /// Write `data` at `address`. Returns how many bytes were written.
    fn write(&mut self, address: u32, data: &[u8]) -> (r: Result<usize, Self::Error>)
        ensures
            Self::write_post(*old(self), *final(self), address, data@, r),
    ;

    /// Erase `length` bytes at `address`.
    fn erase(&mut self, address: u32, length: u32) -> (r: Result<(), Self::Error>)
        ensures
            Self::erase_post(*old(self), *final(self), address, length, r),
    ;
}

/// What a request asks for.
pub enum FlashPlan {
    Reject(FlashPlanError),
    Exists,
    Capacity,
    ChunkSize,
    /// Read into the front of the response body, `len` bytes at most.
    Read { address: u32, len: nat },
    Write { address: u32, data: Seq<u8> },
    Erase { address: u32, length: u32 },
}

/// Why a request is rejected before the backend sees it.
pub enum FlashPlanError {
    InvalidOperation,
    UnknownOperation,
    InvalidLength,
}

/// How many bytes a read asks for: as the header says, but no more than the body
/// holds and than a sixteen-bit length can announce.
pub open spec fn read_len(length: u32, body_len: nat) -> nat {
    let fits = if length <= body_len {
        length as nat
    } else {
        body_len
    };
    if fits <= u16::MAX {
        fits
    } else {
        u16::MAX as nat
    }
}

/// What a request asks for, given its header, the bytes behind it, and the size
/// of the response body.
pub open spec fn plan(
    header: Option<FlashRequestHeader>,
    rest: Seq<u8>,
    body_len: nat,
) -> FlashPlan {
    match header {
        None => FlashPlan::Reject(FlashPlanError::InvalidOperation),
        Some(h) => match h.op {
            None => FlashPlan::Reject(FlashPlanError::UnknownOperation),
            Some(op) => if rest.len() < h.payload_len {
                FlashPlan::Reject(FlashPlanError::InvalidOperation)
            } else {
                match op {
                    FlashOp::Exists => FlashPlan::Exists,
                    FlashOp::GetCapacity => FlashPlan::Capacity,
                    FlashOp::GetChunkSize => FlashPlan::ChunkSize,
                    FlashOp::Read => FlashPlan::Read {
                        address: h.address,
                        len: read_len(h.length, body_len),
                    },
                    FlashOp::Write => if h.length != h.payload_len {
                        FlashPlan::Reject(FlashPlanError::InvalidLength)
                    } else {
                        FlashPlan::Write {
                            address: h.address,
                            data: rest.take(h.payload_len as int),
                        }
                    },
                    FlashOp::Erase => FlashPlan::Erase { address: h.address, length: h.length },
                }
            },
        },
    }
}

/// Success with a value and no body.
pub open spec fn value_reply<E>(value: u32) -> FlashReply<E> {
    FlashReply::Success { value, payload_len: 0 }
}

/// Whether one read of at most `len` bytes accounts for the reply and for the
/// response body `post`, written over a body that held `pre`.
pub open spec fn read_served<B: FlashBackend>(
    backend_pre: B,
    backend_post: B,
    address: u32,
    len: nat,
    pre: Seq<u8>,
    post: Seq<u8>,
    reply: FlashReply<B::Error>,
) -> bool {
    exists|read: FlashRead<B::Error>| #[trigger]
        B::read_post(backend_pre, backend_post, address, pre.take(len as int), read)
            && read.buf.len() == len && (read.result matches Ok(n) ==> n <= len) && post
            == bytes::splice(pre, 0, read.buf) && reply == (match read.result {
            Ok(n) => FlashReply::Success { value: n as u32, payload_len: n as u16 },
            Err(e) => FlashReply::Error(FlashFailure::Backend(e)),
        })
}

/// Whether one write accounts for the reply.
pub open spec fn write_served<B: FlashBackend>(
    backend_pre: B,
    backend_post: B,
    address: u32,
    data: Seq<u8>,
    reply: FlashReply<B::Error>,
) -> bool {
    exists|r: Result<usize, B::Error>| #[trigger]
        B::write_post(backend_pre, backend_post, address, data, r) && reply == (match r {
            Ok(n) => value_reply::<B::Error>(n as u32),
            Err(e) => FlashReply::Error(FlashFailure::Backend(e)),
        })
}

/// Whether one erase accounts for the reply.
pub open spec fn erase_served<B: FlashBackend>(
    backend_pre: B,
    backend_post: B,
    address: u32,
    length: u32,
    reply: FlashReply<B::Error>,
) -> bool {
    exists|r: Result<(), B::Error>| #[trigger]
        B::erase_post(backend_pre, backend_post, address, length, r) && reply == (match r {
            Ok(_) => value_reply::<B::Error>(length),
            Err(e) => FlashReply::Error(FlashFailure::Backend(e)),
        })
}

/// Whether carrying out a plan may take the backend from its first to its second
/// state, the response body from `pre` to `post`, and end in the reply.
pub open spec fn carried_out<B: FlashBackend>(
    plan: FlashPlan,
    backend_pre: B,
    backend_post: B,
    pre: Seq<u8>,
    post: Seq<u8>,
    reply: FlashReply<B::Error>,
) -> bool {
    match plan {
        FlashPlan::Reject(why) => {
            &&& backend_post == backend_pre
            &&& post == pre
            &&& reply == FlashReply::Error::<B::Error>(
                match why {
                    FlashPlanError::InvalidOperation => FlashFailure::InvalidOperation,
                    FlashPlanError::UnknownOperation => FlashFailure::UnknownOperation,
                    FlashPlanError::InvalidLength => FlashFailure::InvalidLength,
                },
            )
        },
        FlashPlan::Exists => {
            &&& backend_post == backend_pre
            &&& post == pre
            &&& reply == value_reply::<B::Error>(0)
        },
        FlashPlan::Capacity => {
            &&& post == pre
            &&& exists|info: FlashInfo| #[trigger]
                B::info_post(backend_pre, backend_post, info) && reply == value_reply::<B::Error>(
                    info.capacity,
                )
        },
        FlashPlan::ChunkSize => {
            &&& post == pre
            &&& exists|info: FlashInfo| #[trigger]
                B::info_post(backend_pre, backend_post, info) && reply == value_reply::<B::Error>(
                    info.chunk_size,
                )
        },
        FlashPlan::Read { address, len } => read_served(
            backend_pre,
            backend_post,
            address,
            len,
            pre,
            post,
            reply,
        ),
        FlashPlan::Write { address, data } => {
            &&& post == pre
            &&& write_served(backend_pre, backend_post, address, data, reply)
        },
        FlashPlan::Erase { address, length } => {
            &&& post == pre
            &&& erase_served(backend_pre, backend_post, address, length, reply)
        },
    }
}

/// Dispatch a decoded request to the backend. What a read produces lands
/// directly in `body`, the part of the response behind its header. A header that
/// is `None` did not decode.
pub fn dispatch_request<B: FlashBackend>(
    backend: &mut B,
    header: Option<FlashRequestHeader>,
    rest: &[u8],
    body: &mut [u8],
) -> (outcome: DispatchOutcome<B::Error>)
    ensures
        outcome matches DispatchOutcome::Respond(reply) && carried_out(
            plan(header, rest@, old(body)@.len()),
            *old(backend),
            *final(backend),
            old(body)@,
            final(body)@,
            reply,
        ) && (reply matches FlashReply::Success { payload_len, .. } ==> payload_len <= old(
            body,
        )@.len()),
        final(body)@.len() == old(body)@.len(),
{
    let h = match header {
        Some(h) => h,
        None => return DispatchOutcome::Respond(FlashReply::Error(FlashFailure::InvalidOperation)),
    };
    let op = match h.op {
        Some(op) => op,
        None => return DispatchOutcome::Respond(FlashReply::Error(FlashFailure::UnknownOperation)),
    };
    let payload_len: usize = h.payload_len;
    if rest.len() < payload_len {
        return DispatchOutcome::Respond(FlashReply::Error(FlashFailure::InvalidOperation));
    }
    match op {
        FlashOp::Exists => DispatchOutcome::Respond(
            FlashReply::Success { value: 0, payload_len: 0 },
        ),
        FlashOp::GetCapacity => {
            let info = backend.info();
            DispatchOutcome::Respond(FlashReply::Success { value: info.capacity, payload_len: 0 })
        },
        FlashOp::GetChunkSize => {
            let info = backend.info();
            DispatchOutcome::Respond(FlashReply::Success { value: info.chunk_size, payload_len: 0 })
        },
        FlashOp::Read => {
            let mut len: usize = body.len();
            if len > u16::MAX as usize {
                len = u16::MAX as usize;
            }
            if h.length < len as u32 {
                len = h.length as usize;
            }
            match backend.read(h.address, bytes::window(body, 0, len)) {
                Ok(n) => DispatchOutcome::Respond(
                    FlashReply::Success { value: n as u32, payload_len: n as u16 },
                ),
                Err(e) => DispatchOutcome::Respond(FlashReply::Error(FlashFailure::Backend(e))),
            }
        },
        FlashOp::Write => {
            if h.length as usize != payload_len {
                return DispatchOutcome::Respond(FlashReply::Error(FlashFailure::InvalidLength));
            }
            let payload: &[u8] = vstd::slice::slice_subrange(rest, 0, payload_len);
            match backend.write(h.address, payload) {
                Ok(n) => DispatchOutcome::Respond(
                    FlashReply::Success { value: #[verifier::truncate] (n as u32), payload_len: 0 },
                ),
                Err(e) => DispatchOutcome::Respond(FlashReply::Error(FlashFailure::Backend(e))),
            }
        },
        FlashOp::Erase => match backend.erase(h.address, h.length) {
            Ok(()) => DispatchOutcome::Respond(
                FlashReply::Success { value: h.length, payload_len: 0 },
            ),
            Err(e) => DispatchOutcome::Respond(FlashReply::Error(FlashFailure::Backend(e))),
        },
    }
}

/// A backend is only ever given a write whose size is the one that the header
/// announces, and a read that a reply can announce.
pub proof fn sizes_agree(header: FlashRequestHeader, rest: Seq<u8>, body_len: nat)
    ensures
        plan(Some(header), rest, body_len) matches FlashPlan::Write { data, .. } ==> data.len()
            == header.length && data.len() == header.payload_len,
        plan(Some(header), rest, body_len) matches FlashPlan::Read { len, .. } ==> len
            <= header.length && len <= body_len && len <= u16::MAX,
{
}

/// The backend is asked for the very region that the header names: a read, a write and
/// an erase carry the address of the header, and an erase its length.
pub proof fn regions_are_those_of_the_header(
    header: FlashRequestHeader,
    rest: Seq<u8>,
    body_len: nat,
)
    ensures
        plan(Some(header), rest, body_len) matches FlashPlan::Erase { address, length } ==> address
            == header.address && length == header.length,
        plan(Some(header), rest, body_len) matches FlashPlan::Read { address, .. } ==> address
            == header.address,
        plan(Some(header), rest, body_len) matches FlashPlan::Write { address, data } ==> address
            == header.address && (forall|i: int|
            0 <= i < data.len() ==> #[trigger] data[i] == rest[i]),
{
}

/// A request whose header decodes and whose payload is there asks for what its
/// operation names, and for nothing else.
pub proof fn operations_are_those_of_the_header(
    header: FlashRequestHeader,
    rest: Seq<u8>,
    body_len: nat,
)
    requires
        header.payload_len <= rest.len(),
    ensures
        ({
            let asked = plan(Some(header), rest, body_len);
            &&& asked is Exists <==> header.op == Some(FlashOp::Exists)
            &&& asked is Capacity <==> header.op == Some(FlashOp::GetCapacity)
            &&& asked is ChunkSize <==> header.op == Some(FlashOp::GetChunkSize)
            &&& asked is Read <==> header.op == Some(FlashOp::Read)
            &&& asked is Erase <==> header.op == Some(FlashOp::Erase)
            &&& asked is Write <==> header.op == Some(FlashOp::Write) && header.length
                == header.payload_len
        }),
{
}

/// A read asks for as much as the header wants, unless the response body or a
/// sixteen-bit length holds less; then it asks for as much as these hold.
pub proof fn reads_are_as_long_as_they_can_be(
    header: FlashRequestHeader,
    rest: Seq<u8>,
    body_len: nat,
)
    ensures
        plan(Some(header), rest, body_len) matches FlashPlan::Read { len, .. } ==> {
            &&& len <= header.length && len <= body_len && len <= 0xffff
            &&& len == header.length || len == body_len || len == 0xffff
        },
{
}

/// A request that the backend never sees is answered with its reason, without a body:
/// a header that does not decode or a payload that is not there is an invalid
/// operation, an operation that does not decode is unknown, and a write whose two
/// lengths differ is an invalid length.
pub proof fn rejections_name_their_reason<B: FlashBackend>(
    header: Option<FlashRequestHeader>,
    rest: &[u8],
    backend: &mut B,
    body: &mut [u8],
    reply: FlashReply<B::Error>,
)
    requires
        call_ensures(
            dispatch_request::<B>,
            (backend, header, rest, body),
            DispatchOutcome::Respond(reply),
        ),
    ensures
        ({
            let untouched = *final(backend) == *old(backend) && final(body)@ == old(body)@;
            &&& header is None ==> untouched && reply == FlashReply::Error(
                FlashFailure::InvalidOperation::<B::Error>,
            )
            &&& header matches Some(h) ==> {
                &&& h.op is None ==> untouched && reply == FlashReply::Error(
                    FlashFailure::UnknownOperation::<B::Error>,
                )
                &&& h.op is Some && rest@.len() < h.payload_len ==> untouched && reply
                    == FlashReply::Error(FlashFailure::InvalidOperation::<B::Error>)
                &&& h.op == Some(FlashOp::Write) && rest@.len() >= h.payload_len && h.length
                    != h.payload_len ==> untouched && reply == FlashReply::Error(
                    FlashFailure::InvalidLength::<B::Error>,
                )
            }
        }),
{
}

/// The questions about the part itself. Whether it is there is answered without the
/// backend; capacity and chunk size are those that the backend reports.
pub proof fn geometry_is_the_backends<B: FlashBackend>(
    header: FlashRequestHeader,
    rest: &[u8],
    backend: &mut B,
    body: &mut [u8],
    reply: FlashReply<B::Error>,
)
    requires
        header.payload_len <= rest@.len(),
        call_ensures(
            dispatch_request::<B>,
            (backend, Some(header), rest, body),
            DispatchOutcome::Respond(reply),
        ),
    ensures
        header.op == Some(FlashOp::Exists) ==> *final(backend) == *old(backend) && reply == (
        FlashReply::Success::<B::Error> { value: 0, payload_len: 0 }),
        header.op == Some(FlashOp::GetCapacity) ==> exists|info: FlashInfo| #[trigger]
            B::info_post(*old(backend), *final(backend), info) && reply == (FlashReply::Success::<
                B::Error,
            > { value: info.capacity, payload_len: 0 }),
        header.op == Some(FlashOp::GetChunkSize) ==> exists|info: FlashInfo| #[trigger]
            B::info_post(*old(backend), *final(backend), info) && reply == (FlashReply::Success::<
                B::Error,
            > { value: info.chunk_size, payload_len: 0 }),
        header.op == Some(FlashOp::Exists) || header.op == Some(FlashOp::GetCapacity) || header.op
            == Some(FlashOp::GetChunkSize) ==> final(body)@ == old(body)@,
{
}

/// An erase is one call of the backend on the region of the header. It is answered
/// with the length of the header, or with the failure of the backend.
pub proof fn an_erase_is_one_call<B: FlashBackend>(
    header: FlashRequestHeader,
    rest: &[u8],
    backend: &mut B,
    body: &mut [u8],
    reply: FlashReply<B::Error>,
)
    requires
        header.op == Some(FlashOp::Erase),
        header.payload_len <= rest@.len(),
        call_ensures(
            dispatch_request::<B>,
            (backend, Some(header), rest, body),
            DispatchOutcome::Respond(reply),
        ),
    ensures
        final(body)@ == old(body)@,
        exists|r: Result<(), B::Error>| #[trigger]
            B::erase_post(*old(backend), *final(backend), header.address, header.length, r) && (
            r is Ok ==> reply == (FlashReply::Success::<B::Error> {
                value: header.length,
                payload_len: 0,
            })) && (r matches Err(e) ==> reply == FlashReply::Error(FlashFailure::Backend(e))),
{
}

/// A write is one call of the backend, at the address of the header and with the
/// payload of the request. It is answered with what the backend wrote, or with its
/// failure.
pub proof fn a_write_is_one_call<B: FlashBackend>(
    header: FlashRequestHeader,
    rest: &[u8],
    backend: &mut B,
    body: &mut [u8],
    reply: FlashReply<B::Error>,
)
    requires
        header.op == Some(FlashOp::Write),
        header.payload_len <= rest@.len(),
        header.length == header.payload_len,
        call_ensures(
            dispatch_request::<B>,
            (backend, Some(header), rest, body),
            DispatchOutcome::Respond(reply),
        ),
    ensures
        final(body)@ == old(body)@,
        exists|r: Result<usize, B::Error>| #[trigger]
            B::write_post(
                *old(backend),
                *final(backend),
                header.address,
                rest@.subrange(0, header.length as int),
                r,
            ) && (r matches Ok(n) ==> reply == (FlashReply::Success::<B::Error> {
                value: n as u32,
                payload_len: 0,
            })) && (r matches Err(e) ==> reply == FlashReply::Error(FlashFailure::Backend(e))),
{
    assert(rest@.take(header.payload_len as int) =~= rest@.subrange(0, header.length as int));
}

/// A read is one call of the backend, at the address of the header and into the front
/// of the response body. The reply announces exactly the bytes that the backend
/// produced, and the body behind the front is untouched.
pub proof fn a_read_is_one_call<B: FlashBackend>(
    header: FlashRequestHeader,
    rest: &[u8],
    backend: &mut B,
    body: &mut [u8],
    reply: FlashReply<B::Error>,
    len: int,
)
    requires
        header.op == Some(FlashOp::Read),
        header.payload_len <= rest@.len(),
        0 <= len <= header.length,
        len <= old(body)@.len(),
        len <= 0xffff,
        len == header.length || len == old(body)@.len() || len == 0xffff,
        call_ensures(
            dispatch_request::<B>,
            (backend, Some(header), rest, body),
            DispatchOutcome::Respond(reply),
        ),
    ensures
        final(body)@.len() == old(body)@.len(),
        final(body)@.skip(len) == old(body)@.skip(len),
        exists|read: FlashRead<B::Error>| #[trigger]
            B::read_post(
                *old(backend),
                *final(backend),
                header.address,
                old(body)@.subrange(0, len),
                read,
            ) && read.buf == final(body)@.subrange(0, len) && (read.result matches Ok(n) ==> n
                <= len && reply == (FlashReply::Success::<B::Error> {
                value: n as u32,
                payload_len: n as u16,
            })) && (read.result matches Err(e) ==> reply == FlashReply::Error(
                FlashFailure::Backend(e),
            )),
{
    assert(old(body)@.take(len) =~= old(body)@.subrange(0, len));
    let read = choose|read: FlashRead<B::Error>| #[trigger]
        B::read_post(*old(backend), *final(backend), header.address, old(body)@.take(len), read)
            && read.buf.len() == len && (read.result matches Ok(n) ==> n <= len) && final(body)@
            == bytes::splice(old(body)@, 0, read.buf) && reply == (match read.result {
            Ok(n) => FlashReply::Success { value: n as u32, payload_len: n as u16 },
            Err(e) => FlashReply::Error(FlashFailure::Backend(e)),
        });
    assert(final(body)@.subrange(0, len) =~= read.buf);
    assert(final(body)@.skip(len) =~= old(body)@.skip(len));
}

} // verus!
