//! Remote crypto client: request marshalling and reply parsing.
//!
//! The channel that carries the bytes belongs to the platform. This module
//! decides what goes out for an operation of the crypto seam, and what a reply
//! means. A key only ever leaves as a sealed handle, and a signature that does
//! not verify is a result.

use crate::bytes;
use crate::crypto::backend::{
    AesDir, AesKeyBits, AesMode, AesView, BackendError, EcPubView, EcSigView, ExpSel, Filled,
    KeyView, PublicKeyBackend, RsaKeyView, SymmetricBackend,
};
use crate::crypto::protocol;
use crate::crypto::protocol::CryptoError as WireError;
use crate::crypto::protocol::{
    CryptoRequestHeader, CryptoResponseHeader, Engine, PublicKeyOp, SymmetricOp, MAX_PAYLOAD_SIZE,
};
use crate::crypto::server::Command;
use crate::crypto::traits::{AesParams, Algo, CryptoError, EcPubP384, EcSig, KeyRef, RsaKey};
use vstd::prelude::*;

verus! {

/// Size of a request or reply buffer: a header, a full in-band payload, and
/// slack for operands of fixed size.
pub const MAX_BUF_SIZE: usize = 1288;

/// Failure of one exchange with the server.
#[derive(Debug, Clone, Copy, PartialEq, Eq, Structural)]
pub enum IpcError {
    /// The channel failed.
    Transport,
    /// The server answered with a status other than success.
    Server(WireError),
    /// The reply is malformed.
    InvalidResponse,
    /// A buffer of the caller is too small.
    BufferTooSmall,
}

impl IpcError {
    /// The error of the seam that a failure stands for. A failed verification
    /// is taken out before this; one that arrives here is a fault.
    pub open spec fn trait_error(self) -> CryptoError {
        match self {
            IpcError::Server(WireError::InvalidAlgo) => CryptoError::Unsupported,
            IpcError::Server(WireError::InvalidOperation) => CryptoError::Unsupported,
            IpcError::Server(WireError::InvalidKeyHandle) => CryptoError::InvalidKey,
            IpcError::Server(WireError::InputNotBlockAligned) => CryptoError::InputNotBlockAligned,
            IpcError::BufferTooSmall => CryptoError::OutputTooSmall,
            _ => CryptoError::EngineFault,
        }
    }
}

/// Collapse a failure into the error of the seam.
pub fn to_trait_error(e: IpcError) -> (r: CryptoError)
    ensures
        r == e.trait_error(),
{
    match e {
        IpcError::Server(WireError::InvalidAlgo) => CryptoError::Unsupported,
        IpcError::Server(WireError::InvalidOperation) => CryptoError::Unsupported,
        IpcError::Server(WireError::InvalidKeyHandle) => CryptoError::InvalidKey,
        IpcError::Server(WireError::InputNotBlockAligned) => CryptoError::InputNotBlockAligned,
        IpcError::BufferTooSmall => CryptoError::OutputTooSmall,
        IpcError::Server(WireError::Busy) | IpcError::Server(WireError::Timeout) | IpcError::Server(
            WireError::EngineFault,
        ) | IpcError::Server(WireError::VerifyFailed) | IpcError::Server(WireError::Success)
        | IpcError::Server(WireError::InternalError)
        | IpcError::Transport
        | IpcError::InvalidResponse => CryptoError::EngineFault,
    }
}

/// Client of the crypto server. It holds the handle of its channel.
pub struct CryptoClient {
    handle: u32,
}

impl View for CryptoClient {
    type V = u32;

    closed spec fn view(&self) -> u32 {
        self.handle
    }
}

impl CryptoClient {
    /// Wrap a channel handle.
    pub fn new(handle: u32) -> (client: Self)
        ensures
            client@ == handle,
    {
        CryptoClient { handle }
    }

    /// The channel handle.
    pub fn handle(&self) -> (handle: u32)
        ensures
            handle == self@,
    {
        self.handle
    }
}

/// Only a sealed handle may leave the process.
pub fn sealed_handle(key: KeyRef<'_>) -> (r: Result<u8, CryptoError>)
    ensures
        r == (match key@ {
            KeyView::Sealed(h) => Ok(h),
            KeyView::Raw(_) => Err(CryptoError::InvalidKey),
        }),
{
    match key {
        KeyRef::Sealed(h) => Ok(h),
        KeyRef::Raw(_) => Err(CryptoError::InvalidKey),
    }
}

/// Append `src` to `buf` at `off`, and return the number of bytes written.
fn encode(buf: &mut [u8], off: usize, src: &[u8]) -> (r: Result<usize, IpcError>)
    ensures
        final(buf)@.len() == old(buf)@.len(),
        if off + src@.len() <= old(buf).len() {
            &&& r == Ok::<usize, IpcError>(src@.len() as usize)
            &&& final(buf)@ == bytes::splice(old(buf)@, off as int, src@)
        } else {
            &&& r == Err::<usize, IpcError>(IpcError::BufferTooSmall)
            &&& final(buf)@ == old(buf)@
        },
{
    let end: usize = match off.checked_add(src.len()) {
        Some(end) => end,
        None => return Err(IpcError::BufferTooSmall),
    };
    if end > buf.len() {
        return Err(IpcError::BufferTooSmall);
    }
    bytes::copy_into(buf, off, src);
    Ok(src.len())
}

/// A request, or the reason why there is none.
pub enum Outgoing {
    /// These bytes go out.
    Request(Seq<u8>),
    /// The operation fails before anything is sent.
    Refused(CryptoError),
}

impl Outgoing {
    /// Whether `r` and the buffer `post` carry this request, written over a
    /// buffer that held `pre`. A request that does not fit is refused.
    pub open spec fn carried(
        self,
        r: Result<usize, CryptoError>,
        pre: Seq<u8>,
        post: Seq<u8>,
    ) -> bool {
        &&& post.len() == pre.len()
        &&& match self {
            Outgoing::Refused(e) => r == Err::<usize, CryptoError>(e) && post == pre,
            Outgoing::Request(wire) => if wire.len() <= pre.len() {
                &&& r == Ok::<usize, CryptoError>(wire.len() as usize)
                &&& post == wire + pre.skip(wire.len() as int)
            } else {
                r == Err::<usize, CryptoError>(CryptoError::OutputTooSmall)
            },
        }
    }

    /// The request of a digest.
    pub open spec fn digest(algo: Algo, input: Seq<u8>, room: nat) -> Outgoing {
        if input.len() > MAX_PAYLOAD_SIZE || room < algo.digest_len() {
            Outgoing::Refused(CryptoError::OutputTooSmall)
        } else {
            Outgoing::Request(
                (CryptoRequestHeader {
                    engine: Engine::Symmetric.code(),
                    op: SymmetricOp::HashOneShot.code(),
                    algo: algo.code(),
                    key_handle: 0,
                    arg0: 0,
                    payload_len: input.len() as u16,
                }).wire() + input,
            )
        }
    }

    /// The request of a MAC.
    pub open spec fn mac(algo: Algo, key: KeyView, input: Seq<u8>, room: nat) -> Outgoing {
        match key {
            KeyView::Raw(_) => Outgoing::Refused(CryptoError::InvalidKey),
            KeyView::Sealed(h) => if input.len() > MAX_PAYLOAD_SIZE || room < algo.digest_len() {
                Outgoing::Refused(CryptoError::OutputTooSmall)
            } else {
                Outgoing::Request(
                    (CryptoRequestHeader {
                        engine: Engine::Symmetric.code(),
                        op: SymmetricOp::Hmac.code(),
                        algo: algo.code(),
                        key_handle: h,
                        arg0: 0,
                        payload_len: input.len() as u16,
                    }).wire() + input,
                )
            },
        }
    }

    /// The packed AES selectors: bit 0 is the mode, bit 1 the direction, bit 2
    /// the key size.
    pub open spec fn aes_arg(params: AesView) -> u16 {
        (((if params.mode == AesMode::Ecb {
            0int
        } else {
            1
        }) + (if params.dir == AesDir::Encrypt {
            0int
        } else {
            2
        }) + (if params.key_bits == AesKeyBits::Bits128 {
            0int
        } else {
            4
        }))) as u16
    }

    /// The request of a cipher operation. The payload is the initialisation
    /// vector and then the data.
    pub open spec fn crypt(params: AesView, key: KeyView, input: Seq<u8>, room: nat) -> Outgoing {
        if input.len() % 16 != 0 {
            Outgoing::Refused(CryptoError::InputNotBlockAligned)
        } else {
            match key {
                KeyView::Raw(_) => Outgoing::Refused(CryptoError::InvalidKey),
                KeyView::Sealed(h) => if input.len() > MAX_PAYLOAD_SIZE || room < input.len() {
                    Outgoing::Refused(CryptoError::OutputTooSmall)
                } else {
                    Outgoing::Request(
                        (CryptoRequestHeader {
                            engine: Engine::Symmetric.code(),
                            op: SymmetricOp::AesCrypt.code(),
                            algo: 0,
                            key_handle: h,
                            arg0: Outgoing::aes_arg(params),
                            payload_len: (16 + input.len()) as u16,
                        }).wire() + params.iv + input,
                    )
                },
            }
        }
    }

    /// The request of an ECDSA verification.
    pub open spec fn ecdsa(pubkey: EcPubView, sig: EcSigView, digest: Seq<u8>) -> Outgoing {
        Outgoing::Request(
            (CryptoRequestHeader {
                engine: Engine::PublicKey.code(),
                op: PublicKeyOp::EcdsaP384Verify.code(),
                algo: 0,
                key_handle: 0,
                arg0: 0,
                payload_len: 240,
            }).wire() + pubkey.qx + pubkey.qy + sig.r + sig.s + digest,
        )
    }

    /// The payload of an RSA verification: the four sizes, then modulus,
    /// signature, exponent and expected block.
    pub open spec fn rsa_payload(key: RsaKeyView, sig: Seq<u8>, expected: Seq<u8>) -> Seq<u8> {
        bytes::le_bytes(key.modulus.len(), 2) + bytes::le_bytes(sig.len(), 2) + bytes::le_bytes(
            key.exponent.len(),
            2,
        ) + bytes::le_bytes(expected.len(), 2) + key.modulus + sig + key.exponent + expected
    }

    /// The request of an RSA verification.
    pub open spec fn rsa(key: RsaKeyView, sig: Seq<u8>, expected: Seq<u8>) -> Outgoing {
        let total = 8 + key.modulus.len() + sig.len() + key.exponent.len() + expected.len();
        if total > MAX_PAYLOAD_SIZE {
            Outgoing::Refused(CryptoError::OutputTooSmall)
        } else {
            Outgoing::Request(
                (CryptoRequestHeader {
                    engine: Engine::PublicKey.code(),
                    op: PublicKeyOp::RsaModexp.code(),
                    algo: 0,
                    key_handle: 0,
                    arg0: 0,
                    payload_len: total as u16,
                }).wire() + Outgoing::rsa_payload(key, sig, expected),
            )
        }
    }
}

impl Outgoing {
    /// Whether `r` and the buffer `post` carry the bytes `wire`, written over a
    /// buffer that held `pre`.
    spec fn placed(
        wire: Seq<u8>,
        r: Result<usize, IpcError>,
        pre: Seq<u8>,
        post: Seq<u8>,
    ) -> bool {
        &&& post.len() == pre.len()
        &&& if wire.len() <= pre.len() {
            &&& r == Ok::<usize, IpcError>(wire.len() as usize)
            &&& post == wire + pre.skip(wire.len() as int)
        } else {
            r == Err::<usize, IpcError>(IpcError::BufferTooSmall)
        }
    }
}

/// Append `src` behind what `at` says is written. An earlier failure is kept.
fn append(
    buf: &mut [u8],
    at: Result<usize, IpcError>,
    src: &[u8],
    Ghost(pre): Ghost<Seq<u8>>,
    Ghost(wire): Ghost<Seq<u8>>,
) -> (r: Result<usize, IpcError>)
    requires
        Outgoing::placed(wire, at, pre, old(buf)@),
    ensures
        Outgoing::placed(wire + src@, r, pre, final(buf)@),
{
    let n: usize = match at {
        Ok(n) => n,
        Err(e) => return Err(e),
    };
    // The size of the buffer is a machine word, so the sum below is one.
    let _room: usize = buf.len();
    match encode(buf, n, src) {
        Ok(k) => {
            assert(buf@ =~= wire + src@ + pre.skip((wire + src@).len() as int));
            Ok(n + k)
        },
        Err(e) => Err(e),
    }
}

/// Encode `header || prefix || payload`.
fn build_request(
    req: &mut [u8],
    hdr: CryptoRequestHeader,
    prefix: &[u8],
    payload: &[u8],
) -> (r: Result<usize, CryptoError>)
    ensures
        Outgoing::Request(hdr.wire() + prefix@ + payload@).carried(r, old(req)@, final(req)@),
{
    let ghost pre = req@;
    let head: [u8; 8] = hdr.to_bytes();
    assert(req@ =~= Seq::<u8>::empty() + pre.skip(0));
    let n = append(req, Ok(0), head.as_slice(), Ghost(pre), Ghost(Seq::empty()));
    let n = append(req, n, prefix, Ghost(pre), Ghost(hdr.wire()));
    let n = append(req, n, payload, Ghost(pre), Ghost(hdr.wire() + prefix@));
    match n {
        Ok(n) => Ok(n),
        Err(e) => Err(to_trait_error(e)),
    }
}

/// Encode the request of a digest whose result goes into `room` bytes.
pub fn digest_request(req: &mut [u8], algo: Algo, input: &[u8], room: usize) -> (r: Result<
    usize,
    CryptoError,
>)
    ensures
        Outgoing::digest(algo, input@, room as nat).carried(r, old(req)@, final(req)@),
{
    if input.len() > MAX_PAYLOAD_SIZE {
        return Err(CryptoError::OutputTooSmall);
    }
    if room < algo.digest_len() {
        return Err(CryptoError::OutputTooSmall);
    }
    let hdr = CryptoRequestHeader::new(
        Engine::Symmetric,
        SymmetricOp::HashOneShot.code(),
        algo.code(),
        0,
        0,
        input.len() as u16,
    );
    build_request(req, hdr, &[], input)
}

/// Encode the request of a MAC whose result goes into `room` bytes.
pub fn mac_request(
    req: &mut [u8],
    algo: Algo,
    key: KeyRef<'_>,
    input: &[u8],
    room: usize,
) -> (r: Result<usize, CryptoError>)
    ensures
        Outgoing::mac(algo, key@, input@, room as nat).carried(r, old(req)@, final(req)@),
{
    let key_handle: u8 = match sealed_handle(key) {
        Ok(h) => h,
        Err(e) => return Err(e),
    };
    if input.len() > MAX_PAYLOAD_SIZE {
        return Err(CryptoError::OutputTooSmall);
    }
    if room < algo.digest_len() {
        return Err(CryptoError::OutputTooSmall);
    }
    let hdr = CryptoRequestHeader::new(
        Engine::Symmetric,
        SymmetricOp::Hmac.code(),
        algo.code(),
        key_handle,
        0,
        input.len() as u16,
    );
    build_request(req, hdr, &[], input)
}

/// Encode the request of a cipher operation whose result goes into `room`
/// bytes.
pub fn crypt_request(
    req: &mut [u8],
    params: AesParams,
    key: KeyRef<'_>,
    input: &[u8],
    room: usize,
) -> (r: Result<usize, CryptoError>)
    ensures
        Outgoing::crypt(params@, key@, input@, room as nat).carried(r, old(req)@, final(req)@),
{
    if input.len() % 16 != 0 {
        return Err(CryptoError::InputNotBlockAligned);
    }
    let key_handle: u8 = match sealed_handle(key) {
        Ok(h) => h,
        Err(e) => return Err(e),
    };
    if input.len() > MAX_PAYLOAD_SIZE {
        return Err(CryptoError::OutputTooSmall);
    }
    if room < input.len() {
        return Err(CryptoError::OutputTooSmall);
    }
    let mode: u16 = match params.mode {
        AesMode::Ecb => 0,
        AesMode::Cbc => 1,
    };
    let dir: u16 = match params.dir {
        AesDir::Encrypt => 0,
        AesDir::Decrypt => 1,
    };
    let bits: u16 = match params.key_bits {
        AesKeyBits::Bits128 => 0,
        AesKeyBits::Bits256 => 1,
    };
    let arg0: u16 = mode | (dir << 1) | (bits << 2);
    assert(arg0 == mode + 2 * dir + 4 * bits) by (bit_vector)
        requires
            mode <= 1,
            dir <= 1,
            bits <= 1,
            arg0 == mode | (dir << 1) | (bits << 2),
    ;
    let hdr = CryptoRequestHeader::new(
        Engine::Symmetric,
        SymmetricOp::AesCrypt.code(),
        0,
        key_handle,
        arg0,
        (16 + input.len()) as u16,
    );
    build_request(req, hdr, params.iv.as_slice(), input)
}

/// Encode the request of an ECDSA verification.
pub fn ecdsa_request(req: &mut [u8], pubkey: EcPubP384, sig: EcSig, digest48: &[u8; 48]) -> (r:
    Result<usize, CryptoError>)
    ensures
        Outgoing::ecdsa(pubkey@, sig@, digest48@).carried(r, old(req)@, final(req)@),
{
    let mut prefix: [u8; 192] = [0u8; 192];
    bytes::copy_into(&mut prefix, 0, pubkey.qx.as_slice());
    bytes::copy_into(&mut prefix, 48, pubkey.qy.as_slice());
    bytes::copy_into(&mut prefix, 96, sig.r.as_slice());
    bytes::copy_into(&mut prefix, 144, sig.s.as_slice());
    let hdr = CryptoRequestHeader::new(
        Engine::PublicKey,
        PublicKeyOp::EcdsaP384Verify.code(),
        0,
        0,
        0,
        240,
    );
    assert(hdr.wire() + prefix@ + digest48@ =~= hdr.wire() + pubkey.qx@ + pubkey.qy@ + sig.r@
        + sig.s@ + digest48@);
    build_request(req, hdr, prefix.as_slice(), digest48.as_slice())
}

/// Encode the request of an RSA verification.
pub fn rsa_request(req: &mut [u8], key: RsaKey<'_>, sig: &[u8], expected: &[u8]) -> (r: Result<
    usize,
    CryptoError,
>)
    ensures
        Outgoing::rsa(key@, sig@, expected@).carried(r, old(req)@, final(req)@),
{
    let total: u128 = 8 + key.modulus.len() as u128 + sig.len() as u128
        + key.exponent.len() as u128 + expected.len() as u128;
    if total > MAX_PAYLOAD_SIZE as u128 {
        return Err(CryptoError::OutputTooSmall);
    }
    let mod_len: u16 = key.modulus.len() as u16;
    let sig_len: u16 = sig.len() as u16;
    let exp_len: u16 = key.exponent.len() as u16;
    let expd_len: u16 = expected.len() as u16;
    let lens: [u8; 8] = [
        (mod_len % 256) as u8,
        (mod_len / 256) as u8,
        (sig_len % 256) as u8,
        (sig_len / 256) as u8,
        (exp_len % 256) as u8,
        (exp_len / 256) as u8,
        (expd_len % 256) as u8,
        (expd_len / 256) as u8,
    ];
    let ghost pre = req@;
    proof {
        bytes::lemma_le_bytes_2(mod_len);
        bytes::lemma_le_bytes_2(sig_len);
        bytes::lemma_le_bytes_2(exp_len);
        bytes::lemma_le_bytes_2(expd_len);
        assert(req@ =~= Seq::<u8>::empty() + pre.skip(0));
    }
    let hdr = CryptoRequestHeader::new(
        Engine::PublicKey,
        PublicKeyOp::RsaModexp.code(),
        0,
        0,
        0,
        total as u16,
    );
    let head: [u8; 8] = hdr.to_bytes();
    let n = append(req, Ok(0), head.as_slice(), Ghost(pre), Ghost(Seq::empty()));
    let ghost w1 = Seq::<u8>::empty() + hdr.wire();
    let n = append(req, n, lens.as_slice(), Ghost(pre), Ghost(w1));
    let ghost w2 = w1 + lens@;
    let n = append(req, n, key.modulus, Ghost(pre), Ghost(w2));
    let ghost w3 = w2 + key.modulus@;
    let n = append(req, n, sig, Ghost(pre), Ghost(w3));
    let ghost w4 = w3 + sig@;
    let n = append(req, n, key.exponent, Ghost(pre), Ghost(w4));
    let ghost w5 = w4 + key.exponent@;
    let n = append(req, n, expected, Ghost(pre), Ghost(w5));
    assert(w5 + expected@ =~= hdr.wire() + Outgoing::rsa_payload(key@, sig@, expected@));
    match n {
        Ok(n) => Ok(n),
        Err(e) => Err(to_trait_error(e)),
    }
}

/// What a reply means.
pub struct Incoming;

impl Incoming {
    /// The status that a reply carries: `Ok` for success.
    pub open spec fn status(resp: Seq<u8>) -> Result<(), IpcError> {
        let hdr = CryptoResponseHeader::parse(resp);
        if resp.len() < CryptoResponseHeader::SIZE {
            Err(IpcError::InvalidResponse)
        } else if hdr.is_success() {
            Ok(())
        } else {
            Err(IpcError::Server(WireError::of_code(hdr.status)))
        }
    }

    /// The payload of a reply, for a caller with `room` bytes for it.
    pub open spec fn payload(resp: Seq<u8>, room: nat) -> Result<Seq<u8>, IpcError> {
        let len = CryptoResponseHeader::parse(resp).payload_len;
        match Incoming::status(resp) {
            Err(e) => Err(e),
            Ok(()) => if len > room || resp.len() < CryptoResponseHeader::SIZE + len {
                Err(IpcError::InvalidResponse)
            } else {
                Ok(resp.subrange(4, 4 + len))
            },
        }
    }

    /// The digest that a reply carries, for a caller with `room` bytes for it. A
    /// payload of another size is no digest, and no reply at all is a transport
    /// fault.
    pub open spec fn digest(algo: Algo, resp: Option<Seq<u8>>, room: nat) -> Result<
        Seq<u8>,
        CryptoError,
    > {
        match resp {
            None => Err(IpcError::Transport.trait_error()),
            Some(resp) => match Incoming::payload(resp, room) {
                Ok(p) => if p.len() == algo.digest_len() {
                    Ok(p)
                } else {
                    Err(CryptoError::EngineFault)
                },
                Err(e) => Err(e.trait_error()),
            },
        }
    }

    /// What a client with `room` bytes gets of the outcome of a hash call.
    pub open spec fn of_hash(algo: Algo, filled: Filled<BackendError>, room: nat) -> Result<
        Seq<u8>,
        CryptoError,
    > {
        match filled.result {
            Ok(k) => if k == algo.digest_len() && k <= room {
                Ok(filled.out.take(k as int))
            } else {
                Err(CryptoError::EngineFault)
            },
            Err(e) => Err(IpcError::Server(e.status()).trait_error()),
        }
    }

    /// What a client with `room` bytes gets of the outcome of a call that filled
    /// a buffer.
    pub open spec fn of_filled(filled: Filled<BackendError>, room: nat) -> Result<
        Seq<u8>,
        IpcError,
    > {
        match filled.result {
            Ok(k) => if k <= room {
                Ok(filled.out.take(k as int))
            } else {
                Err(IpcError::InvalidResponse)
            },
            Err(e) => Err(IpcError::Server(e.status())),
        }
    }

    /// What a client gets of the outcome of a signature check.
    pub open spec fn of_verdict(r: Result<bool, BackendError>) -> Result<bool, CryptoError> {
        match r {
            Ok(b) => Ok(b),
            Err(e) => Err(IpcError::Server(e.status()).trait_error()),
        }
    }

    /// What a client that asks for a verdict gets of the outcome of an
    /// exponentiation: every success is `Ok(true)`.
    pub open spec fn of_modexp(filled: Filled<BackendError>) -> Result<bool, CryptoError> {
        match filled.result {
            Ok(_) => Ok(true),
            Err(e) => Err(IpcError::Server(e.status()).trait_error()),
        }
    }

    /// The verdict of a verification. No reply at all is a transport fault.
    pub open spec fn verdict(resp: Option<Seq<u8>>) -> Result<bool, CryptoError> {
        match resp {
            None => Err(IpcError::Transport.trait_error()),
            Some(resp) => match Incoming::status(resp) {
                Ok(()) => Ok(true),
                Err(IpcError::Server(WireError::VerifyFailed)) => Ok(false),
                Err(e) => Err(e.trait_error()),
            },
        }
    }
}

/// Read the status of a reply that carries no payload.
pub fn parse_no_payload_response(resp: &[u8]) -> (r: Result<(), IpcError>)
    ensures
        r == Incoming::status(resp@),
{
    if resp.len() < CryptoResponseHeader::SIZE {
        return Err(IpcError::InvalidResponse);
    }
    let hdr = CryptoResponseHeader::from_bytes(resp);
    if hdr.is_success() {
        Ok(())
    } else {
        Err(IpcError::Server(hdr.error_code()))
    }
}

/// Copy the payload of a reply to the front of `out`, and return its size.
pub fn parse_payload_response(resp: &[u8], out: &mut [u8]) -> (r: Result<usize, IpcError>)
    ensures
        match Incoming::payload(resp@, old(out)@.len()) {
            Ok(p) => {
                &&& r == Ok::<usize, IpcError>(p.len() as usize)
                &&& final(out)@ == p + old(out)@.skip(p.len() as int)
            },
            Err(e) => {
                &&& r == Err::<usize, IpcError>(e)
                &&& final(out)@ == old(out)@
            },
        },
        final(out)@.len() == old(out)@.len(),
{
    if resp.len() < CryptoResponseHeader::SIZE {
        return Err(IpcError::InvalidResponse);
    }
    let hdr = CryptoResponseHeader::from_bytes(resp);
    if !hdr.is_success() {
        return Err(IpcError::Server(hdr.error_code()));
    }
    let len: usize = hdr.payload_length();
    if len > out.len() || resp.len() - CryptoResponseHeader::SIZE < len {
        return Err(IpcError::InvalidResponse);
    }
    let payload: &[u8] = vstd::slice::slice_subrange(
        resp,
        CryptoResponseHeader::SIZE,
        CryptoResponseHeader::SIZE + len,
    );
    bytes::copy_into(out, 0, payload);
    Ok(len)
}

/// The result of an operation with a payload, from the reply of the server or
/// from its absence.
pub fn payload_result(resp: Option<&[u8]>, out: &mut [u8]) -> (r: Result<usize, CryptoError>)
    ensures
        match resp {
            Some(resp) => match Incoming::payload(resp@, old(out)@.len()) {
                Ok(p) => {
                    &&& r == Ok::<usize, CryptoError>(p.len() as usize)
                    &&& final(out)@ == p + old(out)@.skip(p.len() as int)
                },
                Err(e) => {
                    &&& r == Err::<usize, CryptoError>(e.trait_error())
                    &&& final(out)@ == old(out)@
                },
            },
            None => {
                &&& r == Err::<usize, CryptoError>(IpcError::Transport.trait_error())
                &&& final(out)@ == old(out)@
            },
        },
        final(out)@.len() == old(out)@.len(),
{
    match resp {
        Some(resp) => match parse_payload_response(resp, out) {
            Ok(n) => Ok(n),
            Err(e) => Err(to_trait_error(e)),
        },
        None => Err(to_trait_error(IpcError::Transport)),
    }
}

/// The result of a digest, from the reply of the server or from its absence. A
/// reply that carries anything but a digest of the algorithm's size is a fault.
pub fn digest_result(algo: Algo, resp: Option<&[u8]>, out: &mut [u8]) -> (r: Result<
    usize,
    CryptoError,
>)
    ensures
        match Incoming::digest(
            algo,
            match resp {
                Some(resp) => Some(resp@),
                None => None,
            },
            old(out)@.len(),
        ) {
            Ok(d) => {
                &&& r == Ok::<usize, CryptoError>(algo.digest_len())
                &&& final(out)@ == d + old(out)@.skip(algo.digest_len() as int)
            },
            Err(e) => {
                &&& r == Err::<usize, CryptoError>(e)
                &&& final(out)@ == old(out)@
            },
        },
        r matches Ok(n) ==> n == algo.digest_len(),
        final(out)@.len() == old(out)@.len(),
{
    if let Some(reply) = resp {
        if let Ok(_) = parse_no_payload_response(reply) {
            let hdr = CryptoResponseHeader::from_bytes(reply);
            if hdr.payload_length() != algo.digest_len() {
                return Err(CryptoError::EngineFault);
            }
        }
    }
    payload_result(resp, out)
}

/// The verdict of a verification, from the reply of the server or from its
/// absence. A failed check is a result.
pub fn verdict_result(resp: Option<&[u8]>) -> (r: Result<bool, CryptoError>)
    ensures
        r == Incoming::verdict(
            match resp {
                Some(resp) => Some(resp@),
                None => None,
            },
        ),
{
    match resp {
        Some(resp) => match parse_no_payload_response(resp) {
            Ok(()) => Ok(true),
            Err(IpcError::Server(WireError::VerifyFailed)) => Ok(false),
            Err(e) => Err(to_trait_error(e)),
        },
        None => Err(to_trait_error(IpcError::Transport)),
    }
}

/// A server reads a digest request as the digest that the client was asked for.
pub proof fn digest_reaches_the_server(algo: Algo, input: Seq<u8>, room: nat)
    ensures
        Outgoing::digest(algo, input, room) matches Outgoing::Request(wire) ==> Command::decode(
            wire,
        ) == (Command::Hash { algo, input }),
{
    if let Outgoing::Request(wire) = Outgoing::digest(algo, input, room) {
        let hdr = CryptoRequestHeader {
            engine: Engine::Symmetric.code(),
            op: SymmetricOp::HashOneShot.code(),
            algo: algo.code(),
            key_handle: 0,
            arg0: 0,
            payload_len: input.len() as u16,
        };
        protocol::request_header_round_trip(hdr, input);
        assert(wire.subrange(8, 8 + hdr.payload_len) =~= input);
    }
}

/// A server reads a MAC request as the MAC that the client was asked for, under
/// the sealed handle that the client was given.
pub proof fn mac_reaches_the_server(algo: Algo, key: KeyView, input: Seq<u8>, room: nat)
    ensures
        Outgoing::mac(algo, key, input, room) matches Outgoing::Request(wire) ==> Command::decode(
            wire,
        ) == (Command::Hmac { algo, key, input }),
{
    if let Outgoing::Request(wire) = Outgoing::mac(algo, key, input, room) {
        if let KeyView::Sealed(h) = key {
            let hdr = CryptoRequestHeader {
                engine: Engine::Symmetric.code(),
                op: SymmetricOp::Hmac.code(),
                algo: algo.code(),
                key_handle: h,
                arg0: 0,
                payload_len: input.len() as u16,
            };
            protocol::request_header_round_trip(hdr, input);
            assert(wire.subrange(8, 8 + hdr.payload_len) =~= input);
        }
    }
}

/// A server reads an ECDSA request as the verification that the client was
/// asked for.
pub proof fn ecdsa_reaches_the_server(pubkey: EcPubView, sig: EcSigView, digest: Seq<u8>)
    requires
        pubkey.qx.len() == 48,
        pubkey.qy.len() == 48,
        sig.r.len() == 48,
        sig.s.len() == 48,
        digest.len() == 48,
    ensures
        Outgoing::ecdsa(pubkey, sig, digest) matches Outgoing::Request(wire) && Command::decode(
            wire,
        ) == (Command::Ecdsa { pubkey, sig, digest }),
{
    let hdr = CryptoRequestHeader {
        engine: Engine::PublicKey.code(),
        op: PublicKeyOp::EcdsaP384Verify.code(),
        algo: 0,
        key_handle: 0,
        arg0: 0,
        payload_len: 240,
    };
    let payload = pubkey.qx + pubkey.qy + sig.r + sig.s + digest;
    let wire = hdr.wire() + pubkey.qx + pubkey.qy + sig.r + sig.s + digest;
    protocol::request_header_round_trip(hdr, payload);
    assert(wire =~= hdr.wire() + payload);
    assert(wire.subrange(8, 248) =~= payload);
    assert(payload.subrange(0, 48) =~= pubkey.qx);
    assert(payload.subrange(48, 96) =~= pubkey.qy);
    assert(payload.subrange(96, 144) =~= sig.r);
    assert(payload.subrange(144, 192) =~= sig.s);
    assert(payload.subrange(192, 240) =~= digest);
}

/// A server reads a cipher request as the operation that the client was asked
/// for: mode, direction, key size, initialisation vector, sealed handle and the
/// whole of the data.
pub proof fn crypt_reaches_the_server(params: AesView, key: KeyView, input: Seq<u8>, room: nat)
    requires
        params.iv.len() == 16,
    ensures
        Outgoing::crypt(params, key, input, room) matches Outgoing::Request(wire)
            ==> Command::decode(wire) == (Command::Aes { params, key, data: input }),
{
    if let Outgoing::Request(wire) = Outgoing::crypt(params, key, input, room) {
        if let KeyView::Sealed(h) = key {
            let hdr = CryptoRequestHeader {
                engine: Engine::Symmetric.code(),
                op: SymmetricOp::AesCrypt.code(),
                algo: 0,
                key_handle: h,
                arg0: Outgoing::aes_arg(params),
                payload_len: (16 + input.len()) as u16,
            };
            protocol::request_header_round_trip(hdr, params.iv + input);
            assert(wire =~= hdr.wire() + (params.iv + input));
            let payload = wire.subrange(8, 8 + hdr.payload_len);
            assert(payload.take(16) =~= params.iv);
            assert(payload.skip(16) =~= input);
        }
    }
}

/// An RSA request names no modulus size, so a server reads it as a public
/// exponentiation with an empty key, over the whole payload.
pub proof fn rsa_reaches_the_server(key: RsaKeyView, sig: Seq<u8>, expected: Seq<u8>)
    ensures
        Outgoing::rsa(key, sig, expected) matches Outgoing::Request(wire) ==> Command::decode(wire)
            == (Command::Rsa {
            exp: ExpSel::Public,
            rsa_key: (RsaKeyView { modulus: Seq::empty(), exponent: Seq::empty() }),
            input: Outgoing::rsa_payload(key, sig, expected),
        }),
{
    if let Outgoing::Request(wire) = Outgoing::rsa(key, sig, expected) {
        let total = 8 + key.modulus.len() + sig.len() + key.exponent.len() + expected.len();
        let payload = Outgoing::rsa_payload(key, sig, expected);
        let hdr = CryptoRequestHeader {
            engine: Engine::PublicKey.code(),
            op: PublicKeyOp::RsaModexp.code(),
            algo: 0,
            key_handle: 0,
            arg0: 0,
            payload_len: total as u16,
        };
        bytes::lemma_le_round_trip(key.modulus.len(), 2);
        bytes::lemma_le_round_trip(sig.len(), 2);
        bytes::lemma_le_round_trip(key.exponent.len(), 2);
        bytes::lemma_le_round_trip(expected.len(), 2);
        protocol::request_header_round_trip(hdr, payload);
        assert(wire.subrange(8, 8 + hdr.payload_len) =~= payload);
        assert(payload.take(0) =~= Seq::<u8>::empty());
        assert(payload.skip(0) =~= payload);
    }
}

/// What a server produced is what its client gets: the bytes that the backend
/// filled, if the caller has room for them, and otherwise the failure under its
/// own name.
pub proof fn payload_reaches_the_client(
    filled: Filled<BackendError>,
    reply: Seq<u8>,
    n: usize,
    room: nat,
)
    requires
        Command::filled_reply(filled, reply, n),
        filled.result matches Ok(k) ==> k <= filled.out.len() && k <= u16::MAX,
    ensures
        Incoming::payload(reply.take(n as int), room) == Incoming::of_filled(filled, room),
{
    let hdr = match filled.result {
        Ok(k) => CryptoResponseHeader::success(k as u16),
        Err(e) => CryptoResponseHeader::error(e.status()),
    };
    protocol::response_header_round_trip(hdr, Seq::empty());
    let resp = reply.take(n as int);
    let rest = resp.skip(4);
    assert(resp =~= hdr.wire() + rest);
    protocol::response_header_round_trip(hdr, rest);
    if let Ok(k) = filled.result {
        assert(resp.subrange(4, 4 + k) =~= filled.out.take(k as int));
    }
}

/// The verdict of a server is the verdict of its client: a signature that did
/// not verify is `Ok(false)`, and a fault is never a verdict.
pub proof fn verdict_reaches_the_client(
    r: Result<bool, BackendError>,
    pre: Seq<u8>,
    reply: Seq<u8>,
    n: usize,
)
    requires
        Command::verdict_reply(r, pre, reply, n),
    ensures
        Incoming::verdict(Some(reply.take(n as int))) == Incoming::of_verdict(r),
{
    protocol::response_header_round_trip(
        CryptoResponseHeader::error(Command::verdict_status(r)),
        Seq::empty(),
    );
}

/// A remote digest is the digest of the server's engine: what the client gets is
/// what one call of the engine, on the same algorithm and input, produced, if it
/// has the size of a digest.
pub proof fn remote_digest_is_the_engines<Y: SymmetricBackend, P: PublicKeyBackend>(
    algo: Algo,
    input: Seq<u8>,
    room: nat,
    wire: Seq<u8>,
    sym_pre: Y,
    sym_post: Y,
    pk_pre: P,
    pk_post: P,
    pre: Seq<u8>,
    reply: Seq<u8>,
    n: usize,
)
    requires
        Outgoing::digest(algo, input, room) == Outgoing::Request(wire),
        Command::decode(wire).served((sym_pre, sym_post), (pk_pre, pk_post), pre, reply, n),
        reply.len() == pre.len(),
        CryptoResponseHeader::SIZE <= n <= pre.len(),
        pre.len() <= CryptoResponseHeader::SIZE + u16::MAX,
    ensures
        pk_post == pk_pre,
        exists|f: Filled<BackendError>| #[trigger]
            Y::hash_post(sym_pre, sym_post, algo, input, pre.skip(4), f) && Incoming::digest(
                algo,
                Some(reply.take(n as int)),
                room,
            ) == Incoming::of_hash(algo, f, room),
{
    digest_reaches_the_server(algo, input, room);
    let f = choose|f: Filled<BackendError>| #[trigger]
        Y::hash_post(sym_pre, sym_post, algo, input, pre.skip(4), f) && Command::filled_reply(
            f,
            reply,
            n,
        );
    lemma_filled_fits(f, reply, n);
    payload_reaches_the_client(f, reply, n, room);
}

/// A remote MAC is the MAC of the server's engine under the sealed key that the
/// client named.
pub proof fn remote_mac_is_the_engines<Y: SymmetricBackend, P: PublicKeyBackend>(
    algo: Algo,
    key: KeyView,
    input: Seq<u8>,
    room: nat,
    wire: Seq<u8>,
    sym_pre: Y,
    sym_post: Y,
    pk_pre: P,
    pk_post: P,
    pre: Seq<u8>,
    reply: Seq<u8>,
    n: usize,
)
    requires
        Outgoing::mac(algo, key, input, room) == Outgoing::Request(wire),
        Command::decode(wire).served((sym_pre, sym_post), (pk_pre, pk_post), pre, reply, n),
        reply.len() == pre.len(),
        CryptoResponseHeader::SIZE <= n <= pre.len(),
        pre.len() <= CryptoResponseHeader::SIZE + u16::MAX,
    ensures
        pk_post == pk_pre,
        exists|f: Filled<BackendError>| #[trigger]
            Y::hmac_post(sym_pre, sym_post, algo, key, input, pre.skip(4), f) && Incoming::payload(
                reply.take(n as int),
                room,
            ) == Incoming::of_filled(f, room),
{
    mac_reaches_the_server(algo, key, input, room);
    let f = choose|f: Filled<BackendError>| #[trigger]
        Y::hmac_post(sym_pre, sym_post, algo, key, input, pre.skip(4), f) && Command::filled_reply(
            f,
            reply,
            n,
        );
    lemma_filled_fits(f, reply, n);
    payload_reaches_the_client(f, reply, n, room);
}

/// A remote cipher operation is that of the server's engine, on the same
/// parameters, sealed key and data.
pub proof fn remote_cipher_is_the_engines<Y: SymmetricBackend, P: PublicKeyBackend>(
    params: AesView,
    key: KeyView,
    input: Seq<u8>,
    room: nat,
    wire: Seq<u8>,
    sym_pre: Y,
    sym_post: Y,
    pk_pre: P,
    pk_post: P,
    pre: Seq<u8>,
    reply: Seq<u8>,
    n: usize,
)
    requires
        params.iv.len() == 16,
        Outgoing::crypt(params, key, input, room) == Outgoing::Request(wire),
        Command::decode(wire).served((sym_pre, sym_post), (pk_pre, pk_post), pre, reply, n),
        reply.len() == pre.len(),
        CryptoResponseHeader::SIZE <= n <= pre.len(),
        pre.len() <= CryptoResponseHeader::SIZE + u16::MAX,
    ensures
        pk_post == pk_pre,
        exists|f: Filled<BackendError>| #[trigger]
            Y::aes_post(sym_pre, sym_post, params, key, input, pre.skip(4), f) && Incoming::payload(
                reply.take(n as int),
                room,
            ) == Incoming::of_filled(f, room),
{
    crypt_reaches_the_server(params, key, input, room);
    let f = choose|f: Filled<BackendError>| #[trigger]
        Y::aes_post(sym_pre, sym_post, params, key, input, pre.skip(4), f) && Command::filled_reply(
            f,
            reply,
            n,
        );
    lemma_filled_fits(f, reply, n);
    payload_reaches_the_client(f, reply, n, room);
}

/// A remote ECDSA verdict is the verdict of the server's engine on the same
/// operands: a signature that does not verify comes back as `Ok(false)`.
pub proof fn remote_verdict_is_the_engines<Y: SymmetricBackend, P: PublicKeyBackend>(
    pubkey: EcPubView,
    sig: EcSigView,
    digest: Seq<u8>,
    wire: Seq<u8>,
    sym_pre: Y,
    sym_post: Y,
    pk_pre: P,
    pk_post: P,
    pre: Seq<u8>,
    reply: Seq<u8>,
    n: usize,
)
    requires
        pubkey.qx.len() == 48,
        pubkey.qy.len() == 48,
        sig.r.len() == 48,
        sig.s.len() == 48,
        digest.len() == 48,
        Outgoing::ecdsa(pubkey, sig, digest) == Outgoing::Request(wire),
        Command::decode(wire).served((sym_pre, sym_post), (pk_pre, pk_post), pre, reply, n),
    ensures
        sym_post == sym_pre,
        exists|r: Result<bool, BackendError>| #[trigger]
            P::ecdsa_post(pk_pre, pk_post, pubkey, sig, digest, r) && Incoming::verdict(
                Some(reply.take(n as int)),
            ) == Incoming::of_verdict(r),
{
    ecdsa_reaches_the_server(pubkey, sig, digest);
    let r = choose|r: Result<bool, BackendError>| #[trigger]
        P::ecdsa_post(pk_pre, pk_post, pubkey, sig, digest, r) && Command::verdict_reply(
            r,
            pre,
            reply,
            n,
        );
    verdict_reaches_the_client(r, pre, reply, n);
}

/// A remote RSA answer is no verdict of the engine. The request names an empty
/// key, the server answers with the outcome of an exponentiation, and the client
/// takes every success for `Ok(true)`: it never gets `Ok(false)`, and a fault comes
/// back under its own name.
pub proof fn remote_rsa_reports_success_alone<Y: SymmetricBackend, P: PublicKeyBackend>(
    key: RsaKeyView,
    sig: Seq<u8>,
    expected: Seq<u8>,
    wire: Seq<u8>,
    sym_pre: Y,
    sym_post: Y,
    pk_pre: P,
    pk_post: P,
    pre: Seq<u8>,
    reply: Seq<u8>,
    n: usize,
)
    requires
        Outgoing::rsa(key, sig, expected) == Outgoing::Request(wire),
        Command::decode(wire).served((sym_pre, sym_post), (pk_pre, pk_post), pre, reply, n),
        n <= reply.len(),
    ensures
        sym_post == sym_pre,
        exists|f: Filled<BackendError>| #[trigger]
            P::rsa_post(
                pk_pre,
                pk_post,
                ExpSel::Public,
                (RsaKeyView { modulus: Seq::empty(), exponent: Seq::empty() }),
                Outgoing::rsa_payload(key, sig, expected),
                pre.skip(4),
                f,
            ) && Incoming::verdict(Some(reply.take(n as int))) == Incoming::of_modexp(f),
{
    rsa_reaches_the_server(key, sig, expected);
    let empty = RsaKeyView { modulus: Seq::empty(), exponent: Seq::empty() };
    let input = Outgoing::rsa_payload(key, sig, expected);
    assert(Command::served_rsa(pk_pre, pk_post, ExpSel::Public, empty, input, pre, reply, n));
    let f = choose|f: Filled<BackendError>| #[trigger]
        P::rsa_post(pk_pre, pk_post, ExpSel::Public, empty, input, pre.skip(4), f)
            && Command::filled_reply(f, reply, n);
    lemma_success_is_taken_for_true(f, reply, n);
}

/// A client that asks for a verdict takes the success of a call that filled a
/// buffer for `Ok(true)`.
proof fn lemma_success_is_taken_for_true(filled: Filled<BackendError>, reply: Seq<u8>, n: usize)
    requires
        Command::filled_reply(filled, reply, n),
        n <= reply.len(),
    ensures
        Incoming::verdict(Some(reply.take(n as int))) == Incoming::of_modexp(filled),
{
    let hdr = match filled.result {
        Ok(k) => CryptoResponseHeader::success(k as u16),
        Err(e) => CryptoResponseHeader::error(e.status()),
    };
    let resp = reply.take(n as int);
    protocol::response_header_round_trip(hdr, filled.out);
    assert(resp =~= hdr.wire() + resp.skip(4));
    protocol::response_header_round_trip(hdr, resp.skip(4));
}

/// A reply within its buffer announces bytes that the buffer holds.
proof fn lemma_filled_fits(filled: Filled<BackendError>, reply: Seq<u8>, n: usize)
    requires
        Command::filled_reply(filled, reply, n),
        n <= reply.len(),
    ensures
        filled.result matches Ok(k) ==> k <= filled.out.len(),
{
    let hdr = match filled.result {
        Ok(k) => CryptoResponseHeader::success(k as u16),
        Err(e) => CryptoResponseHeader::error(e.status()),
    };
    protocol::response_header_round_trip(hdr, filled.out);
}

/// No raw key leaves the process: a request under a raw key is refused, and a
/// refused request writes nothing.
pub proof fn raw_keys_stay_home(
    algo: Algo,
    params: AesView,
    k: Seq<u8>,
    input: Seq<u8>,
    room: nat,
)
    ensures
        Outgoing::mac(algo, KeyView::Raw(k), input, room) == Outgoing::Refused(
            CryptoError::InvalidKey,
        ),
        Outgoing::crypt(params, KeyView::Raw(k), input, room) is Refused,
{
}

/// Which requests go out, and why another one does not. Data has to fit into an
/// in-band payload and its result into the caller's buffer; a key has to be sealed;
/// cipher data has to be whole blocks.
pub proof fn requests_go_out_where_they_fit(
    algo: Algo,
    params: AesView,
    key: KeyView,
    input: Seq<u8>,
    room: nat,
)
    ensures
        ({
            let fits = input.len() <= 1024 && 8 * room >= (match algo {
                Algo::Sha256 => 256int,
                Algo::Sha384 => 384int,
                Algo::Sha512 => 512int,
            });
            let too_small = Outgoing::Refused(CryptoError::OutputTooSmall);
            &&& Outgoing::digest(algo, input, room) is Request <==> fits
            &&& !fits ==> Outgoing::digest(algo, input, room) == too_small
            &&& Outgoing::mac(algo, key, input, room) is Request <==> key is Sealed && fits
            &&& key is Sealed && !fits ==> Outgoing::mac(algo, key, input, room) == too_small
            &&& key is Raw ==> Outgoing::mac(algo, key, input, room) == Outgoing::Refused(
                CryptoError::InvalidKey,
            )
        }),
        ({
            let aligned = input.len() % 16 == 0;
            let fits = input.len() <= 1024 && input.len() <= room;
            let request = Outgoing::crypt(params, key, input, room);
            &&& request is Request <==> aligned && key is Sealed && fits
            &&& request == Outgoing::Refused(CryptoError::InputNotBlockAligned) <==> !aligned
            &&& request == Outgoing::Refused(CryptoError::InvalidKey) <==> aligned && key is Raw
            &&& request == Outgoing::Refused(CryptoError::OutputTooSmall) <==> aligned
                && key is Sealed && !fits
        }),
{
    protocol::digest_sizes(algo);
}

/// A verification goes out whatever its operands, but for an RSA verification whose
/// operands do not fit into an in-band payload.
pub proof fn verifications_go_out(
    pubkey: EcPubView,
    ec_sig: EcSigView,
    digest: Seq<u8>,
    key: RsaKeyView,
    sig: Seq<u8>,
    expected: Seq<u8>,
)
    ensures
        Outgoing::ecdsa(pubkey, ec_sig, digest) is Request,
        ({
            let operands = key.modulus + key.exponent + sig + expected;
            &&& Outgoing::rsa(key, sig, expected) is Request <==> operands.len() <= 1016
            &&& operands.len() > 1016 ==> Outgoing::rsa(key, sig, expected) == Outgoing::Refused(
                CryptoError::OutputTooSmall,
            )
        }),
{
}

/// The bytes of a digest and of a MAC request: the operation, the algorithm, the
/// sealed key if there is one, the size of the data and the data.
#[verifier::rlimit(40)]
pub proof fn hash_requests_on_the_wire(
    algo: Algo,
    key: KeyView,
    input: Seq<u8>,
    room: nat,
    wire: Seq<u8>,
)
    ensures
        ({
            let selector = match algo {
                Algo::Sha256 => 1u8,
                Algo::Sha384 => 2u8,
                Algo::Sha512 => 3u8,
            };
            let low = (input.len() % 256) as u8;
            let high = (input.len() / 256) as u8;
            &&& Outgoing::digest(algo, input, room) == Outgoing::Request(wire) ==> wire == seq![
                0u8,
                1u8,
                selector,
                0u8,
                0u8,
                0u8,
                low,
                high,
            ] + input
            &&& Outgoing::mac(algo, key, input, room) == Outgoing::Request(wire) ==> key is Sealed
                && wire == seq![0u8, 4u8, selector, key->Sealed_0, 0u8, 0u8, low, high] + input
        }),
{
    let handle = match key {
        KeyView::Sealed(h) => h,
        KeyView::Raw(_) => 0u8,
    };
    let digest = CryptoRequestHeader {
        engine: Engine::Symmetric.code(),
        op: SymmetricOp::HashOneShot.code(),
        algo: algo.code(),
        key_handle: 0,
        arg0: 0,
        payload_len: input.len() as u16,
    };
    let mac = CryptoRequestHeader {
        engine: Engine::Symmetric.code(),
        op: SymmetricOp::Hmac.code(),
        algo: algo.code(),
        key_handle: handle,
        arg0: 0,
        payload_len: input.len() as u16,
    };
    protocol::request_header_layout(digest, Seq::empty());
    protocol::request_header_layout(mac, Seq::empty());
}

/// The bytes of a cipher request: the operation, the sealed key, the three selector
/// bits, the size of the payload, the initialisation vector and the data.
#[verifier::rlimit(40)]
pub proof fn cipher_requests_on_the_wire(
    params: AesView,
    key: KeyView,
    input: Seq<u8>,
    room: nat,
    wire: Seq<u8>,
)
    requires
        Outgoing::crypt(params, key, input, room) == Outgoing::Request(wire),
    ensures
        ({
            let mode = if params.mode == AesMode::Cbc {
                1int
            } else {
                0
            };
            let dir = if params.dir == AesDir::Decrypt {
                2int
            } else {
                0
            };
            let size = if params.key_bits == AesKeyBits::Bits256 {
                4int
            } else {
                0
            };
            key is Sealed && wire == seq![
                0u8,
                5u8,
                0u8,
                key->Sealed_0,
                (mode + dir + size) as u8,
                0u8,
                ((16 + input.len()) % 256) as u8,
                ((16 + input.len()) / 256) as u8,
            ] + params.iv + input
        }),
{
    if let KeyView::Sealed(h) = key {
        let hdr = CryptoRequestHeader {
            engine: Engine::Symmetric.code(),
            op: SymmetricOp::AesCrypt.code(),
            algo: 0,
            key_handle: h,
            arg0: Outgoing::aes_arg(params),
            payload_len: (16 + input.len()) as u16,
        };
        protocol::request_header_layout(hdr, Seq::empty());
    }
}

/// The bytes of a verification request. For ECDSA the five operands follow the header
/// one after the other; for RSA the sizes of modulus, signature, exponent and expected
/// block come first, in two bytes each, and then these four in the same order.
#[verifier::rlimit(40)]
pub proof fn verifications_on_the_wire(
    pubkey: EcPubView,
    ec_sig: EcSigView,
    digest: Seq<u8>,
    key: RsaKeyView,
    sig: Seq<u8>,
    expected: Seq<u8>,
    wire: Seq<u8>,
)
    ensures
        Outgoing::ecdsa(pubkey, ec_sig, digest) == Outgoing::Request(wire) ==> wire == seq![
            1u8,
            1u8,
            0u8,
            0u8,
            0u8,
            0u8,
            240u8,
            0u8,
        ] + (pubkey.qx + pubkey.qy + ec_sig.r + ec_sig.s + digest),
        Outgoing::rsa(key, sig, expected) == Outgoing::Request(wire) ==> ({
            let operands = key.modulus + sig + key.exponent + expected;
            wire == seq![
                1u8,
                2u8,
                0u8,
                0u8,
                0u8,
                0u8,
                ((8 + operands.len()) % 256) as u8,
                ((8 + operands.len()) / 256) as u8,
                (key.modulus.len() % 256) as u8,
                (key.modulus.len() / 256) as u8,
                (sig.len() % 256) as u8,
                (sig.len() / 256) as u8,
                (key.exponent.len() % 256) as u8,
                (key.exponent.len() / 256) as u8,
                (expected.len() % 256) as u8,
                (expected.len() / 256) as u8,
            ] + operands
        }),
{
    let ecdsa = CryptoRequestHeader {
        engine: Engine::PublicKey.code(),
        op: PublicKeyOp::EcdsaP384Verify.code(),
        algo: 0,
        key_handle: 0,
        arg0: 0,
        payload_len: 240,
    };
    protocol::request_header_layout(ecdsa, Seq::empty());
    if Outgoing::rsa(key, sig, expected) == Outgoing::Request(wire) {
        let total = 8 + key.modulus.len() + sig.len() + key.exponent.len() + expected.len();
        let rsa = CryptoRequestHeader {
            engine: Engine::PublicKey.code(),
            op: PublicKeyOp::RsaModexp.code(),
            algo: 0,
            key_handle: 0,
            arg0: 0,
            payload_len: total as u16,
        };
        protocol::request_header_layout(rsa, Seq::empty());
        bytes::lemma_le_bytes_2(key.modulus.len() as u16);
        bytes::lemma_le_bytes_2(sig.len() as u16);
        bytes::lemma_le_bytes_2(key.exponent.len() as u16);
        bytes::lemma_le_bytes_2(expected.len() as u16);
    }
}

/// What a request leaves in the buffer: its bytes in front and the buffer as it was
/// behind them, reported with its size. A request that does not fit reports so, and a
/// refused one reports its reason and leaves the whole buffer alone.
pub proof fn requests_stand_in_front(
    wire: Seq<u8>,
    e: CryptoError,
    r: Result<usize, CryptoError>,
    pre: Seq<u8>,
    post: Seq<u8>,
)
    requires
        pre.len() <= usize::MAX,
    ensures
        Outgoing::Request(wire).carried(r, pre, post) && wire.len() <= pre.len() ==> r is Ok
            && r->Ok_0 == wire.len() && post.len() == pre.len() && (forall|i: int|
            0 <= i < pre.len() ==> #[trigger] post[i] == (if i < wire.len() {
                wire[i]
            } else {
                pre[i]
            })),
        Outgoing::Request(wire).carried(r, pre, post) && wire.len() > pre.len() ==> r == Err::<
            usize,
            CryptoError,
        >(CryptoError::OutputTooSmall) && post.len() == pre.len(),
        Outgoing::Refused(e).carried(r, pre, post) ==> r == Err::<usize, CryptoError>(e) && post
            == pre,
{
}

/// What a failure means at the seam: an unknown operation or algorithm is
/// unsupported, a bad handle is an invalid key, misaligned input and small buffers keep
/// their names, and everything else is an engine fault.
pub proof fn failures_have_one_meaning(e: IpcError)
    ensures
        e.trait_error() == CryptoError::Unsupported <==> e == IpcError::Server(
            WireError::InvalidAlgo,
        ) || e == IpcError::Server(WireError::InvalidOperation),
        e.trait_error() == CryptoError::InvalidKey <==> e == IpcError::Server(
            WireError::InvalidKeyHandle,
        ),
        e.trait_error() == CryptoError::InputNotBlockAligned <==> e == IpcError::Server(
            WireError::InputNotBlockAligned,
        ),
        e.trait_error() == CryptoError::OutputTooSmall <==> e == IpcError::BufferTooSmall,
        e.trait_error() == CryptoError::EngineFault <==> e == IpcError::Transport || e
            == IpcError::InvalidResponse || (e matches IpcError::Server(w) && (w == WireError::Busy
            || w == WireError::Timeout || w == WireError::EngineFault || w
            == WireError::VerifyFailed || w == WireError::Success || w
            == WireError::InternalError)),
{
}

/// How the bytes of a reply are read. Its first byte is the status, and zero is
/// success; the third and fourth byte announce the payload, which stands behind the
/// header. A reply that is shorter than it says, or whose payload is larger than the
/// caller's buffer, is malformed.
pub proof fn replies_are_read(resp: Seq<u8>, room: nat)
    ensures
        ({
            let status = Incoming::status(resp);
            let payload = Incoming::payload(resp, room);
            let malformed = IpcError::InvalidResponse;
            let len = resp[2] + 256 * resp[3];
            &&& resp.len() < 4 ==> status == Err::<(), IpcError>(malformed) && payload == Err::<
                Seq<u8>,
                IpcError,
            >(malformed)
            &&& resp.len() >= 4 && resp[0] != 0 ==> status == Err::<(), IpcError>(
                IpcError::Server(WireError::of_code(resp[0])),
            ) && payload == Err::<Seq<u8>, IpcError>(IpcError::Server(WireError::of_code(resp[0])))
            &&& resp.len() >= 4 && resp[0] == 0 ==> status is Ok
            &&& resp.len() >= 4 && resp[0] == 0 && (len > room || 4 + len > resp.len()) ==> payload
                == Err::<Seq<u8>, IpcError>(malformed)
            &&& resp.len() >= 4 && resp[0] == 0 && len <= room && 4 + len <= resp.len() ==> payload
                == Ok::<Seq<u8>, IpcError>(resp.subrange(4, 4 + len))
        }),
{
    let hdr = CryptoResponseHeader::parse(resp);
    protocol::response_header_layout(hdr, resp, 0, WireError::Success);
}

/// How the bytes of a reply tell whether a signature verified. A zero status says that
/// it did, the status of a failed verification that it did not; everything else, and no
/// reply at all, is an error.
pub proof fn verdicts_are_read(resp: Seq<u8>)
    ensures
        Incoming::verdict(None) == Err::<bool, CryptoError>(CryptoError::EngineFault),
        Incoming::verdict(Some(resp)) == Ok::<bool, CryptoError>(true) <==> resp.len() >= 4
            && resp[0] == 0,
        Incoming::verdict(Some(resp)) == Ok::<bool, CryptoError>(false) <==> resp.len() >= 4
            && resp[0] == 8,
        resp.len() < 4 ==> Incoming::verdict(Some(resp)) == Err::<bool, CryptoError>(
            CryptoError::EngineFault,
        ),
        resp.len() >= 4 && resp[0] != 0 && resp[0] != 8 ==> Incoming::verdict(Some(resp)) == Err::<
            bool,
            CryptoError,
        >(IpcError::Server(WireError::of_code(resp[0])).trait_error()),
{
    replies_are_read(resp, 0);
    if resp.len() >= 4 {
        protocol::statuses_have_frozen_codes(resp[0]);
    }
}

/// How the bytes of a reply are read as a digest: a success whose payload has exactly
/// the size of the digest, which stands behind the header. Another size is an engine
/// fault, and so is no reply.
pub proof fn digests_are_read(algo: Algo, resp: Seq<u8>, room: nat)
    ensures
        Incoming::digest(algo, None, room) == Err::<Seq<u8>, CryptoError>(CryptoError::EngineFault),
        ({
            let digest = Incoming::digest(algo, Some(resp), room);
            let len = resp[2] + 256 * resp[3];
            let size = match algo {
                Algo::Sha256 => 32int,
                Algo::Sha384 => 48int,
                Algo::Sha512 => 64int,
            };
            &&& resp.len() < 4 ==> digest == Err::<Seq<u8>, CryptoError>(CryptoError::EngineFault)
            &&& resp.len() >= 4 && resp[0] != 0 ==> digest == Err::<Seq<u8>, CryptoError>(
                IpcError::Server(WireError::of_code(resp[0])).trait_error(),
            )
            &&& resp.len() >= 4 && resp[0] == 0 && (len != size || room < size || resp.len() < 4
                + size) ==> digest == Err::<Seq<u8>, CryptoError>(CryptoError::EngineFault)
            &&& resp.len() >= 4 && resp[0] == 0 && len == size && room >= size && resp.len() >= 4
                + size ==> digest == Ok::<Seq<u8>, CryptoError>(resp.subrange(4, 4 + size))
        }),
{
    replies_are_read(resp, room);
    protocol::digest_sizes(algo);
}

/// A request that the server rejects comes back to the client as the status of the
/// rejection.
pub proof fn rejections_reach_the_client(
    e: WireError,
    pre: Seq<u8>,
    reply: Seq<u8>,
    n: usize,
    room: nat,
)
    requires
        e != WireError::Success,
        Command::error_reply(pre, reply, n, e),
    ensures
        Incoming::status(reply.take(n as int)) == Err::<(), IpcError>(IpcError::Server(e)),
        Incoming::payload(reply.take(n as int), room) == Err::<Seq<u8>, IpcError>(
            IpcError::Server(e),
        ),
{
    let hdr = CryptoResponseHeader::error(e);
    protocol::response_header_layout(hdr, reply, 0, e);
    protocol::response_header_round_trip(hdr, Seq::empty());
    protocol::codes_round_trip(
        Engine::Symmetric,
        SymmetricOp::Hmac,
        PublicKeyOp::RsaModexp,
        Algo::Sha256,
        e,
    );
    assert(reply.take(n as int) =~= hdr.wire());
    replies_are_read(reply.take(n as int), room);
}

/// A digest request that goes out stands in front of the buffer, and a server reads it
/// as the digest that was asked for; the rest of the buffer is kept. It goes out where
/// data, result and request fit, and otherwise some buffer is too small.
pub proof fn digest_requests_stand_in_front(
    req: &mut [u8],
    algo: Algo,
    input: &[u8],
    room: usize,
    r: Result<usize, CryptoError>,
)
    requires
        call_ensures(digest_request, (req, algo, input, room), r),
        old(req)@.len() <= usize::MAX,
    ensures
        final(req)@.len() == old(req)@.len(),
        r is Ok <==> input@.len() <= 1024 && room >= algo.digest_len() && 8 + input@.len()
            <= old(req)@.len(),
        r matches Ok(n) ==> n == 8 + input@.len() && Command::decode(final(req)@.take(n as int))
            == (Command::Hash { algo, input: input@ }) && final(req)@.skip(n as int) == old(
            req,
        )@.skip(n as int),
        r is Err ==> r == Err::<usize, CryptoError>(CryptoError::OutputTooSmall),
{
    digest_reaches_the_server(algo, input@, room as nat);
    if let Outgoing::Request(wire) = Outgoing::digest(algo, input@, room as nat) {
        hash_requests_on_the_wire(algo, KeyView::Raw(Seq::empty()), input@, room as nat, wire);
        if r is Ok {
            assert(final(req)@.take(wire.len() as int) =~= wire);
        }
    }
}

/// A MAC request that goes out stands in front of the buffer, and a server reads it as
/// the MAC that was asked for, under the sealed key. It goes out under a sealed key
/// where data, result and request fit.
#[verifier::rlimit(40)]
pub proof fn mac_requests_stand_in_front(
    req: &mut [u8],
    algo: Algo,
    key: KeyRef<'_>,
    input: &[u8],
    room: usize,
    r: Result<usize, CryptoError>,
)
    requires
        call_ensures(mac_request, (req, algo, key, input, room), r),
        old(req)@.len() <= usize::MAX,
    ensures
        final(req)@.len() == old(req)@.len(),
        r is Ok <==> key@ is Sealed && input@.len() <= 1024 && room >= algo.digest_len() && 8
            + input@.len() <= old(req)@.len(),
        r matches Ok(n) ==> n == 8 + input@.len() && Command::decode(final(req)@.take(n as int))
            == (Command::Hmac { algo, key: key@, input: input@ }) && final(req)@.skip(n as int)
            == old(req)@.skip(n as int),
        r == Err::<usize, CryptoError>(CryptoError::InvalidKey) <==> key@ is Raw,
        r is Err && key@ is Sealed ==> r == Err::<usize, CryptoError>(CryptoError::OutputTooSmall),
{
    mac_reaches_the_server(algo, key@, input@, room as nat);
    if let Outgoing::Request(wire) = Outgoing::mac(algo, key@, input@, room as nat) {
        hash_requests_on_the_wire(algo, key@, input@, room as nat, wire);
        if r is Ok {
            assert(final(req)@.take(wire.len() as int) =~= wire);
        }
    }
}

/// A cipher request that goes out stands in front of the buffer, and a server reads it
/// as the operation that was asked for. It goes out for whole blocks under a sealed key,
/// where data, result and request fit.
#[verifier::rlimit(40)]
pub proof fn cipher_requests_stand_in_front(
    req: &mut [u8],
    params: AesParams,
    key: KeyRef<'_>,
    input: &[u8],
    room: usize,
    r: Result<usize, CryptoError>,
)
    requires
        call_ensures(crypt_request, (req, params, key, input, room), r),
        old(req)@.len() <= usize::MAX,
    ensures
        final(req)@.len() == old(req)@.len(),
        r is Ok <==> input@.len() % 16 == 0 && key@ is Sealed && input@.len() <= 1024
            && input@.len() <= room && 24 + input@.len() <= old(req)@.len(),
        r matches Ok(n) ==> n == 24 + input@.len() && Command::decode(final(req)@.take(n as int))
            == (Command::Aes { params: params@, key: key@, data: input@ }) && final(req)@.skip(
            n as int,
        ) == old(req)@.skip(n as int),
        r == Err::<usize, CryptoError>(CryptoError::InputNotBlockAligned) <==> input@.len() % 16
            != 0,
        r == Err::<usize, CryptoError>(CryptoError::InvalidKey) <==> input@.len() % 16 == 0
            && key@ is Raw,
        r is Err && input@.len() % 16 == 0 && key@ is Sealed ==> r == Err::<usize, CryptoError>(
            CryptoError::OutputTooSmall,
        ),
{
    crypt_reaches_the_server(params@, key@, input@, room as nat);
    if let Outgoing::Request(wire) = Outgoing::crypt(params@, key@, input@, room as nat) {
        cipher_requests_on_the_wire(params@, key@, input@, room as nat, wire);
        if r is Ok {
            assert(final(req)@.take(wire.len() as int) =~= wire);
        }
    }
}

/// An ECDSA request stands in front of a buffer with room for it, and a server reads it
/// as the verification that was asked for.
#[verifier::rlimit(40)]
pub proof fn ecdsa_requests_stand_in_front(
    req: &mut [u8],
    pubkey: EcPubP384,
    sig: EcSig,
    digest48: &[u8; 48],
    r: Result<usize, CryptoError>,
)
    requires
        call_ensures(ecdsa_request, (req, pubkey, sig, digest48), r),
        old(req)@.len() <= usize::MAX,
    ensures
        final(req)@.len() == old(req)@.len(),
        r is Ok <==> old(req)@.len() >= 248,
        r matches Ok(n) ==> n == 248 && Command::decode(final(req)@.take(248)) == (Command::Ecdsa {
            pubkey: pubkey@,
            sig: sig@,
            digest: digest48@,
        }) && final(req)@.skip(248) == old(req)@.skip(248),
        r is Err ==> r == Err::<usize, CryptoError>(CryptoError::OutputTooSmall),
{
    ecdsa_reaches_the_server(pubkey@, sig@, digest48@);
    if let Outgoing::Request(wire) = Outgoing::ecdsa(pubkey@, sig@, digest48@) {
        let none = RsaKeyView { modulus: Seq::empty(), exponent: Seq::empty() };
        verifications_on_the_wire(
            pubkey@,
            sig@,
            digest48@,
            none,
            Seq::empty(),
            Seq::empty(),
            wire,
        );
        if r is Ok {
            assert(final(req)@.take(248) =~= wire);
        }
    }
}

/// An RSA request stands in front of a buffer with room for it: the sizes of modulus,
/// signature, exponent and expected block behind the header, and the four behind them.
#[verifier::rlimit(40)]
pub proof fn rsa_requests_stand_in_front(
    req: &mut [u8],
    key: RsaKey<'_>,
    sig: &[u8],
    expected: &[u8],
    r: Result<usize, CryptoError>,
)
    requires
        call_ensures(rsa_request, (req, key, sig, expected), r),
        old(req)@.len() <= usize::MAX,
    ensures
        ({
            let operands = key.modulus@ + sig@ + key.exponent@ + expected@;
            let n = 16 + operands.len();
            &&& final(req)@.len() == old(req)@.len()
            &&& r is Ok <==> operands.len() <= 1016 && n <= old(req)@.len()
            &&& r is Ok ==> r->Ok_0 == n && final(req)@.subrange(16, n as int) == operands
                && final(req)@.skip(n as int) == old(req)@.skip(n as int)
            &&& r is Ok ==> final(req)@[8] + 256 * final(req)@[9] == key.modulus@.len()
            &&& r is Ok ==> final(req)@[10] + 256 * final(req)@[11] == sig@.len()
            &&& r is Ok ==> final(req)@[12] + 256 * final(req)@[13] == key.exponent@.len()
            &&& r is Ok ==> final(req)@[14] + 256 * final(req)@[15] == expected@.len()
            &&& r is Err ==> r == Err::<usize, CryptoError>(CryptoError::OutputTooSmall)
        }),
{
    if let Outgoing::Request(wire) = Outgoing::rsa(key@, sig@, expected@) {
        let ec = EcPubView { qx: Seq::empty(), qy: Seq::empty() };
        let ec_sig = EcSigView { r: Seq::empty(), s: Seq::empty() };
        verifications_on_the_wire(ec, ec_sig, Seq::empty(), key@, sig@, expected@, wire);
        let operands = key.modulus@ + sig@ + key.exponent@ + expected@;
        if r is Ok {
            assert(final(req)@.subrange(16, (16 + operands.len()) as int) =~= operands);
        }
    }
}

/// A payload is copied to the front of the caller's buffer, and the rest of the buffer
/// is kept. It is there where the reply is a success that holds what it announces and
/// the buffer has room for it; otherwise the buffer is untouched.
pub proof fn payloads_are_copied_out(
    resp: &[u8],
    out: &mut [u8],
    r: Result<usize, CryptoError>,
)
    requires
        call_ensures(payload_result, (Some(resp), out), r),
    ensures
        ({
            let len = resp@[2] + 256 * resp@[3];
            let success = resp@.len() >= 4 && resp@[0] == 0;
            &&& r is Ok <==> success && len <= old(out)@.len() && 4 + len <= resp@.len()
            &&& r matches Ok(n) ==> n == len && final(out)@ == resp@.subrange(4, 4 + len) + old(
                out,
            )@.skip(len)
            &&& r is Err ==> final(out)@ == old(out)@
            &&& r is Err && (success || resp@.len() < 4) ==> r == Err::<usize, CryptoError>(
                CryptoError::EngineFault,
            )
            &&& resp@.len() >= 4 && resp@[0] != 0 ==> r == Err::<usize, CryptoError>(
                IpcError::Server(WireError::of_code(resp@[0])).trait_error(),
            )
        }),
{
    replies_are_read(resp@, old(out)@.len());
}

/// As the payload of a reply, without the meaning of a failure at the seam: a status
/// other than success is handed on, and everything else is a malformed reply.
pub proof fn parsed_payloads_are_copied_out(
    resp: &[u8],
    out: &mut [u8],
    r: Result<usize, IpcError>,
    status: Result<(), IpcError>,
)
    requires
        call_ensures(parse_payload_response, (resp, out), r),
        call_ensures(parse_no_payload_response, (resp,), status),
    ensures
        ({
            let len = resp@[2] + 256 * resp@[3];
            let success = resp@.len() >= 4 && resp@[0] == 0;
            &&& status is Ok <==> success
            &&& r is Ok <==> success && len <= old(out)@.len() && 4 + len <= resp@.len()
            &&& r matches Ok(n) ==> n == len && final(out)@ == resp@.subrange(4, 4 + len) + old(
                out,
            )@.skip(len)
            &&& r is Err ==> final(out)@ == old(out)@
            &&& r is Err && (success || resp@.len() < 4) ==> r == Err::<usize, IpcError>(
                IpcError::InvalidResponse,
            )
            &&& resp@.len() < 4 ==> status == Err::<(), IpcError>(IpcError::InvalidResponse)
            &&& resp@.len() >= 4 && resp@[0] != 0 ==> r == Err::<usize, IpcError>(
                IpcError::Server(WireError::of_code(resp@[0])),
            ) && status == Err::<(), IpcError>(IpcError::Server(WireError::of_code(resp@[0])))
        }),
{
    replies_are_read(resp@, old(out)@.len());
}

/// A digest is copied out where the reply carries exactly one, and a verdict is read
/// where it carries one; no reply is a fault of the engine, and changes nothing.
#[verifier::rlimit(40)]
pub proof fn digests_and_verdicts_are_taken(
    algo: Algo,
    resp: &[u8],
    out: &mut [u8],
    digest: Result<usize, CryptoError>,
    verdict: Result<bool, CryptoError>,
)
    requires
        call_ensures(digest_result, (algo, Some(resp), out), digest),
        call_ensures(verdict_result, (Some(resp),), verdict),
    ensures
        ({
            let len = resp@[2] + 256 * resp@[3];
            let success = resp@.len() >= 4 && resp@[0] == 0;
            &&& digest is Ok <==> success && len == algo.digest_len() && len <= old(out)@.len() && 4
                + len <= resp@.len()
            &&& digest matches Ok(n) ==> n == len && final(out)@ == resp@.subrange(4, 4 + len)
                + old(out)@.skip(len)
            &&& digest is Err ==> final(out)@ == old(out)@
            &&& verdict == Ok::<bool, CryptoError>(true) <==> success
            &&& verdict == Ok::<bool, CryptoError>(false) <==> resp@.len() >= 4 && resp@[0] == 8
        }),
{
    replies_are_read(resp@, old(out)@.len());
    verdicts_are_read(resp@);
}

/// Without a reply every result is a fault of the engine, and nothing changes.
pub proof fn no_reply_is_a_fault(
    algo: Algo,
    out: &mut [u8],
    payload: Result<usize, CryptoError>,
    digest: Result<usize, CryptoError>,
    verdict: Result<bool, CryptoError>,
)
    ensures
        call_ensures(payload_result, (None::<&[u8]>, out), payload) ==> payload == Err::<
            usize,
            CryptoError,
        >(CryptoError::EngineFault) && final(out)@ == old(out)@,
        call_ensures(digest_result, (algo, None::<&[u8]>, out), digest) ==> digest == Err::<
            usize,
            CryptoError,
        >(CryptoError::EngineFault) && final(out)@ == old(out)@,
        call_ensures(verdict_result, (None::<&[u8]>,), verdict) ==> verdict == Err::<
            bool,
            CryptoError,
        >(CryptoError::EngineFault),
{
}

/// Only a sealed key gives a handle, and a failure is collapsed as it is understood at
/// the seam.
pub proof fn handles_and_failures_are_passed_on(
    key: KeyRef<'_>,
    handle: u8,
    r: Result<u8, CryptoError>,
    e: IpcError,
    meaning: CryptoError,
)
    requires
        call_ensures(sealed_handle, (key,), r),
        call_ensures(to_trait_error, (e,), meaning),
    ensures
        r == Ok::<u8, CryptoError>(handle) <==> key@ == KeyView::Sealed(handle),
        r == Err::<u8, CryptoError>(CryptoError::InvalidKey) <==> key@ is Raw,
        meaning == e.trait_error(),
{
}

} // verus!
