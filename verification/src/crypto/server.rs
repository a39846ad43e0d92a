//! Crypto server: translates one request into one backend call and one reply.
//!
//! One server owns two capability classes and routes by the engine field of
//! the header. Every request runs to completion, so every request is answered.

use crate::bytes;
use crate::crypto::backend::{
    AesDir, AesKeyBits, AesMode, AesParams, AesView, BackendError, EcPubP384, EcPubView, EcSig,
    EcSigView, ExpSel, Filled, KeyRef, KeyView, PublicKeyBackend, RegionDescriptor, RsaKey,
    RsaKeyView, Segment, SymmetricBackend,
};
use crate::crypto::protocol;
use crate::crypto::protocol::{
    Algo, CryptoError, CryptoRequestHeader, CryptoResponseHeader, Engine, PublicKeyOp, SymmetricOp,
};
use vstd::prelude::*;

verus! {

/// Size of the request buffer of a server loop.
pub const MAX_REQUEST_SIZE: usize = 2048;

/// Size of the response buffer of a server loop.
pub const MAX_RESPONSE_SIZE: usize = 2048;

/// What a request asks for.
pub enum Command {
    /// The request is malformed and is answered with this status.
    Reject(CryptoError),
    Hash { algo: Algo, input: Seq<u8> },
    HashRegion { algo: Algo, region: RegionDescriptor },
    HashSg { algo: Algo, segments: Seq<Seq<u8>> },
    Hmac { algo: Algo, key: KeyView, input: Seq<u8> },
    Aes { params: AesView, key: KeyView, data: Seq<u8> },
    Ecdsa { pubkey: EcPubView, sig: EcSigView, digest: Seq<u8> },
    Rsa { exp: ExpSel, rsa_key: RsaKeyView, input: Seq<u8> },
}

impl Command {
    /// The AES selectors that `arg0` packs: bit 0 is the mode, bit 1 the
    /// direction, bit 2 the key size.
    pub open spec fn aes_params(arg0: u16, iv: Seq<u8>) -> AesView {
        AesView {
            mode: if arg0 % 2 == 0 {
                AesMode::Ecb
            } else {
                AesMode::Cbc
            },
            dir: if (arg0 / 2) % 2 == 0 {
                AesDir::Encrypt
            } else {
                AesDir::Decrypt
            },
            key_bits: if (arg0 / 4) % 2 == 0 {
                AesKeyBits::Bits128
            } else {
                AesKeyBits::Bits256
            },
            iv,
        }
    }

    /// What the payload of an AES request asks for: sixteen bytes of
    /// initialisation vector, then whole blocks of data.
    pub open spec fn decode_aes(hdr: CryptoRequestHeader, payload: Seq<u8>) -> Command {
        if payload.len() < 16 {
            Command::Reject(CryptoError::InvalidOperation)
        } else if (payload.len() - 16) % 16 != 0 {
            Command::Reject(CryptoError::InputNotBlockAligned)
        } else {
            Command::Aes {
                params: Command::aes_params(hdr.arg0, payload.take(16)),
                key: KeyView::Sealed(hdr.key_handle),
                data: payload.skip(16),
            }
        }
    }

    /// The region that a payload describes: a 64-bit base, then a 32-bit
    /// length.
    pub open spec fn decode_region(payload: Seq<u8>) -> RegionDescriptor {
        RegionDescriptor {
            base: bytes::le_value(payload.subrange(0, 8)) as u64,
            len: bytes::le_value(payload.subrange(8, 12)) as u32,
        }
    }

    /// What a request of the symmetric class asks for.
    pub open spec fn decode_symmetric(hdr: CryptoRequestHeader, payload: Seq<u8>) -> Command {
        match SymmetricOp::of_code(hdr.op) {
            Err(e) => Command::Reject(e),
            Ok(SymmetricOp::AesCrypt) => Command::decode_aes(hdr, payload),
            Ok(op) => match Algo::of_code(hdr.algo) {
                Err(e) => Command::Reject(e),
                Ok(algo) => match op {
                    SymmetricOp::HashOneShot => Command::Hash { algo, input: payload },
                    SymmetricOp::HashRegion => if payload.len() < 12 {
                        Command::Reject(CryptoError::InvalidOperation)
                    } else {
                        Command::HashRegion { algo, region: Command::decode_region(payload) }
                    },
                    SymmetricOp::HashSg => Command::HashSg { algo, segments: seq![payload] },
                    _ => Command::Hmac {
                        algo,
                        key: KeyView::Sealed(hdr.key_handle),
                        input: payload,
                    },
                },
            },
        }
    }

    /// What a request of the public-key class asks for.
    pub open spec fn decode_public_key(hdr: CryptoRequestHeader, payload: Seq<u8>) -> Command {
        match PublicKeyOp::of_code(hdr.op) {
            Err(e) => Command::Reject(e),
            Ok(PublicKeyOp::EcdsaP384Verify) => if payload.len() < 240 {
                Command::Reject(CryptoError::InvalidOperation)
            } else {
                Command::Ecdsa {
                    pubkey: EcPubView {
                        qx: payload.subrange(0, 48),
                        qy: payload.subrange(48, 96),
                    },
                    sig: EcSigView {
                        r: payload.subrange(96, 144),
                        s: payload.subrange(144, 192),
                    },
                    digest: payload.subrange(192, 240),
                }
            },
            Ok(PublicKeyOp::RsaModexp) => if payload.len() < 2 * hdr.arg0 {
                Command::Reject(CryptoError::InvalidOperation)
            } else {
                Command::Rsa {
                    exp: if hdr.key_handle == 0 {
                        ExpSel::Public
                    } else {
                        ExpSel::Private
                    },
                    rsa_key: RsaKeyView {
                        modulus: payload.take(hdr.arg0 as int),
                        exponent: payload.subrange(hdr.arg0 as int, 2 * hdr.arg0),
                    },
                    input: payload.skip(2 * hdr.arg0),
                }
            },
        }
    }

    /// What the bytes of a request ask for. Bytes behind the announced payload
    /// are ignored.
    pub open spec fn decode(request: Seq<u8>) -> Command {
        let hdr = CryptoRequestHeader::parse(request);
        if request.len() < CryptoRequestHeader::SIZE {
            Command::Reject(CryptoError::InvalidOperation)
        } else {
            match Engine::of_code(hdr.engine) {
                Err(e) => Command::Reject(e),
                Ok(engine) => if request.len() < CryptoRequestHeader::SIZE + hdr.payload_len {
                    Command::Reject(CryptoError::InvalidOperation)
                } else {
                    let payload = request.subrange(8, 8 + hdr.payload_len);
                    match engine {
                        Engine::Symmetric => Command::decode_symmetric(hdr, payload),
                        Engine::PublicKey => Command::decode_public_key(hdr, payload),
                    }
                },
            }
        }
    }

    /// Whether `post` is the buffer `pre` with an error header in front, and
    /// `n` the size of that reply.
    pub open spec fn error_reply(pre: Seq<u8>, post: Seq<u8>, n: usize, e: CryptoError) -> bool {
        &&& n == CryptoResponseHeader::SIZE
        &&& post == CryptoResponseHeader::error(e).wire() + pre.skip(4)
    }

    /// Whether `post` and `n` report the outcome of a call that filled the
    /// payload part of the response.
    pub open spec fn filled_reply(filled: Filled<BackendError>, post: Seq<u8>, n: usize) -> bool {
        match filled.result {
            Ok(k) => {
                &&& n == CryptoResponseHeader::SIZE + k
                &&& post == CryptoResponseHeader::success(k as u16).wire() + filled.out
            },
            Err(e) => {
                &&& n == CryptoResponseHeader::SIZE
                &&& post == CryptoResponseHeader::error(e.status()).wire() + filled.out
            },
        }
    }

    /// The status that reports the outcome of a signature check.
    pub open spec fn verdict_status(r: Result<bool, BackendError>) -> CryptoError {
        match r {
            Ok(true) => CryptoError::Success,
            Ok(false) => CryptoError::VerifyFailed,
            Err(e) => e.status(),
        }
    }

    /// Whether `post` is the buffer `pre` with the header in front that reports
    /// the outcome of a signature check.
    pub open spec fn verdict_reply(
        r: Result<bool, BackendError>,
        pre: Seq<u8>,
        post: Seq<u8>,
        n: usize,
    ) -> bool {
        &&& n == CryptoResponseHeader::SIZE
        &&& post == CryptoResponseHeader::error(Command::verdict_status(r)).wire() + pre.skip(4)
    }

    /// Whether one call of `hash` accounts for the reply.
    pub open spec fn served_hash<Y: SymmetricBackend>(
        first: Y,
        second: Y,
        algo: Algo,
        input: Seq<u8>,
        pre: Seq<u8>,
        post: Seq<u8>,
        n: usize,
    ) -> bool {
        exists|f: Filled<BackendError>| #[trigger]
            Y::hash_post(first, second, algo, input, pre.skip(4), f) && Command::filled_reply(
                f,
                post,
                n,
            )
    }

    /// Whether one call of `hash_region` accounts for the reply.
    pub open spec fn served_region<Y: SymmetricBackend>(
        first: Y,
        second: Y,
        algo: Algo,
        region: RegionDescriptor,
        pre: Seq<u8>,
        post: Seq<u8>,
        n: usize,
    ) -> bool {
        exists|f: Filled<BackendError>| #[trigger]
            Y::hash_region_post(first, second, algo, region, pre.skip(4), f) && Command::filled_reply(
                f,
                post,
                n,
            )
    }

    /// Whether one call of `hash_sg` accounts for the reply.
    pub open spec fn served_sg<Y: SymmetricBackend>(
        first: Y,
        second: Y,
        algo: Algo,
        segments: Seq<Seq<u8>>,
        pre: Seq<u8>,
        post: Seq<u8>,
        n: usize,
    ) -> bool {
        exists|f: Filled<BackendError>| #[trigger]
            Y::hash_sg_post(first, second, algo, segments, pre.skip(4), f) && Command::filled_reply(
                f,
                post,
                n,
            )
    }

    /// Whether one call of `hmac` accounts for the reply.
    pub open spec fn served_hmac<Y: SymmetricBackend>(
        first: Y,
        second: Y,
        algo: Algo,
        key: KeyView,
        input: Seq<u8>,
        pre: Seq<u8>,
        post: Seq<u8>,
        n: usize,
    ) -> bool {
        exists|f: Filled<BackendError>| #[trigger]
            Y::hmac_post(first, second, algo, key, input, pre.skip(4), f) && Command::filled_reply(
                f,
                post,
                n,
            )
    }

    /// Whether one call of `aes` accounts for the reply.
    pub open spec fn served_aes<Y: SymmetricBackend>(
        first: Y,
        second: Y,
        params: AesView,
        key: KeyView,
        data: Seq<u8>,
        pre: Seq<u8>,
        post: Seq<u8>,
        n: usize,
    ) -> bool {
        exists|f: Filled<BackendError>| #[trigger]
            Y::aes_post(first, second, params, key, data, pre.skip(4), f) && Command::filled_reply(
                f,
                post,
                n,
            )
    }

    /// Whether one call of `rsa_modexp` accounts for the reply.
    pub open spec fn served_rsa<P: PublicKeyBackend>(
        first: P,
        second: P,
        exp: ExpSel,
        rsa_key: RsaKeyView,
        input: Seq<u8>,
        pre: Seq<u8>,
        post: Seq<u8>,
        n: usize,
    ) -> bool {
        exists|f: Filled<BackendError>| #[trigger]
            P::rsa_post(first, second, exp, rsa_key, input, pre.skip(4), f) && Command::filled_reply(
                f,
                post,
                n,
            )
    }

    /// Whether one call of `ecdsa_p384_verify` accounts for the reply.
    pub open spec fn served_ecdsa<P: PublicKeyBackend>(
        first: P,
        second: P,
        pubkey: EcPubView,
        sig: EcSigView,
        digest: Seq<u8>,
        pre: Seq<u8>,
        post: Seq<u8>,
        n: usize,
    ) -> bool {
        exists|r: Result<bool, BackendError>| #[trigger]
            P::ecdsa_post(first, second, pubkey, sig, digest, r) && Command::verdict_reply(
                r,
                pre,
                post,
                n,
            )
    }

    /// Whether serving this command of the symmetric class may take the backend
    /// from its first to its second state and answer with the first `n` bytes
    /// of `post`, written over a buffer that held `pre`. The backend is called
    /// at most once.
    pub open spec fn served_symmetric<Y: SymmetricBackend>(
        self,
        sym: (Y, Y),
        pre: Seq<u8>,
        post: Seq<u8>,
        n: usize,
    ) -> bool {
        match self {
            Command::Reject(e) => {
                &&& sym.1 == sym.0
                &&& Command::error_reply(pre, post, n, e)
            },
            Command::Hash { algo, input } => Command::served_hash(
                sym.0,
                sym.1,
                algo,
                input,
                pre,
                post,
                n,
            ),
            Command::HashRegion { algo, region } => Command::served_region(
                sym.0,
                sym.1,
                algo,
                region,
                pre,
                post,
                n,
            ),
            Command::HashSg { algo, segments } => Command::served_sg(
                sym.0,
                sym.1,
                algo,
                segments,
                pre,
                post,
                n,
            ),
            Command::Hmac { algo, key, input } => Command::served_hmac(
                sym.0,
                sym.1,
                algo,
                key,
                input,
                pre,
                post,
                n,
            ),
            Command::Aes { params, key, data } => Command::served_aes(
                sym.0,
                sym.1,
                params,
                key,
                data,
                pre,
                post,
                n,
            ),
            _ => false,
        }
    }

    /// As [`Command::served_symmetric`], for a command of the public-key class.
    pub open spec fn served_public_key<P: PublicKeyBackend>(
        self,
        pk: (P, P),
        pre: Seq<u8>,
        post: Seq<u8>,
        n: usize,
    ) -> bool {
        match self {
            Command::Reject(e) => {
                &&& pk.1 == pk.0
                &&& Command::error_reply(pre, post, n, e)
            },
            Command::Ecdsa { pubkey, sig, digest } => Command::served_ecdsa(
                pk.0,
                pk.1,
                pubkey,
                sig,
                digest,
                pre,
                post,
                n,
            ),
            Command::Rsa { exp, rsa_key, input } => Command::served_rsa(
                pk.0,
                pk.1,
                exp,
                rsa_key,
                input,
                pre,
                post,
                n,
            ),
            _ => false,
        }
    }

    /// Whether serving this command may take the two backends from their first
    /// to their second state, and answer with the first `n` bytes of `post`,
    /// written over a buffer that held `pre`. A class that the command does not
    /// name is left as it was.
    pub open spec fn served<Y: SymmetricBackend, P: PublicKeyBackend>(
        self,
        sym: (Y, Y),
        pk: (P, P),
        pre: Seq<u8>,
        post: Seq<u8>,
        n: usize,
    ) -> bool {
        match self {
            Command::Ecdsa { .. } | Command::Rsa { .. } => {
                &&& sym.1 == sym.0
                &&& self.served_public_key(pk, pre, post, n)
            },
            _ => {
                &&& pk.1 == pk.0
                &&& self.served_symmetric(sym, pre, post, n)
            },
        }
    }
}

/// Write a response header over the first bytes of `response`.
fn stamp(response: &mut [u8], hdr: CryptoResponseHeader)
    requires
        old(response)@.len() >= CryptoResponseHeader::SIZE,
    ensures
        final(response)@ == hdr.wire() + old(response)@.skip(4),
        final(response)@.len() == old(response)@.len(),
{
    let b: [u8; 4] = hdr.to_bytes();
    bytes::copy_into(response, 0, b.as_slice());
}

/// Put a success header in front of `payload_len` bytes that already stand
/// behind it.
fn finish_success(response: &mut [u8], payload_len: usize) -> (n: usize)
    requires
        CryptoResponseHeader::SIZE + payload_len <= old(response).len(),
    ensures
        final(response)@ == CryptoResponseHeader::success(payload_len as u16).wire() + old(
            response,
        )@.skip(4),
        final(response)@.len() == old(response)@.len(),
        n == CryptoResponseHeader::SIZE + payload_len,
{
    stamp(response, CryptoResponseHeader::success(#[verifier::truncate] (payload_len as u16)));
    CryptoResponseHeader::SIZE + payload_len
}

/// Encode a reply that is an error header alone.
pub fn encode_error(response: &mut [u8], error: CryptoError) -> (n: usize)
    requires
        old(response)@.len() >= CryptoResponseHeader::SIZE,
    ensures
        Command::error_reply(old(response)@, final(response)@, n, error),
        final(response)@.len() == old(response)@.len(),
{
    stamp(response, CryptoResponseHeader::error(error));
    CryptoResponseHeader::SIZE
}

/// Encode a success reply by copying `payload` behind the header.
pub fn encode_success(response: &mut [u8], payload: &[u8]) -> (n: usize)
    requires
        CryptoResponseHeader::SIZE + payload@.len() <= old(response).len(),
    ensures
        final(response)@ == CryptoResponseHeader::success(payload@.len() as u16).wire() + payload@
            + old(response)@.skip((4 + payload@.len()) as int),
        final(response)@.len() == old(response)@.len(),
        n == CryptoResponseHeader::SIZE + payload@.len(),
{
    let len: usize = payload.len();
    bytes::copy_into(response, 4, payload);
    finish_success(response, len)
}

/// Report the outcome of a call that filled the payload part of `response`.
fn finish_filled(response: &mut [u8], r: Result<usize, BackendError>) -> (n: usize)
    requires
        old(response)@.len() >= CryptoResponseHeader::SIZE,
        r matches Ok(k) ==> CryptoResponseHeader::SIZE + k <= old(response).len(),
    ensures
        Command::filled_reply(
            (Filled { out: old(response)@.skip(4), result: r }),
            final(response)@,
            n,
        ),
        final(response)@.len() == old(response)@.len(),
        n <= old(response)@.len(),
{
    match r {
        Ok(k) => finish_success(response, k),
        Err(e) => encode_error(response, CryptoError::from(e)),
    }
}

/// Decode a region descriptor.
fn decode_region(payload: &[u8]) -> (r: Result<RegionDescriptor, CryptoError>)
    ensures
        r == (if payload@.len() < 12 {
            Err(CryptoError::InvalidOperation)
        } else {
            Ok(Command::decode_region(payload@))
        }),
{
    if payload.len() < 12 {
        return Err(CryptoError::InvalidOperation);
    }
    let base: u64 = bytes::read_le64(payload, 0);
    let len: u32 = bytes::read_le32(payload, 8);
    Ok(RegionDescriptor { base, len })
}

/// Decode the AES selectors of a header, and split the initialisation vector
/// from the data. Data that is not a whole number of blocks is rejected before
/// any engine sees it.
fn decode_aes_params<'a>(hdr: &CryptoRequestHeader, payload: &'a [u8]) -> (r: Result<
    (AesParams, &'a [u8]),
    CryptoError,
>)
    ensures
        match r {
            Ok((params, data)) => Command::decode_aes(*hdr, payload@) == (Command::Aes {
                params: params@,
                key: KeyView::Sealed(hdr.key_handle),
                data: data@,
            }),
            Err(e) => Command::decode_aes(*hdr, payload@) == Command::Reject(e),
        },
{
    if payload.len() < 16 {
        return Err(CryptoError::InvalidOperation);
    }
    let arg0: u16 = hdr.arg0_value();
    proof {
        assert(arg0 & 0x1 == arg0 % 2) by (bit_vector);
        assert((arg0 >> 1) & 0x1 == (arg0 / 2) % 2) by (bit_vector);
        assert((arg0 >> 2) & 0x1 == (arg0 / 4) % 2) by (bit_vector);
    }
    let mode = if arg0 & 0x1 == 0 {
        AesMode::Ecb
    } else {
        AesMode::Cbc
    };
    let dir = if (arg0 >> 1) & 0x1 == 0 {
        AesDir::Encrypt
    } else {
        AesDir::Decrypt
    };
    let key_bits = if (arg0 >> 2) & 0x1 == 0 {
        AesKeyBits::Bits128
    } else {
        AesKeyBits::Bits256
    };
    let iv: [u8; 16] = bytes::array16(payload, 0);
    let data: &[u8] = vstd::slice::slice_subrange(payload, 16, payload.len());
    if data.len() % 16 != 0 {
        return Err(CryptoError::InputNotBlockAligned);
    }
    Ok((AesParams { mode, dir, key_bits, iv }, data))
}

/// The part of a response behind its header.
fn payload_part(response: &mut [u8]) -> (out: &mut [u8])
    requires
        old(response)@.len() >= CryptoResponseHeader::SIZE,
    ensures
        out@ == old(response)@.skip(4),
        final(out)@.len() == out@.len() ==> final(response)@.len() == old(response)@.len()
            && final(response)@.skip(4) == final(out)@,
{
    let (_head, out) = response.split_at_mut(CryptoResponseHeader::SIZE);
    out
}

/// Serve a request of the symmetric class. The output of the backend lands
/// directly in the payload part of the response.
fn dispatch_symmetric<Y: SymmetricBackend>(
    sym: &mut Y,
    hdr: &CryptoRequestHeader,
    payload: &[u8],
    response: &mut [u8],
) -> (n: usize)
    requires
        old(response)@.len() >= CryptoResponseHeader::SIZE,
    ensures
        Command::decode_symmetric(*hdr, payload@).served_symmetric(
            (*old(sym), *final(sym)),
            old(response)@,
            final(response)@,
            n,
        ),
        final(response)@.len() == old(response)@.len(),
        n <= old(response)@.len(),
{
    let op = match SymmetricOp::try_from(hdr.op) {
        Ok(op) => op,
        Err(e) => return encode_error(response, e),
    };
    if op == SymmetricOp::AesCrypt {
        let (params, data) = match decode_aes_params(hdr, payload) {
            Ok(p) => p,
            Err(e) => return encode_error(response, e),
        };
        let r = sym.aes(
            params,
            KeyRef::Sealed(hdr.key_handle),
            data,
            payload_part(response),
        );
        return finish_filled(response, r);
    }
    let algo = match hdr.algorithm() {
        Ok(a) => a,
        Err(e) => return encode_error(response, e),
    };
    match op {
        SymmetricOp::HashOneShot => {
            let r = sym.hash(algo, payload, payload_part(response));
            finish_filled(response, r)
        },
        SymmetricOp::HashRegion => {
            let region = match decode_region(payload) {
                Ok(r) => r,
                Err(e) => return encode_error(response, e),
            };
            let r = sym.hash_region(algo, region, payload_part(response));
            finish_filled(response, r)
        },
        SymmetricOp::HashSg => {
            // The wire carries one complete segment.
            let segments: [Segment; 1] = [Segment { data: payload }];
            proof {
                assert(segments@.map_values(|s: Segment| s@) =~= seq![payload@]);
            }
            let r = sym.hash_sg(algo, segments.as_slice(), payload_part(response));
            finish_filled(response, r)
        },
        _ => {
            let r = sym.hmac(
                algo,
                KeyRef::Sealed(hdr.key_handle),
                payload,
                payload_part(response),
            );
            finish_filled(response, r)
        },
    }
}

/// Serve a request of the public-key class. A signature that does not verify
/// is reported as such, never as a fault.
fn dispatch_public_key<P: PublicKeyBackend>(
    pk: &mut P,
    hdr: &CryptoRequestHeader,
    payload: &[u8],
    response: &mut [u8],
) -> (n: usize)
    requires
        old(response)@.len() >= CryptoResponseHeader::SIZE,
    ensures
        Command::decode_public_key(*hdr, payload@).served_public_key(
            (*old(pk), *final(pk)),
            old(response)@,
            final(response)@,
            n,
        ),
        final(response)@.len() == old(response)@.len(),
        n <= old(response)@.len(),
{
    let op = match PublicKeyOp::try_from(hdr.op) {
        Ok(op) => op,
        Err(e) => return encode_error(response, e),
    };
    match op {
        PublicKeyOp::EcdsaP384Verify => {
            if payload.len() < 240 {
                return encode_error(response, CryptoError::InvalidOperation);
            }
            let pubkey = EcPubP384 {
                qx: bytes::array48(payload, 0),
                qy: bytes::array48(payload, 48),
            };
            let sig = EcSig { r: bytes::array48(payload, 96), s: bytes::array48(payload, 144) };
            let digest48: [u8; 48] = bytes::array48(payload, 192);
            match pk.ecdsa_p384_verify(pubkey, sig, &digest48) {
                Ok(true) => finish_success(response, 0),
                Ok(false) => encode_error(response, CryptoError::VerifyFailed),
                Err(e) => encode_error(response, CryptoError::from(e)),
            }
        },
        PublicKeyOp::RsaModexp => {
            let exp = if hdr.key_handle == 0 {
                ExpSel::Public
            } else {
                ExpSel::Private
            };
            let mod_len: usize = hdr.arg0_value() as usize;
            if payload.len() < 2 * mod_len {
                return encode_error(response, CryptoError::InvalidOperation);
            }
            let modulus: &[u8] = vstd::slice::slice_subrange(payload, 0, mod_len);
            let exponent: &[u8] = vstd::slice::slice_subrange(payload, mod_len, 2 * mod_len);
            let input: &[u8] = vstd::slice::slice_subrange(payload, 2 * mod_len, payload.len());
            let r = pk.rsa_modexp(
                exp,
                RsaKey { modulus, exponent },
                input,
                payload_part(response),
            );
            finish_filled(response, r)
        },
    }
}

/// Translate one request into a reply, calling the backend of the class it
/// names. Returns the size of the reply.
pub fn dispatch_request<Y: SymmetricBackend, P: PublicKeyBackend>(
    sym: &mut Y,
    pk: &mut P,
    request: &[u8],
    response: &mut [u8],
) -> (n: usize)
    requires
        old(response)@.len() >= CryptoResponseHeader::SIZE,
    ensures
        Command::decode(request@).served(
            (*old(sym), *final(sym)),
            (*old(pk), *final(pk)),
            old(response)@,
            final(response)@,
            n,
        ),
        final(response)@.len() == old(response)@.len(),
        CryptoResponseHeader::SIZE <= n <= old(response)@.len(),
{
    if request.len() < CryptoRequestHeader::SIZE {
        return encode_error(response, CryptoError::InvalidOperation);
    }
    let hdr = CryptoRequestHeader::from_bytes(request);
    let engine = match hdr.engine() {
        Ok(e) => e,
        Err(e) => return encode_error(response, e),
    };
    let payload_len: usize = hdr.payload_length();
    if request.len() - CryptoRequestHeader::SIZE < payload_len {
        return encode_error(response, CryptoError::InvalidOperation);
    }
    let payload: &[u8] = vstd::slice::slice_subrange(
        request,
        CryptoRequestHeader::SIZE,
        CryptoRequestHeader::SIZE + payload_len,
    );
    match engine {
        Engine::Symmetric => dispatch_symmetric(sym, &hdr, payload, response),
        Engine::PublicKey => dispatch_public_key(pk, &hdr, payload, response),
    }
}

/// Over the wire a key is only ever named by a sealed handle, and the handle is
/// the one that the header carries.
pub proof fn wire_keys_are_sealed(request: Seq<u8>)
    ensures
        Command::decode(request) matches Command::Hmac { key, .. } ==> key == KeyView::Sealed(
            request[3],
        ),
        Command::decode(request) matches Command::Aes { key, .. } ==> key == KeyView::Sealed(
            request[3],
        ),
{
}

/// AES data that reaches a backend is a whole number of blocks, and its
/// initialisation vector is one block.
pub proof fn aes_data_is_block_aligned(request: Seq<u8>)
    ensures
        Command::decode(request) matches Command::Aes { params, data, .. } ==> data.len() % 16 == 0
            && params.iv.len() == 16,
{
}

/// The outcome of a signature check is told apart on the wire: success for a
/// signature that verified, `VerifyFailed` for one that did not, and neither
/// for a fault.
pub proof fn verdict_is_not_a_fault(r: Result<bool, BackendError>)
    ensures
        Command::verdict_status(r) == CryptoError::Success <==> r == Ok::<bool, BackendError>(true),
        Command::verdict_status(r) == CryptoError::VerifyFailed <==> r == Ok::<bool, BackendError>(
            false,
        ),
{
}

/// Only the announced payload counts: bytes behind it do not change what a
/// request asks for.
pub proof fn trailing_bytes_are_ignored(request: Seq<u8>, rest: Seq<u8>)
    requires
        request.len() >= CryptoRequestHeader::SIZE,
        request.len() >= CryptoRequestHeader::SIZE + CryptoRequestHeader::parse(
            request,
        ).payload_len,
    ensures
        Command::decode(request + rest) == Command::decode(request),
{
    let hdr = CryptoRequestHeader::parse(request);
    assert((request + rest).subrange(4, 6) =~= request.subrange(4, 6));
    assert((request + rest).subrange(6, 8) =~= request.subrange(6, 8));
    assert((request + rest).subrange(8, 8 + hdr.payload_len) =~= request.subrange(
        8,
        8 + hdr.payload_len,
    ));
}

/// A request without a whole header, with an unknown class, or shorter than it
/// announces is rejected as an invalid operation, whatever else it holds.
pub proof fn malformed_requests_are_rejected(request: Seq<u8>)
    ensures
        request.len() < 8 || request[0] > 1 || request.len() < 8 + request[6] + 256 * request[7]
            ==> Command::decode(request) == Command::Reject(CryptoError::InvalidOperation),
{
    if request.len() >= 8 {
        protocol::request_header_layout(CryptoRequestHeader::parse(request), request);
    }
}

/// How a well-formed request of the symmetric class is read. The second byte names
/// the operation, the third the algorithm, the fourth the sealed key, and the
/// announced bytes behind the header are the input.
#[verifier::rlimit(40)]
pub proof fn symmetric_requests_are_read(request: Seq<u8>, algo: Algo)
    requires
        request.len() >= 8 + request[6] + 256 * request[7],
        request.len() >= 8,
        request[0] == 0,
    ensures
        ({
            let payload = request.subrange(8, 8 + request[6] + 256 * request[7]);
            let command = Command::decode(request);
            let named = request[2] == algo.code();
            &&& request[1] == 0 || request[1] > 5 ==> command == Command::Reject(
                CryptoError::InvalidOperation,
            )
            &&& 1 <= request[1] <= 4 && (request[2] == 0 || request[2] > 3) ==> command
                == Command::Reject(CryptoError::InvalidAlgo)
            &&& request[1] == 1 && named ==> command == (Command::Hash { algo, input: payload })
            &&& request[1] == 2 && named && payload.len() < 12 ==> command == Command::Reject(
                CryptoError::InvalidOperation,
            )
            &&& request[1] == 2 && named && payload.len() >= 12 ==> command == (
            Command::HashRegion {
                algo,
                region: RegionDescriptor {
                    base: bytes::le_value(payload.subrange(0, 8)) as u64,
                    len: bytes::le_value(payload.subrange(8, 12)) as u32,
                },
            })
            &&& request[1] == 3 && named ==> command == (Command::HashSg {
                algo,
                segments: seq![payload],
            })
            &&& request[1] == 4 && named ==> command == (Command::Hmac {
                algo,
                key: KeyView::Sealed(request[3]),
                input: payload,
            })
        }),
{
    protocol::request_header_layout(CryptoRequestHeader::parse(request), request);
    protocol::codes_round_trip(
        Engine::Symmetric,
        SymmetricOp::Hmac,
        PublicKeyOp::RsaModexp,
        algo,
        CryptoError::Success,
    );
}

/// The three lowest bits of a sixteen-bit value are those of its low byte.
proof fn lemma_selectors_stand_in_the_low_byte(value: u16, low: u8, high: u8)
    requires
        value == low + 256 * high,
    ensures
        value % 2 == low % 2,
        value / 2 % 2 == low / 2 % 2,
        value / 4 % 2 == low / 4 % 2,
{
    assert(value / 2 == low / 2 + 128 * high);
    assert(value / 4 == low / 4 + 64 * high);
}

/// How a well-formed AES request is read: the first block of the payload is the
/// initialisation vector and the rest is data; the lowest three bits of the fifth
/// byte select CBC, decryption and the large key.
#[verifier::rlimit(40)]
pub proof fn aes_requests_are_read(request: Seq<u8>)
    requires
        request.len() >= 8 + request[6] + 256 * request[7],
        request.len() >= 8,
        request[0] == 0,
        request[1] == 5,
    ensures
        ({
            let payload = request.subrange(8, 8 + request[6] + 256 * request[7]);
            let command = Command::decode(request);
            let selectors = request[4];
            &&& payload.len() < 16 ==> command == Command::Reject(CryptoError::InvalidOperation)
            &&& payload.len() >= 16 && payload.len() % 16 != 0 ==> command == Command::Reject(
                CryptoError::InputNotBlockAligned,
            )
            &&& payload.len() >= 16 && payload.len() % 16 == 0 ==> (command matches Command::Aes {
                params,
                key,
                data,
            } && key == KeyView::Sealed(request[3]) && data == payload.skip(16) && params.iv
                == payload.take(16) && (params.mode == AesMode::Cbc <==> selectors % 2 == 1) && (
            params.dir == AesDir::Decrypt <==> selectors / 2 % 2 == 1) && (params.key_bits
                == AesKeyBits::Bits256 <==> selectors / 4 % 2 == 1))
        }),
{
    let hdr = CryptoRequestHeader::parse(request);
    let payload = request.subrange(8, 8 + request[6] + 256 * request[7]);
    protocol::request_header_layout(hdr, request);
    assert(Command::decode(request) == Command::decode_aes(hdr, payload));
    lemma_selectors_stand_in_the_low_byte(hdr.arg0, request[4], request[5]);
}

/// How a well-formed request of the public-key class is read: five operands of 48
/// bytes for an ECDSA verification; for an exponentiation, modulus and exponent of
/// the announced size and the input behind them, with the public exponent where no
/// key is named.
#[verifier::rlimit(40)]
pub proof fn public_key_requests_are_read(request: Seq<u8>)
    requires
        request.len() >= 8 + request[6] + 256 * request[7],
        request.len() >= 8,
        request[0] == 1,
    ensures
        ({
            let payload = request.subrange(8, 8 + request[6] + 256 * request[7]);
            let command = Command::decode(request);
            let size = request[4] + 256 * request[5];
            &&& request[1] == 0 || request[1] > 2 ==> command == Command::Reject(
                CryptoError::InvalidOperation,
            )
            &&& request[1] == 1 && payload.len() < 240 ==> command == Command::Reject(
                CryptoError::InvalidOperation,
            )
            &&& request[1] == 1 && payload.len() >= 240 ==> command == (Command::Ecdsa {
                pubkey: EcPubView {
                    qx: payload.subrange(0, 48),
                    qy: payload.subrange(48, 96),
                },
                sig: EcSigView { r: payload.subrange(96, 144), s: payload.subrange(144, 192) },
                digest: payload.subrange(192, 240),
            })
            &&& request[1] == 2 && payload.len() < 2 * size ==> command == Command::Reject(
                CryptoError::InvalidOperation,
            )
            &&& request[1] == 2 && payload.len() >= 2 * size ==> (command matches Command::Rsa {
                exp,
                rsa_key,
                input,
            } && (exp == ExpSel::Public <==> request[3] == 0) && rsa_key.modulus
                == payload.subrange(0, size) && rsa_key.exponent == payload.subrange(
                size,
                2 * size,
            ) && input == payload.skip(2 * size))
        }),
{
    protocol::request_header_layout(CryptoRequestHeader::parse(request), request);
}

/// A request to hash a region reaches the engine with the algorithm that its header
/// names and the region that its payload describes.
#[verifier::rlimit(40)]
pub proof fn region_reaches_the_engine(algo: Algo, key_handle: u8, arg0: u16, base: u64, len: u32)
    ensures
        ({
            let hdr = CryptoRequestHeader {
                engine: Engine::Symmetric.code(),
                op: SymmetricOp::HashRegion.code(),
                algo: algo.code(),
                key_handle,
                arg0,
                payload_len: 12,
            };
            Command::decode(
                hdr.wire() + bytes::le_bytes(base as nat, 8) + bytes::le_bytes(len as nat, 4),
            ) == (Command::HashRegion { algo, region: RegionDescriptor { base, len } })
        }),
{
    let hdr = CryptoRequestHeader {
        engine: Engine::Symmetric.code(),
        op: SymmetricOp::HashRegion.code(),
        algo: algo.code(),
        key_handle,
        arg0,
        payload_len: 12,
    };
    let b = bytes::le_bytes(base as nat, 8);
    let l = bytes::le_bytes(len as nat, 4);
    bytes::lemma_le_round_trip(base as nat, 8);
    bytes::lemma_le_round_trip(len as nat, 4);
    vstd::arithmetic::power::lemma_pow_positive(256, 4);
    assert(vstd::arithmetic::power::pow(256, 4) == 0x1_0000_0000
        && vstd::arithmetic::power::pow(256, 8) == 0x1_0000_0000_0000_0000) by {
        reveal_with_fuel(vstd::arithmetic::power::pow, 9);
    }
    vstd::arithmetic::div_mod::lemma_small_mod(
        base as nat,
        vstd::arithmetic::power::pow(256, 8) as nat,
    );
    vstd::arithmetic::div_mod::lemma_small_mod(
        len as nat,
        vstd::arithmetic::power::pow(256, 4) as nat,
    );
    protocol::request_header_round_trip(hdr, b + l);
    let request = hdr.wire() + b + l;
    assert(request =~= hdr.wire() + (b + l));
    let payload = request.subrange(8, 20);
    assert(payload =~= b + l);
    assert(payload.subrange(0, 8) =~= b);
    assert(payload.subrange(8, 12) =~= l);
}

/// A request to hash segments reaches the engine with the algorithm that its header
/// names and with its whole payload as the one segment.
pub proof fn segment_reaches_the_engine(algo: Algo, key_handle: u8, arg0: u16, data: Seq<u8>)
    requires
        data.len() <= u16::MAX,
    ensures
        ({
            let hdr = CryptoRequestHeader {
                engine: Engine::Symmetric.code(),
                op: SymmetricOp::HashSg.code(),
                algo: algo.code(),
                key_handle,
                arg0,
                payload_len: data.len() as u16,
            };
            Command::decode(hdr.wire() + data) == (Command::HashSg { algo, segments: seq![data] })
        }),
{
    let hdr = CryptoRequestHeader {
        engine: Engine::Symmetric.code(),
        op: SymmetricOp::HashSg.code(),
        algo: algo.code(),
        key_handle,
        arg0,
        payload_len: data.len() as u16,
    };
    protocol::request_header_round_trip(hdr, data);
    assert((hdr.wire() + data).subrange(8, 8 + hdr.payload_len) =~= data);
}

/// The operands of an exponentiation reach the engine as they were laid out.
#[verifier::rlimit(40)]
pub proof fn exponentiation_reaches_the_engine(
    key_handle: u8,
    modulus: Seq<u8>,
    exponent: Seq<u8>,
    input: Seq<u8>,
)
    requires
        exponent.len() == modulus.len(),
        2 * modulus.len() + input.len() <= u16::MAX,
    ensures
        ({
            let hdr = CryptoRequestHeader {
                engine: Engine::PublicKey.code(),
                op: PublicKeyOp::RsaModexp.code(),
                algo: 0,
                key_handle,
                arg0: modulus.len() as u16,
                payload_len: (2 * modulus.len() + input.len()) as u16,
            };
            Command::decode(hdr.wire() + modulus + exponent + input) == (Command::Rsa {
                exp: if key_handle == 0 {
                    ExpSel::Public
                } else {
                    ExpSel::Private
                },
                rsa_key: RsaKeyView { modulus, exponent },
                input,
            })
        }),
{
    let hdr = CryptoRequestHeader {
        engine: Engine::PublicKey.code(),
        op: PublicKeyOp::RsaModexp.code(),
        algo: 0,
        key_handle,
        arg0: modulus.len() as u16,
        payload_len: (2 * modulus.len() + input.len()) as u16,
    };
    let payload = modulus + exponent + input;
    let request = hdr.wire() + modulus + exponent + input;
    protocol::request_header_round_trip(hdr, payload);
    assert(request =~= hdr.wire() + payload);
    assert(request.subrange(8, 8 + hdr.payload_len) =~= payload);
    assert(payload.take(hdr.arg0 as int) =~= modulus);
    assert(payload.subrange(hdr.arg0 as int, 2 * hdr.arg0) =~= exponent);
    assert(payload.skip(2 * hdr.arg0) =~= input);
}

/// The bytes of a reply to a call that filled a buffer: success with the number of
/// bytes produced, or the status of the failure and nothing announced; behind the
/// header stands the buffer as the engine left it.
pub proof fn filled_replies_on_the_wire(filled: Filled<BackendError>, post: Seq<u8>, n: usize)
    requires
        Command::filled_reply(filled, post, n),
    ensures
        post.len() == 4 + filled.out.len(),
        post.skip(4) == filled.out,
        post[1] == 0,
        filled.result matches Ok(k) ==> n == 4 + k && post[0] == 0 && (k <= u16::MAX ==> post[2]
            + 256 * post[3] == k),
        filled.result matches Err(e) ==> n == 4 && post[0] == e.status().code() && post[2] == 0
            && post[3] == 0,
{
    let hdr = match filled.result {
        Ok(k) => CryptoResponseHeader::success(k as u16),
        Err(e) => CryptoResponseHeader::error(e.status()),
    };
    let e = match filled.result {
        Ok(_) => CryptoError::Success,
        Err(e) => e.status(),
    };
    protocol::response_header_layout(hdr, post, hdr.payload_len, e);
}

/// The bytes of a reply to a signature check: success, failed verification or the
/// status of the fault, and nothing else is touched.
pub proof fn verdict_replies_on_the_wire(
    r: Result<bool, BackendError>,
    pre: Seq<u8>,
    post: Seq<u8>,
    n: usize,
)
    requires
        pre.len() >= 4,
        Command::verdict_reply(r, pre, post, n),
    ensures
        n == 4,
        post.len() == pre.len(),
        post.skip(4) == pre.skip(4),
        post[1] == 0 && post[2] == 0 && post[3] == 0,
        r == Ok::<bool, BackendError>(true) ==> post[0] == 0,
        r == Ok::<bool, BackendError>(false) ==> post[0] == CryptoError::VerifyFailed.code(),
        r matches Err(e) ==> post[0] == e.status().code(),
{
    let e = Command::verdict_status(r);
    protocol::response_header_layout(CryptoResponseHeader::error(e), post, 0, e);
}

/// A rejected request reaches no engine, and its reply is the status alone.
pub proof fn rejections_touch_nothing<Y: SymmetricBackend, P: PublicKeyBackend>(
    e: CryptoError,
    sym: &mut Y,
    pk: &mut P,
    request: &[u8],
    response: &mut [u8],
    n: usize,
)
    requires
        old(response)@.len() >= 4,
        Command::decode(request@) == Command::Reject(e),
        call_ensures(dispatch_request::<Y, P>, (sym, pk, request, response), n),
    ensures
        *final(sym) == *old(sym),
        *final(pk) == *old(pk),
        n == 4,
        final(response)@.len() == old(response)@.len(),
        final(response)@.skip(4) == old(response)@.skip(4),
        final(response)@[0] == e.code(),
        final(response)@[1] == 0 && final(response)@[2] == 0 && final(response)@[3] == 0,
{
    protocol::response_header_layout(CryptoResponseHeader::error(e), final(response)@, 0, e);
}

/// A hash is one call of the symmetric engine, with the algorithm and the input of the
/// request.
pub proof fn a_hash_is_one_call<Y: SymmetricBackend, P: PublicKeyBackend>(
    algo: Algo,
    input: Seq<u8>,
    sym: &mut Y,
    pk: &mut P,
    request: &[u8],
    response: &mut [u8],
    n: usize,
)
    requires
        Command::decode(request@) == (Command::Hash { algo, input }),
        call_ensures(dispatch_request::<Y, P>, (sym, pk, request, response), n),
    ensures
        *final(pk) == *old(pk),
        exists|f: Filled<BackendError>| #[trigger]
            Y::hash_post(
                *old(sym),
                *final(sym),
                algo,
                input,
                old(response)@.skip(4),
                f,
            ) && Command::filled_reply(f, final(response)@, n),
{
}

/// A hash of a region is one call of the symmetric engine, with the algorithm and the
/// region of the request.
pub proof fn a_region_hash_is_one_call<Y: SymmetricBackend, P: PublicKeyBackend>(
    algo: Algo,
    region: RegionDescriptor,
    sym: &mut Y,
    pk: &mut P,
    request: &[u8],
    response: &mut [u8],
    n: usize,
)
    requires
        Command::decode(request@) == (Command::HashRegion { algo, region }),
        call_ensures(dispatch_request::<Y, P>, (sym, pk, request, response), n),
    ensures
        *final(pk) == *old(pk),
        exists|f: Filled<BackendError>| #[trigger]
            Y::hash_region_post(
                *old(sym),
                *final(sym),
                algo,
                region,
                old(response)@.skip(4),
                f,
            ) && Command::filled_reply(f, final(response)@, n),
{
}

/// A hash of segments is one call of the symmetric engine, with the algorithm and the
/// segments of the request.
pub proof fn a_segment_hash_is_one_call<Y: SymmetricBackend, P: PublicKeyBackend>(
    algo: Algo,
    segments: Seq<Seq<u8>>,
    sym: &mut Y,
    pk: &mut P,
    request: &[u8],
    response: &mut [u8],
    n: usize,
)
    requires
        Command::decode(request@) == (Command::HashSg { algo, segments }),
        call_ensures(dispatch_request::<Y, P>, (sym, pk, request, response), n),
    ensures
        *final(pk) == *old(pk),
        exists|f: Filled<BackendError>| #[trigger]
            Y::hash_sg_post(
                *old(sym),
                *final(sym),
                algo,
                segments,
                old(response)@.skip(4),
                f,
            ) && Command::filled_reply(f, final(response)@, n),
{
}

/// A MAC is one call of the symmetric engine, with the algorithm, the key and the
/// input of the request.
pub proof fn a_mac_is_one_call<Y: SymmetricBackend, P: PublicKeyBackend>(
    algo: Algo,
    key: KeyView,
    input: Seq<u8>,
    sym: &mut Y,
    pk: &mut P,
    request: &[u8],
    response: &mut [u8],
    n: usize,
)
    requires
        Command::decode(request@) == (Command::Hmac { algo, key, input }),
        call_ensures(dispatch_request::<Y, P>, (sym, pk, request, response), n),
    ensures
        *final(pk) == *old(pk),
        exists|f: Filled<BackendError>| #[trigger]
            Y::hmac_post(
                *old(sym),
                *final(sym),
                algo,
                key,
                input,
                old(response)@.skip(4),
                f,
            ) && Command::filled_reply(f, final(response)@, n),
{
}

/// A cipher operation is one call of the symmetric engine, with the parameters, the
/// key and the data of the request.
pub proof fn a_cipher_operation_is_one_call<Y: SymmetricBackend, P: PublicKeyBackend>(
    params: AesView,
    key: KeyView,
    data: Seq<u8>,
    sym: &mut Y,
    pk: &mut P,
    request: &[u8],
    response: &mut [u8],
    n: usize,
)
    requires
        Command::decode(request@) == (Command::Aes { params, key, data }),
        call_ensures(dispatch_request::<Y, P>, (sym, pk, request, response), n),
    ensures
        *final(pk) == *old(pk),
        exists|f: Filled<BackendError>| #[trigger]
            Y::aes_post(
                *old(sym),
                *final(sym),
                params,
                key,
                data,
                old(response)@.skip(4),
                f,
            ) && Command::filled_reply(f, final(response)@, n),
{
}

/// An exponentiation is one call of the public-key engine, with the exponent, the key
/// and the input of the request.
pub proof fn an_exponentiation_is_one_call<Y: SymmetricBackend, P: PublicKeyBackend>(
    exp: ExpSel,
    rsa_key: RsaKeyView,
    input: Seq<u8>,
    sym: &mut Y,
    pk: &mut P,
    request: &[u8],
    response: &mut [u8],
    n: usize,
)
    requires
        Command::decode(request@) == (Command::Rsa { exp, rsa_key, input }),
        call_ensures(dispatch_request::<Y, P>, (sym, pk, request, response), n),
    ensures
        *final(sym) == *old(sym),
        exists|f: Filled<BackendError>| #[trigger]
            P::rsa_post(
                *old(pk),
                *final(pk),
                exp,
                rsa_key,
                input,
                old(response)@.skip(4),
                f,
            ) && Command::filled_reply(f, final(response)@, n),
{
}

/// A verification is one call of the public-key engine, with the key, the signature
/// and the digest of the request.
pub proof fn a_verification_is_one_call<Y: SymmetricBackend, P: PublicKeyBackend>(
    pubkey: EcPubView,
    sig: EcSigView,
    digest: Seq<u8>,
    sym: &mut Y,
    pk: &mut P,
    request: &[u8],
    response: &mut [u8],
    n: usize,
)
    requires
        Command::decode(request@) == (Command::Ecdsa { pubkey, sig, digest }),
        call_ensures(dispatch_request::<Y, P>, (sym, pk, request, response), n),
    ensures
        *final(sym) == *old(sym),
        exists|r: Result<bool, BackendError>| #[trigger]
            P::ecdsa_post(*old(pk), *final(pk), pubkey, sig, digest, r) && Command::verdict_reply(
                r,
                old(response)@,
                final(response)@,
                n,
            ),
{
}

/// The bytes of the two plain replies: an error is its status, three zero bytes and the
/// buffer as it was; a success announces its payload, which stands behind the header
/// with the buffer as it was behind it.
pub proof fn plain_replies_on_the_wire(
    response: &mut [u8],
    error: CryptoError,
    payload: &[u8],
    n: usize,
)
    requires
        4 + payload@.len() <= old(response)@.len(),
        payload@.len() <= u16::MAX,
    ensures
        call_ensures(encode_error, (response, error), n) ==> n == 4 && final(response)@ == seq![
            error.code(),
            0u8,
            0u8,
            0u8,
        ] + old(response)@.skip(4),
        call_ensures(encode_success, (response, payload), n) ==> n == 4 + payload@.len() && (
        final(response)@ == seq![
            0u8,
            0u8,
            (payload@.len() % 256) as u8,
            (payload@.len() / 256) as u8,
        ] + payload@ + old(response)@.skip((4 + payload@.len()) as int)),
{
    let len = payload@.len() as u16;
    protocol::response_header_layout(CryptoResponseHeader::success(len), Seq::empty(), len, error);
}

} // verus!
