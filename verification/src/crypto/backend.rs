//! Backend contract: the seam between protocol dispatch and the crypto
//! engines of a platform.
//!
//! Traits are named by capability class. Each one carries a set of spec
//! predicates: an implementation says by them what its methods may do, and the
//! dispatcher's own contract is stated over them, for every backend. An
//! implementation that leaves a predicate out says nothing of the method.

use crate::crypto::protocol::{Algo, CryptoError};
use vstd::prelude::*;

verus! {

/// Failure of a backend operation.
#[derive(Clone, Copy, Debug, PartialEq, Eq, Structural)]
pub enum BackendError {
    InvalidOperation,
    InvalidAlgo,
    InvalidKeyHandle,
    InputNotBlockAligned,
    Busy,
    Timeout,
    EngineFault,
    InternalError,
}

impl BackendError {
    /// The wire status that reports this failure.
    pub open spec fn status(self) -> CryptoError {
        match self {
            BackendError::InvalidOperation => CryptoError::InvalidOperation,
            BackendError::InvalidAlgo => CryptoError::InvalidAlgo,
            BackendError::InvalidKeyHandle => CryptoError::InvalidKeyHandle,
            BackendError::InputNotBlockAligned => CryptoError::InputNotBlockAligned,
            BackendError::Busy => CryptoError::Busy,
            BackendError::Timeout => CryptoError::Timeout,
            BackendError::EngineFault => CryptoError::EngineFault,
            BackendError::InternalError => CryptoError::InternalError,
        }
    }
}

impl From<BackendError> for CryptoError {
    fn from(value: BackendError) -> (r: Self) {
        match value {
            BackendError::InvalidOperation => CryptoError::InvalidOperation,
            BackendError::InvalidAlgo => CryptoError::InvalidAlgo,
            BackendError::InvalidKeyHandle => CryptoError::InvalidKeyHandle,
            BackendError::InputNotBlockAligned => CryptoError::InputNotBlockAligned,
            BackendError::Busy => CryptoError::Busy,
            BackendError::Timeout => CryptoError::Timeout,
            BackendError::EngineFault => CryptoError::EngineFault,
            BackendError::InternalError => CryptoError::InternalError,
        }
    }
}

impl vstd::std_specs::convert::FromSpecImpl<BackendError> for CryptoError {
    open spec fn obeys_from_spec() -> bool {
        true
    }

    open spec fn from_spec(value: BackendError) -> Self {
        value.status()
    }
}

/// A backend failure is reported as itself: distinct failures give distinct
/// statuses, and none of them reads as success or as a failed verification.
pub proof fn backend_errors_stay_distinct(a: BackendError, b: BackendError)
    ensures
        a != b ==> a.status() != b.status(),
        a.status() != CryptoError::Success,
        a.status() != CryptoError::VerifyFailed,
{
}

/// Key reference. Only a sealed handle crosses the wire; raw bytes are for
/// in-process use.
#[derive(Clone, Copy, Debug)]
pub enum KeyRef<'a> {
    /// Handle of a sealed key slot.
    Sealed(u8),
    /// Raw key material.
    Raw(&'a [u8]),
}

/// What a [`KeyRef`] denotes.
pub enum KeyView {
    Sealed(u8),
    Raw(Seq<u8>),
}

impl<'a> View for KeyRef<'a> {
    type V = KeyView;

    open spec fn view(&self) -> KeyView {
        match *self {
            KeyRef::Sealed(h) => KeyView::Sealed(h),
            KeyRef::Raw(k) => KeyView::Raw(k@),
        }
    }
}

/// Description of a large input.
#[derive(Clone, Copy, Debug, PartialEq, Eq, Structural)]
pub struct RegionDescriptor {
    pub base: u64,
    pub len: u32,
}

/// One complete scatter/gather segment.
#[derive(Clone, Copy, Debug)]
pub struct Segment<'a> {
    pub data: &'a [u8],
}

impl<'a> View for Segment<'a> {
    type V = Seq<u8>;

    open spec fn view(&self) -> Seq<u8> {
        self.data@
    }
}

#[derive(Clone, Copy, Debug, PartialEq, Eq, Structural)]
pub enum AesMode {
    Ecb,
    Cbc,
}

#[derive(Clone, Copy, Debug, PartialEq, Eq, Structural)]
pub enum AesDir {
    Encrypt,
    Decrypt,
}

#[derive(Clone, Copy, Debug, PartialEq, Eq, Structural)]
pub enum AesKeyBits {
    Bits128,
    Bits256,
}

/// Selectors of one AES operation.
#[derive(Clone, Copy, Debug, PartialEq, Eq)]
pub struct AesParams {
    pub mode: AesMode,
    pub dir: AesDir,
    pub key_bits: AesKeyBits,
    /// Initialisation vector of CBC; ECB ignores it.
    pub iv: [u8; 16],
}

/// What [`AesParams`] denote.
pub struct AesView {
    pub mode: AesMode,
    pub dir: AesDir,
    pub key_bits: AesKeyBits,
    pub iv: Seq<u8>,
}

impl View for AesParams {
    type V = AesView;

    open spec fn view(&self) -> AesView {
        AesView { mode: self.mode, dir: self.dir, key_bits: self.key_bits, iv: self.iv@ }
    }
}

/// NIST P-384 public key.
#[derive(Clone, Copy, Debug)]
pub struct EcPubP384 {
    pub qx: [u8; 48],
    pub qy: [u8; 48],
}

/// What an [`EcPubP384`] denotes.
pub struct EcPubView {
    pub qx: Seq<u8>,
    pub qy: Seq<u8>,
}

impl View for EcPubP384 {
    type V = EcPubView;

    open spec fn view(&self) -> EcPubView {
        EcPubView { qx: self.qx@, qy: self.qy@ }
    }
}

/// P-384 signature.
#[derive(Clone, Copy, Debug)]
pub struct EcSig {
    pub r: [u8; 48],
    pub s: [u8; 48],
}

/// What an [`EcSig`] denotes.
pub struct EcSigView {
    pub r: Seq<u8>,
    pub s: Seq<u8>,
}

impl View for EcSig {
    type V = EcSigView;

    open spec fn view(&self) -> EcSigView {
        EcSigView { r: self.r@, s: self.s@ }
    }
}

/// Which RSA exponent a modular exponentiation uses.
#[derive(Clone, Copy, Debug, PartialEq, Eq, Structural)]
pub enum ExpSel {
    /// Public exponent: verify and encrypt.
    Public,
    /// Private exponent: sign and decrypt.
    Private,
}

/// RSA key of the caller.
#[derive(Clone, Copy, Debug)]
pub struct RsaKey<'a> {
    pub modulus: &'a [u8],
    pub exponent: &'a [u8],
}

/// What an [`RsaKey`] denotes.
pub struct RsaKeyView {
    pub modulus: Seq<u8>,
    pub exponent: Seq<u8>,
}

impl<'a> View for RsaKey<'a> {
    type V = RsaKeyView;

    open spec fn view(&self) -> RsaKeyView {
        RsaKeyView { modulus: self.modulus@, exponent: self.exponent@ }
    }
}

/// Outcome of a call that fills an output buffer: the buffer as the
/// call left it, and how many of its bytes the call produced.
pub struct Filled<E> {
    pub out: Seq<u8>,
    pub result: Result<usize, E>,
}

/// Symmetric capability: digest, HMAC and AES.
///
/// Every method reports how many bytes of `out` it produced, which is at most
/// the size of `out`.
pub trait SymmetricBackend: Sized {
    /// Whether `hash` may take `pre` to `post`, on an output buffer that held
    /// `out`, with the outcome `filled`.
    open spec fn hash_post(
        pre: Self,
        post: Self,
        algo: Algo,
        input: Seq<u8>,
        out: Seq<u8>,
        filled: Filled<BackendError>,
    ) -> bool {
        true
    }

    /// As [`Self::hash_post`], for `hash_region`.
    open spec fn hash_region_post(
        pre: Self,
        post: Self,
        algo: Algo,
        region: RegionDescriptor,
        out: Seq<u8>,
        filled: Filled<BackendError>,
    ) -> bool {
        true
    }

    /// As [`Self::hash_post`], for `hash_sg`.
    open spec fn hash_sg_post(
        pre: Self,
        post: Self,
        algo: Algo,
        segments: Seq<Seq<u8>>,
        out: Seq<u8>,
        filled: Filled<BackendError>,
    ) -> bool {
        true
    }

    /// As [`Self::hash_post`], for `hmac`.
    open spec fn hmac_post(
        pre: Self,
        post: Self,
        algo: Algo,
        key: KeyView,
        input: Seq<u8>,
        out: Seq<u8>,
        filled: Filled<BackendError>,
    ) -> bool {
        true
    }

    /// As [`Self::hash_post`], for `aes`.
    open spec fn aes_post(
        pre: Self,
        post: Self,
        params: AesView,
        key: KeyView,
        input: Seq<u8>,
        out: Seq<u8>,
        filled: Filled<BackendError>,
    ) -> bool {
        true
    }

    fn hash(&mut self, algo: Algo, input: &[u8], out: &mut [u8]) -> (r: Result<usize, BackendError>)
        ensures
            final(out)@.len() == old(out)@.len(),
            r matches Ok(n) ==> n <= old(out)@.len(),
            Self::hash_post(
                *old(self),
                *final(self),
                algo,
                input@,
                old(out)@,
                (Filled { out: final(out)@, result: r }),
            ),
    ;

    fn hash_region(
        &mut self,
        algo: Algo,
        region: RegionDescriptor,
        out: &mut [u8],
    ) -> (r: Result<usize, BackendError>)
        ensures
            final(out)@.len() == old(out)@.len(),
            r matches Ok(n) ==> n <= old(out)@.len(),
            Self::hash_region_post(
                *old(self),
                *final(self),
                algo,
                region,
                old(out)@,
                (Filled { out: final(out)@, result: r }),
            ),
    ;

    fn hash_sg(
        &mut self,
        algo: Algo,
        segments: &[Segment<'_>],
        out: &mut [u8],
    ) -> (r: Result<usize, BackendError>)
        ensures
            final(out)@.len() == old(out)@.len(),
            r matches Ok(n) ==> n <= old(out)@.len(),
            Self::hash_sg_post(
                *old(self),
                *final(self),
                algo,
                segments@.map_values(|s: Segment| s@),
                old(out)@,
                (Filled { out: final(out)@, result: r }),
            ),
    ;

    fn hmac(
        &mut self,
        algo: Algo,
        key: KeyRef<'_>,
        input: &[u8],
        out: &mut [u8],
    ) -> (r: Result<usize, BackendError>)
        ensures
            final(out)@.len() == old(out)@.len(),
            r matches Ok(n) ==> n <= old(out)@.len(),
            Self::hmac_post(
                *old(self),
                *final(self),
                algo,
                key@,
                input@,
                old(out)@,
                (Filled { out: final(out)@, result: r }),
            ),
    ;

    fn aes(
        &mut self,
        params: AesParams,
        key: KeyRef<'_>,
        input: &[u8],
        out: &mut [u8],
    ) -> (r: Result<usize, BackendError>)
        ensures
            final(out)@.len() == old(out)@.len(),
            r matches Ok(n) ==> n <= old(out)@.len(),
            Self::aes_post(
                *old(self),
                *final(self),
                params@,
                key@,
                input@,
                old(out)@,
                (Filled { out: final(out)@, result: r }),
            ),
    ;
}

/// Public-key capability: a separate engine in the same server.
pub trait PublicKeyBackend: Sized {
    /// Whether `ecdsa_p384_verify` may take `pre` to `post` with the verdict
    /// `r`.
    open spec fn ecdsa_post(
        pre: Self,
        post: Self,
        pubkey: EcPubView,
        sig: EcSigView,
        digest: Seq<u8>,
        r: Result<bool, BackendError>,
    ) -> bool {
        true
    }

    /// Whether `rsa_modexp` may take `pre` to `post`, on an output buffer that
    /// held `out`, with the outcome `filled`.
    open spec fn rsa_post(
        pre: Self,
        post: Self,
        exp: ExpSel,
        key: RsaKeyView,
        input: Seq<u8>,
        out: Seq<u8>,
        filled: Filled<BackendError>,
    ) -> bool {
        true
    }

    /// The verdict is a result: `Ok(false)` says that the signature did not
    /// verify.
    fn ecdsa_p384_verify(
        &mut self,
        pubkey: EcPubP384,
        sig: EcSig,
        digest48: &[u8; 48],
    ) -> (r: Result<bool, BackendError>)
        ensures
            Self::ecdsa_post(*old(self), *final(self), pubkey@, sig@, digest48@, r),
    ;

    fn rsa_modexp(
        &mut self,
        exp: ExpSel,
        key: RsaKey<'_>,
        input: &[u8],
        out: &mut [u8],
    ) -> (r: Result<usize, BackendError>)
        ensures
            final(out)@.len() == old(out)@.len(),
            r matches Ok(n) ==> n <= old(out)@.len(),
            Self::rsa_post(
                *old(self),
                *final(self),
                exp,
                key@,
                input@,
                old(out)@,
                (Filled { out: final(out)@, result: r }),
            ),
    ;
}

/// Every failure of a backend is reported under its own name.
pub proof fn failures_keep_their_names(e: BackendError)
    ensures
        e.status() == CryptoError::InvalidOperation <==> e == BackendError::InvalidOperation,
        e.status() == CryptoError::InvalidAlgo <==> e == BackendError::InvalidAlgo,
        e.status() == CryptoError::InvalidKeyHandle <==> e == BackendError::InvalidKeyHandle,
        e.status() == CryptoError::InputNotBlockAligned <==> e
            == BackendError::InputNotBlockAligned,
        e.status() == CryptoError::Busy <==> e == BackendError::Busy,
        e.status() == CryptoError::Timeout <==> e == BackendError::Timeout,
        e.status() == CryptoError::EngineFault <==> e == BackendError::EngineFault,
        e.status() == CryptoError::InternalError <==> e == BackendError::InternalError,
{
}

/// An operand denotes what stands in its fields: nothing is swapped, shortened or
/// left out on the way into a contract.
pub proof fn operands_denote_their_fields(
    key: KeyRef<'_>,
    segment: Segment<'_>,
    params: AesParams,
    pubkey: EcPubP384,
    sig: EcSig,
    rsa: RsaKey<'_>,
)
    ensures
        key matches KeyRef::Sealed(h) ==> key@ == KeyView::Sealed(h),
        key matches KeyRef::Raw(k) ==> key@ == KeyView::Raw(k@),
        segment@ == segment.data@,
        params@.mode == params.mode,
        params@.dir == params.dir,
        params@.key_bits == params.key_bits,
        params@.iv == params.iv@,
        pubkey@.qx == pubkey.qx@,
        pubkey@.qy == pubkey.qy@,
        sig@.r == sig.r@,
        sig@.s == sig.s@,
        rsa@.modulus == rsa.modulus@,
        rsa@.exponent == rsa.exponent@,
{
}

} // verus!
