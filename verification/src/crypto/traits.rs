//! The abstract crypto seam.
//!
//! Consumers depend on these traits and on the [`Stack`] facade, never on a
//! provider. A program wires the in-process provider or the remote client, and
//! the consumer does not see which.
//!
//! Every operation is whole-object: it takes the full input and produces the
//! full output in one call. A signature that does not verify is a result of
//! [`Verify`], never an error.
//!
//! A provider says by the spec predicates of the traits what its methods may do;
//! one that leaves a predicate out says nothing of the method.

pub use crate::crypto::backend::{AesParams, EcPubP384, EcSig, KeyRef, RsaKey};
use crate::crypto::backend::{AesView, EcPubView, EcSigView, Filled, KeyView, RsaKeyView};
pub use crate::crypto::protocol::Algo;
pub use crate::crypto::stack::Stack;
use vstd::prelude::*;

verus! {

/// Failure of an operation, independent of the provider.
#[derive(Clone, Copy, Debug, PartialEq, Eq, Structural)]
pub enum CryptoError {
    /// The provider does not support the operation or the algorithm.
    Unsupported,
    /// The key handle or the key material is invalid.
    InvalidKey,
    /// The AES input is not a whole number of blocks.
    InputNotBlockAligned,
    /// A buffer of the caller is too small.
    OutputTooSmall,
    /// Engine or computation fault.
    EngineFault,
}

/// One-shot hash.
pub trait Digest: Sized {
    /// Whether `digest` may take `pre` to `post`, on an output buffer that held
    /// `out`, with the outcome `filled`.
    open spec fn digest_post(
        pre: Self,
        post: Self,
        algo: Algo,
        input: Seq<u8>,
        out: Seq<u8>,
        filled: Filled<CryptoError>,
    ) -> bool {
        true
    }

    /// Hash the whole of `input` into the front of `out`. Returns the number of
    /// bytes written.
    fn digest(&mut self, algo: Algo, input: &[u8], out: &mut [u8]) -> (r: Result<
        usize,
        CryptoError,
    >)
        ensures
            final(out)@.len() == old(out)@.len(),
            r matches Ok(n) ==> n <= old(out)@.len(),
            Self::digest_post(
                *old(self),
                *final(self),
                algo,
                input@,
                old(out)@,
                (Filled { out: final(out)@, result: r }),
            ),
    ;
}

/// One-shot keyed MAC.
pub trait Mac: Sized {
    /// Whether `mac` may take `pre` to `post`, on an output buffer that held
    /// `out`, with the outcome `filled`.
    open spec fn mac_post(
        pre: Self,
        post: Self,
        algo: Algo,
        key: KeyView,
        input: Seq<u8>,
        out: Seq<u8>,
        filled: Filled<CryptoError>,
    ) -> bool {
        true
    }

    /// Authenticate the whole of `input` into the front of `out`. Returns the
    /// number of bytes written.
    fn mac(&mut self, algo: Algo, key: KeyRef<'_>, input: &[u8], out: &mut [u8]) -> (r: Result<
        usize,
        CryptoError,
    >)
        ensures
            final(out)@.len() == old(out)@.len(),
            r matches Ok(n) ==> n <= old(out)@.len(),
            Self::mac_post(
                *old(self),
                *final(self),
                algo,
                key@,
                input@,
                old(out)@,
                (Filled { out: final(out)@, result: r }),
            ),
    ;
}

/// One-shot AES, encryption or decryption.
pub trait Cipher: Sized {
    /// Whether `crypt` may take `pre` to `post`, on an output buffer that held
    /// `out`, with the outcome `filled`.
    open spec fn crypt_post(
        pre: Self,
        post: Self,
        params: AesView,
        key: KeyView,
        input: Seq<u8>,
        out: Seq<u8>,
        filled: Filled<CryptoError>,
    ) -> bool {
        true
    }

    /// Transform the whole of `input`, which is a whole number of blocks, into
    /// the front of `out`. Returns the number of bytes written.
    fn crypt(&mut self, params: AesParams, key: KeyRef<'_>, input: &[u8], out: &mut [u8]) -> (r:
        Result<usize, CryptoError>)
        ensures
            final(out)@.len() == old(out)@.len(),
            r matches Ok(n) ==> n <= old(out)@.len(),
            Self::crypt_post(
                *old(self),
                *final(self),
                params@,
                key@,
                input@,
                old(out)@,
                (Filled { out: final(out)@, result: r }),
            ),
    ;
}

/// Signature verification. `Ok(true)` says that the signature verified,
/// `Ok(false)` that it did not.
pub trait Verify: Sized {
    /// Whether `ecdsa_p384_verify` may take `pre` to `post` with the outcome
    /// `r`.
    open spec fn ecdsa_post(
        pre: Self,
        post: Self,
        pubkey: EcPubView,
        sig: EcSigView,
        digest: Seq<u8>,
        r: Result<bool, CryptoError>,
    ) -> bool {
        true
    }

    /// Whether `rsa_verify` may take `pre` to `post` with the outcome `r`.
    open spec fn rsa_post(
        pre: Self,
        post: Self,
        key: RsaKeyView,
        sig: Seq<u8>,
        expected: Seq<u8>,
        r: Result<bool, CryptoError>,
    ) -> bool {
        true
    }

    /// ECDSA over NIST P-384 against a digest of 48 bytes.
    fn ecdsa_p384_verify(&mut self, pubkey: EcPubP384, sig: EcSig, digest48: &[u8; 48]) -> (r:
        Result<bool, CryptoError>)
        ensures
            Self::ecdsa_post(*old(self), *final(self), pubkey@, sig@, digest48@, r),
    ;

    /// RSA signature verification; `expected` is the block that the consumer
    /// expects to recover.
    fn rsa_verify(&mut self, key: RsaKey<'_>, sig: &[u8], expected: &[u8]) -> (r: Result<
        bool,
        CryptoError,
    >)
        ensures
            Self::rsa_post(*old(self), *final(self), key@, sig@, expected@, r),
    ;
}

/// The full capability bundle.
pub trait CryptoBackend: Digest + Mac + Cipher + Verify {

}

/// Whatever provides all four capabilities is a [`CryptoBackend`].
impl<T: Digest + Mac + Cipher + Verify> CryptoBackend for T {

}

} // verus!
