//! Facade over any crypto provider.

use crate::crypto::backend::Filled;
use crate::crypto::traits::{
    AesParams, Algo, Cipher, CryptoBackend, CryptoError, Digest, EcPubP384, EcSig, KeyRef, Mac,
    RsaKey, Verify,
};
use vstd::prelude::*;

verus! {

/// Owns a provider and delegates to it. Which provider stands behind the
/// facade is invisible to its user.
pub struct Stack<B: CryptoBackend> {
    backend: B,
}

impl<B: CryptoBackend> View for Stack<B> {
    type V = B;

    /// The provider behind the facade.
    closed spec fn view(&self) -> B {
        self.backend
    }
}

impl<B: CryptoBackend> Stack<B> {
    /// A stack over `backend`.
    pub fn new(backend: B) -> (stack: Self)
        ensures
            stack@ == backend,
    {
        Stack { backend }
    }

    /// One-shot hash.
    pub fn digest(&mut self, algo: Algo, input: &[u8], out: &mut [u8]) -> (r: Result<
        usize,
        CryptoError,
    >)
        ensures
            final(out)@.len() == old(out)@.len(),
            r matches Ok(n) ==> n <= old(out)@.len(),
            B::digest_post(
                old(self)@,
                final(self)@,
                algo,
                input@,
                old(out)@,
                (Filled { out: final(out)@, result: r }),
            ),
    {
        self.backend.digest(algo, input, out)
    }

    /// One-shot keyed MAC.
    pub fn mac(&mut self, algo: Algo, key: KeyRef<'_>, input: &[u8], out: &mut [u8]) -> (r: Result<
        usize,
        CryptoError,
    >)
        ensures
            final(out)@.len() == old(out)@.len(),
            r matches Ok(n) ==> n <= old(out)@.len(),
            B::mac_post(
                old(self)@,
                final(self)@,
                algo,
                key@,
                input@,
                old(out)@,
                (Filled { out: final(out)@, result: r }),
            ),
    {
        self.backend.mac(algo, key, input, out)
    }

    /// One-shot AES.
    pub fn cipher(&mut self, params: AesParams, key: KeyRef<'_>, input: &[u8], out: &mut [u8]) -> (r:
        Result<usize, CryptoError>)
        ensures
            final(out)@.len() == old(out)@.len(),
            r matches Ok(n) ==> n <= old(out)@.len(),
            B::crypt_post(
                old(self)@,
                final(self)@,
                params@,
                key@,
                input@,
                old(out)@,
                (Filled { out: final(out)@, result: r }),
            ),
    {
        self.backend.crypt(params, key, input, out)
    }

    /// ECDSA-P384 verification; `Ok(false)` is a clean non-verify.
    pub fn verify_ecdsa_p384(&mut self, pubkey: EcPubP384, sig: EcSig, digest48: &[u8; 48]) -> (r:
        Result<bool, CryptoError>)
        ensures
            B::ecdsa_post(old(self)@, final(self)@, pubkey@, sig@, digest48@, r),
    {
        self.backend.ecdsa_p384_verify(pubkey, sig, digest48)
    }

    /// RSA verification; `Ok(false)` is a clean non-verify.
    pub fn verify_rsa(&mut self, key: RsaKey<'_>, sig: &[u8], expected: &[u8]) -> (r: Result<
        bool,
        CryptoError,
    >)
        ensures
            B::rsa_post(old(self)@, final(self)@, key@, sig@, expected@, r),
    {
        self.backend.rsa_verify(key, sig, expected)
    }

    /// Borrow the provider for its [`Verify`] methods.
    pub fn verify(&mut self) -> (backend: &mut B)
        ensures
            *backend == old(self)@,
            final(self)@ == *final(backend),
    {
        &mut self.backend
    }

    /// Give the provider back.
    pub fn into_inner(self) -> (backend: B)
        ensures
            backend == self@,
    {
        self.backend
    }
}

/// The facade is transparent: a call of it is one call of the provider, on the same
/// operands, and changes the provider as that call does.
pub proof fn the_facade_is_transparent<B: CryptoBackend>(
    stack: &mut Stack<B>,
    algo: Algo,
    params: AesParams,
    key: KeyRef<'_>,
    input: &[u8],
    out: &mut [u8],
    r: Result<usize, CryptoError>,
)
    ensures
        ({
            let filled = Filled { out: final(out)@, result: r };
            let pre = old(stack)@;
            let post = final(stack)@;
            &&& call_ensures(Stack::<B>::digest, (stack, algo, input, out), r) ==> B::digest_post(
                pre,
                post,
                algo,
                input@,
                old(out)@,
                filled,
            )
            &&& call_ensures(Stack::<B>::mac, (stack, algo, key, input, out), r) ==> B::mac_post(
                pre,
                post,
                algo,
                key@,
                input@,
                old(out)@,
                filled,
            )
            &&& call_ensures(Stack::<B>::cipher, (stack, params, key, input, out), r)
                ==> B::crypt_post(pre, post, params@, key@, input@, old(out)@, filled)
        }),
{
}

/// So is it for the two verifications.
pub proof fn the_facade_is_transparent_to_verdicts<B: CryptoBackend>(
    stack: &mut Stack<B>,
    pubkey: EcPubP384,
    sig: EcSig,
    digest48: &[u8; 48],
    key: RsaKey<'_>,
    rsa_sig: &[u8],
    expected: &[u8],
    r: Result<bool, CryptoError>,
)
    ensures
        call_ensures(Stack::<B>::verify_ecdsa_p384, (stack, pubkey, sig, digest48), r)
            ==> B::ecdsa_post(old(stack)@, final(stack)@, pubkey@, sig@, digest48@, r),
        call_ensures(Stack::<B>::verify_rsa, (stack, key, rsa_sig, expected), r) ==> B::rsa_post(
            old(stack)@,
            final(stack)@,
            key@,
            rsa_sig@,
            expected@,
            r,
        ),
{
}

} // verus!
