//! The crypto facade over a mock provider.

use openprot::crypto::traits::{
    AesParams, Algo, Cipher, CryptoError, Digest, EcPubP384, EcSig, KeyRef, Mac, RsaKey, Stack,
    Verify,
};
use openprot::crypto::backend::{AesDir, AesKeyBits, AesMode};

/// Digests are filled with `0xAB`, and verification returns a scripted verdict.
#[derive(Default)]
struct MockBackend {
    verdict: bool,
}

impl Digest for MockBackend {
    fn digest(&mut self, algo: Algo, _input: &[u8], out: &mut [u8]) -> Result<usize, CryptoError> {
        let n = algo.digest_len();
        if out.len() < n {
            return Err(CryptoError::OutputTooSmall);
        }
        for b in &mut out[..n] {
            *b = 0xAB;
        }
        Ok(n)
    }
}

impl Mac for MockBackend {
    fn mac(
        &mut self,
        algo: Algo,
        _key: KeyRef<'_>,
        _input: &[u8],
        out: &mut [u8],
    ) -> Result<usize, CryptoError> {
        let n = algo.digest_len();
        if out.len() < n {
            return Err(CryptoError::OutputTooSmall);
        }
        Ok(n)
    }
}

impl Cipher for MockBackend {
    fn crypt(
        &mut self,
        _params: AesParams,
        _key: KeyRef<'_>,
        input: &[u8],
        out: &mut [u8],
    ) -> Result<usize, CryptoError> {
        out[..input.len()].copy_from_slice(input);
        Ok(input.len())
    }
}

impl Verify for MockBackend {
    fn ecdsa_p384_verify(
        &mut self,
        _pubkey: EcPubP384,
        _sig: EcSig,
        _digest48: &[u8; 48],
    ) -> Result<bool, CryptoError> {
        Ok(self.verdict)
    }

    fn rsa_verify(
        &mut self,
        _key: RsaKey<'_>,
        _sig: &[u8],
        _expected: &[u8],
    ) -> Result<bool, CryptoError> {
        Ok(self.verdict)
    }
}

#[test]
fn stack_digest_delegates() {
    let mut stack = Stack::new(MockBackend::default());
    let mut out = [0u8; 32];
    let n = stack.digest(Algo::Sha256, b"x", &mut out).unwrap();
    assert_eq!(n, 32);
    assert!(out.iter().all(|&b| b == 0xAB));
}

#[test]
fn stack_verify_is_a_result_not_an_error() {
    let mut stack = Stack::new(MockBackend { verdict: false });
    let r = stack
        .verify_ecdsa_p384(
            EcPubP384 {
                qx: [0; 48],
                qy: [0; 48],
            },
            EcSig {
                r: [0; 48],
                s: [0; 48],
            },
            &[0u8; 48],
        )
        .unwrap();
    assert!(!r);
}

#[test]
fn stack_verify_accessor_delegates() {
    let mut stack = Stack::new(MockBackend { verdict: true });
    let ok = stack
        .verify()
        .rsa_verify(
            RsaKey {
                modulus: &[1, 2, 3],
                exponent: &[1],
            },
            &[0u8; 4],
            &[0u8; 4],
        )
        .unwrap();
    assert!(ok);
}

#[test]
fn stack_delegates_the_rest() {
    let mut stack = Stack::new(MockBackend { verdict: true });
    let mut out = [0u8; 48];
    assert_eq!(
        stack.mac(Algo::Sha384, KeyRef::Sealed(3), b"m", &mut out),
        Ok(48)
    );
    assert_eq!(
        stack.mac(Algo::Sha512, KeyRef::Sealed(3), b"m", &mut out),
        Err(CryptoError::OutputTooSmall)
    );
    let params = AesParams {
        mode: AesMode::Ecb,
        dir: AesDir::Encrypt,
        key_bits: AesKeyBits::Bits128,
        iv: [0; 16],
    };
    assert_eq!(
        stack.cipher(params, KeyRef::Sealed(1), &[7; 16], &mut out),
        Ok(16)
    );
    assert_eq!(out[..16], [7; 16]);
    let key = RsaKey {
        modulus: &[1],
        exponent: &[1],
    };
    assert_eq!(stack.verify_rsa(key, &[1], &[2]), Ok(true));
    assert!(stack.into_inner().verdict);
}
