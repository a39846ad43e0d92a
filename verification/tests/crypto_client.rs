//! Requests and replies of the remote crypto client.

use openprot::crypto::backend::{
    AesDir, AesKeyBits, AesMode, BackendError, ExpSel, PublicKeyBackend, RegionDescriptor, Segment,
    SymmetricBackend,
};
use openprot::crypto::client::{
    crypt_request, digest_request, digest_result, ecdsa_request, mac_request, parse_no_payload_response,
    parse_payload_response, payload_result, rsa_request, sealed_handle, to_trait_error,
    verdict_result, CryptoClient, IpcError, MAX_BUF_SIZE,
};
use openprot::crypto::protocol::CryptoError as WireError;
use openprot::crypto::server::dispatch_request;
use openprot::crypto::traits::{AesParams, Algo, CryptoError, EcPubP384, EcSig, KeyRef, RsaKey};

const AES: AesParams = AesParams {
    mode: AesMode::Cbc,
    dir: AesDir::Decrypt,
    key_bits: AesKeyBits::Bits256,
    iv: [0xA5; 16],
};

#[test]
fn the_client_holds_its_handle() {
    assert_eq!(CryptoClient::new(17).handle(), 17);
    assert_eq!(MAX_BUF_SIZE, 8 + 1024 + 256);
}

#[test]
fn only_sealed_handles_leave() {
    assert_eq!(sealed_handle(KeyRef::Sealed(5)), Ok(5));
    assert_eq!(sealed_handle(KeyRef::Raw(b"secret")), Err(CryptoError::InvalidKey));
    let mut req = [0u8; MAX_BUF_SIZE];
    assert_eq!(
        mac_request(&mut req, Algo::Sha256, KeyRef::Raw(b"secret"), b"m", 32),
        Err(CryptoError::InvalidKey)
    );
    assert_eq!(
        crypt_request(&mut req, AES, KeyRef::Raw(b"secret"), &[0; 16], 16),
        Err(CryptoError::InvalidKey)
    );
    assert!(req.iter().all(|&b| b == 0));
}

#[test]
fn digest_request_bytes() {
    let mut req = [0u8; MAX_BUF_SIZE];
    assert_eq!(digest_request(&mut req, Algo::Sha384, b"abc", 48), Ok(11));
    assert_eq!(req[..11], [0, 1, 2, 0, 0, 0, 3, 0, b'a', b'b', b'c']);
    assert_eq!(
        digest_request(&mut req, Algo::Sha384, b"abc", 47),
        Err(CryptoError::OutputTooSmall)
    );
    assert_eq!(digest_request(&mut req, Algo::Sha256, &[1; 1024], 32), Ok(1032));
    assert_eq!(
        digest_request(&mut req, Algo::Sha256, &[1; 1025], 32),
        Err(CryptoError::OutputTooSmall)
    );
    let mut small = [0u8; 10];
    assert_eq!(
        digest_request(&mut small, Algo::Sha256, b"abc", 32),
        Err(CryptoError::OutputTooSmall)
    );
}

#[test]
fn mac_request_bytes() {
    let mut req = [0u8; MAX_BUF_SIZE];
    assert_eq!(
        mac_request(&mut req, Algo::Sha512, KeyRef::Sealed(7), b"xy", 64),
        Ok(10)
    );
    assert_eq!(req[..10], [0, 4, 3, 7, 0, 0, 2, 0, b'x', b'y']);
    assert_eq!(
        mac_request(&mut req, Algo::Sha512, KeyRef::Sealed(7), b"xy", 63),
        Err(CryptoError::OutputTooSmall)
    );
    assert_eq!(
        mac_request(&mut req, Algo::Sha512, KeyRef::Sealed(7), &[0; 1025], 64),
        Err(CryptoError::OutputTooSmall)
    );
}

#[test]
fn crypt_request_bytes() {
    let mut req = [0u8; MAX_BUF_SIZE];
    assert_eq!(
        crypt_request(&mut req, AES, KeyRef::Sealed(3), &[9; 32], 32),
        Ok(8 + 16 + 32)
    );
    assert_eq!(req[..8], [0, 5, 0, 3, 7, 0, 48, 0]);
    assert_eq!(req[8..24], [0xA5; 16]);
    assert_eq!(req[24..56], [9; 32]);
    let ecb = AesParams {
        mode: AesMode::Ecb,
        dir: AesDir::Encrypt,
        key_bits: AesKeyBits::Bits128,
        iv: [0; 16],
    };
    assert_eq!(crypt_request(&mut req, ecb, KeyRef::Sealed(3), &[], 0), Ok(24));
    assert_eq!(req[..8], [0, 5, 0, 3, 0, 0, 16, 0]);
    // The largest input announces itself and the vector.
    assert_eq!(
        crypt_request(&mut req, AES, KeyRef::Sealed(1), &[0; 1024], 1024),
        Ok(8 + 16 + 1024)
    );
    assert_eq!(req[6..8], [0x10, 0x04]);
    // Alignment comes first, then the key, then the sizes.
    assert_eq!(
        crypt_request(&mut req, AES, KeyRef::Raw(&[]), &[0; 15], 0),
        Err(CryptoError::InputNotBlockAligned)
    );
    assert_eq!(
        crypt_request(&mut req, AES, KeyRef::Sealed(1), &[0; 1040], 2000),
        Err(CryptoError::OutputTooSmall)
    );
    assert_eq!(
        crypt_request(&mut req, AES, KeyRef::Sealed(1), &[0; 16], 15),
        Err(CryptoError::OutputTooSmall)
    );
}

#[test]
fn ecdsa_request_bytes() {
    let mut req = [0u8; MAX_BUF_SIZE];
    let pubkey = EcPubP384 {
        qx: [1; 48],
        qy: [2; 48],
    };
    let sig = EcSig {
        r: [3; 48],
        s: [4; 48],
    };
    assert_eq!(ecdsa_request(&mut req, pubkey, sig, &[5; 48]), Ok(248));
    assert_eq!(req[..8], [1, 1, 0, 0, 0, 0, 240, 0]);
    for i in 0..5 {
        assert_eq!(req[8 + 48 * i..8 + 48 * (i + 1)], [i as u8 + 1; 48]);
    }
}

#[test]
fn rsa_request_bytes() {
    let mut req = [0u8; MAX_BUF_SIZE];
    let modulus = [1u8; 300];
    let key = RsaKey {
        modulus: &modulus,
        exponent: &[3, 4],
    };
    assert_eq!(rsa_request(&mut req, key, &[5; 4], &[6; 3]), Ok(8 + 8 + 309));
    assert_eq!(req[..8], [1, 2, 0, 0, 0, 0, 61, 1]);
    assert_eq!(req[8..16], [44, 1, 4, 0, 2, 0, 3, 0]);
    assert_eq!(req[16..316], modulus);
    assert_eq!(req[316..325], [5, 5, 5, 5, 3, 4, 6, 6, 6]);
    let big = [0u8; 1024];
    let key = RsaKey {
        modulus: &big,
        exponent: &[],
    };
    assert_eq!(rsa_request(&mut req, key, &[], &[]), Err(CryptoError::OutputTooSmall));
    let key = RsaKey {
        modulus: &big[..1016],
        exponent: &[],
    };
    assert_eq!(rsa_request(&mut req, key, &[], &[]), Ok(1032));
}

#[test]
fn failures_collapse_into_the_seam() {
    let unsupported = [WireError::InvalidAlgo, WireError::InvalidOperation];
    for e in unsupported {
        assert_eq!(to_trait_error(IpcError::Server(e)), CryptoError::Unsupported);
    }
    assert_eq!(
        to_trait_error(IpcError::Server(WireError::InvalidKeyHandle)),
        CryptoError::InvalidKey
    );
    assert_eq!(
        to_trait_error(IpcError::Server(WireError::InputNotBlockAligned)),
        CryptoError::InputNotBlockAligned
    );
    assert_eq!(
        to_trait_error(IpcError::BufferTooSmall),
        CryptoError::OutputTooSmall
    );
    for e in [
        IpcError::Transport,
        IpcError::InvalidResponse,
        IpcError::Server(WireError::Busy),
        IpcError::Server(WireError::Timeout),
        IpcError::Server(WireError::EngineFault),
        IpcError::Server(WireError::VerifyFailed),
        IpcError::Server(WireError::Success),
        IpcError::Server(WireError::InternalError),
    ] {
        assert_eq!(to_trait_error(e), CryptoError::EngineFault);
    }
}

#[test]
fn replies_are_parsed() {
    let mut out = [9u8; 4];
    assert_eq!(parse_payload_response(&[0, 0, 2, 0, 7, 8, 1], &mut out), Ok(2));
    assert_eq!(out, [7, 8, 9, 9]);
    assert_eq!(
        parse_payload_response(&[0, 0, 2], &mut out),
        Err(IpcError::InvalidResponse)
    );
    assert_eq!(
        parse_payload_response(&[0, 0, 2, 0, 7], &mut out),
        Err(IpcError::InvalidResponse)
    );
    assert_eq!(
        parse_payload_response(&[0, 0, 5, 0, 1, 2, 3, 4, 5], &mut out),
        Err(IpcError::InvalidResponse)
    );
    assert_eq!(
        parse_payload_response(&[5, 0, 0, 0], &mut out),
        Err(IpcError::Server(WireError::Busy))
    );
    assert_eq!(out, [7, 8, 9, 9]);
    assert_eq!(parse_no_payload_response(&[0, 0, 0, 0]), Ok(()));
    assert_eq!(parse_no_payload_response(&[0, 0, 0]), Err(IpcError::InvalidResponse));
    assert_eq!(
        parse_no_payload_response(&[8, 0, 0, 0]),
        Err(IpcError::Server(WireError::VerifyFailed))
    );
}

#[test]
fn results_from_replies() {
    let mut out = [0u8; 2];
    assert_eq!(payload_result(Some(&[0, 0, 1, 0, 42]), &mut out), Ok(1));
    assert_eq!(out, [42, 0]);
    assert_eq!(
        payload_result(Some(&[3, 0, 0, 0]), &mut out),
        Err(CryptoError::InvalidKey)
    );
    assert_eq!(payload_result(None, &mut out), Err(CryptoError::EngineFault));
    assert_eq!(verdict_result(Some(&[0, 0, 0, 0])), Ok(true));
    assert_eq!(verdict_result(Some(&[8, 0, 0, 0])), Ok(false));
    assert_eq!(verdict_result(Some(&[7, 0, 0, 0])), Err(CryptoError::EngineFault));
    assert_eq!(verdict_result(Some(&[])), Err(CryptoError::EngineFault));
    assert_eq!(verdict_result(None), Err(CryptoError::EngineFault));
}

#[test]
fn a_digest_has_the_size_of_its_algorithm() {
    let mut out = [9u8; 40];
    let mut reply = vec![0, 0, 32, 0];
    reply.extend_from_slice(&[7; 32]);
    assert_eq!(digest_result(Algo::Sha256, Some(&reply), &mut out), Ok(32));
    assert_eq!(out[..32], [7; 32]);
    assert_eq!(out[32..], [9; 8]);
    // Anything else is a fault, and leaves the buffer alone.
    let mut out = [9u8; 64];
    for (algo, reply) in [
        (Algo::Sha256, vec![0, 0, 1, 0, 42]),
        (Algo::Sha256, vec![0, 0, 0, 0]),
        (Algo::Sha384, reply.clone()),
        (Algo::Sha512, reply.clone()),
        (Algo::Sha256, reply[..35].to_vec()),
        (Algo::Sha256, vec![0, 0, 32]),
    ] {
        assert_eq!(
            digest_result(algo, Some(&reply), &mut out),
            Err(CryptoError::EngineFault)
        );
    }
    assert_eq!(
        digest_result(Algo::Sha256, Some(&[2, 0, 0, 0]), &mut out),
        Err(CryptoError::Unsupported)
    );
    assert_eq!(
        digest_result(Algo::Sha256, None, &mut out),
        Err(CryptoError::EngineFault)
    );
    assert_eq!(out, [9; 64]);
    let mut short = [9u8; 31];
    assert_eq!(
        digest_result(Algo::Sha256, Some(&reply), &mut short),
        Err(CryptoError::EngineFault)
    );
    assert_eq!(short, [9; 31]);
}

/// Answers every operation with the bytes it was given, and a hash with those
/// bytes up to the size of a digest.
struct Echo {
    verdict: bool,
    aes_input: Vec<u8>,
}

fn copy(input: &[u8], out: &mut [u8]) -> Result<usize, BackendError> {
    out[..input.len()].copy_from_slice(input);
    Ok(input.len())
}

impl SymmetricBackend for Echo {
    fn hash(&mut self, algo: Algo, input: &[u8], out: &mut [u8]) -> Result<usize, BackendError> {
        let n = algo.digest_len();
        out[..n].fill(0);
        copy(input, out)?;
        Ok(n)
    }

    fn hash_region(
        &mut self,
        _a: Algo,
        _r: RegionDescriptor,
        _out: &mut [u8],
    ) -> Result<usize, BackendError> {
        Err(BackendError::InvalidOperation)
    }

    fn hash_sg(
        &mut self,
        _a: Algo,
        _s: &[Segment<'_>],
        _out: &mut [u8],
    ) -> Result<usize, BackendError> {
        Err(BackendError::InvalidOperation)
    }

    fn hmac(
        &mut self,
        _a: Algo,
        _k: KeyRef<'_>,
        input: &[u8],
        out: &mut [u8],
    ) -> Result<usize, BackendError> {
        copy(input, out)
    }

    fn aes(
        &mut self,
        params: AesParams,
        _k: KeyRef<'_>,
        input: &[u8],
        out: &mut [u8],
    ) -> Result<usize, BackendError> {
        assert_eq!(params, AES);
        self.aes_input = input.to_vec();
        copy(input, out)
    }
}

impl PublicKeyBackend for Echo {
    fn ecdsa_p384_verify(
        &mut self,
        _p: EcPubP384,
        _s: EcSig,
        _d: &[u8; 48],
    ) -> Result<bool, BackendError> {
        Ok(self.verdict)
    }

    fn rsa_modexp(
        &mut self,
        exp: ExpSel,
        key: RsaKey<'_>,
        _input: &[u8],
        _out: &mut [u8],
    ) -> Result<usize, BackendError> {
        assert_eq!(exp, ExpSel::Public);
        assert!(key.modulus.is_empty() && key.exponent.is_empty());
        if self.verdict {
            Ok(0)
        } else {
            Err(BackendError::InvalidKeyHandle)
        }
    }
}

fn serve(echo: &mut Echo, req: &[u8]) -> Vec<u8> {
    let mut other = Echo {
        verdict: echo.verdict,
        aes_input: Vec::new(),
    };
    let mut resp = [0u8; 2048];
    let n = dispatch_request(echo, &mut other, req, &mut resp);
    resp[..n].to_vec()
}

#[test]
fn client_and_server_agree() {
    let mut echo = Echo {
        verdict: false,
        aes_input: Vec::new(),
    };
    let mut req = [0u8; MAX_BUF_SIZE];
    let mut out = [0u8; 64];

    let n = digest_request(&mut req, Algo::Sha256, b"hello", out.len()).unwrap();
    let resp = serve(&mut echo, &req[..n]);
    assert_eq!(digest_result(Algo::Sha256, Some(&resp), &mut out), Ok(32));
    assert_eq!(&out[..6], b"hello\0");

    let n = mac_request(&mut req, Algo::Sha256, KeyRef::Sealed(1), b"world", out.len()).unwrap();
    let resp = serve(&mut echo, &req[..n]);
    assert_eq!(payload_result(Some(&resp), &mut out), Ok(5));
    assert_eq!(&out[..5], b"world");

    let pubkey = EcPubP384 {
        qx: [1; 48],
        qy: [2; 48],
    };
    let sig = EcSig {
        r: [3; 48],
        s: [4; 48],
    };
    let n = ecdsa_request(&mut req, pubkey, sig, &[5; 48]).unwrap();
    assert_eq!(verdict_result(Some(&serve(&mut echo, &req[..n]))), Ok(false));
    echo.verdict = true;
    assert_eq!(verdict_result(Some(&serve(&mut echo, &req[..n]))), Ok(true));
}

#[test]
fn a_server_sees_the_whole_of_the_cipher_data() {
    let mut echo = Echo {
        verdict: true,
        aes_input: Vec::new(),
    };
    let mut req = [0u8; MAX_BUF_SIZE];
    let mut input = [1u8; 32];
    input[16..].copy_from_slice(&[2u8; 16]);
    let n = crypt_request(&mut req, AES, KeyRef::Sealed(1), &input, 32).unwrap();
    let mut out = [0u8; 32];
    let resp = serve(&mut echo, &req[..n]);
    assert_eq!(echo.aes_input, input);
    assert_eq!(payload_result(Some(&resp), &mut out), Ok(32));
    assert_eq!(out, input);
    let n = crypt_request(&mut req, AES, KeyRef::Sealed(1), &[], 0).unwrap();
    assert_eq!(serve(&mut echo, &req[..n]), vec![0, 0, 0, 0]);
    assert!(echo.aes_input.is_empty());
}

#[test]
fn a_server_reads_an_rsa_request_as_an_empty_key() {
    let mut echo = Echo {
        verdict: true,
        aes_input: Vec::new(),
    };
    let mut req = [0u8; MAX_BUF_SIZE];
    let key = RsaKey {
        modulus: &[1, 2],
        exponent: &[3],
    };
    let n = rsa_request(&mut req, key, &[4], &[5]).unwrap();
    assert_eq!(verdict_result(Some(&serve(&mut echo, &req[..n]))), Ok(true));
    echo.verdict = false;
    assert_eq!(
        verdict_result(Some(&serve(&mut echo, &req[..n]))),
        Err(CryptoError::InvalidKey)
    );
}
