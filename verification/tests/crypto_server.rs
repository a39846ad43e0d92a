//! The crypto dispatcher over recording backends.

use openprot::crypto::backend::{
    AesDir, AesKeyBits, AesMode, AesParams, BackendError, EcPubP384, EcSig, ExpSel, KeyRef,
    PublicKeyBackend, RegionDescriptor, RsaKey, Segment, SymmetricBackend,
};
use openprot::crypto::protocol::{Algo, CryptoError};
use openprot::crypto::server::{
    dispatch_request, encode_error, encode_success, MAX_REQUEST_SIZE, MAX_RESPONSE_SIZE,
};

#[derive(Debug, Clone, PartialEq)]
enum Call {
    Hash(Algo, Vec<u8>),
    Region(Algo, RegionDescriptor),
    Sg(Algo, Vec<Vec<u8>>),
    Hmac(Algo, u8, Vec<u8>),
    Aes(AesParams, u8, Vec<u8>),
    Ecdsa(Vec<u8>, Vec<u8>, Vec<u8>, Vec<u8>, Vec<u8>),
    Rsa(ExpSel, Vec<u8>, Vec<u8>, Vec<u8>),
}

/// Fills the output with `0x5A` and reports `result`.
struct Recorder {
    calls: Vec<Call>,
    result: Result<usize, BackendError>,
    verdict: Result<bool, BackendError>,
}

impl Recorder {
    fn new(n: usize) -> Self {
        Recorder {
            calls: Vec::new(),
            result: Ok(n),
            verdict: Ok(true),
        }
    }

    fn fill(&self, out: &mut [u8]) -> Result<usize, BackendError> {
        if let Ok(n) = self.result {
            for b in &mut out[..n] {
                *b = 0x5A;
            }
        }
        self.result
    }
}

fn handle(key: KeyRef<'_>) -> u8 {
    match key {
        KeyRef::Sealed(h) => h,
        KeyRef::Raw(_) => panic!("a raw key crossed the wire"),
    }
}

impl SymmetricBackend for Recorder {
    fn hash(&mut self, algo: Algo, input: &[u8], out: &mut [u8]) -> Result<usize, BackendError> {
        self.calls.push(Call::Hash(algo, input.to_vec()));
        self.fill(out)
    }

    fn hash_region(
        &mut self,
        algo: Algo,
        region: RegionDescriptor,
        out: &mut [u8],
    ) -> Result<usize, BackendError> {
        self.calls.push(Call::Region(algo, region));
        self.fill(out)
    }

    fn hash_sg(
        &mut self,
        algo: Algo,
        segments: &[Segment<'_>],
        out: &mut [u8],
    ) -> Result<usize, BackendError> {
        self.calls
            .push(Call::Sg(algo, segments.iter().map(|s| s.data.to_vec()).collect()));
        self.fill(out)
    }

    fn hmac(
        &mut self,
        algo: Algo,
        key: KeyRef<'_>,
        input: &[u8],
        out: &mut [u8],
    ) -> Result<usize, BackendError> {
        self.calls.push(Call::Hmac(algo, handle(key), input.to_vec()));
        self.fill(out)
    }

    fn aes(
        &mut self,
        params: AesParams,
        key: KeyRef<'_>,
        input: &[u8],
        out: &mut [u8],
    ) -> Result<usize, BackendError> {
        self.calls.push(Call::Aes(params, handle(key), input.to_vec()));
        self.fill(out)
    }
}

impl PublicKeyBackend for Recorder {
    fn ecdsa_p384_verify(
        &mut self,
        pubkey: EcPubP384,
        sig: EcSig,
        digest48: &[u8; 48],
    ) -> Result<bool, BackendError> {
        self.calls.push(Call::Ecdsa(
            pubkey.qx.to_vec(),
            pubkey.qy.to_vec(),
            sig.r.to_vec(),
            sig.s.to_vec(),
            digest48.to_vec(),
        ));
        self.verdict
    }

    fn rsa_modexp(
        &mut self,
        exp: ExpSel,
        key: RsaKey<'_>,
        input: &[u8],
        out: &mut [u8],
    ) -> Result<usize, BackendError> {
        self.calls.push(Call::Rsa(
            exp,
            key.modulus.to_vec(),
            key.exponent.to_vec(),
            input.to_vec(),
        ));
        self.fill(out)
    }
}

fn request(engine: u8, op: u8, algo: u8, key: u8, arg0: u16, payload: &[u8]) -> Vec<u8> {
    let mut r = vec![engine, op, algo, key];
    r.extend_from_slice(&arg0.to_le_bytes());
    r.extend_from_slice(&(payload.len() as u16).to_le_bytes());
    r.extend_from_slice(payload);
    r
}

fn run(sym: &mut Recorder, pk: &mut Recorder, req: &[u8]) -> Vec<u8> {
    let mut resp = [0u8; 64];
    let n = dispatch_request(sym, pk, req, &mut resp);
    resp[..n].to_vec()
}

fn reply(req: &[u8]) -> Vec<u8> {
    run(&mut Recorder::new(2), &mut Recorder::new(2), req)
}

#[test]
fn a_hash_request_is_hashed() {
    let mut sym = Recorder::new(3);
    let mut pk = Recorder::new(0);
    let mut req = request(0, 1, 2, 0, 0, b"data");
    req.push(0xFF);
    assert_eq!(
        run(&mut sym, &mut pk, &req),
        vec![0, 0, 3, 0, 0x5A, 0x5A, 0x5A]
    );
    assert_eq!(sym.calls, vec![Call::Hash(Algo::Sha384, b"data".to_vec())]);
    assert!(pk.calls.is_empty());
}

#[test]
fn region_and_segment_requests() {
    let mut sym = Recorder::new(1);
    let mut pk = Recorder::new(0);
    let mut payload = 0x0102_0304_0506_0708u64.to_le_bytes().to_vec();
    payload.extend_from_slice(&0x0A0B_0C0Du32.to_le_bytes());
    run(&mut sym, &mut pk, &request(0, 2, 1, 0, 0, &payload));
    run(&mut sym, &mut pk, &request(0, 3, 3, 0, 0, b"seg"));
    assert_eq!(
        sym.calls,
        vec![
            Call::Region(
                Algo::Sha256,
                RegionDescriptor {
                    base: 0x0102_0304_0506_0708,
                    len: 0x0A0B_0C0D
                }
            ),
            Call::Sg(Algo::Sha512, vec![b"seg".to_vec()]),
        ]
    );
    assert_eq!(reply(&request(0, 2, 1, 0, 0, &payload[..11])), vec![1, 0, 0, 0]);
}

#[test]
fn keys_are_sealed_handles() {
    let mut sym = Recorder::new(1);
    let mut pk = Recorder::new(0);
    run(&mut sym, &mut pk, &request(0, 4, 1, 9, 0, b"msg"));
    let mut payload: Vec<u8> = (0..16).collect();
    payload.extend_from_slice(&[7; 32]);
    run(&mut sym, &mut pk, &request(0, 5, 0, 11, 0b101, &payload));
    let mut iv = [0u8; 16];
    iv.copy_from_slice(&payload[..16]);
    assert_eq!(
        sym.calls,
        vec![
            Call::Hmac(Algo::Sha256, 9, b"msg".to_vec()),
            Call::Aes(
                AesParams {
                    mode: AesMode::Cbc,
                    dir: AesDir::Encrypt,
                    key_bits: AesKeyBits::Bits256,
                    iv
                },
                11,
                vec![7; 32]
            ),
        ]
    );
}

#[test]
fn aes_selector_bits() {
    let payload = [0u8; 16];
    for arg0 in [0u16, 1, 2, 3, 4, 5, 6, 7, 0xFFF8, 0xFFFF] {
        let mut sym = Recorder::new(0);
        run(
            &mut sym,
            &mut Recorder::new(0),
            &request(0, 5, 0, 0, arg0, &payload),
        );
        let expected = AesParams {
            mode: if arg0 & 1 == 0 { AesMode::Ecb } else { AesMode::Cbc },
            dir: if arg0 & 2 == 0 {
                AesDir::Encrypt
            } else {
                AesDir::Decrypt
            },
            key_bits: if arg0 & 4 == 0 {
                AesKeyBits::Bits128
            } else {
                AesKeyBits::Bits256
            },
            iv: [0; 16],
        };
        assert_eq!(sym.calls, vec![Call::Aes(expected, 0, vec![])]);
    }
}

#[test]
fn misaligned_aes_data_reaches_no_engine() {
    let mut sym = Recorder::new(0);
    let mut pk = Recorder::new(0);
    assert_eq!(
        run(&mut sym, &mut pk, &request(0, 5, 0, 0, 0, &[0; 17])),
        vec![4, 0, 0, 0]
    );
    assert_eq!(
        run(&mut sym, &mut pk, &request(0, 5, 0, 0, 0, &[0; 15])),
        vec![1, 0, 0, 0]
    );
    assert!(sym.calls.is_empty());
}

#[test]
fn malformed_requests_are_answered() {
    // Too short, unknown engine, truncated payload, unknown operations.
    assert_eq!(reply(&[0; 7]), vec![1, 0, 0, 0]);
    assert_eq!(reply(&request(2, 1, 1, 0, 0, b"")), vec![1, 0, 0, 0]);
    let mut short = request(0, 1, 1, 0, 0, b"abc");
    short.pop();
    assert_eq!(reply(&short), vec![1, 0, 0, 0]);
    assert_eq!(reply(&request(0, 6, 1, 0, 0, b"")), vec![1, 0, 0, 0]);
    assert_eq!(reply(&request(1, 3, 1, 0, 0, b"")), vec![1, 0, 0, 0]);
    // An unknown algorithm is told apart.
    for op in 1..=4 {
        assert_eq!(reply(&request(0, op, 4, 0, 0, &[0; 12])), vec![2, 0, 0, 0]);
    }
}

#[test]
fn verdicts_are_told_apart() {
    let payload: Vec<u8> = (0..240).map(|i| (i / 48) as u8).collect();
    let req = request(1, 1, 0, 0, 0, &payload);
    let cases = [
        (Ok(true), 0u8),
        (Ok(false), 8),
        (Err(BackendError::Timeout), 6),
        (Err(BackendError::InternalError), 0xFF),
    ];
    for (verdict, status) in cases {
        let mut pk = Recorder::new(0);
        pk.verdict = verdict;
        let mut sym = Recorder::new(0);
        assert_eq!(run(&mut sym, &mut pk, &req), vec![status, 0, 0, 0]);
        assert_eq!(
            pk.calls,
            vec![Call::Ecdsa(
                vec![0; 48],
                vec![1; 48],
                vec![2; 48],
                vec![3; 48],
                vec![4; 48]
            )]
        );
        assert!(sym.calls.is_empty());
    }
    assert_eq!(reply(&request(1, 1, 0, 0, 0, &payload[..239])), vec![1, 0, 0, 0]);
}

#[test]
fn rsa_operands_are_split_by_the_modulus_size() {
    let mut pk = Recorder::new(1);
    let mut sym = Recorder::new(0);
    let payload = [1, 2, 3, 4, 5];
    assert_eq!(
        run(&mut sym, &mut pk, &request(1, 2, 0, 0, 2, &payload)),
        vec![0, 0, 1, 0, 0x5A]
    );
    run(&mut sym, &mut pk, &request(1, 2, 0, 1, 0, &payload));
    assert_eq!(
        pk.calls,
        vec![
            Call::Rsa(ExpSel::Public, vec![1, 2], vec![3, 4], vec![5]),
            Call::Rsa(ExpSel::Private, vec![], vec![], payload.to_vec()),
        ]
    );
    assert_eq!(reply(&request(1, 2, 0, 0, 3, &payload)), vec![1, 0, 0, 0]);
    assert_eq!(reply(&request(1, 2, 0, 0, 6, &payload)), vec![1, 0, 0, 0]);
}

#[test]
fn backend_failures_are_statuses() {
    let mut sym = Recorder::new(0);
    sym.result = Err(BackendError::Busy);
    assert_eq!(
        run(&mut sym, &mut Recorder::new(0), &request(0, 1, 1, 0, 0, b"x")),
        vec![5, 0, 0, 0]
    );
    let mut pk = Recorder::new(0);
    pk.result = Err(BackendError::InvalidKeyHandle);
    assert_eq!(
        run(&mut Recorder::new(0), &mut pk, &request(1, 2, 0, 0, 0, b"x")),
        vec![3, 0, 0, 0]
    );
}

#[test]
fn replies_can_be_encoded_directly() {
    let mut resp = [9u8; 8];
    assert_eq!(encode_error(&mut resp, CryptoError::Busy), 4);
    assert_eq!(resp, [5, 0, 0, 0, 9, 9, 9, 9]);
    assert_eq!(encode_success(&mut resp, b"abc"), 7);
    assert_eq!(resp, [0, 0, 3, 0, b'a', b'b', b'c', 9]);
    assert_eq!((MAX_REQUEST_SIZE, MAX_RESPONSE_SIZE), (2048, 2048));
}
