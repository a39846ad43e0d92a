//! Codes and headers of the crypto protocol.

use openprot::crypto::backend::BackendError;
use openprot::crypto::protocol::{
    Algo, CryptoError, CryptoRequestHeader, CryptoResponseHeader, Engine, PublicKeyOp, SymmetricOp,
    MAX_DIGEST_SIZE, MAX_PAYLOAD_SIZE,
};

#[test]
fn selector_codes_are_stable() {
    assert_eq!(Engine::Symmetric.code(), 0);
    assert_eq!(Engine::PublicKey.code(), 1);
    assert_eq!(Engine::try_from(1), Ok(Engine::PublicKey));
    assert_eq!(Engine::try_from(2), Err(CryptoError::InvalidOperation));
    let sym = [
        SymmetricOp::HashOneShot,
        SymmetricOp::HashRegion,
        SymmetricOp::HashSg,
        SymmetricOp::Hmac,
        SymmetricOp::AesCrypt,
    ];
    for (i, op) in sym.into_iter().enumerate() {
        assert_eq!(op.code() as usize, i + 1);
        assert_eq!(SymmetricOp::try_from(op.code()), Ok(op));
    }
    assert_eq!(SymmetricOp::try_from(0), Err(CryptoError::InvalidOperation));
    assert_eq!(SymmetricOp::try_from(6), Err(CryptoError::InvalidOperation));
    assert_eq!(PublicKeyOp::try_from(1), Ok(PublicKeyOp::EcdsaP384Verify));
    assert_eq!(PublicKeyOp::try_from(2), Ok(PublicKeyOp::RsaModexp));
    assert_eq!(PublicKeyOp::try_from(3), Err(CryptoError::InvalidOperation));
    assert_eq!(Algo::try_from(4), Err(CryptoError::InvalidAlgo));
    assert_eq!(Algo::try_from(0), Err(CryptoError::InvalidAlgo));
}

#[test]
fn digest_sizes() {
    assert_eq!(Algo::Sha256.digest_len(), 32);
    assert_eq!(Algo::Sha384.digest_len(), 48);
    assert_eq!(Algo::Sha512.digest_len(), MAX_DIGEST_SIZE);
    assert_eq!(Algo::try_from(Algo::Sha384.code()), Ok(Algo::Sha384));
    assert_eq!(MAX_PAYLOAD_SIZE, 1024);
}

#[test]
fn status_codes_round_trip() {
    let all = [
        (CryptoError::Success, 0x00),
        (CryptoError::InvalidOperation, 0x01),
        (CryptoError::InvalidAlgo, 0x02),
        (CryptoError::InvalidKeyHandle, 0x03),
        (CryptoError::InputNotBlockAligned, 0x04),
        (CryptoError::Busy, 0x05),
        (CryptoError::Timeout, 0x06),
        (CryptoError::EngineFault, 0x07),
        (CryptoError::VerifyFailed, 0x08),
        (CryptoError::InternalError, 0xFF),
    ];
    for (e, code) in all {
        assert_eq!(e.code(), code);
        assert_eq!(CryptoError::from(code), e);
    }
    assert_eq!(CryptoError::from(0x09), CryptoError::InternalError);
    assert_eq!(CryptoError::from(0x80), CryptoError::InternalError);
}

#[test]
fn backend_errors_map_one_to_one() {
    assert_eq!(
        CryptoError::from(BackendError::InvalidOperation),
        CryptoError::InvalidOperation
    );
    assert_eq!(
        CryptoError::from(BackendError::InvalidAlgo),
        CryptoError::InvalidAlgo
    );
    assert_eq!(
        CryptoError::from(BackendError::InvalidKeyHandle),
        CryptoError::InvalidKeyHandle
    );
    assert_eq!(
        CryptoError::from(BackendError::InputNotBlockAligned),
        CryptoError::InputNotBlockAligned
    );
    assert_eq!(CryptoError::from(BackendError::Busy), CryptoError::Busy);
    assert_eq!(CryptoError::from(BackendError::Timeout), CryptoError::Timeout);
    assert_eq!(
        CryptoError::from(BackendError::EngineFault),
        CryptoError::EngineFault
    );
    assert_eq!(
        CryptoError::from(BackendError::InternalError),
        CryptoError::InternalError
    );
}

#[test]
fn request_header_layout() {
    let hdr = CryptoRequestHeader::new(Engine::PublicKey, 2, 3, 4, 0x1234, 0xABCD);
    let bytes = hdr.to_bytes();
    assert_eq!(bytes, [1, 2, 3, 4, 0x34, 0x12, 0xCD, 0xAB]);
    assert_eq!(CryptoRequestHeader::from_bytes(&bytes), hdr);
    assert_eq!(hdr.engine(), Ok(Engine::PublicKey));
    assert_eq!(hdr.algorithm(), Ok(Algo::Sha512));
    assert_eq!(hdr.arg0_value(), 0x1234);
    assert_eq!(hdr.payload_length(), 0xABCD);
    assert_eq!(CryptoRequestHeader::SIZE, 8);
    let long = [0, 1, 9, 7, 1, 0, 2, 0, 55, 66];
    let hdr = CryptoRequestHeader::from_bytes(&long);
    assert_eq!(hdr.engine(), Ok(Engine::Symmetric));
    assert_eq!(hdr.algorithm(), Err(CryptoError::InvalidAlgo));
    assert_eq!(hdr.arg0_value(), 1);
    assert_eq!(hdr.payload_length(), 2);
}

#[test]
fn response_header_layout() {
    let ok = CryptoResponseHeader::success(0x0201);
    assert_eq!(ok.to_bytes(), [0, 0, 1, 2]);
    assert!(ok.is_success());
    assert_eq!(ok.payload_length(), 0x0201);
    let err = CryptoResponseHeader::error(CryptoError::VerifyFailed);
    assert_eq!(err.to_bytes(), [8, 0, 0, 0]);
    assert!(!err.is_success());
    assert_eq!(err.error_code(), CryptoError::VerifyFailed);
    assert_eq!(CryptoResponseHeader::from_bytes(&[7, 1, 2, 3, 4]).error_code(), CryptoError::EngineFault);
    assert_eq!(CryptoResponseHeader::from_bytes(&[7, 1, 2, 3, 4]).payload_length(), 0x0302);
}
