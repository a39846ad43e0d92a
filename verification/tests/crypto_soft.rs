//! The software provider against published vectors.

use openprot::crypto::backend::{AesDir, AesKeyBits, AesMode};
use openprot::crypto::soft::{SoftCipher, SoftCrypto, SoftDigest, SoftMac, SoftVerify};
use openprot::crypto::traits::{
    AesParams, Algo, Cipher, CryptoError, Digest, EcPubP384, EcSig, KeyRef, Mac, RsaKey, Stack,
    Verify,
};

fn hex(s: &str) -> Vec<u8> {
    (0..s.len() / 2)
        .map(|i| u8::from_str_radix(&s[2 * i..2 * i + 2], 16).unwrap())
        .collect()
}

fn params(mode: AesMode, dir: AesDir, key_bits: AesKeyBits) -> AesParams {
    let mut iv = [0u8; 16];
    for (i, b) in iv.iter_mut().enumerate() {
        *b = i as u8;
    }
    AesParams {
        mode,
        dir,
        key_bits,
        iv,
    }
}

#[test]
fn digests_of_abc() {
    let cases = [
        (
            Algo::Sha256,
            "ba7816bf8f01cfea414140de5dae2223b00361a396177a9cb410ff61f20015ad",
        ),
        (
            Algo::Sha384,
            "cb00753f45a35e8bb5a03d699ac65007272c32ab0eded1631a8b605a43ff5bed\
             8086072ba1e7cc2358baeca134c825a7",
        ),
        (
            Algo::Sha512,
            "ddaf35a193617abacc417349ae20413112e6fa4e89a97ea20a9eeee64b55d39a\
             2192992a274fc1a836ba3c23a3feebbd454d4423643ce80e2a9ac94fa54ca49f",
        ),
    ];
    for (algo, expected) in cases {
        let mut out = [0x55u8; 70];
        let n = SoftDigest::new().digest(algo, b"abc", &mut out).unwrap();
        assert_eq!(n, algo.digest_len());
        assert_eq!(out[..n].to_vec(), hex(expected));
        assert!(out[n..].iter().all(|&b| b == 0x55));
    }
}

#[test]
fn a_digest_needs_room() {
    let mut out = [1u8; 31];
    assert_eq!(
        SoftCrypto.digest(Algo::Sha256, b"abc", &mut out),
        Err(CryptoError::OutputTooSmall)
    );
    assert_eq!(out, [1u8; 31]);
}

#[test]
fn macs_of_a_known_message() {
    let cases = [
        (
            Algo::Sha256,
            "5bdcc146bf60754e6a042426089575c75a003f089d2739839dec58b964ec3843",
        ),
        (
            Algo::Sha384,
            "af45d2e376484031617f78d2b58a6b1b9c7ef464f5a01b47e42ec3736322445e\
             8e2240ca5e69e2c78b3239ecfab21649",
        ),
        (
            Algo::Sha512,
            "164b7a7bfcf819e2e395fbe73b56e0a387bd64222e831fd610270cd7ea250554\
             9758bf75c05a994a6d034f65f8f0e6fdcaeab1a34d4a6b4b636e070a38bce737",
        ),
    ];
    for (algo, expected) in cases {
        let mut out = [0u8; 64];
        let n = SoftMac::new()
            .mac(
                algo,
                KeyRef::Raw(b"Jefe"),
                b"what do ya want for nothing?",
                &mut out,
            )
            .unwrap();
        assert_eq!(out[..n].to_vec(), hex(expected));
    }
}

#[test]
fn a_mac_takes_raw_keys_only() {
    let mut out = [0u8; 64];
    assert_eq!(
        SoftCrypto.mac(Algo::Sha256, KeyRef::Sealed(1), b"m", &mut out),
        Err(CryptoError::InvalidKey)
    );
    // The key is looked at before the room.
    assert_eq!(
        SoftCrypto.mac(Algo::Sha512, KeyRef::Sealed(1), b"m", &mut out[..1]),
        Err(CryptoError::InvalidKey)
    );
    assert_eq!(
        SoftCrypto.mac(Algo::Sha512, KeyRef::Raw(b"k"), b"m", &mut out[..63]),
        Err(CryptoError::OutputTooSmall)
    );
    // A key of any size is taken.
    assert_eq!(
        SoftCrypto.mac(Algo::Sha256, KeyRef::Raw(&[]), b"m", &mut out),
        Ok(32)
    );
    assert_eq!(
        SoftCrypto.mac(Algo::Sha256, KeyRef::Raw(&[9; 200]), b"m", &mut out),
        Ok(32)
    );
}

#[test]
fn aes_blocks_match_the_standard() {
    let plain = hex("00112233445566778899aabbccddeeff");
    let key: Vec<u8> = (0u8..32).collect();
    let cases = [
        (AesKeyBits::Bits128, 16, "69c4e0d86a7b0430d8cdb78070b4c55a"),
        (AesKeyBits::Bits256, 32, "8ea2b7ca516745bfeafc49904b496089"),
    ];
    for (bits, len, cipher) in cases {
        let mut out = [0u8; 16];
        let n = SoftCipher::new()
            .crypt(
                params(AesMode::Ecb, AesDir::Encrypt, bits),
                KeyRef::Raw(&key[..len]),
                &plain,
                &mut out,
            )
            .unwrap();
        assert_eq!(n, 16);
        assert_eq!(out.to_vec(), hex(cipher));
        let mut back = [0u8; 16];
        SoftCrypto
            .crypt(
                params(AesMode::Ecb, AesDir::Decrypt, bits),
                KeyRef::Raw(&key[..len]),
                &out,
                &mut back,
            )
            .unwrap();
        assert_eq!(back.to_vec(), plain);
    }
}

#[test]
fn cbc_matches_the_standard() {
    let plain = hex("6bc1bee22e409f96e93d7e117393172aae2d8a571e03ac9c9eb76fac45af8e51");
    let cases = [
        (
            AesKeyBits::Bits128,
            "2b7e151628aed2a6abf7158809cf4f3c",
            "7649abac8119b246cee98e9b12e9197d5086cb9b507219ee95db113a917678b2",
        ),
        (
            AesKeyBits::Bits256,
            "603deb1015ca71be2b73aef0857d77811f352c073b6108d72d9810a30914dff4",
            "f58c4c04d6e5f1ba779eabfb5f7bfbd69cfc4e967edb808d679f777bc6702c7d",
        ),
    ];
    for (bits, key, cipher) in cases {
        let key = hex(key);
        let mut out = [0xEEu8; 40];
        let n = SoftCrypto
            .crypt(
                params(AesMode::Cbc, AesDir::Encrypt, bits),
                KeyRef::Raw(&key),
                &plain,
                &mut out,
            )
            .unwrap();
        assert_eq!(n, 32);
        assert_eq!(out[..32].to_vec(), hex(cipher));
        assert_eq!(out[32..], [0xEE; 8]);
        let mut back = [0u8; 32];
        SoftCrypto
            .crypt(
                params(AesMode::Cbc, AesDir::Decrypt, bits),
                KeyRef::Raw(&key),
                &out[..32],
                &mut back,
            )
            .unwrap();
        assert_eq!(back.to_vec(), plain);
    }
}

#[test]
fn ecb_works_block_by_block() {
    let key = [3u8; 16];
    let mut input = [0u8; 48];
    input[16] = 1;
    let mut out = [0u8; 48];
    SoftCrypto
        .crypt(
            params(AesMode::Ecb, AesDir::Encrypt, AesKeyBits::Bits128),
            KeyRef::Raw(&key),
            &input,
            &mut out,
        )
        .unwrap();
    assert_eq!(out[..16], out[32..]);
    assert_ne!(out[..16], out[16..32]);
}

#[test]
fn decryption_can_be_undone_by_encryption() {
    let key = [7u8; 32];
    let mut data = [0u8; 64];
    for (i, b) in data.iter_mut().enumerate() {
        *b = (i * 37) as u8;
    }
    for mode in [AesMode::Ecb, AesMode::Cbc] {
        let mut out = [0u8; 64];
        let mut back = [0u8; 64];
        SoftCrypto
            .crypt(
                params(mode, AesDir::Decrypt, AesKeyBits::Bits256),
                KeyRef::Raw(&key),
                &data,
                &mut out,
            )
            .unwrap();
        SoftCrypto
            .crypt(
                params(mode, AesDir::Encrypt, AesKeyBits::Bits256),
                KeyRef::Raw(&key),
                &out,
                &mut back,
            )
            .unwrap();
        assert_eq!(back, data);
    }
}

#[test]
fn cipher_errors_in_order() {
    let p = params(AesMode::Cbc, AesDir::Encrypt, AesKeyBits::Bits128);
    let mut out = [4u8; 16];
    assert_eq!(
        SoftCrypto.crypt(p, KeyRef::Sealed(0), &[0; 17], &mut out[..1]),
        Err(CryptoError::InputNotBlockAligned)
    );
    assert_eq!(
        SoftCrypto.crypt(p, KeyRef::Sealed(0), &[0; 16], &mut out[..1]),
        Err(CryptoError::OutputTooSmall)
    );
    assert_eq!(
        SoftCrypto.crypt(p, KeyRef::Sealed(0), &[0; 16], &mut out),
        Err(CryptoError::InvalidKey)
    );
    assert_eq!(
        SoftCrypto.crypt(p, KeyRef::Raw(&[0; 32]), &[0; 16], &mut out),
        Err(CryptoError::InvalidKey)
    );
    assert_eq!(
        SoftCrypto.crypt(
            params(AesMode::Ecb, AesDir::Encrypt, AesKeyBits::Bits256),
            KeyRef::Raw(&[0; 16]),
            &[],
            &mut out
        ),
        Err(CryptoError::InvalidKey)
    );
    assert_eq!(out, [4u8; 16]);
    assert_eq!(SoftCrypto.crypt(p, KeyRef::Raw(&[0; 16]), &[], &mut out), Ok(0));
    assert_eq!(out, [4u8; 16]);
}

#[test]
fn no_signature_verifies() {
    let mut stack = Stack::new(SoftVerify::default());
    let pubkey = EcPubP384 {
        qx: [1; 48],
        qy: [2; 48],
    };
    let sig = EcSig {
        r: [3; 48],
        s: [4; 48],
    };
    assert_eq!(stack.verify_ecdsa_p384(pubkey, sig, &[5; 48]), Ok(false));
    let key = RsaKey {
        modulus: &[1, 2],
        exponent: &[3],
    };
    assert_eq!(stack.verify().rsa_verify(key, &[1], &[1]), Ok(false));
    assert_eq!(stack.into_inner(), SoftCrypto);
}

#[test]
fn results_go_to_the_front_of_the_buffer() {
    let mut out = [9u8; 4];
    assert_eq!(SoftCrypto::deliver(&[1, 2, 3], &mut out), Ok(3));
    assert_eq!(out, [1, 2, 3, 9]);
    assert_eq!(
        SoftCrypto::deliver(&[1, 2, 3, 4, 5], &mut out),
        Err(CryptoError::OutputTooSmall)
    );
    assert_eq!(out, [1, 2, 3, 9]);
}

#[test]
fn masking_twice_gives_the_block_back() {
    let a = [0x5Au8; 16];
    let mut b = [0u8; 16];
    b[3] = 0xFF;
    let masked = SoftCrypto::xor_block(a, b);
    assert_eq!(masked[3], 0xA5);
    assert_eq!(masked[4], 0x5A);
    assert_eq!(SoftCrypto::xor_block(masked, b), a);
}
