//! In-process software crypto provider.
//!
//! Digests come from `sha2`, MACs from `hmac` over `sha2`, and the AES block
//! function from `aes`; the ECB and CBC chaining stands here. No ECDSA or RSA
//! implementation stands behind [`Verify`]: it reports every signature as not
//! verified.

use crate::bytes;
use crate::crypto::backend::{
    AesDir, AesKeyBits, AesMode, AesView, EcPubView, EcSigView, Filled, KeyView, RsaKeyView,
};
use crate::crypto::protocol;
use crate::crypto::traits::{
    AesParams, Algo, Cipher, CryptoError, Digest, EcPubP384, EcSig, KeyRef, Mac, RsaKey, Verify,
};
use vstd::prelude::*;

verus! {

/// The SHA-256 digest of a message, as `sha2` computes it.
pub uninterp spec fn sha256_digest(message: Seq<u8>) -> Seq<u8>;

/// `sha2::Sha256` through `sha2::Digest::digest`: hashes the whole of `input`.
/// The result is a function of the message alone and has 32 bytes; which bytes
/// they are is left to the crate.
#[verifier::external_body]
fn sha256(input: &[u8]) -> (d: Vec<u8>)
    ensures
        d@ == sha256_digest(input@),
        d@.len() == 32,
{
    <sha2::Sha256 as sha2::Digest>::digest(input).to_vec()
}

/// The SHA-384 digest of a message, as `sha2` computes it.
pub uninterp spec fn sha384_digest(message: Seq<u8>) -> Seq<u8>;

/// `sha2::Sha384` through `sha2::Digest::digest`: hashes the whole of `input`.
/// The result is a function of the message alone and has 48 bytes; which bytes
/// they are is left to the crate.
#[verifier::external_body]
fn sha384(input: &[u8]) -> (d: Vec<u8>)
    ensures
        d@ == sha384_digest(input@),
        d@.len() == 48,
{
    <sha2::Sha384 as sha2::Digest>::digest(input).to_vec()
}

/// The SHA-512 digest of a message, as `sha2` computes it.
pub uninterp spec fn sha512_digest(message: Seq<u8>) -> Seq<u8>;

/// `sha2::Sha512` through `sha2::Digest::digest`: hashes the whole of `input`.
/// The result is a function of the message alone and has 64 bytes; which bytes
/// they are is left to the crate.
#[verifier::external_body]
fn sha512(input: &[u8]) -> (d: Vec<u8>)
    ensures
        d@ == sha512_digest(input@),
        d@.len() == 64,
{
    <sha2::Sha512 as sha2::Digest>::digest(input).to_vec()
}

/// The HMAC-SHA-256 tag of a message under a key, as `hmac` computes it.
pub uninterp spec fn hmac_sha256_tag(key: Seq<u8>, message: Seq<u8>) -> Seq<u8>;

/// `hmac::Hmac` over `sha2::Sha256`, through `Mac::new_from_slice`,
/// `chain_update` and `finalize`: authenticates the whole of `input`. A key of
/// any size is taken. The tag is a function of key and message alone and has 32
/// bytes; which bytes they are is left to the crate.
#[verifier::external_body]
fn hmac_sha256(key: &[u8], input: &[u8]) -> (tag: Option<Vec<u8>>)
    ensures
        tag is Some,
        tag->0@ == hmac_sha256_tag(key@, input@),
        tag->0@.len() == 32,
{
    match <hmac::Hmac<sha2::Sha256> as hmac::Mac>::new_from_slice(key) {
        Ok(m) => Some(
            hmac::Mac::finalize(hmac::Mac::chain_update(m, input)).into_bytes().to_vec(),
        ),
        Err(_) => None,
    }
}

/// The HMAC-SHA-384 tag of a message under a key, as `hmac` computes it.
pub uninterp spec fn hmac_sha384_tag(key: Seq<u8>, message: Seq<u8>) -> Seq<u8>;

/// `hmac::Hmac` over `sha2::Sha384`, through `Mac::new_from_slice`,
/// `chain_update` and `finalize`: authenticates the whole of `input`. A key of
/// any size is taken. The tag is a function of key and message alone and has 48
/// bytes; which bytes they are is left to the crate.
#[verifier::external_body]
fn hmac_sha384(key: &[u8], input: &[u8]) -> (tag: Option<Vec<u8>>)
    ensures
        tag is Some,
        tag->0@ == hmac_sha384_tag(key@, input@),
        tag->0@.len() == 48,
{
    match <hmac::Hmac<sha2::Sha384> as hmac::Mac>::new_from_slice(key) {
        Ok(m) => Some(
            hmac::Mac::finalize(hmac::Mac::chain_update(m, input)).into_bytes().to_vec(),
        ),
        Err(_) => None,
    }
}

/// The HMAC-SHA-512 tag of a message under a key, as `hmac` computes it.
pub uninterp spec fn hmac_sha512_tag(key: Seq<u8>, message: Seq<u8>) -> Seq<u8>;

/// `hmac::Hmac` over `sha2::Sha512`, through `Mac::new_from_slice`,
/// `chain_update` and `finalize`: authenticates the whole of `input`. A key of
/// any size is taken. The tag is a function of key and message alone and has 64
/// bytes; which bytes they are is left to the crate.
#[verifier::external_body]
fn hmac_sha512(key: &[u8], input: &[u8]) -> (tag: Option<Vec<u8>>)
    ensures
        tag is Some,
        tag->0@ == hmac_sha512_tag(key@, input@),
        tag->0@.len() == 64,
{
    match <hmac::Hmac<sha2::Sha512> as hmac::Mac>::new_from_slice(key) {
        Ok(m) => Some(
            hmac::Mac::finalize(hmac::Mac::chain_update(m, input)).into_bytes().to_vec(),
        ),
        Err(_) => None,
    }
}

/// The block that AES-128 encryption makes of a block, as `aes` computes it.
pub uninterp spec fn aes128_encrypted(key: Seq<u8>, block: Seq<u8>) -> Seq<u8>;

/// The block that AES-128 decryption makes of a block, as `aes` computes it.
pub uninterp spec fn aes128_decrypted(key: Seq<u8>, block: Seq<u8>) -> Seq<u8>;

/// `aes::Aes128` through `KeyInit::new_from_slice`: whether a key is taken,
/// which is a matter of its size alone.
#[verifier::external_body]
fn aes128_accepts(key: &[u8]) -> (ok: bool)
    ensures
        ok == (key@.len() == 16),
{
    <aes::Aes128 as aes::cipher::KeyInit>::new_from_slice(key).is_ok()
}

/// `aes::Aes128` through `BlockEncrypt::encrypt_block`. The result is a function
/// of key and block alone, and decryption under the same key gives the block
/// back; which bytes it holds is left to the crate.
#[verifier::external_body]
fn aes128_encrypt(key: &[u8], block: [u8; 16]) -> (r: [u8; 16])
    requires
        key@.len() == 16,
    ensures
        r@ == aes128_encrypted(key@, block@),
        aes128_decrypted(key@, r@) == block@,
{
    let k = aes::cipher::generic_array::GenericArray::from_slice(key);
    let mut b = aes::Block::from(block);
    let c = <aes::Aes128 as aes::cipher::KeyInit>::new(k);
    aes::cipher::BlockEncrypt::encrypt_block(&c, &mut b);
    b.into()
}

/// `aes::Aes128` through `BlockDecrypt::decrypt_block`. The result is a function
/// of key and block alone, and encryption under the same key gives the block
/// back; which bytes it holds is left to the crate.
#[verifier::external_body]
fn aes128_decrypt(key: &[u8], block: [u8; 16]) -> (r: [u8; 16])
    requires
        key@.len() == 16,
    ensures
        r@ == aes128_decrypted(key@, block@),
        aes128_encrypted(key@, r@) == block@,
{
    let k = aes::cipher::generic_array::GenericArray::from_slice(key);
    let mut b = aes::Block::from(block);
    let c = <aes::Aes128 as aes::cipher::KeyInit>::new(k);
    aes::cipher::BlockDecrypt::decrypt_block(&c, &mut b);
    b.into()
}

/// The block that AES-256 encryption makes of a block, as `aes` computes it.
pub uninterp spec fn aes256_encrypted(key: Seq<u8>, block: Seq<u8>) -> Seq<u8>;

/// The block that AES-256 decryption makes of a block, as `aes` computes it.
pub uninterp spec fn aes256_decrypted(key: Seq<u8>, block: Seq<u8>) -> Seq<u8>;

/// `aes::Aes256` through `KeyInit::new_from_slice`: whether a key is taken,
/// which is a matter of its size alone.
#[verifier::external_body]
fn aes256_accepts(key: &[u8]) -> (ok: bool)
    ensures
        ok == (key@.len() == 32),
{
    <aes::Aes256 as aes::cipher::KeyInit>::new_from_slice(key).is_ok()
}

/// `aes::Aes256` through `BlockEncrypt::encrypt_block`. The result is a function
/// of key and block alone, and decryption under the same key gives the block
/// back; which bytes it holds is left to the crate.
#[verifier::external_body]
fn aes256_encrypt(key: &[u8], block: [u8; 16]) -> (r: [u8; 16])
    requires
        key@.len() == 32,
    ensures
        r@ == aes256_encrypted(key@, block@),
        aes256_decrypted(key@, r@) == block@,
{
    let k = aes::cipher::generic_array::GenericArray::from_slice(key);
    let mut b = aes::Block::from(block);
    let c = <aes::Aes256 as aes::cipher::KeyInit>::new(k);
    aes::cipher::BlockEncrypt::encrypt_block(&c, &mut b);
    b.into()
}

/// `aes::Aes256` through `BlockDecrypt::decrypt_block`. The result is a function
/// of key and block alone, and encryption under the same key gives the block
/// back; which bytes it holds is left to the crate.
#[verifier::external_body]
fn aes256_decrypt(key: &[u8], block: [u8; 16]) -> (r: [u8; 16])
    requires
        key@.len() == 32,
    ensures
        r@ == aes256_decrypted(key@, block@),
        aes256_encrypted(key@, r@) == block@,
{
    let k = aes::cipher::generic_array::GenericArray::from_slice(key);
    let mut b = aes::Block::from(block);
    let c = <aes::Aes256 as aes::cipher::KeyInit>::new(k);
    aes::cipher::BlockDecrypt::decrypt_block(&c, &mut b);
    b.into()
}

/// In-process software provider. It holds no state.
#[derive(Clone, Copy, Debug, PartialEq, Eq, Structural)]
pub struct SoftCrypto;

/// The digest provider.
pub type SoftDigest = SoftCrypto;

/// The MAC provider.
pub type SoftMac = SoftCrypto;

/// The cipher provider.
pub type SoftCipher = SoftCrypto;

/// The verification provider.
pub type SoftVerify = SoftCrypto;

/// Size of an AES block in bytes.
pub const AES_BLOCK: usize = 16;

impl Default for SoftCrypto {
    fn default() -> (soft: Self)
        ensures
            soft == SoftCrypto,
    {
        SoftCrypto
    }
}

impl SoftCrypto {
    pub fn new() -> (soft: Self)
        ensures
            soft == SoftCrypto,
    {
        SoftCrypto
    }

    /// The digest of a message.
    pub open spec fn hash_of(algo: Algo, message: Seq<u8>) -> Seq<u8> {
        match algo {
            Algo::Sha256 => sha256_digest(message),
            Algo::Sha384 => sha384_digest(message),
            Algo::Sha512 => sha512_digest(message),
        }
    }

    /// The MAC of a message.
    pub open spec fn tag_of(algo: Algo, key: Seq<u8>, message: Seq<u8>) -> Seq<u8> {
        match algo {
            Algo::Sha256 => hmac_sha256_tag(key, message),
            Algo::Sha384 => hmac_sha384_tag(key, message),
            Algo::Sha512 => hmac_sha512_tag(key, message),
        }
    }

    /// Whether a key has the size that `bits` asks for.
    pub open spec fn key_fits(bits: AesKeyBits, key: Seq<u8>) -> bool {
        match bits {
            AesKeyBits::Bits128 => key.len() == 16,
            AesKeyBits::Bits256 => key.len() == 32,
        }
    }

    /// What AES makes of one block.
    pub open spec fn aes_block(
        bits: AesKeyBits,
        dir: AesDir,
        key: Seq<u8>,
        block: Seq<u8>,
    ) -> Seq<u8> {
        match (bits, dir) {
            (AesKeyBits::Bits128, AesDir::Encrypt) => aes128_encrypted(key, block),
            (AesKeyBits::Bits128, AesDir::Decrypt) => aes128_decrypted(key, block),
            (AesKeyBits::Bits256, AesDir::Encrypt) => aes256_encrypted(key, block),
            (AesKeyBits::Bits256, AesDir::Decrypt) => aes256_decrypted(key, block),
        }
    }

    /// Block number `j` of `s`.
    pub open spec fn block(s: Seq<u8>, j: int) -> Seq<u8> {
        s.subrange(16 * j, 16 * j + 16)
    }

    /// Bytewise exclusive or.
    pub open spec fn xor(a: Seq<u8>, b: Seq<u8>) -> Seq<u8> {
        Seq::new(a.len(), |i: int| a[i] ^ b[i])
    }

    /// The block that CBC chains into block number `j` of `s`: the one before
    /// it, or the initialisation vector.
    pub open spec fn before(iv: Seq<u8>, s: Seq<u8>, j: int) -> Seq<u8> {
        if j <= 0 {
            iv
        } else {
            SoftCrypto::block(s, j - 1)
        }
    }

    /// Block number `j` of the CBC encryption of `data`.
    pub open spec fn cbc_encrypted(
        bits: AesKeyBits,
        key: Seq<u8>,
        iv: Seq<u8>,
        data: Seq<u8>,
        j: int,
    ) -> Seq<u8>
        decreases j,
    {
        SoftCrypto::aes_block(
            bits,
            AesDir::Encrypt,
            key,
            SoftCrypto::xor(
                SoftCrypto::block(data, j),
                if j <= 0 {
                    iv
                } else {
                    SoftCrypto::cbc_encrypted(bits, key, iv, data, j - 1)
                },
            ),
        )
    }

    /// Block number `j` of the CBC decryption of `data`.
    pub open spec fn cbc_decrypted(
        bits: AesKeyBits,
        key: Seq<u8>,
        iv: Seq<u8>,
        data: Seq<u8>,
        j: int,
    ) -> Seq<u8> {
        SoftCrypto::xor(
            SoftCrypto::aes_block(bits, AesDir::Decrypt, key, SoftCrypto::block(data, j)),
            SoftCrypto::before(iv, data, j),
        )
    }

    /// Block number `j` of what AES makes of `data`.
    pub open spec fn crypted(params: AesView, key: Seq<u8>, data: Seq<u8>, j: int) -> Seq<u8> {
        match (params.mode, params.dir) {
            (AesMode::Ecb, dir) => SoftCrypto::aes_block(
                params.key_bits,
                dir,
                key,
                SoftCrypto::block(data, j),
            ),
            (AesMode::Cbc, AesDir::Encrypt) => SoftCrypto::cbc_encrypted(
                params.key_bits,
                key,
                params.iv,
                data,
                j,
            ),
            (AesMode::Cbc, AesDir::Decrypt) => SoftCrypto::cbc_decrypted(
                params.key_bits,
                key,
                params.iv,
                data,
                j,
            ),
        }
    }

    /// The other direction.
    pub open spec fn opposite(dir: AesDir) -> AesDir {
        match dir {
            AesDir::Encrypt => AesDir::Decrypt,
            AesDir::Decrypt => AesDir::Encrypt,
        }
    }

    /// Whether the first blocks of `output` are what AES makes of `input`, block
    /// by block.
    pub open spec fn transforms(
        params: AesView,
        key: Seq<u8>,
        input: Seq<u8>,
        output: Seq<u8>,
    ) -> bool {
        forall|j: int|
            0 <= j < input.len() / 16 ==> #[trigger] SoftCrypto::block(output, j)
                == SoftCrypto::crypted(params, key, input, j)
    }

    /// The parameters of the inverse operation.
    pub open spec fn inverse(params: AesView) -> AesView {
        AesView { dir: SoftCrypto::opposite(params.dir), ..params }
    }

    /// The bytes of a raw key. A sealed handle names a slot of an engine, and
    /// there is none here.
    fn key_bytes<'a>(key: KeyRef<'a>) -> (r: Result<&'a [u8], CryptoError>)
        ensures
            match key@ {
                KeyView::Raw(k) => r matches Ok(b) && b@ == k,
                KeyView::Sealed(_) => r == Err::<&'a [u8], CryptoError>(CryptoError::InvalidKey),
            },
    {
        match key {
            KeyRef::Raw(k) => Ok(k),
            KeyRef::Sealed(_) => Err(CryptoError::InvalidKey),
        }
    }

    /// Whether the cipher of the requested size takes the key.
    fn accepts(bits: AesKeyBits, key: &[u8]) -> (ok: bool)
        ensures
            ok == SoftCrypto::key_fits(bits, key@),
    {
        match bits {
            AesKeyBits::Bits128 => aes128_accepts(key),
            AesKeyBits::Bits256 => aes256_accepts(key),
        }
    }

    /// Run AES on one block.
    fn crypt_block(bits: AesKeyBits, dir: AesDir, key: &[u8], block: [u8; 16]) -> (r: [u8; 16])
        requires
            SoftCrypto::key_fits(bits, key@),
        ensures
            r@ == SoftCrypto::aes_block(bits, dir, key@, block@),
            SoftCrypto::aes_block(bits, SoftCrypto::opposite(dir), key@, r@) == block@,
    {
        match (bits, dir) {
            (AesKeyBits::Bits128, AesDir::Encrypt) => aes128_encrypt(key, block),
            (AesKeyBits::Bits128, AesDir::Decrypt) => aes128_decrypt(key, block),
            (AesKeyBits::Bits256, AesDir::Encrypt) => aes256_encrypt(key, block),
            (AesKeyBits::Bits256, AesDir::Decrypt) => aes256_decrypt(key, block),
        }
    }

    /// Exclusive or of two blocks: how CBC masks and unmasks.
    pub fn xor_block(a: [u8; 16], b: [u8; 16]) -> (r: [u8; 16])
        ensures
            r@ == SoftCrypto::xor(a@, b@),
    {
        let mut r: [u8; 16] = a;
        let mut i: usize = 0;
        while i < AES_BLOCK
            invariant
                i <= 16,
                forall|j: int| 0 <= j < i ==> r@[j] == a@[j] ^ b@[j],
                forall|j: int| i <= j < 16 ==> r@[j] == a@[j],
            decreases 16 - i,
        {
            r[i] = a[i] ^ b[i];
            i += 1;
        }
        r
    }

    /// Masking twice with the same block gives the block back.
    proof fn lemma_xor_twice(a: Seq<u8>, b: Seq<u8>)
        ensures
            SoftCrypto::xor(SoftCrypto::xor(a, b), b) == a,
    {
        assert forall|i: int| 0 <= i < a.len() implies SoftCrypto::xor(
            SoftCrypto::xor(a, b),
            b,
        )[i] == a[i] by {
            let x = a[i];
            let y = b[i];
            assert((x ^ y) ^ y == x) by (bit_vector);
        }
    }

    /// Writing block number `i` leaves the blocks before it alone.
    proof fn lemma_block_splice(s: Seq<u8>, i: int, b: Seq<u8>, j: int)
        requires
            b.len() == 16,
            0 <= j <= i,
            16 * i + 16 <= s.len(),
        ensures
            SoftCrypto::block(bytes::splice(s, 16 * i, b), j) == (if j == i {
                b
            } else {
                SoftCrypto::block(s, j)
            }),
    {
    }
}

impl SoftCrypto {
    /// ECB: every block on its own.
    fn ecb_blocks(bits: AesKeyBits, dir: AesDir, key: &[u8], input: &[u8], out: &mut [u8])
        requires
            SoftCrypto::key_fits(bits, key@),
            input@.len() % 16 == 0,
            input@.len() <= old(out).len(),
        ensures
            final(out)@.len() == old(out)@.len(),
            final(out)@.skip(input@.len() as int) == old(out)@.skip(input@.len() as int),
            forall|j: int|
                0 <= j < input@.len() / 16 ==> {
                    &&& #[trigger] SoftCrypto::block(final(out)@, j) == SoftCrypto::aes_block(
                        bits,
                        dir,
                        key@,
                        SoftCrypto::block(input@, j),
                    )
                    &&& SoftCrypto::aes_block(
                        bits,
                        SoftCrypto::opposite(dir),
                        key@,
                        SoftCrypto::block(final(out)@, j),
                    ) == SoftCrypto::block(input@, j)
                },
    {
        let ghost before = out@;
        let count: usize = input.len() / AES_BLOCK;
        let mut i: usize = 0;
        while i < count
            invariant
                SoftCrypto::key_fits(bits, key@),
                input@.len() % 16 == 0,
                input@.len() <= before.len() <= usize::MAX,
                count == input@.len() / 16,
                i <= count,
                out@.len() == before.len(),
                out@.skip(input@.len() as int) == before.skip(input@.len() as int),
                forall|j: int|
                    0 <= j < i ==> {
                        &&& #[trigger] SoftCrypto::block(out@, j) == SoftCrypto::aes_block(
                            bits,
                            dir,
                            key@,
                            SoftCrypto::block(input@, j),
                        )
                        &&& SoftCrypto::aes_block(
                            bits,
                            SoftCrypto::opposite(dir),
                            key@,
                            SoftCrypto::block(out@, j),
                        ) == SoftCrypto::block(input@, j)
                    },
            decreases count - i,
        {
            let at: usize = AES_BLOCK * i;
            let b: [u8; 16] = SoftCrypto::crypt_block(bits, dir, key, bytes::array16(input, at));
            let ghost step = out@;
            bytes::copy_into(out, at, b.as_slice());
            proof {
                assert forall|j: int| 0 <= j <= i implies #[trigger] SoftCrypto::block(out@, j)
                    == (if j == i {
                    b@
                } else {
                    SoftCrypto::block(step, j)
                }) by {
                    SoftCrypto::lemma_block_splice(step, i as int, b@, j);
                }
            }
            i += 1;
        }
    }

    /// CBC encryption: every block is masked with the ciphertext before it.
    fn cbc_encrypt(bits: AesKeyBits, key: &[u8], iv: [u8; 16], input: &[u8], out: &mut [u8])
        requires
            SoftCrypto::key_fits(bits, key@),
            input@.len() % 16 == 0,
            input@.len() <= old(out).len(),
        ensures
            final(out)@.len() == old(out)@.len(),
            final(out)@.skip(input@.len() as int) == old(out)@.skip(input@.len() as int),
            forall|j: int|
                0 <= j < input@.len() / 16 ==> {
                    &&& #[trigger] SoftCrypto::block(final(out)@, j) == SoftCrypto::cbc_encrypted(
                        bits,
                        key@,
                        iv@,
                        input@,
                        j,
                    )
                    &&& SoftCrypto::cbc_decrypted(bits, key@, iv@, final(out)@, j)
                        == SoftCrypto::block(input@, j)
                },
    {
        let ghost before = out@;
        let count: usize = input.len() / AES_BLOCK;
        let mut prev: [u8; 16] = iv;
        let mut i: usize = 0;
        while i < count
            invariant
                SoftCrypto::key_fits(bits, key@),
                input@.len() % 16 == 0,
                input@.len() <= before.len() <= usize::MAX,
                count == input@.len() / 16,
                i <= count,
                out@.len() == before.len(),
                out@.skip(input@.len() as int) == before.skip(input@.len() as int),
                prev@ == SoftCrypto::before(iv@, out@, i as int),
                i > 0 ==> prev@ == SoftCrypto::cbc_encrypted(bits, key@, iv@, input@, i - 1),
                forall|j: int|
                    0 <= j < i ==> {
                        &&& #[trigger] SoftCrypto::block(out@, j) == SoftCrypto::cbc_encrypted(
                            bits,
                            key@,
                            iv@,
                            input@,
                            j,
                        )
                        &&& SoftCrypto::cbc_decrypted(bits, key@, iv@, out@, j)
                            == SoftCrypto::block(input@, j)
                    },
            decreases count - i,
        {
            let at: usize = AES_BLOCK * i;
            let plain: [u8; 16] = bytes::array16(input, at);
            let b: [u8; 16] = SoftCrypto::crypt_block(
                bits,
                AesDir::Encrypt,
                key,
                SoftCrypto::xor_block(plain, prev),
            );
            let ghost step = out@;
            bytes::copy_into(out, at, b.as_slice());
            proof {
                assert forall|j: int| 0 <= j <= i implies #[trigger] SoftCrypto::block(out@, j)
                    == (if j == i {
                    b@
                } else {
                    SoftCrypto::block(step, j)
                }) by {
                    SoftCrypto::lemma_block_splice(step, i as int, b@, j);
                }
                SoftCrypto::lemma_xor_twice(plain@, prev@);
                assert forall|j: int| 0 <= j <= i implies SoftCrypto::before(iv@, out@, j)
                    == SoftCrypto::before(iv@, step, j) by {}
            }
            prev = b;
            i += 1;
        }
    }

    /// CBC decryption: every block is unmasked with the ciphertext before it.
    fn cbc_decrypt(bits: AesKeyBits, key: &[u8], iv: [u8; 16], input: &[u8], out: &mut [u8])
        requires
            SoftCrypto::key_fits(bits, key@),
            input@.len() % 16 == 0,
            input@.len() <= old(out).len(),
        ensures
            final(out)@.len() == old(out)@.len(),
            final(out)@.skip(input@.len() as int) == old(out)@.skip(input@.len() as int),
            forall|j: int|
                0 <= j < input@.len() / 16 ==> {
                    &&& #[trigger] SoftCrypto::block(final(out)@, j) == SoftCrypto::cbc_decrypted(
                        bits,
                        key@,
                        iv@,
                        input@,
                        j,
                    )
                    &&& SoftCrypto::cbc_encrypted(bits, key@, iv@, final(out)@, j)
                        == SoftCrypto::block(input@, j)
                },
    {
        let ghost before = out@;
        let count: usize = input.len() / AES_BLOCK;
        let mut prev: [u8; 16] = iv;
        let mut i: usize = 0;
        while i < count
            invariant
                SoftCrypto::key_fits(bits, key@),
                input@.len() % 16 == 0,
                input@.len() <= before.len() <= usize::MAX,
                count == input@.len() / 16,
                i <= count,
                out@.len() == before.len(),
                out@.skip(input@.len() as int) == before.skip(input@.len() as int),
                prev@ == SoftCrypto::before(iv@, input@, i as int),
                forall|j: int|
                    0 <= j < i ==> {
                        &&& #[trigger] SoftCrypto::block(out@, j) == SoftCrypto::cbc_decrypted(
                            bits,
                            key@,
                            iv@,
                            input@,
                            j,
                        )
                        &&& SoftCrypto::cbc_encrypted(bits, key@, iv@, out@, j)
                            == SoftCrypto::block(input@, j)
                    },
            decreases count - i,
        {
            let at: usize = AES_BLOCK * i;
            let ct: [u8; 16] = bytes::array16(input, at);
            let d: [u8; 16] = SoftCrypto::crypt_block(bits, AesDir::Decrypt, key, ct);
            let b: [u8; 16] = SoftCrypto::xor_block(d, prev);
            let ghost step = out@;
            bytes::copy_into(out, at, b.as_slice());
            proof {
                assert forall|j: int| 0 <= j <= i implies #[trigger] SoftCrypto::block(out@, j)
                    == (if j == i {
                    b@
                } else {
                    SoftCrypto::block(step, j)
                }) by {
                    SoftCrypto::lemma_block_splice(step, i as int, b@, j);
                }
                SoftCrypto::lemma_xor_twice(d@, prev@);
                SoftCrypto::lemma_cbc_prefix(bits, key@, iv@, step, out@, i as int);
                if i > 0 {
                    assert(SoftCrypto::block(step, i - 1) == SoftCrypto::cbc_decrypted(
                        bits,
                        key@,
                        iv@,
                        input@,
                        i - 1,
                    ));
                }
            }
            prev = ct;
            i += 1;
        }
    }

    /// A block of a CBC encryption depends on the blocks up to it alone.
    proof fn lemma_cbc_prefix(
        bits: AesKeyBits,
        key: Seq<u8>,
        iv: Seq<u8>,
        a: Seq<u8>,
        b: Seq<u8>,
        n: int,
    )
        requires
            forall|j: int|
                0 <= j < n ==> #[trigger] SoftCrypto::block(a, j) == SoftCrypto::block(b, j),
        ensures
            forall|j: int|
                0 <= j < n ==> #[trigger] SoftCrypto::cbc_encrypted(bits, key, iv, a, j)
                    == SoftCrypto::cbc_encrypted(bits, key, iv, b, j),
        decreases n,
    {
        if n > 0 {
            SoftCrypto::lemma_cbc_prefix(bits, key, iv, a, b, n - 1);
            if n > 1 {
                assert(SoftCrypto::cbc_encrypted(bits, key, iv, a, n - 2)
                    == SoftCrypto::cbc_encrypted(bits, key, iv, b, n - 2));
            }
        }
    }
}

impl SoftCrypto {
    /// The outcome of writing a result into the front of a buffer.
    pub open spec fn written(value: Seq<u8>, len: usize, out: Seq<u8>) -> Filled<CryptoError> {
        if out.len() < len {
            Filled { out, result: Err(CryptoError::OutputTooSmall) }
        } else {
            Filled { out: value + out.skip(len as int), result: Ok(len) }
        }
    }

    /// Write a digest or a MAC into the front of `out`, and return its size.
    pub fn deliver(value: &[u8], out: &mut [u8]) -> (r: Result<usize, CryptoError>)
        ensures
            (Filled { out: final(out)@, result: r }) == SoftCrypto::written(
                value@,
                value@.len() as usize,
                old(out)@,
            ),
            final(out)@.len() == old(out)@.len(),
    {
        let n: usize = value.len();
        if out.len() < n {
            return Err(CryptoError::OutputTooSmall);
        }
        bytes::copy_into(out, 0, value);
        Ok(n)
    }

    /// The outcome of a cipher call on a buffer that held `out`.
    pub open spec fn crypt_outcome(
        params: AesView,
        key: KeyView,
        input: Seq<u8>,
        out: Seq<u8>,
        filled: Filled<CryptoError>,
    ) -> bool {
        if input.len() % 16 != 0 {
            filled == (Filled::<CryptoError> {
                out,
                result: Err(CryptoError::InputNotBlockAligned),
            })
        } else if out.len() < input.len() {
            filled == (Filled::<CryptoError> { out, result: Err(CryptoError::OutputTooSmall) })
        } else {
            match key {
                KeyView::Raw(k) if SoftCrypto::key_fits(params.key_bits, k) => {
                    &&& filled.result == Ok::<usize, CryptoError>(input.len() as usize)
                    &&& filled.out.len() == out.len()
                    &&& filled.out.skip(input.len() as int) == out.skip(input.len() as int)
                    &&& SoftCrypto::transforms(params, k, input, filled.out)
                },
                _ => filled == (Filled::<CryptoError> { out, result: Err(CryptoError::InvalidKey) }),
            }
        }
    }
}

impl Digest for SoftCrypto {
    open spec fn digest_post(
        pre: Self,
        post: Self,
        algo: Algo,
        input: Seq<u8>,
        out: Seq<u8>,
        filled: Filled<CryptoError>,
    ) -> bool {
        filled == SoftCrypto::written(SoftCrypto::hash_of(algo, input), algo.digest_len(), out)
    }

    fn digest(&mut self, algo: Algo, input: &[u8], out: &mut [u8]) -> (r: Result<
        usize,
        CryptoError,
    >) {
        let n: usize = algo.digest_len();
        if out.len() < n {
            return Err(CryptoError::OutputTooSmall);
        }
        let d: Vec<u8> = match algo {
            Algo::Sha256 => sha256(input),
            Algo::Sha384 => sha384(input),
            Algo::Sha512 => sha512(input),
        };
        SoftCrypto::deliver(d.as_slice(), out)
    }
}

impl Mac for SoftCrypto {
    open spec fn mac_post(
        pre: Self,
        post: Self,
        algo: Algo,
        key: KeyView,
        input: Seq<u8>,
        out: Seq<u8>,
        filled: Filled<CryptoError>,
    ) -> bool {
        match key {
            KeyView::Sealed(_) => filled == (Filled::<CryptoError> {
                out,
                result: Err(CryptoError::InvalidKey),
            }),
            KeyView::Raw(k) => filled == SoftCrypto::written(
                SoftCrypto::tag_of(algo, k, input),
                algo.digest_len(),
                out,
            ),
        }
    }

    fn mac(&mut self, algo: Algo, key: KeyRef<'_>, input: &[u8], out: &mut [u8]) -> (r: Result<
        usize,
        CryptoError,
    >) {
        let k = match SoftCrypto::key_bytes(key) {
            Ok(k) => k,
            Err(e) => return Err(e),
        };
        let n: usize = algo.digest_len();
        if out.len() < n {
            return Err(CryptoError::OutputTooSmall);
        }
        let tag: Option<Vec<u8>> = match algo {
            Algo::Sha256 => hmac_sha256(k, input),
            Algo::Sha384 => hmac_sha384(k, input),
            Algo::Sha512 => hmac_sha512(k, input),
        };
        match tag {
            Some(t) => SoftCrypto::deliver(t.as_slice(), out),
            None => Err(CryptoError::InvalidKey),
        }
    }
}

impl Cipher for SoftCrypto {
    open spec fn crypt_post(
        pre: Self,
        post: Self,
        params: AesView,
        key: KeyView,
        input: Seq<u8>,
        out: Seq<u8>,
        filled: Filled<CryptoError>,
    ) -> bool {
        SoftCrypto::crypt_outcome(params, key, input, out, filled)
    }

    /// Besides the outcome: a successful call can be undone. The opposite
    /// operation, under the same key and initialisation vector, makes the input
    /// out of the output.
    fn crypt(&mut self, params: AesParams, key: KeyRef<'_>, input: &[u8], out: &mut [u8]) -> (r:
        Result<usize, CryptoError>)
        ensures
            r is Ok ==> (key@ matches KeyView::Raw(k) && SoftCrypto::transforms(
                SoftCrypto::inverse(params@),
                k,
                final(out)@.take(input@.len() as int),
                input@,
            )),
    {
        if input.len() % AES_BLOCK != 0 {
            return Err(CryptoError::InputNotBlockAligned);
        }
        if out.len() < input.len() {
            return Err(CryptoError::OutputTooSmall);
        }
        let k = match SoftCrypto::key_bytes(key) {
            Ok(k) => k,
            Err(e) => return Err(e),
        };
        if !SoftCrypto::accepts(params.key_bits, k) {
            return Err(CryptoError::InvalidKey);
        }
        match (params.mode, params.dir) {
            (AesMode::Ecb, dir) => SoftCrypto::ecb_blocks(params.key_bits, dir, k, input, out),
            (AesMode::Cbc, AesDir::Encrypt) => SoftCrypto::cbc_encrypt(
                params.key_bits,
                k,
                params.iv,
                input,
                out,
            ),
            (AesMode::Cbc, AesDir::Decrypt) => SoftCrypto::cbc_decrypt(
                params.key_bits,
                k,
                params.iv,
                input,
                out,
            ),
        }
        proof {
            let n = input@.len() as int;
            let front = out@.take(n);
            assert forall|j: int| 0 <= j < n / 16 implies #[trigger] SoftCrypto::block(front, j)
                == SoftCrypto::block(out@, j) by {}
            SoftCrypto::lemma_cbc_prefix(params.key_bits, k@, params.iv@, front, out@, n / 16);
            assert forall|j: int| 0 <= j < front.len() / 16 implies #[trigger] SoftCrypto::block(
                input@,
                j,
            ) == SoftCrypto::crypted(SoftCrypto::inverse(params@), k@, front, j) by {}
        }
        Ok(input.len())
    }
}

impl Verify for SoftCrypto {
    /// No signature verifies: there is no implementation to check one with.
    open spec fn ecdsa_post(
        pre: Self,
        post: Self,
        pubkey: EcPubView,
        sig: EcSigView,
        digest: Seq<u8>,
        r: Result<bool, CryptoError>,
    ) -> bool {
        r == Ok::<bool, CryptoError>(false)
    }

    /// No signature verifies: there is no implementation to check one with.
    open spec fn rsa_post(
        pre: Self,
        post: Self,
        key: RsaKeyView,
        sig: Seq<u8>,
        expected: Seq<u8>,
        r: Result<bool, CryptoError>,
    ) -> bool {
        r == Ok::<bool, CryptoError>(false)
    }

    fn ecdsa_p384_verify(&mut self, _pubkey: EcPubP384, _sig: EcSig, _digest48: &[u8; 48]) -> (r:
        Result<bool, CryptoError>) {
        Ok(false)
    }

    fn rsa_verify(&mut self, _key: RsaKey<'_>, _sig: &[u8], _expected: &[u8]) -> (r: Result<
        bool,
        CryptoError,
    >) {
        Ok(false)
    }
}

/// CBC encryption chains through the whole buffer: every block of the output is the
/// encryption of the input block masked with the output block right before it. Only
/// the first block is masked with the initialisation vector.
pub proof fn cbc_encryption_chains(
    soft: &mut SoftCrypto,
    params: AesParams,
    key_ref: KeyRef<'_>,
    input: &[u8],
    out: &mut [u8],
    r: Result<usize, CryptoError>,
    key: Seq<u8>,
    j: int,
)
    requires
        params.mode == AesMode::Cbc,
        params.dir == AesDir::Encrypt,
        key_ref@ == KeyView::Raw(key),
        call_ensures(<SoftCrypto as Cipher>::crypt, (soft, params, key_ref, input, out), r),
        r is Ok,
        0 <= j < input@.len() / 16,
    ensures
        ({
            let masked = Seq::new(
                16,
                |i: int|
                    input@[16 * j + i] ^ (if j == 0 {
                        params.iv@[i]
                    } else {
                        final(out)@[16 * j - 16 + i]
                    }),
            );
            &&& params.key_bits == AesKeyBits::Bits128 ==> final(out)@.subrange(16 * j, 16 * j + 16)
                == aes128_encrypted(key, masked)
            &&& params.key_bits == AesKeyBits::Bits256 ==> final(out)@.subrange(16 * j, 16 * j + 16)
                == aes256_encrypted(key, masked)
        }),
{
    let masked = Seq::new(
        16,
        |i: int|
            input@[16 * j + i] ^ (if j == 0 {
                params.iv@[i]
            } else {
                final(out)@[16 * j - 16 + i]
            }),
    );
    let data = SoftCrypto::block(input@, j);
    assert(SoftCrypto::block(final(out)@, j) == SoftCrypto::crypted(params@, key, input@, j));
    if j == 0 {
        assert(SoftCrypto::xor(data, params.iv@) =~= masked);
    } else {
        assert(SoftCrypto::block(final(out)@, j - 1) == SoftCrypto::crypted(
            params@,
            key,
            input@,
            j - 1,
        ));
        assert(SoftCrypto::xor(data, SoftCrypto::block(final(out)@, j - 1)) =~= masked);
    }
}

/// CBC decryption chains through the whole buffer: every block of the output is the
/// decryption of the input block, unmasked with the input block right before it. Only
/// the first block is unmasked with the initialisation vector.
pub proof fn cbc_decryption_chains(
    soft: &mut SoftCrypto,
    params: AesParams,
    key_ref: KeyRef<'_>,
    input: &[u8],
    out: &mut [u8],
    r: Result<usize, CryptoError>,
    key: Seq<u8>,
    j: int,
)
    requires
        params.mode == AesMode::Cbc,
        params.dir == AesDir::Decrypt,
        key_ref@ == KeyView::Raw(key),
        call_ensures(<SoftCrypto as Cipher>::crypt, (soft, params, key_ref, input, out), r),
        r is Ok,
        0 <= j < input@.len() / 16,
    ensures
        ({
            let masked = match params.key_bits {
                AesKeyBits::Bits128 => aes128_decrypted(key, input@.subrange(16 * j, 16 * j + 16)),
                AesKeyBits::Bits256 => aes256_decrypted(key, input@.subrange(16 * j, 16 * j + 16)),
            };
            let mask = if j == 0 {
                params.iv@
            } else {
                input@.subrange(16 * j - 16, 16 * j)
            };
            final(out)@.subrange(16 * j, 16 * j + 16) == Seq::new(
                masked.len(),
                |i: int| masked[i] ^ mask[i],
            )
        }),
{
    assert(SoftCrypto::block(final(out)@, j) == SoftCrypto::crypted(params@, key, input@, j));
}

/// ECB treats every block on its own: a block of the output is what AES makes of the
/// input block in its place.
pub proof fn ecb_treats_blocks_alone(
    soft: &mut SoftCrypto,
    params: AesParams,
    key_ref: KeyRef<'_>,
    input: &[u8],
    out: &mut [u8],
    r: Result<usize, CryptoError>,
    key: Seq<u8>,
    j: int,
)
    requires
        params.mode == AesMode::Ecb,
        key_ref@ == KeyView::Raw(key),
        call_ensures(<SoftCrypto as Cipher>::crypt, (soft, params, key_ref, input, out), r),
        r is Ok,
        0 <= j < input@.len() / 16,
    ensures
        ({
            let before = input@.subrange(16 * j, 16 * j + 16);
            let after = final(out)@.subrange(16 * j, 16 * j + 16);
            match (params.dir, params.key_bits) {
                (AesDir::Encrypt, AesKeyBits::Bits128) => after == aes128_encrypted(key, before),
                (AesDir::Encrypt, AesKeyBits::Bits256) => after == aes256_encrypted(key, before),
                (AesDir::Decrypt, AesKeyBits::Bits128) => after == aes128_decrypted(key, before),
                (AesDir::Decrypt, AesKeyBits::Bits256) => after == aes256_decrypted(key, before),
            }
        }),
{
    assert(SoftCrypto::block(final(out)@, j) == SoftCrypto::crypted(params@, key, input@, j));
}

/// A cipher call succeeds exactly on whole blocks, a buffer that holds them and a raw
/// key of 16 or 32 bytes, as the parameters ask; it then reports the size of the input
/// and leaves the rest of the buffer alone. Otherwise the first of these that fails is
/// reported, and the buffer is untouched.
pub proof fn cipher_calls_succeed_on_whole_blocks(
    soft: &mut SoftCrypto,
    params: AesParams,
    key: KeyRef<'_>,
    input: &[u8],
    out: &mut [u8],
    r: Result<usize, CryptoError>,
)
    requires
        call_ensures(<SoftCrypto as Cipher>::crypt, (soft, params, key, input, out), r),
        input@.len() <= usize::MAX,
    ensures
        ({
            let aligned = input@.len() % 16 == 0;
            let fits = input@.len() <= old(out)@.len();
            let keyed = key@ matches KeyView::Raw(k) && k.len() == (match params.key_bits {
                AesKeyBits::Bits128 => 16int,
                AesKeyBits::Bits256 => 32int,
            });
            &&& r is Ok <==> aligned && fits && keyed
            &&& r matches Ok(n) ==> n == input@.len()
            &&& r == Err::<usize, CryptoError>(CryptoError::InputNotBlockAligned) <==> !aligned
            &&& r == Err::<usize, CryptoError>(CryptoError::OutputTooSmall) <==> aligned && !fits
            &&& r == Err::<usize, CryptoError>(CryptoError::InvalidKey) <==> aligned && fits
                && !keyed
            &&& r is Err ==> final(out)@ == old(out)@
            &&& final(out)@.len() == old(out)@.len()
            &&& forall|i: int|
                input@.len() <= i < old(out)@.len() ==> #[trigger] final(out)@[i] == old(out)@[i]
        }),
{
    if r is Ok {
        assert forall|i: int| input@.len() <= i < old(out)@.len() implies #[trigger] final(out)@[i]
            == old(out)@[i] by {
            assert(final(out)@.skip(input@.len() as int)[i - input@.len()] == old(out)@.skip(
                input@.len() as int,
            )[i - input@.len()]);
        }
    }
}

/// A digest call puts the digest of the whole input, in the algorithm that was asked
/// for, into the front of the buffer. It fails on a buffer that is too small alone.
pub proof fn digests_land_in_front(
    soft: &mut SoftCrypto,
    algo: Algo,
    input: &[u8],
    out: &mut [u8],
    r: Result<usize, CryptoError>,
)
    requires
        call_ensures(<SoftCrypto as Digest>::digest, (soft, algo, input, out), r),
    ensures
        ({
            let size = match algo {
                Algo::Sha256 => 32int,
                Algo::Sha384 => 48int,
                Algo::Sha512 => 64int,
            };
            &&& old(out)@.len() < size ==> r == Err::<usize, CryptoError>(
                CryptoError::OutputTooSmall,
            ) && final(out)@ == old(out)@
            &&& old(out)@.len() >= size ==> r == Ok::<usize, CryptoError>(size as usize)
                && final(out)@ == (match algo {
                Algo::Sha256 => sha256_digest(input@),
                Algo::Sha384 => sha384_digest(input@),
                Algo::Sha512 => sha512_digest(input@),
            }) + old(out)@.subrange(size, old(out)@.len() as int)
        }),
{
    protocol::digest_sizes(algo);
}

/// A MAC call puts the tag of the whole input under the raw key, in the algorithm that
/// was asked for, into the front of the buffer. It fails on a sealed key, and else on
/// a buffer that is too small alone.
pub proof fn tags_land_in_front(
    soft: &mut SoftCrypto,
    algo: Algo,
    key: KeyRef<'_>,
    input: &[u8],
    out: &mut [u8],
    r: Result<usize, CryptoError>,
)
    requires
        call_ensures(<SoftCrypto as Mac>::mac, (soft, algo, key, input, out), r),
    ensures
        ({
            let size = match algo {
                Algo::Sha256 => 32int,
                Algo::Sha384 => 48int,
                Algo::Sha512 => 64int,
            };
            &&& key@ is Sealed ==> r == Err::<usize, CryptoError>(CryptoError::InvalidKey) && (
            final(out)@ == old(out)@)
            &&& key@ is Raw && old(out)@.len() < size ==> r == Err::<usize, CryptoError>(
                CryptoError::OutputTooSmall,
            ) && final(out)@ == old(out)@
            &&& (key@ matches KeyView::Raw(k) && old(out)@.len() >= size) ==> r == Ok::<
                usize,
                CryptoError,
            >(size as usize)
            &&& key@ matches KeyView::Raw(k) ==> old(out)@.len() >= size ==> final(out)@ == (
            match algo {
                Algo::Sha256 => hmac_sha256_tag(k, input@),
                Algo::Sha384 => hmac_sha384_tag(k, input@),
                Algo::Sha512 => hmac_sha512_tag(k, input@),
            }) + old(out)@.subrange(size, old(out)@.len() as int)
        }),
{
    protocol::digest_sizes(algo);
}

/// No signature verifies in software, and the check itself never fails.
pub proof fn nothing_verifies(
    soft: &mut SoftCrypto,
    pubkey: EcPubP384,
    sig: EcSig,
    digest48: &[u8; 48],
    r: Result<bool, CryptoError>,
)
    requires
        call_ensures(
            <SoftCrypto as Verify>::ecdsa_p384_verify,
            (soft, pubkey, sig, digest48),
            r,
        ),
    ensures
        r is Ok && !r->Ok_0,
{
}

/// No RSA signature verifies in software either.
pub proof fn no_rsa_signature_verifies(
    soft: &mut SoftCrypto,
    key: RsaKey<'_>,
    sig: &[u8],
    expected: &[u8],
    r: Result<bool, CryptoError>,
)
    requires
        call_ensures(<SoftCrypto as Verify>::rsa_verify, (soft, key, sig, expected), r),
    ensures
        r is Ok && !r->Ok_0,
{
}

} // verus!
