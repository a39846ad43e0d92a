//! Crypto driver wire protocol.
//!
//! The protocol names cryptographic capabilities, never the silicon that
//! implements them. Every operation is whole-object and runs to completion:
//! there is no opcode that opens, feeds and closes a session.

use crate::bytes;
use vstd::prelude::*;

verus! {

/// Largest payload a request or a response carries in band. Larger inputs are
/// described by a region instead.
pub const MAX_PAYLOAD_SIZE: usize = 1024;

/// Largest digest or MAC the protocol carries.
pub const MAX_DIGEST_SIZE: usize = 64;

/// Capability class a request targets.
#[derive(Debug, Clone, Copy, PartialEq, Eq, Structural)]
pub enum Engine {
    /// Hash, MAC and symmetric cipher.
    Symmetric,
    /// Signature verification and modular exponentiation.
    PublicKey,
}

impl Engine {
    /// The value that a wire byte selects.
    pub open spec fn of_code(v: u8) -> Result<Self, CryptoError> {
        match v {
            0x00 => Ok(Engine::Symmetric),
            0x01 => Ok(Engine::PublicKey),
            _ => Err(CryptoError::InvalidOperation),
        }
    }

    /// The byte that selects the class on the wire.
    #[verifier::allow_in_spec]
    pub fn code(self) -> u8
        returns
            (match self {
                Engine::Symmetric => 0x00u8,
                Engine::PublicKey => 0x01u8,
            }),
    {
        match self {
            Engine::Symmetric => 0x00,
            Engine::PublicKey => 0x01,
        }
    }
}

impl TryFrom<u8> for Engine {
    type Error = CryptoError;

    fn try_from(v: u8) -> (r: Result<Self, CryptoError>) {
        match v {
            0x00 => Ok(Engine::Symmetric),
            0x01 => Ok(Engine::PublicKey),
            _ => Err(CryptoError::InvalidOperation),
        }
    }
}

impl vstd::std_specs::convert::TryFromSpecImpl<u8> for Engine {
    open spec fn obeys_try_from_spec() -> bool {
        true
    }

    open spec fn try_from_spec(v: u8) -> Result<Self, CryptoError> {
        Engine::of_code(v)
    }
}

/// Status byte of a response. `VerifyFailed` is a cryptographic result and is
/// never merged with a transport or engine fault.
#[derive(Debug, Clone, Copy, PartialEq, Eq, Structural)]
pub enum CryptoError {
    Success,
    InvalidOperation,
    InvalidAlgo,
    InvalidKeyHandle,
    /// The AES input is not a whole number of blocks.
    InputNotBlockAligned,
    Busy,
    Timeout,
    EngineFault,
    /// The signature did not verify.
    VerifyFailed,
    InternalError,
}

/// Operations of the symmetric class.
#[derive(Debug, Clone, Copy, PartialEq, Eq, Structural)]
pub enum SymmetricOp {
    HashOneShot,
    HashRegion,
    HashSg,
    Hmac,
    AesCrypt,
}

impl SymmetricOp {
    /// The value that a wire byte selects.
    pub open spec fn of_code(v: u8) -> Result<Self, CryptoError> {
        match v {
            0x01 => Ok(SymmetricOp::HashOneShot),
            0x02 => Ok(SymmetricOp::HashRegion),
            0x03 => Ok(SymmetricOp::HashSg),
            0x04 => Ok(SymmetricOp::Hmac),
            0x05 => Ok(SymmetricOp::AesCrypt),
            _ => Err(CryptoError::InvalidOperation),
        }
    }

    /// The byte that selects the value on the wire.
    #[verifier::allow_in_spec]
    pub fn code(self) -> u8
        returns
            (match self {
                SymmetricOp::HashOneShot => 0x01u8,
                SymmetricOp::HashRegion => 0x02u8,
                SymmetricOp::HashSg => 0x03u8,
                SymmetricOp::Hmac => 0x04u8,
                SymmetricOp::AesCrypt => 0x05u8,
            }),
    {
        match self {
            SymmetricOp::HashOneShot => 0x01,
            SymmetricOp::HashRegion => 0x02,
            SymmetricOp::HashSg => 0x03,
            SymmetricOp::Hmac => 0x04,
            SymmetricOp::AesCrypt => 0x05,
        }
    }
}

impl TryFrom<u8> for SymmetricOp {
    type Error = CryptoError;

    fn try_from(v: u8) -> (r: Result<Self, CryptoError>) {
        match v {
            0x01 => Ok(SymmetricOp::HashOneShot),
            0x02 => Ok(SymmetricOp::HashRegion),
            0x03 => Ok(SymmetricOp::HashSg),
            0x04 => Ok(SymmetricOp::Hmac),
            0x05 => Ok(SymmetricOp::AesCrypt),
            _ => Err(CryptoError::InvalidOperation),
        }
    }
}

impl vstd::std_specs::convert::TryFromSpecImpl<u8> for SymmetricOp {
    open spec fn obeys_try_from_spec() -> bool {
        true
    }

    open spec fn try_from_spec(v: u8) -> Result<Self, CryptoError> {
        SymmetricOp::of_code(v)
    }
}

/// Operations of the public-key class.
#[derive(Debug, Clone, Copy, PartialEq, Eq, Structural)]
pub enum PublicKeyOp {
    EcdsaP384Verify,
    RsaModexp,
}

impl PublicKeyOp {
    /// The value that a wire byte selects.
    pub open spec fn of_code(v: u8) -> Result<Self, CryptoError> {
        match v {
            0x01 => Ok(PublicKeyOp::EcdsaP384Verify),
            0x02 => Ok(PublicKeyOp::RsaModexp),
            _ => Err(CryptoError::InvalidOperation),
        }
    }

    /// The byte that selects the value on the wire.
    #[verifier::allow_in_spec]
    pub fn code(self) -> u8
        returns
            (match self {
                PublicKeyOp::EcdsaP384Verify => 0x01u8,
                PublicKeyOp::RsaModexp => 0x02u8,
            }),
    {
        match self {
            PublicKeyOp::EcdsaP384Verify => 0x01,
            PublicKeyOp::RsaModexp => 0x02,
        }
    }
}

impl TryFrom<u8> for PublicKeyOp {
    type Error = CryptoError;

    fn try_from(v: u8) -> (r: Result<Self, CryptoError>) {
        match v {
            0x01 => Ok(PublicKeyOp::EcdsaP384Verify),
            0x02 => Ok(PublicKeyOp::RsaModexp),
            _ => Err(CryptoError::InvalidOperation),
        }
    }
}

impl vstd::std_specs::convert::TryFromSpecImpl<u8> for PublicKeyOp {
    open spec fn obeys_try_from_spec() -> bool {
        true
    }

    open spec fn try_from_spec(v: u8) -> Result<Self, CryptoError> {
        PublicKeyOp::of_code(v)
    }
}

/// Digest algorithm.
#[derive(Debug, Clone, Copy, PartialEq, Eq, Structural)]
pub enum Algo {
    Sha256,
    Sha384,
    Sha512,
}

impl Algo {
    /// The value that a wire byte selects.
    pub open spec fn of_code(v: u8) -> Result<Self, CryptoError> {
        match v {
            0x01 => Ok(Algo::Sha256),
            0x02 => Ok(Algo::Sha384),
            0x03 => Ok(Algo::Sha512),
            _ => Err(CryptoError::InvalidAlgo),
        }
    }

    /// Size of the digest in bytes.
    #[verifier::allow_in_spec]
    pub fn digest_len(self) -> usize
        returns
            (match self {
                Algo::Sha256 => 32usize,
                Algo::Sha384 => 48usize,
                Algo::Sha512 => 64usize,
            }),
    {
        match self {
            Algo::Sha256 => 32,
            Algo::Sha384 => 48,
            Algo::Sha512 => 64,
        }
    }

    /// The byte that selects the value on the wire.
    #[verifier::allow_in_spec]
    pub fn code(self) -> u8
        returns
            (match self {
                Algo::Sha256 => 0x01u8,
                Algo::Sha384 => 0x02u8,
                Algo::Sha512 => 0x03u8,
            }),
    {
        match self {
            Algo::Sha256 => 0x01,
            Algo::Sha384 => 0x02,
            Algo::Sha512 => 0x03,
        }
    }
}

impl TryFrom<u8> for Algo {
    type Error = CryptoError;

    fn try_from(v: u8) -> (r: Result<Self, CryptoError>) {
        match v {
            0x01 => Ok(Algo::Sha256),
            0x02 => Ok(Algo::Sha384),
            0x03 => Ok(Algo::Sha512),
            _ => Err(CryptoError::InvalidAlgo),
        }
    }
}

impl vstd::std_specs::convert::TryFromSpecImpl<u8> for Algo {
    open spec fn obeys_try_from_spec() -> bool {
        true
    }

    open spec fn try_from_spec(v: u8) -> Result<Self, CryptoError> {
        Algo::of_code(v)
    }
}

impl CryptoError {
    /// The status that a wire byte stands for. A byte that no status has is an
    /// internal error.
    pub open spec fn of_code(v: u8) -> Self {
        match v {
            0x00 => CryptoError::Success,
            0x01 => CryptoError::InvalidOperation,
            0x02 => CryptoError::InvalidAlgo,
            0x03 => CryptoError::InvalidKeyHandle,
            0x04 => CryptoError::InputNotBlockAligned,
            0x05 => CryptoError::Busy,
            0x06 => CryptoError::Timeout,
            0x07 => CryptoError::EngineFault,
            0x08 => CryptoError::VerifyFailed,
            _ => CryptoError::InternalError,
        }
    }

    /// The status byte on the wire.
    #[verifier::allow_in_spec]
    pub fn code(self) -> u8
        returns
            (match self {
                CryptoError::Success => 0x00u8,
                CryptoError::InvalidOperation => 0x01u8,
                CryptoError::InvalidAlgo => 0x02u8,
                CryptoError::InvalidKeyHandle => 0x03u8,
                CryptoError::InputNotBlockAligned => 0x04u8,
                CryptoError::Busy => 0x05u8,
                CryptoError::Timeout => 0x06u8,
                CryptoError::EngineFault => 0x07u8,
                CryptoError::VerifyFailed => 0x08u8,
                CryptoError::InternalError => 0xFFu8,
            }),
    {
        match self {
            CryptoError::Success => 0x00,
            CryptoError::InvalidOperation => 0x01,
            CryptoError::InvalidAlgo => 0x02,
            CryptoError::InvalidKeyHandle => 0x03,
            CryptoError::InputNotBlockAligned => 0x04,
            CryptoError::Busy => 0x05,
            CryptoError::Timeout => 0x06,
            CryptoError::EngineFault => 0x07,
            CryptoError::VerifyFailed => 0x08,
            CryptoError::InternalError => 0xFF,
        }
    }
}

impl From<u8> for CryptoError {
    fn from(v: u8) -> (r: Self) {
        match v {
            0x00 => CryptoError::Success,
            0x01 => CryptoError::InvalidOperation,
            0x02 => CryptoError::InvalidAlgo,
            0x03 => CryptoError::InvalidKeyHandle,
            0x04 => CryptoError::InputNotBlockAligned,
            0x05 => CryptoError::Busy,
            0x06 => CryptoError::Timeout,
            0x07 => CryptoError::EngineFault,
            0x08 => CryptoError::VerifyFailed,
            _ => CryptoError::InternalError,
        }
    }
}

impl vstd::std_specs::convert::FromSpecImpl<u8> for CryptoError {
    open spec fn obeys_from_spec() -> bool {
        true
    }

    open spec fn from_spec(v: u8) -> Self {
        CryptoError::of_code(v)
    }
}

/// Request header: eight bytes in front of the payload.
#[derive(Debug, Clone, Copy, PartialEq, Eq, Structural)]
pub struct CryptoRequestHeader {
    pub engine: u8,
    pub op: u8,
    pub algo: u8,
    pub key_handle: u8,
    pub arg0: u16,
    pub payload_len: u16,
}

impl CryptoRequestHeader {
    /// Encoded size in bytes.
    pub const SIZE: usize = 8;

    /// The encoded header: four single bytes, then `arg0` and `payload_len`
    /// in little-endian order.
    pub open spec fn wire(self) -> Seq<u8> {
        seq![self.engine, self.op, self.algo, self.key_handle] + bytes::le_bytes(
            self.arg0 as nat,
            2,
        ) + bytes::le_bytes(self.payload_len as nat, 2)
    }

    /// The header that the first eight bytes of `s` encode.
    pub open spec fn parse(s: Seq<u8>) -> Self {
        CryptoRequestHeader {
            engine: s[0],
            op: s[1],
            algo: s[2],
            key_handle: s[3],
            arg0: bytes::le_value(s.subrange(4, 6)) as u16,
            payload_len: bytes::le_value(s.subrange(6, 8)) as u16,
        }
    }

    pub fn new(
        engine: Engine,
        op: u8,
        algo: u8,
        key_handle: u8,
        arg0: u16,
        payload_len: u16,
    ) -> (hdr: Self)
        ensures
            hdr == (CryptoRequestHeader {
                engine: engine.code(),
                op,
                algo,
                key_handle,
                arg0,
                payload_len,
            }),
    {
        CryptoRequestHeader { engine: engine.code(), op, algo, key_handle, arg0, payload_len }
    }

    pub fn engine(&self) -> (r: Result<Engine, CryptoError>)
        ensures
            r == Engine::of_code(self.engine),
    {
        Engine::try_from(self.engine)
    }

    pub fn algorithm(&self) -> (r: Result<Algo, CryptoError>)
        ensures
            r == Algo::of_code(self.algo),
    {
        Algo::try_from(self.algo)
    }

    pub fn arg0_value(&self) -> (v: u16)
        ensures
            v == self.arg0,
    {
        self.arg0
    }

    pub fn payload_length(&self) -> (n: usize)
        ensures
            n == self.payload_len,
    {
        self.payload_len as usize
    }

    /// Encode the header.
    pub fn to_bytes(&self) -> (b: [u8; 8])
        ensures
            b@ == self.wire(),
    {
        proof {
            bytes::lemma_le_bytes_2(self.arg0);
            bytes::lemma_le_bytes_2(self.payload_len);
        }
        let b: [u8; 8] = [
            self.engine,
            self.op,
            self.algo,
            self.key_handle,
            (self.arg0 % 256) as u8,
            (self.arg0 / 256) as u8,
            (self.payload_len % 256) as u8,
            (self.payload_len / 256) as u8,
        ];
        b
    }

    /// Decode the header at the front of `s`.
    pub fn from_bytes(s: &[u8]) -> (hdr: Self)
        requires
            s@.len() >= Self::SIZE,
        ensures
            hdr == Self::parse(s@),
    {
        let arg0: u16 = bytes::read_le16(s, 4);
        let payload_len: u16 = bytes::read_le16(s, 6);
        CryptoRequestHeader {
            engine: s[0],
            op: s[1],
            algo: s[2],
            key_handle: s[3],
            arg0,
            payload_len,
        }
    }
}

/// Response header: four bytes in front of the payload.
#[derive(Debug, Clone, Copy, PartialEq, Eq, Structural)]
pub struct CryptoResponseHeader {
    pub status: u8,
    pub reserved: u8,
    pub payload_len: u16,
}

impl CryptoResponseHeader {
    /// Encoded size in bytes.
    pub const SIZE: usize = 4;

    /// The encoded header: status, a reserved byte, then `payload_len` in
    /// little-endian order.
    pub open spec fn wire(self) -> Seq<u8> {
        seq![self.status, self.reserved] + bytes::le_bytes(self.payload_len as nat, 2)
    }

    /// The header that the first four bytes of `s` encode.
    pub open spec fn parse(s: Seq<u8>) -> Self {
        CryptoResponseHeader {
            status: s[0],
            reserved: s[1],
            payload_len: bytes::le_value(s.subrange(2, 4)) as u16,
        }
    }

    #[verifier::allow_in_spec]
    pub fn success(payload_len: u16) -> Self
        returns
            (CryptoResponseHeader { status: CryptoError::Success.code(), reserved: 0, payload_len }),
    {
        CryptoResponseHeader { status: CryptoError::Success.code(), reserved: 0, payload_len }
    }

    #[verifier::allow_in_spec]
    pub fn error(error: CryptoError) -> Self
        returns
            (CryptoResponseHeader { status: error.code(), reserved: 0, payload_len: 0 }),
    {
        CryptoResponseHeader { status: error.code(), reserved: 0, payload_len: 0 }
    }

    #[verifier::allow_in_spec]
    pub fn is_success(&self) -> bool
        returns
            self.status == CryptoError::Success.code(),
    {
        self.status == CryptoError::Success.code()
    }

    pub fn error_code(&self) -> (e: CryptoError)
        ensures
            e == CryptoError::of_code(self.status),
    {
        CryptoError::from(self.status)
    }

    pub fn payload_length(&self) -> (n: usize)
        ensures
            n == self.payload_len,
    {
        self.payload_len as usize
    }

    /// Encode the header.
    pub fn to_bytes(&self) -> (b: [u8; 4])
        ensures
            b@ == self.wire(),
    {
        proof {
            bytes::lemma_le_bytes_2(self.payload_len);
        }
        let b: [u8; 4] = [
            self.status,
            self.reserved,
            (self.payload_len % 256) as u8,
            (self.payload_len / 256) as u8,
        ];
        b
    }

    /// Decode the header at the front of `s`.
    pub fn from_bytes(s: &[u8]) -> (hdr: Self)
        requires
            s@.len() >= Self::SIZE,
        ensures
            hdr == Self::parse(s@),
    {
        let payload_len: u16 = bytes::read_le16(s, 2);
        CryptoResponseHeader { status: s[0], reserved: s[1], payload_len }
    }
}

/// A request header survives encoding: whatever follows it on the wire, the
/// bytes decode to the header they were made from.
pub proof fn request_header_round_trip(hdr: CryptoRequestHeader, rest: Seq<u8>)
    ensures
        hdr.wire().len() == CryptoRequestHeader::SIZE,
        CryptoRequestHeader::parse(hdr.wire() + rest) == hdr,
{
    bytes::lemma_le_bytes_2(hdr.arg0);
    bytes::lemma_le_bytes_2(hdr.payload_len);
    let s = hdr.wire() + rest;
    bytes::lemma_le_value_2(s.subrange(4, 6));
    bytes::lemma_le_value_2(s.subrange(6, 8));
}

/// A response header survives encoding: whatever follows it on the wire, the
/// bytes decode to the header they were made from.
pub proof fn response_header_round_trip(hdr: CryptoResponseHeader, rest: Seq<u8>)
    ensures
        hdr.wire().len() == CryptoResponseHeader::SIZE,
        CryptoResponseHeader::parse(hdr.wire() + rest) == hdr,
{
    bytes::lemma_le_bytes_2(hdr.payload_len);
    let s = hdr.wire() + rest;
    bytes::lemma_le_value_2(s.subrange(2, 4));
}

/// Every wire selector decodes from its own code.
pub proof fn codes_round_trip(
    engine: Engine,
    sym: SymmetricOp,
    pk: PublicKeyOp,
    algo: Algo,
    status: CryptoError,
)
    ensures
        Engine::of_code(engine.code()) == Ok::<Engine, CryptoError>(engine),
        SymmetricOp::of_code(sym.code()) == Ok::<SymmetricOp, CryptoError>(sym),
        PublicKeyOp::of_code(pk.code()) == Ok::<PublicKeyOp, CryptoError>(pk),
        Algo::of_code(algo.code()) == Ok::<Algo, CryptoError>(algo),
        CryptoError::of_code(status.code()) == status,
{
}

/// A decoded status is `VerifyFailed` only for the status byte of
/// `VerifyFailed`, so no transport or engine fault is read as a verdict.
pub proof fn verify_failed_is_distinct(status: u8)
    ensures
        CryptoError::of_code(status) == CryptoError::VerifyFailed <==> status
            == CryptoError::VerifyFailed.code(),
{
}

/// The frozen wire codes: a byte selects a value exactly where it is the code of
/// the value, and no other byte selects anything.
pub proof fn selectors_have_frozen_codes(v: u8)
    ensures
        Engine::of_code(v) == Ok::<Engine, CryptoError>(Engine::Symmetric) <==> v == 0,
        Engine::of_code(v) == Ok::<Engine, CryptoError>(Engine::PublicKey) <==> v == 1,
        v > 1 ==> Engine::of_code(v) == Err::<Engine, CryptoError>(CryptoError::InvalidOperation),
        SymmetricOp::of_code(v) == Ok::<SymmetricOp, CryptoError>(SymmetricOp::HashOneShot) <==> v
            == 1,
        SymmetricOp::of_code(v) == Ok::<SymmetricOp, CryptoError>(SymmetricOp::HashRegion) <==> v
            == 2,
        SymmetricOp::of_code(v) == Ok::<SymmetricOp, CryptoError>(SymmetricOp::HashSg) <==> v == 3,
        SymmetricOp::of_code(v) == Ok::<SymmetricOp, CryptoError>(SymmetricOp::Hmac) <==> v == 4,
        SymmetricOp::of_code(v) == Ok::<SymmetricOp, CryptoError>(SymmetricOp::AesCrypt) <==> v
            == 5,
        v == 0 || v > 5 ==> SymmetricOp::of_code(v) == Err::<SymmetricOp, CryptoError>(
            CryptoError::InvalidOperation,
        ),
        PublicKeyOp::of_code(v) == Ok::<PublicKeyOp, CryptoError>(PublicKeyOp::EcdsaP384Verify)
            <==> v == 1,
        PublicKeyOp::of_code(v) == Ok::<PublicKeyOp, CryptoError>(PublicKeyOp::RsaModexp) <==> v
            == 2,
        v == 0 || v > 2 ==> PublicKeyOp::of_code(v) == Err::<PublicKeyOp, CryptoError>(
            CryptoError::InvalidOperation,
        ),
        Algo::of_code(v) == Ok::<Algo, CryptoError>(Algo::Sha256) <==> v == 1,
        Algo::of_code(v) == Ok::<Algo, CryptoError>(Algo::Sha384) <==> v == 2,
        Algo::of_code(v) == Ok::<Algo, CryptoError>(Algo::Sha512) <==> v == 3,
        v == 0 || v > 3 ==> Algo::of_code(v) == Err::<Algo, CryptoError>(CryptoError::InvalidAlgo),
{
}

/// The frozen status bytes: each of the first nine bytes is a status of its own,
/// and every other byte is an internal error.
pub proof fn statuses_have_frozen_codes(v: u8)
    ensures
        CryptoError::of_code(v) == CryptoError::Success <==> v == 0,
        CryptoError::of_code(v) == CryptoError::InvalidOperation <==> v == 1,
        CryptoError::of_code(v) == CryptoError::InvalidAlgo <==> v == 2,
        CryptoError::of_code(v) == CryptoError::InvalidKeyHandle <==> v == 3,
        CryptoError::of_code(v) == CryptoError::InputNotBlockAligned <==> v == 4,
        CryptoError::of_code(v) == CryptoError::Busy <==> v == 5,
        CryptoError::of_code(v) == CryptoError::Timeout <==> v == 6,
        CryptoError::of_code(v) == CryptoError::EngineFault <==> v == 7,
        CryptoError::of_code(v) == CryptoError::VerifyFailed <==> v == 8,
        CryptoError::of_code(v) == CryptoError::InternalError <==> v > 8,
        CryptoError::InternalError.code() == 255,
{
}

/// Where the fields of a request header stand on the wire, and how the two-byte
/// fields are ordered.
pub proof fn request_header_layout(hdr: CryptoRequestHeader, s: Seq<u8>)
    ensures
        hdr.wire() == seq![
            hdr.engine,
            hdr.op,
            hdr.algo,
            hdr.key_handle,
            (hdr.arg0 % 256) as u8,
            (hdr.arg0 / 256) as u8,
            (hdr.payload_len % 256) as u8,
            (hdr.payload_len / 256) as u8,
        ],
        s.len() >= 8 ==> {
            let p = CryptoRequestHeader::parse(s);
            &&& p.engine == s[0]
            &&& p.op == s[1]
            &&& p.algo == s[2]
            &&& p.key_handle == s[3]
            &&& p.arg0 == s[4] + 256 * s[5]
            &&& p.payload_len == s[6] + 256 * s[7]
        },
{
    bytes::lemma_le_bytes_2(hdr.arg0);
    bytes::lemma_le_bytes_2(hdr.payload_len);
    if s.len() >= 8 {
        bytes::lemma_le_value_2(s.subrange(4, 6));
        bytes::lemma_le_value_2(s.subrange(6, 8));
    }
}

/// Where the fields of a response header stand on the wire; and a success is told
/// by the first byte alone.
pub proof fn response_header_layout(hdr: CryptoResponseHeader, s: Seq<u8>, len: u16, e: CryptoError)
    ensures
        hdr.wire() == seq![
            hdr.status,
            hdr.reserved,
            (hdr.payload_len % 256) as u8,
            (hdr.payload_len / 256) as u8,
        ],
        CryptoResponseHeader::success(len).wire() == seq![
            0u8,
            0u8,
            (len % 256) as u8,
            (len / 256) as u8,
        ],
        CryptoResponseHeader::error(e).wire() == seq![e.code(), 0u8, 0u8, 0u8],
        s.len() >= 4 ==> {
            let p = CryptoResponseHeader::parse(s);
            &&& p.status == s[0]
            &&& p.reserved == s[1]
            &&& p.payload_len == s[2] + 256 * s[3]
            &&& p.is_success() <==> s[0] == 0
        },
{
    bytes::lemma_le_bytes_2(hdr.payload_len);
    bytes::lemma_le_bytes_2(len);
    bytes::lemma_le_bytes_2(0);
    if s.len() >= 4 {
        bytes::lemma_le_value_2(s.subrange(2, 4));
    }
}

/// The size of a digest, in bytes, is the number in the name of its algorithm, in
/// bits.
pub proof fn digest_sizes(algo: Algo)
    ensures
        8 * algo.digest_len() == (if algo == Algo::Sha256 {
            256int
        } else if algo == Algo::Sha384 {
            384
        } else {
            512
        }),
        algo.digest_len() <= MAX_DIGEST_SIZE,
{
}

/// A header is read from its bytes and written to them field by field.
pub proof fn headers_are_read_and_written(
    s: &[u8],
    request: CryptoRequestHeader,
    request_bytes: [u8; 8],
    response: CryptoResponseHeader,
    response_bytes: [u8; 4],
)
    ensures
        s@.len() >= 8 && call_ensures(CryptoRequestHeader::from_bytes, (s,), request) ==> {
            &&& request.engine == s@[0] && request.op == s@[1] && request.algo == s@[2]
            &&& request.key_handle == s@[3]
            &&& request.arg0 == s@[4] + 256 * s@[5]
            &&& request.payload_len == s@[6] + 256 * s@[7]
        },
        call_ensures(CryptoRequestHeader::to_bytes, (&request,), request_bytes) ==> request_bytes@
            == seq![
            request.engine,
            request.op,
            request.algo,
            request.key_handle,
            (request.arg0 % 256) as u8,
            (request.arg0 / 256) as u8,
            (request.payload_len % 256) as u8,
            (request.payload_len / 256) as u8,
        ],
        s@.len() >= 4 && call_ensures(CryptoResponseHeader::from_bytes, (s,), response) ==> {
            &&& response.status == s@[0] && response.reserved == s@[1]
            &&& response.payload_len == s@[2] + 256 * s@[3]
        },
        call_ensures(CryptoResponseHeader::to_bytes, (&response,), response_bytes)
            ==> response_bytes@ == seq![
            response.status,
            response.reserved,
            (response.payload_len % 256) as u8,
            (response.payload_len / 256) as u8,
        ],
{
    request_header_layout(request, s@);
    response_header_layout(response, s@, 0, CryptoError::Success);
}

/// A header keeps the operands that it was made of, and hands them out: the class and
/// the algorithm as their bytes select them, argument and size as they are.
pub proof fn headers_hand_out_their_fields(
    engine: Engine,
    op: u8,
    algo: u8,
    key_handle: u8,
    arg0: u16,
    payload_len: u16,
    hdr: CryptoRequestHeader,
    class: Result<Engine, CryptoError>,
    selected: Result<Algo, CryptoError>,
    argument: u16,
    size: usize,
)
    requires
        call_ensures(
            CryptoRequestHeader::new,
            (engine, op, algo, key_handle, arg0, payload_len),
            hdr,
        ),
        call_ensures(CryptoRequestHeader::engine, (&hdr,), class),
        call_ensures(CryptoRequestHeader::algorithm, (&hdr,), selected),
        call_ensures(CryptoRequestHeader::arg0_value, (&hdr,), argument),
        call_ensures(CryptoRequestHeader::payload_length, (&hdr,), size),
    ensures
        class == Ok::<Engine, CryptoError>(engine),
        selected is Ok <==> 1 <= algo <= 3,
        selected matches Ok(a) ==> a.code() == algo,
        argument == arg0,
        size == payload_len,
        hdr.op == op && hdr.key_handle == key_handle,
{
}

} // verus!
