//! Little-endian integers and block copies over byte slices.

use vstd::prelude::*;

verus! {

/// The number a byte string denotes, least significant byte first.
pub open spec fn le_value(s: Seq<u8>) -> nat
    decreases s.len(),
{
    if s.len() == 0 {
        0
    } else {
        s[0] as nat + 256 * le_value(s.skip(1))
    }
}

/// The `width` bytes of `v`, least significant byte first.
pub open spec fn le_bytes(v: nat, width: nat) -> Seq<u8>
    decreases width,
{
    if width == 0 {
        Seq::empty()
    } else {
        seq![(v % 256) as u8] + le_bytes(v / 256, (width - 1) as nat)
    }
}

/// `s` with the bytes from `at` on replaced by `src`.
pub open spec fn splice(s: Seq<u8>, at: int, src: Seq<u8>) -> Seq<u8> {
    s.take(at) + src + s.skip(at + src.len())
}

/// The value of two little-endian bytes.
pub proof fn lemma_le_value_2(s: Seq<u8>)
    requires
        s.len() == 2,
    ensures
        le_value(s) == s[0] as nat + 256 * (s[1] as nat),
{
    reveal_with_fuel(le_value, 3);
}

/// The two little-endian bytes of a 16-bit value.
pub proof fn lemma_le_bytes_2(v: u16)
    ensures
        le_bytes(v as nat, 2) == seq![(v % 256) as u8, (v / 256) as u8],
{
    reveal_with_fuel(le_bytes, 3);
}

/// Reading back the bytes of a value gives the value.
pub proof fn lemma_le_round_trip(v: nat, width: nat)
    ensures
        le_bytes(v, width).len() == width,
        le_value(le_bytes(v, width)) == v % vstd::arithmetic::power::pow(256, width) as nat,
    decreases width,
{
    vstd::arithmetic::power::lemma_pow_positive(256, width);
    if width == 0 {
        vstd::arithmetic::power::lemma_pow0(256);
    } else {
        let w: nat = (width - 1) as nat;
        lemma_le_round_trip(v / 256, w);
        assert(le_bytes(v, width).skip(1) =~= le_bytes(v / 256, w));
        vstd::arithmetic::power::lemma_pow_positive(256, w);
        let p: int = vstd::arithmetic::power::pow(256, w);
        assert(vstd::arithmetic::power::pow(256, width) == 256 * p) by {
            reveal(vstd::arithmetic::power::pow);
        }
        vstd::arithmetic::div_mod::lemma_breakdown(v as int, 256, p);
    }
}

/// Read a 16-bit little-endian integer at `at`.
pub fn read_le16(s: &[u8], at: usize) -> (v: u16)
    requires
        at + 2 <= s.len(),
    ensures
        v as nat == le_value(s@.subrange(at as int, at + 2)),
{
    proof {
        lemma_le_value_2(s@.subrange(at as int, at + 2));
    }
    s[at] as u16 + 256 * (s[at + 1] as u16)
}

/// Read a 32-bit little-endian integer at `at`.
pub fn read_le32(s: &[u8], at: usize) -> (v: u32)
    requires
        at + 4 <= s.len(),
    ensures
        v as nat == le_value(s@.subrange(at as int, at + 4)),
{
    let lo: u16 = read_le16(s, at);
    let hi: u16 = read_le16(s, at + 2);
    proof {
        let whole = s@.subrange(at as int, at + 4);
        reveal_with_fuel(le_value, 3);
        assert(whole.skip(1).skip(1) =~= s@.subrange(at + 2, at + 4));
        lemma_le_value_2(s@.subrange(at as int, at + 2));
    }
    lo as u32 + 65536 * (hi as u32)
}

/// Read a 64-bit little-endian integer at `at`.
pub fn read_le64(s: &[u8], at: usize) -> (v: u64)
    requires
        at + 8 <= s.len(),
    ensures
        v as nat == le_value(s@.subrange(at as int, at + 8)),
{
    let lo: u32 = read_le32(s, at);
    let hi: u32 = read_le32(s, at + 4);
    proof {
        let whole = s@.subrange(at as int, at + 8);
        let head = s@.subrange(at as int, at + 4);
        reveal_with_fuel(le_value, 5);
        assert(whole.skip(1).skip(1).skip(1).skip(1) =~= s@.subrange(at + 4, at + 8));
    }
    lo as u64 + 0x1_0000_0000 * (hi as u64)
}

/// Write `src` over the bytes of `dst` that start at `at`.
pub fn copy_into(dst: &mut [u8], at: usize, src: &[u8])
    requires
        at + src@.len() <= old(dst).len(),
    ensures
        final(dst)@ == splice(old(dst)@, at as int, src@),
        final(dst)@.len() == old(dst)@.len(),
{
    let ghost before = dst@;
    let mut i: usize = 0;
    while i < src.len()
        invariant
            i <= src@.len(),
            at + src@.len() <= before.len() <= usize::MAX,
            dst@ == splice(before, at as int, src@.take(i as int)),
            dst@.len() == before.len(),
        decreases src@.len() - i,
    {
        dst[at + i] = src[i];
        i += 1;
    }
}

/// Borrow the `n` bytes of `s` that start at `at`.
pub fn window(s: &mut [u8], at: usize, n: usize) -> (w: &mut [u8])
    requires
        at + n <= old(s).len(),
    ensures
        w@ == old(s)@.subrange(at as int, at + n),
        final(w)@.len() == n ==> {
            &&& final(s)@ == splice(old(s)@, at as int, final(w)@)
            &&& final(s)@.len() == old(s)@.len()
        },
{
    let (_head, rest) = s.split_at_mut(at);
    let (w, _end) = rest.split_at_mut(n);
    w
}

/// The 16 bytes of `s` that start at `at`.
pub fn array16(s: &[u8], at: usize) -> (a: [u8; 16])
    requires
        at + 16 <= s.len(),
    ensures
        a@ == s@.subrange(at as int, at + 16),
{
    let mut a: [u8; 16] = [0u8; 16];
    let mut i: usize = 0;
    while i < 16
        invariant
            i <= 16,
            at + 16 <= s.len(),
            forall|j: int| 0 <= j < i ==> a@[j] == s@[at + j],
        decreases 16 - i,
    {
        a[i] = s[at + i];
        i += 1;
    }
    a
}

/// The 48 bytes of `s` that start at `at`.
pub fn array48(s: &[u8], at: usize) -> (a: [u8; 48])
    requires
        at + 48 <= s.len(),
    ensures
        a@ == s@.subrange(at as int, at + 48),
{
    let mut a: [u8; 48] = [0u8; 48];
    let mut i: usize = 0;
    while i < 48
        invariant
            i <= 48,
            at + 48 <= s.len(),
            forall|j: int| 0 <= j < i ==> a@[j] == s@[at + j],
        decreases 48 - i,
    {
        a[i] = s[at + i];
        i += 1;
    }
    a
}

/// Four bytes denote the sum of their values, each with the weight of its place.
pub proof fn four_bytes_by_place(s: Seq<u8>)
    requires
        s.len() == 4,
    ensures
        le_value(s) == s[0] + 0x100 * s[1] + 0x1_0000 * s[2] + 0x100_0000 * s[3],
        le_value(s) <= u32::MAX,
{
    reveal_with_fuel(le_value, 5);
}

/// Eight bytes denote the sum of their values, each with the weight of its place.
#[verifier::rlimit(40)]
pub proof fn eight_bytes_by_place(s: Seq<u8>)
    requires
        s.len() == 8,
    ensures
        le_value(s) == s[0] + 0x100 * s[1] + 0x1_0000 * s[2] + 0x100_0000 * s[3] + 0x1_0000_0000
            * s[4] + 0x100_0000_0000 * s[5] + 0x1_0000_0000_0000 * s[6] + 0x100_0000_0000_0000
            * s[7],
        le_value(s) <= u64::MAX,
{
    reveal_with_fuel(le_value, 9);
}

/// Byte number `i` of a value is its digit of weight 256 to the power `i`.
pub proof fn bytes_are_digits(v: nat, width: nat, i: nat)
    requires
        i < width,
    ensures
        le_bytes(v, width).len() == width,
        le_bytes(v, width)[i as int] == v as int / vstd::arithmetic::power::pow(256, i) % 256,
    decreases width,
{
    lemma_le_round_trip(v, width);
    if i == 0 {
        vstd::arithmetic::power::lemma_pow0(256);
    } else {
        let j: nat = (i - 1) as nat;
        let p: int = vstd::arithmetic::power::pow(256, j);
        bytes_are_digits(v / 256, (width - 1) as nat, j);
        vstd::arithmetic::power::lemma_pow_positive(256, j);
        assert(vstd::arithmetic::power::pow(256, i) == 256 * p) by {
            reveal(vstd::arithmetic::power::pow);
        }
        vstd::arithmetic::div_mod::lemma_div_denominator(v as int, 256, p);
    }
}

/// What is spliced in stands at its place, and every other byte is kept.
pub proof fn splicing_changes_its_window_alone(s: Seq<u8>, at: int, src: Seq<u8>)
    requires
        0 <= at,
        at + src.len() <= s.len(),
    ensures
        splice(s, at, src).len() == s.len(),
        forall|i: int| 0 <= i < src.len() ==> splice(s, at, src)[at + i] == #[trigger] src[i],
        forall|i: int|
            0 <= i < s.len() && !(at <= i < at + src.len()) ==> #[trigger] splice(s, at, src)[i]
                == s[i],
{
}

/// Integers are read at their place, least significant byte first.
#[verifier::rlimit(40)]
pub proof fn integers_are_read_at_their_place(
    s: &[u8],
    at: usize,
    v16: u16,
    v32: u32,
    v64: u64,
)
    ensures
        at + 2 <= s@.len() && call_ensures(read_le16, (s, at), v16) ==> v16 == s@[at as int] + 256
            * s@[at + 1],
        at + 4 <= s@.len() && call_ensures(read_le32, (s, at), v32) ==> v32 == s@[at as int] + 0x100
            * s@[at + 1] + 0x1_0000 * s@[at + 2] + 0x100_0000 * s@[at + 3],
        at + 8 <= s@.len() && call_ensures(read_le64, (s, at), v64) ==> v64 == s@[at as int] + 0x100
            * s@[at + 1] + 0x1_0000 * s@[at + 2] + 0x100_0000 * s@[at + 3] + 0x1_0000_0000 * s@[at
            + 4] + 0x100_0000_0000 * s@[at + 5] + 0x1_0000_0000_0000 * s@[at + 6]
            + 0x100_0000_0000_0000 * s@[at + 7],
{
    if at + 2 <= s@.len() {
        lemma_le_value_2(s@.subrange(at as int, at + 2));
    }
    if at + 4 <= s@.len() {
        four_bytes_by_place(s@.subrange(at as int, at + 4));
    }
    if at + 8 <= s@.len() {
        eight_bytes_by_place(s@.subrange(at as int, at + 8));
    }
}

/// A copy lands at its place, byte by byte, and every other byte is kept.
pub proof fn copies_land_at_their_place(dst: &mut [u8], at: usize, src: &[u8], i: int)
    requires
        call_ensures(copy_into, (dst, at, src), ()),
        at + src@.len() <= old(dst)@.len(),
        0 <= i < old(dst)@.len(),
    ensures
        final(dst)@.len() == old(dst)@.len(),
        at <= i < at + src@.len() ==> final(dst)@[i] == src@[i - at],
        i < at || i >= at + src@.len() ==> final(dst)@[i] == old(dst)@[i],
{
}

} // verus!
