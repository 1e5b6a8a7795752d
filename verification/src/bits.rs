//! Bit and byte manipulations shared by the drivers.

use vstd::prelude::*;

verus! {

/// Bit `i` of a byte.
pub open spec fn byte_bit(x: u8, i: u8) -> bool {
    (x >> i) & 1 == 1
}

/// Bit `i` of `r` is bit `7 - i` of `x`, for each `i`.
pub open spec fn is_reversal_of(r: u8, x: u8) -> bool {
    forall|i: u8| i < 8 ==> #[trigger] byte_bit(r, i) == byte_bit(x, (7 - i) as u8)
}

/// The byte with the bits of `x` in reverse order.
pub open spec fn reversed(x: u8) -> u8 {
    choose|r: u8| is_reversal_of(r, x)
}

/// Two bytes with the same eight bits are equal.
pub proof fn lemma_byte_eq_by_bits(a: u8, b: u8)
    requires
        forall|i: u8| i < 8 ==> #[trigger] byte_bit(a, i) == byte_bit(b, i),
    ensures
        a == b,
{
    assert(byte_bit(a, 0) == byte_bit(b, 0));
    assert(byte_bit(a, 1) == byte_bit(b, 1));
    assert(byte_bit(a, 2) == byte_bit(b, 2));
    assert(byte_bit(a, 3) == byte_bit(b, 3));
    assert(byte_bit(a, 4) == byte_bit(b, 4));
    assert(byte_bit(a, 5) == byte_bit(b, 5));
    assert(byte_bit(a, 6) == byte_bit(b, 6));
    assert(byte_bit(a, 7) == byte_bit(b, 7));
    assert(a == b) by (bit_vector)
        requires
            ((a >> 0u8) & 1 == 1) == ((b >> 0u8) & 1 == 1),
            ((a >> 1u8) & 1 == 1) == ((b >> 1u8) & 1 == 1),
            ((a >> 2u8) & 1 == 1) == ((b >> 2u8) & 1 == 1),
            ((a >> 3u8) & 1 == 1) == ((b >> 3u8) & 1 == 1),
            ((a >> 4u8) & 1 == 1) == ((b >> 4u8) & 1 == 1),
            ((a >> 5u8) & 1 == 1) == ((b >> 5u8) & 1 == 1),
            ((a >> 6u8) & 1 == 1) == ((b >> 6u8) & 1 == 1),
            ((a >> 7u8) & 1 == 1) == ((b >> 7u8) & 1 == 1),
    ;
}

/// `reversed(x)` has the bits of `x` in reverse order, and is the only byte
/// that has.
pub proof fn lemma_reversed(x: u8, r: u8)
    ensures
        is_reversal_of(reversed(x), x),
        is_reversal_of(r, x) ==> r == reversed(x),
{
    let w: u8 = ((x & 0x01) << 7u8) | ((x & 0x02) << 5u8) | ((x & 0x04) << 3u8) | ((x & 0x08) << 1u8)
        | ((x & 0x10) >> 1u8) | ((x & 0x20) >> 3u8) | ((x & 0x40) >> 5u8) | ((x & 0x80) >> 7u8);
    assert(forall|i: u8| i < 8 ==> (#[trigger] (w >> i) & 1 == 1) == ((x >> (7 - i) as u8) & 1 == 1)) by (bit_vector)
        requires
            w == ((x & 0x01) << 7u8) | ((x & 0x02) << 5u8) | ((x & 0x04) << 3u8) | ((x & 0x08) << 1u8)
                | ((x & 0x10) >> 1u8) | ((x & 0x20) >> 3u8) | ((x & 0x40) >> 5u8) | ((x & 0x80) >> 7u8),
    ;
    assert(is_reversal_of(w, x));
    let rx = reversed(x);
    assert(is_reversal_of(rx, x));
    if is_reversal_of(r, x) {
        assert forall|i: u8| i < 8 implies #[trigger] byte_bit(r, i) == byte_bit(rx, i) by {
            assert(byte_bit(r, i) == byte_bit(x, (7 - i) as u8));
            assert(byte_bit(rx, i) == byte_bit(x, (7 - i) as u8));
        }
        lemma_byte_eq_by_bits(r, rx);
    }
}

/// Reverses the order of the bits of a byte (bit 0 becomes bit 7).
pub fn reverse_bits_u8(x: u8) -> (r: u8)
    ensures
        r == reversed(x),
        forall|i: u8| i < 8 ==> #[trigger] byte_bit(r, i) == byte_bit(x, (7 - i) as u8),
{
    let r: u8 = ((x & 0x01) << 7u8) | ((x & 0x02) << 5u8) | ((x & 0x04) << 3u8) | ((x & 0x08) << 1u8)
        | ((x & 0x10) >> 1u8) | ((x & 0x20) >> 3u8) | ((x & 0x40) >> 5u8) | ((x & 0x80) >> 7u8);
    assert(forall|i: u8| i < 8 ==> (#[trigger] (r >> i) & 1 == 1) == ((x >> (7 - i) as u8) & 1 == 1)) by (bit_vector)
        requires
            r == ((x & 0x01) << 7u8) | ((x & 0x02) << 5u8) | ((x & 0x04) << 3u8) | ((x & 0x08) << 1u8)
                | ((x & 0x10) >> 1u8) | ((x & 0x20) >> 3u8) | ((x & 0x40) >> 5u8) | ((x & 0x80) >> 7u8),
    ;
    assert(forall|i: u8| i < 8 ==> #[trigger] byte_bit(r, i) == byte_bit(x, (7 - i) as u8));
    proof {
        lemma_reversed(x, r);
    }
    r
}

} // verus!

verus! {

/// Number of set bits in the binary representation of `x`.
pub open spec fn ones(x: nat) -> nat
    decreases x,
{
    if x == 0 {
        0
    } else {
        x % 2 + ones(x / 2)
    }
}

/// The number whose binary representation is `k` ones: `2^k - 1`.
pub open spec fn low_ones(k: nat) -> nat
    decreases k,
{
    if k == 0 {
        0
    } else {
        2 * low_ones((k - 1) as nat) + 1
    }
}

/// The value of four bytes read in little-endian order.
pub open spec fn le_u32(b0: u8, b1: u8, b2: u8, b3: u8) -> int {
    b0 + 256 * b1 + 65536 * b2 + 16777216 * b3
}

/// The four bytes of a word, least significant first.
pub open spec fn le_bytes(x: u32) -> Seq<u8> {
    seq![(x % 256) as u8, ((x / 256) % 256) as u8, ((x / 65536) % 256) as u8, (x / 16777216) as u8]
}

/// The value of two bytes read in big-endian order.
pub open spec fn be_u16(hi: u8, lo: u8) -> int {
    256 * hi + lo
}

/// A number below `2^k` has at most `k` ones.
pub proof fn lemma_ones_bound(x: nat, k: nat)
    requires
        x < vstd::arithmetic::power2::pow2(k),
    ensures
        ones(x) <= k,
    decreases k,
{
    if k > 0 && x > 0 {
        vstd::arithmetic::power2::lemma_pow2_unfold(k);
        lemma_ones_bound(x / 2, (k - 1) as nat);
    } else if x > 0 {
        vstd::arithmetic::power2::lemma_pow2(0);
        reveal(vstd::arithmetic::power::pow);
    }
}

/// `2^k - 1` is `low_ones(k)`.
pub proof fn lemma_low_ones_is_pow2_minus_one(k: nat)
    ensures
        low_ones(k) + 1 == vstd::arithmetic::power2::pow2(k),
    decreases k,
{
    if k == 0 {
        vstd::arithmetic::power2::lemma_pow2(0);
        reveal(vstd::arithmetic::power::pow);
    } else {
        vstd::arithmetic::power2::lemma_pow2_unfold(k);
        lemma_low_ones_is_pow2_minus_one((k - 1) as nat);
    }
}

/// A run of `k` ones counts `k` ones: the thermometer code of `k` decodes to `k`.
pub proof fn lemma_ones_of_low_ones(k: nat)
    ensures
        ones(low_ones(k)) == k,
    decreases k,
{
    if k > 0 {
        let p = low_ones((k - 1) as nat);
        assert((2 * p + 1) / 2 == p);
        assert((2 * p + 1) % 2 == 1);
        lemma_ones_of_low_ones((k - 1) as nat);
    }
}

/// Counts the set bits of a word.
pub fn count_ones_u32(x: u32) -> (r: u32)
    ensures
        r == ones(x as nat),
        r <= 32,
{
    proof {
        vstd::arithmetic::power2::lemma2_to64();
        lemma_ones_bound(x as nat, 32);
    }
    let mut v: u32 = x;
    let mut c: u32 = 0;
    while v != 0
        invariant
            c + ones(v as nat) == ones(x as nat),
            ones(x as nat) <= 32,
        decreases v,
    {
        assert(v & 1 == v % 2) by (bit_vector);
        assert(v >> 1 == v / 2) by (bit_vector);
        c = c + (v & 1);
        v = v >> 1;
    }
    c
}

/// `2^k - 1` as a word, for `k < 32`.
pub fn low_ones_u32(k: u32) -> (r: u32)
    requires
        k < 32,
    ensures
        r == low_ones(k as nat),
{
    proof {
        vstd::bits::lemma_u32_pow2_no_overflow(k as nat);
        vstd::bits::lemma_u32_shl_is_mul(1, k);
        lemma_low_ones_is_pow2_minus_one(k as nat);
    }
    (1u32 << k) - 1
}

/// Assembles a word from four bytes in little-endian order.
pub fn u32_from_le_bytes(b: [u8; 4]) -> (r: u32)
    ensures
        r == le_u32(b[0], b[1], b[2], b[3]),
{
    b[0] as u32 + (b[1] as u32) * 256 + (b[2] as u32) * 65536 + (b[3] as u32) * 16777216
}

/// Splits a word into four bytes in little-endian order.
pub fn u32_to_le_bytes(x: u32) -> (r: [u8; 4])
    ensures
        r@ == le_bytes(x),
        le_u32(r[0], r[1], r[2], r[3]) == x,
{
    assert((x & 0xff) + 256 * ((x >> 8) & 0xff) + 65536 * ((x >> 16) & 0xff) + 16777216 * ((x
        >> 24) & 0xff) == x) by (bit_vector);
    assert((x & 0xff) == x % 256 && ((x >> 8) & 0xff) == (x / 256) % 256 && ((x >> 16) & 0xff)
        == (x / 65536) % 256 && ((x >> 24) & 0xff) == x / 16777216) by (bit_vector);
    assert((x & 0xff) < 256 && ((x >> 8) & 0xff) < 256 && ((x >> 16) & 0xff) < 256 && ((x >> 24)
        & 0xff) < 256) by (bit_vector);
    [(x & 0xff) as u8, ((x >> 8) & 0xff) as u8, ((x >> 16) & 0xff) as u8, ((x >> 24) & 0xff) as u8]
}

/// Assembles a half-word from two bytes in big-endian order.
pub fn u16_from_be_bytes(b: [u8; 2]) -> (r: u16)
    ensures
        r == be_u16(b[0], b[1]),
{
    (b[0] as u16) * 256 + b[1] as u16
}

/// Reading the bytes of a word back in little-endian order gives the word.
pub proof fn law_le_bytes_roundtrip(x: u32)
    ensures
        le_u32(le_bytes(x)[0], le_bytes(x)[1], le_bytes(x)[2], le_bytes(x)[3]) == x,
{
    assert((x % 256) + 256 * ((x / 256) % 256) + 65536 * ((x / 65536) % 256) + 16777216 * (x
        / 16777216) == x) by (bit_vector);
}

/// Reversing the bits of a byte twice gives the byte back.
pub proof fn law_reverse_twice(x: u8)
    ensures
        reversed(reversed(x)) == x,
{
    let r = reversed(x);
    lemma_reversed(x, x);
    assert forall|i: u8| i < 8 implies #[trigger] byte_bit(x, i) == byte_bit(r, (7 - i) as u8) by {
        let j = (7 - i) as u8;
        assert(byte_bit(r, j) == byte_bit(x, (7 - j) as u8));
        assert((7 - j) as u8 == i);
    }
    assert(is_reversal_of(x, r));
    lemma_reversed(r, x);
}

/// A thermometer code of `k <= 31` ones fits in a word and counts `k` ones.
pub proof fn law_thermometer_counts(k: nat)
    requires
        k < 32,
    ensures
        low_ones(k) < 0x1_0000_0000,
        ones(low_ones(k)) == k,
{
    lemma_low_ones_is_pow2_minus_one(k);
    vstd::arithmetic::power2::lemma_pow2_strictly_increases(k, 32);
    vstd::arithmetic::power2::lemma2_to64();
    lemma_ones_of_low_ones(k);
}

/// `ones` counts ones: none in 0, as many in `2x` as in `x`, one more in
/// `2x + 1`.
pub proof fn law_ones_counts(x: nat)
    ensures
        ones(0) == 0,
        ones(2 * x) == ones(x),
        ones(2 * x + 1) == ones(x) + 1,
{
    if x > 0 {
        assert((2 * x) / 2 == x);
        assert((2 * x) % 2 == 0);
    }
    assert((2 * x + 1) / 2 == x);
    assert((2 * x + 1) % 2 == 1);
}

/// The bytes of a word, least significant first, weigh 1, 256, 65536 and
/// 16777216, each below 256.
pub proof fn law_le_bytes_value(x: u32)
    ensures
        le_bytes(x).len() == 4,
        le_bytes(x)[0] + 256 * le_bytes(x)[1] + 65536 * le_bytes(x)[2] + 16777216 * le_bytes(x)[3] == x,
{
    law_le_bytes_roundtrip(x);
}

} // verus!
