//! Register writes and bit access shared by the memory-mapped peripherals.
//!
//! A driver in this crate does not touch the hardware: it says which values go
//! to which registers, in order, as a list of [`RegWrite`]s, and it takes the
//! values it reads from registers as arguments.

use vstd::prelude::*;

verus! {

/// A write of `value` to the register `reg`.
#[derive(Debug, PartialEq, Eq)]
pub struct RegWrite<R> {
    pub reg: R,
    pub value: u32,
}

/// The write of `value` to `reg`.
pub open spec fn write_of<R>(reg: R, value: u32) -> RegWrite<R> {
    RegWrite { reg, value }
}

/// Bit `i` of a register value.
pub open spec fn bit32(v: u32, i: u32) -> bool {
    (v >> i) & 1 == 1
}

/// `1` for `true`, `0` for `false`: how a flag register is written.
pub open spec fn flag_value(b: bool) -> u32 {
    if b {
        1
    } else {
        0
    }
}

/// The register value for a flag.
pub fn flag(b: bool) -> (r: u32)
    ensures
        r == flag_value(b),
{
    if b {
        1
    } else {
        0
    }
}

/// Reads bit `i` of a register value.
pub fn test_bit(v: u32, i: u32) -> (r: bool)
    requires
        i < 32,
    ensures
        r == bit32(v, i),
{
    (v >> i) & 1 == 1
}

/// `v` with bit `i` set to `on` and the other bits kept.
pub open spec fn with_bit_value(v: u32, i: u32, on: bool) -> u32 {
    if on {
        v | (1u32 << i)
    } else {
        v & !(1u32 << i)
    }
}

/// Sets bit `i` of `v` to `on`, keeping the other bits.
pub fn with_bit(v: u32, i: u32, on: bool) -> (r: u32)
    requires
        i < 32,
    ensures
        r == with_bit_value(v, i, on),
        bit32(r, i) == on,
        forall|j: u32| j < 32 && j != i ==> #[trigger] bit32(r, j) == bit32(v, j),
{
    let r = if on {
        v | (1u32 << i)
    } else {
        v & !(1u32 << i)
    };
    proof {
        lemma_with_bit(v, i, on);
    }
    r
}

/// Setting one bit changes that bit and no other.
pub proof fn lemma_with_bit(v: u32, i: u32, on: bool)
    requires
        i < 32,
    ensures
        bit32(with_bit_value(v, i, on), i) == on,
        forall|j: u32| j < 32 && j != i ==> #[trigger] bit32(with_bit_value(v, i, on), j) == bit32(v, j),
{
    let r = with_bit_value(v, i, on);
    if on {
        assert(((v | (1u32 << i)) >> i) & 1 == 1) by (bit_vector)
            requires
                i < 32,
        ;
        assert(forall|j: u32|
            j < 32 && j != i ==> #[trigger] (((v | (1u32 << i)) >> j) & 1) == ((v >> j) & 1))
            by (bit_vector)
            requires
                i < 32,
        ;
    } else {
        assert(((v & !(1u32 << i)) >> i) & 1 == 0) by (bit_vector)
            requires
                i < 32,
        ;
        assert(forall|j: u32|
            j < 32 && j != i ==> #[trigger] (((v & !(1u32 << i)) >> j) & 1) == ((v >> j) & 1))
            by (bit_vector)
            requires
                i < 32,
        ;
    }
}

/// The value with only bit `i` set: what a write-1-to-clear register is
/// written to clear one flag and leave the others alone.
pub fn single_bit(i: u32) -> (r: u32)
    requires
        i < 32,
    ensures
        r == 1u32 << i,
        bit32(r, i),
        forall|j: u32| j < 32 && j != i ==> !#[trigger] bit32(r, j),
{
    let r = 1u32 << i;
    assert(((1u32 << i) >> i) & 1 == 1) by (bit_vector)
        requires
            i < 32,
    ;
    assert(forall|j: u32| j < 32 && j != i ==> #[trigger] (((1u32 << i) >> j) & 1) == 0) by (bit_vector)
        requires
            i < 32,
    ;
    r
}

} // verus!
