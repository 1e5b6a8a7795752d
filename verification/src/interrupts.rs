//! Dispatch logic for the Caravel external interrupts.

use vstd::prelude::*;

verus! {

broadcast use vstd::std_specs::bits::axiom_u64_trailing_zeros;

/// Bit `i` of a word.
pub open spec fn bit64(v: u64, i: u64) -> bool {
    (v >> i) & 1 == 1
}

/// The interrupt to dispatch, given the pending-interrupt mask (`vmip`): the
/// lowest pending one, or none when nothing is pending.
pub fn next_pending_interrupt(pending: usize) -> (r: Option<usize>)
    ensures
        pending == 0 ==> r is None,
        pending != 0 ==> (r matches Some(k) && k < 64 && bit64(pending as u64, k as u64) && forall|
            j: u64,
        | j < k ==> !#[trigger] bit64(pending as u64, j)),
{
    if pending == 0 {
        return None;
    }
    let p: u64 = pending as u64;
    let k: u32 = p.trailing_zeros();
    proof {
        assert(p != 0);
        assert(k < 64);
        assert forall|j: u64| j < k implies !#[trigger] bit64(p, j) by {
            assert((p >> (j as u32)) & 1u64 == 0u64);
            assert(p >> (j as u32) == p >> j) by (bit_vector)
                requires
                    j < 64,
            ;
        }
        assert((p >> k) & 1u64 == 1u64);
        assert(p >> k == p >> (k as u64)) by (bit_vector);
    }
    Some(k as usize)
}

} // verus!
