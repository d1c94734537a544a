//! Guarded-radix address resolution: walking CNode capabilities from a
//! root, each level first matching a fixed guard and then consuming
//! `radix` index bits, until the requested number of bits is used up
//! or the walk leaves the CNode tree.
use vstd::prelude::*;

use crate::arch::riscv64::{cap_t, CapData, CapTag};
use crate::bits::{mask_low, mask_u64};
use crate::config::wordBits;
use crate::cte::{cspace_wf, CSpace, CteData};
use crate::exception::exception_t;
use crate::structures::resolveAddressBits_ret_t;

verus! {

/// One walk of the guarded-radix tree from a CNode capability,
/// consuming `n_bits` address bits of `cap_ptr`.  The result is the
/// status, the slot index reached, and the bits left untranslated.
/// The walk fails with a lookup fault when the guard does not match,
/// when a level consumes more bits than remain, when a level consumes
/// none at all, or when the computed slot lies outside the arena (the
/// last two are kernel-bug states, reported here as lookup faults).
pub open spec fn spec_resolve_loop(
    st: Seq<CteData>,
    node_cap: CapData,
    cap_ptr: u64,
    n_bits: u64,
) -> (exception_t, int, u64)
    decreases n_bits,
{
    let radix = node_cap->CNode_radix;
    let guard_size = node_cap->CNode_guard_size;
    let level_bits = radix + guard_size;
    if level_bits == 0 {
        (exception_t::EXCEPTION_LOOKUP_FAULT, 0, n_bits)
    } else if guard_size > n_bits {
        (exception_t::EXCEPTION_LOOKUP_FAULT, 0, n_bits)
    } else {
        let guard = (cap_ptr >> (((n_bits - guard_size) as u64) & 63)) & mask_low(guard_size);
        if guard != node_cap->CNode_guard {
            (exception_t::EXCEPTION_LOOKUP_FAULT, 0, n_bits)
        } else if level_bits > n_bits {
            (exception_t::EXCEPTION_LOOKUP_FAULT, 0, n_bits)
        } else {
            let offset = (cap_ptr >> ((n_bits - level_bits) as u64)) & mask_low(radix);
            let a = node_cap->CNode_ptr as int + offset as int * 32;
            if !(32 <= a && a % 32 == 0 && a / 32 <= st.len()) {
                (exception_t::EXCEPTION_LOOKUP_FAULT, 0, n_bits)
            } else {
                let idx = a / 32 - 1;
                if n_bits == level_bits {
                    (exception_t::EXCEPTION_NONE, idx, 0)
                } else {
                    let nb2 = (n_bits - level_bits) as u64;
                    if !(st[idx].cap is CNode) {
                        (exception_t::EXCEPTION_NONE, idx, nb2)
                    } else {
                        spec_resolve_loop(st, st[idx].cap, cap_ptr, nb2)
                    }
                }
            }
        }
    }
}

/// Resolution from an arbitrary root capability: anything but a CNode
/// faults at once, and a fault at any depth reports the caller's
/// original bit count untranslated.
pub open spec fn spec_resolve(
    st: Seq<CteData>,
    node_cap: CapData,
    cap_ptr: u64,
    n_bits: u64,
) -> (exception_t, int, u64) {
    if !(node_cap is CNode) {
        (exception_t::EXCEPTION_LOOKUP_FAULT, 0, n_bits)
    } else {
        let r = spec_resolve_loop(st, node_cap, cap_ptr, n_bits);
        if r.0 == exception_t::EXCEPTION_LOOKUP_FAULT {
            (r.0, r.1, n_bits)
        } else {
            r
        }
    }
}

/// Walks the CNode tree rooted at `node_cap`, consuming `n_bits` bits
/// of `cap_ptr`.  On success the returned slot is the resolved slot
/// and no bits remain; reaching a non-CNode capability early returns
/// that slot with the bits still untranslated, which is not a fault.
pub fn resolve_address_bits(
    cs: &CSpace,
    node_cap: &cap_t,
    cap_ptr: u64,
    n_bits: u64,
) -> (r: resolveAddressBits_ret_t)
    requires
        cspace_wf(cs@),
        n_bits <= wordBits,
    ensures
        r.status == spec_resolve(cs@, node_cap@, cap_ptr, n_bits).0,
        r.status == exception_t::EXCEPTION_NONE ==> r.slot as int == spec_resolve(
            cs@,
            node_cap@,
            cap_ptr,
            n_bits,
        ).1,
        r.bitsRemaining == spec_resolve(cs@, node_cap@, cap_ptr, n_bits).2,
{
    let mut ret = resolveAddressBits_ret_t::default();
    ret.bitsRemaining = n_bits;
    if node_cap.get_cap_type() != CapTag::CapCNodeCap {
        ret.status = exception_t::EXCEPTION_LOOKUP_FAULT;
        return ret;
    }
    let mut nodeCap = node_cap.clone();
    let mut bits = n_bits;
    loop
        invariant
            cspace_wf(cs@),
            bits <= wordBits,
            node_cap@ is CNode,
            nodeCap@ is CNode,
            spec_resolve_loop(cs@, node_cap@, cap_ptr, n_bits) == spec_resolve_loop(
                cs@,
                nodeCap@,
                cap_ptr,
                bits,
            ),
        decreases bits,
    {
        let radixBits = nodeCap.get_cnode_radix();
        let guardBits = nodeCap.get_cnode_guard_size();
        let levelBits = radixBits + guardBits;
        if levelBits == 0 {
            return resolveAddressBits_ret_t {
                status: exception_t::EXCEPTION_LOOKUP_FAULT,
                slot: 0,
                bitsRemaining: n_bits,
            };
        }
        if guardBits > bits {
            return resolveAddressBits_ret_t {
                status: exception_t::EXCEPTION_LOOKUP_FAULT,
                slot: 0,
                bitsRemaining: n_bits,
            };
        }
        let capGuard = nodeCap.get_cnode_guard();
        proof {
            crate::bits::lemma_and_mask_le((bits - guardBits) as u64, 63);
        }
        let guard = (cap_ptr >> ((bits - guardBits) & 63)) & mask_u64(guardBits);
        if guard != capGuard {
            return resolveAddressBits_ret_t {
                status: exception_t::EXCEPTION_LOOKUP_FAULT,
                slot: 0,
                bitsRemaining: n_bits,
            };
        }
        if levelBits > bits {
            return resolveAddressBits_ret_t {
                status: exception_t::EXCEPTION_LOOKUP_FAULT,
                slot: 0,
                bitsRemaining: n_bits,
            };
        }
        let offset = (cap_ptr >> (bits - levelBits)) & mask_u64(radixBits);
        let a128: u128 = nodeCap.get_cnode_ptr() as u128 + offset as u128 * 32;
        let len128: u128 = cs.len() as u128;
        if !(32 <= a128 && a128 % 32 == 0 && a128 / 32 <= len128) {
            return resolveAddressBits_ret_t {
                status: exception_t::EXCEPTION_LOOKUP_FAULT,
                slot: 0,
                bitsRemaining: n_bits,
            };
        }
        let slot = (a128 / 32 - 1) as usize;
        if bits == levelBits {
            return resolveAddressBits_ret_t {
                status: exception_t::EXCEPTION_NONE,
                slot,
                bitsRemaining: 0,
            };
        }
        bits = bits - levelBits;
        nodeCap = self_cap_clone(cs, slot);
        if nodeCap.get_cap_type() != CapTag::CapCNodeCap {
            return resolveAddressBits_ret_t {
                status: exception_t::EXCEPTION_NONE,
                slot,
                bitsRemaining: bits,
            };
        }
    }
}

/// Reads a copy of the capability stored in slot `i`.
fn self_cap_clone(cs: &CSpace, i: usize) -> (r: cap_t)
    requires
        i < cs@.len(),
    ensures
        r@ == cs@[i as int].cap,
{
    cs.get_slot(i).cap.clone()
}

} // verus!
