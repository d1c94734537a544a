//! The zombie/revoke engine: preemptible teardown of capability
//! sub-trees.  Deleting the final capability to a CNode or thread
//! first turns it into a zombie; the engine then consumes the zombie's
//! slots one by one, pausing at explicit preemption points, until the
//! slot can be emptied or only the cyclic-zombie sentinel remains.
//!
//! The protocol recurses exactly one level deep: draining a
//! slot directly (`exposed`) may delete one contained slot, and that
//! inner deletion only ever defers further work by swapping a zombie
//! into place.  The engine is therefore written as two layers, an
//! outer one that recurses into the inner one, and the inner one that
//! never recurses.
//!
//! A hosted kernel asserts, and panics on, invariants that no contract
//! here can supply (the shape a zombie has after an inner deletion, a
//! zombie pointer that leaves the arena); this engine reports such a
//! state as `EXCEPTION_FAULT` instead, since its verified functions do
//! not panic.
use vstd::prelude::*;

use crate::arch::riscv64::{cap_t, CapData, CapTag};
use crate::cte::{
    cspace_wf, cte_t, lemma_cap_update_nulls, lemma_cap_update_wf, lemma_slot_addr_index,
    lemma_slot_index_addr, nulls_unlinked, slot_addr, slot_index, slot_wf, CSpace, CteData,
};
use crate::deps::KernelDeps;
use crate::exception::exception_t;
use crate::mdb::mdb_node_t;
use crate::ops::{
    cte_swap, lemma_cte_swap_own_nulls, lemma_set_empty_nulls, lemma_set_empty_wf, spec_cte_swap,
    spec_set_empty,
};
use crate::structures::finaliseSlot_ret;
use crate::zombie::{capCyclicZombie, spec_cap_cyclic_zombie, spec_zombie_number, spec_zombie_ptr};

verus! {

/// True when `cap` may be removed from `slot_ptr` without further
/// work: it is null, a spent zombie, or the one-slot cyclic-zombie
/// sentinel sitting in its own slot.
pub open spec fn spec_cap_removable(c: CapData, slot_ptr: u64) -> bool {
    match c {
        CapData::Null => true,
        CapData::Zombie { .. } => spec_zombie_number(c) == 0 || (spec_zombie_number(c) == 1
            && spec_zombie_ptr(c) == slot_ptr),
        _ => false,
    }
}

/// True of the capability variants whose finalisation is immediate:
/// everything except threads, CNodes and zombies, whose teardown may
/// leave a zombie behind.
pub open spec fn spec_finalise_trivial(c: CapData) -> bool {
    !(c is CNode || c is Thread || c is Zombie)
}

/// The condition under which the deferral swap can run: the zombie in
/// `slot` points at a slot of the arena, and neither that target slot
/// nor `slot` itself is linked to itself (no list of the mapping
/// database ever is).
pub open spec fn zombie_swap_ok(st: Seq<CteData>, slot: int) -> bool {
    let ptr = spec_zombie_ptr(st[slot].cap);
    &&& 32 <= ptr
    &&& ptr % 32 == 0
    &&& ptr as int / 32 <= st.len()
    &&& st[slot_index(ptr)].mdb.next != ptr
    &&& st[slot_index(ptr)].mdb.prev != ptr
    &&& st[slot].mdb.next != slot_addr(slot)
    &&& st[slot].mdb.prev != slot_addr(slot)
}

/// The address of the last live slot of the region a zombie tears
/// down.
pub open spec fn zombie_end_addr(c: CapData) -> int {
    spec_zombie_ptr(c) as int + (spec_zombie_number(c) - 1) * 32
}

/// The progress a reduction step makes on the zombie in `slot`: the
/// slot went null, or the same zombie stands with one fewer live slot
/// and the drained end slot null, or the cyclic sentinel landed in the
/// slot.
pub open spec fn zombie_reduced(pre: Seq<CteData>, post: Seq<CteData>, slot: int) -> bool {
    let c0 = pre[slot].cap;
    ||| post[slot].cap is Null
    ||| {
        &&& post[slot].cap is Zombie
        &&& post[slot].cap->Zombie_ztype == c0->Zombie_ztype
        &&& spec_zombie_ptr(post[slot].cap) == spec_zombie_ptr(c0)
        &&& spec_zombie_number(post[slot].cap) == spec_zombie_number(c0) - 1
        &&& post[zombie_end_addr(c0) / 32 - 1].cap is Null
    }
    ||| spec_cap_cyclic_zombie(post[slot].cap, slot_addr(slot))
}

/// True iff a zombie's last live slot lies inside the arena.
pub open spec fn zombie_end_ok(st: Seq<CteData>, c: CapData) -> bool {
    &&& 32 <= zombie_end_addr(c)
    &&& zombie_end_addr(c) % 32 == 0
    &&& zombie_end_addr(c) / 32 <= st.len()
}

/// Decides whether `cap` can be removed from the slot at `slot_ptr`.
pub fn cap_removable(cap: &cap_t, slot_ptr: u64) -> (r: bool)
    requires
        cap@ is Null || cap@ is Zombie,
    ensures
        r == spec_cap_removable(cap@, slot_ptr),
{
    match cap.get_cap_type() {
        CapTag::CapNullCap => true,
        _ => {
            let n = cap.get_zombie_number();
            let ptr = cap.get_zombie_ptr();
            n == 0 || (n == 1 && slot_ptr == ptr)
        },
    }
}

impl CSpace {
    /// Unlinks `slot` from the MDB, propagates its `first_badged` flag
    /// to the successor, empties the slot, and notifies the
    /// collaborator with `cleanup_info`.  A slot already holding the
    /// null capability is left untouched.
    fn set_empty<D: KernelDeps>(&mut self, deps: &mut D, slot: usize, cleanup_info: &cap_t)
        requires
            cspace_wf(old(self)@),
            slot < old(self)@.len(),
        ensures
            final(self)@ == spec_set_empty(old(self)@, slot as int),
            cspace_wf(final(self)@),
            final(self)@.len() == old(self)@.len(),
            nulls_unlinked(old(self)@) ==> nulls_unlinked(final(self)@),
    {
        if self.get_slot(slot).cap.get_cap_type() != CapTag::CapNullCap {
            proof {
                assert(slot_wf(self@, slot as int));
                lemma_slot_addr_index(slot as int);
            }
            let mdb_node = self.get_slot(slot).cteMDBNode.clone();
            let prev_addr = mdb_node.get_prev();
            let next_addr = mdb_node.get_next();
            if prev_addr != 0 {
                proof {
                    lemma_slot_index_addr(prev_addr);
                }
                let p = (prev_addr / 32 - 1) as usize;
                let mut p_node = *self.get_slot(p);
                p_node.cteMDBNode.set_next(next_addr);
                self.set_slot(p, p_node);
            }
            if next_addr != 0 {
                proof {
                    lemma_slot_index_addr(next_addr);
                }
                let n = (next_addr / 32 - 1) as usize;
                let mut n_node = *self.get_slot(n);
                n_node.cteMDBNode.set_prev(prev_addr);
                let first_badged: u64 = if n_node.cteMDBNode.get_first_badged() != 0
                    || mdb_node.get_first_badged() != 0 {
                    1
                } else {
                    0
                };
                n_node.cteMDBNode.set_first_badged(first_badged);
                self.set_slot(n, n_node);
            }
            self.set_slot(
                slot,
                cte_t { cap: cap_t::new_null_cap(), cteMDBNode: mdb_node_t::new(0, 0, 0, 0) },
            );
            deps.post_cap_deletion(cleanup_info);
            proof {
                lemma_set_empty_wf(old(self)@, slot as int);
                assert(self@ =~= spec_set_empty(old(self)@, slot as int));
                if nulls_unlinked(old(self)@) {
                    lemma_set_empty_nulls(old(self)@, slot as int);
                }
            }
        }
    }

    /// Deletes the capability in `slot` without recursion; only legal
    /// for capabilities whose finalisation is immediate, which the
    /// collaborator confirms by returning a removable remainder.
    pub fn delete_one<D: KernelDeps>(&mut self, deps: &mut D, slot: usize)
        requires
            cspace_wf(old(self)@),
            slot < old(self)@.len(),
        ensures
            final(self)@ == spec_set_empty(old(self)@, slot as int),
            cspace_wf(final(self)@),
            final(self)@.len() == old(self)@.len(),
            nulls_unlinked(old(self)@) ==> nulls_unlinked(final(self)@),
    {
        if self.get_slot(slot).cap.get_cap_type() != CapTag::CapNullCap {
            let is_final = self.is_final_cap(slot);
            let cap = self.get_slot(slot).cap.clone();
            let fc_ret = deps.finaliseCap(&cap, is_final, true);
            self.set_empty(deps, slot, &cap_t::new_null_cap());
        }
    }

    /// Swaps a non-cyclic zombie with the first slot of the region it
    /// tears down, leaving a cyclic zombie there to be consumed by the
    /// next pass.  A zombie pointer that leaves the arena, or a
    /// self-linked MDB node no list of the protocol can contain, is
    /// reported as a fault.
    fn reduce_zombie_swap(&mut self, slot: usize) -> (r: exception_t)
        requires
            cspace_wf(old(self)@),
            slot < old(self)@.len(),
            old(self)@[slot as int].cap is Zombie,
            spec_zombie_ptr(old(self)@[slot as int].cap) != slot_addr(slot as int),
        ensures
            cspace_wf(final(self)@),
            final(self)@.len() == old(self)@.len(),
            zombie_swap_ok(old(self)@, slot as int) ==> r == exception_t::EXCEPTION_NONE && final(self)@ == spec_cte_swap(
                old(self)@,
                old(self)@[slot_index(spec_zombie_ptr(old(self)@[slot as int].cap))].cap,
                slot_index(spec_zombie_ptr(old(self)@[slot as int].cap)),
                old(self)@[slot as int].cap,
                slot as int,
            ),
            !zombie_swap_ok(old(self)@, slot as int) ==> r == exception_t::EXCEPTION_FAULT && final(self)@ == old(self)@,
            nulls_unlinked(old(self)@) ==> nulls_unlinked(final(self)@),
    {
        let cap2 = self.get_slot(slot).cap.clone();
        let ptr = cap2.get_zombie_ptr();
        let len64 = self.len() as u64;
        if !(32 <= ptr && ptr % 32 == 0 && ptr / 32 <= len64) {
            return exception_t::EXCEPTION_FAULT;
        }
        proof {
            lemma_slot_index_addr(ptr);
            lemma_slot_addr_index(slot as int);
            lemma_slot_addr_index(slot_index(ptr));
        }
        let next_slot = (ptr / 32 - 1) as usize;
        let slot_ptr = self.get_ptr(slot);
        let next_ptr = self.get_ptr(next_slot);
        let a = self.get_slot(next_slot).cteMDBNode.get_next();
        let b = self.get_slot(next_slot).cteMDBNode.get_prev();
        let c = self.get_slot(slot).cteMDBNode.get_next();
        let d = self.get_slot(slot).cteMDBNode.get_prev();
        if a == next_ptr || b == next_ptr || c == slot_ptr || d == slot_ptr {
            return exception_t::EXCEPTION_FAULT;
        }
        let cap1 = self.get_slot(next_slot).cap.clone();
        cte_swap(self, &cap1, next_slot, &cap2, slot);
        proof {
            if nulls_unlinked(old(self)@) {
                lemma_cte_swap_own_nulls(old(self)@, next_slot as int, slot as int);
            }
        }
        exception_t::EXCEPTION_NONE
    }

    /// The inner finalise loop (`immediate == false`): drives `slot`
    /// until its capability is removable or has become a cyclic
    /// zombie, calling the collaborator once per iteration.
    fn finalise_inner<D: KernelDeps>(&mut self, deps: &mut D, slot: usize) -> (r: finaliseSlot_ret)
        requires
            cspace_wf(old(self)@),
            slot < old(self)@.len(),
        ensures
            cspace_wf(final(self)@),
            final(self)@.len() == old(self)@.len(),
            spec_finalise_trivial(old(self)@[slot as int].cap) ==> r.status
                == exception_t::EXCEPTION_NONE && r.success && final(self)@ == old(self)@,
            r.status == exception_t::EXCEPTION_NONE && !r.success ==> spec_cap_cyclic_zombie(
                final(self)@[slot as int].cap,
                slot_addr(slot as int),
            ),
            nulls_unlinked(old(self)@) ==> nulls_unlinked(final(self)@),
    {
        let ret = finaliseSlot_ret::default();
        // A teardown loop is bounded only by the host's memory; this
        // explicit budget stands in for that bound, and exhausting it
        // reports a preemption at a restartable point.
        let mut budget: u64 = 0xffff_ffff_ffff_ffffu64;
        loop
            invariant
                cspace_wf(self@),
                self@.len() == old(self)@.len(),
                slot < self@.len(),
                spec_finalise_trivial(old(self)@[slot as int].cap) ==> self@ == old(self)@
                    && budget > 0,
                nulls_unlinked(old(self)@) ==> nulls_unlinked(self@),
                ret.status == exception_t::EXCEPTION_NONE,
                ret.success,
            decreases budget,
        {
            if self.get_slot(slot).cap.get_cap_type() == CapTag::CapNullCap {
                return ret;
            }
            if budget == 0 {
                return finaliseSlot_ret {
                    status: exception_t::EXCEPTION_PREEMPTED,
                    success: false,
                    cleanupInfo: cap_t::new_null_cap(),
                };
            }
            budget = budget - 1;
            let is_final = self.is_final_cap(slot);
            let cap = self.get_slot(slot).cap.clone();
            let fc_ret = deps.finaliseCap(&cap, is_final, false);
            let slot_ptr = self.get_ptr(slot);
            if cap_removable(&fc_ret.remainder, slot_ptr) {
                return finaliseSlot_ret {
                    status: exception_t::EXCEPTION_NONE,
                    success: true,
                    cleanupInfo: fc_ret.cleanupInfo,
                };
            }
            let ghost pre = self@;
            let mut node = *self.get_slot(slot);
            node.cap = fc_ret.remainder;
            self.set_slot(slot, node);
            proof {
                lemma_cap_update_wf(pre, slot as int, fc_ret.remainder@);
                assert(self@ =~= pre.update(
                    slot as int,
                    CteData { cap: fc_ret.remainder@, mdb: pre[slot as int].mdb },
                ));
                if nulls_unlinked(pre) {
                    lemma_cap_update_nulls(pre, slot as int, fc_ret.remainder@);
                }
            }
            if capCyclicZombie(&fc_ret.remainder, slot_ptr) {
                return finaliseSlot_ret {
                    status: exception_t::EXCEPTION_NONE,
                    success: false,
                    cleanupInfo: fc_ret.cleanupInfo,
                };
            }
            let status = self.reduce_zombie_swap(slot);
            if status != exception_t::EXCEPTION_NONE {
                return finaliseSlot_ret {
                    status,
                    success: false,
                    cleanupInfo: cap_t::new_null_cap(),
                };
            }
            let status = deps.preemptionPoint();
            if status != exception_t::EXCEPTION_NONE {
                return finaliseSlot_ret {
                    status,
                    success: false,
                    cleanupInfo: cap_t::new_null_cap(),
                };
            }
        }
    }

    /// The inner deletion (`exposed == false`): finalises `slot` and
    /// empties it if finalisation completed; a deferred teardown
    /// leaves a cyclic zombie in place.
    fn delete_all_inner<D: KernelDeps>(&mut self, deps: &mut D, slot: usize) -> (r: exception_t)
        requires
            cspace_wf(old(self)@),
            slot < old(self)@.len(),
        ensures
            cspace_wf(final(self)@),
            final(self)@.len() == old(self)@.len(),
            spec_finalise_trivial(old(self)@[slot as int].cap) ==> r == exception_t::EXCEPTION_NONE
                && final(self)@ == spec_set_empty(old(self)@, slot as int),
            r == exception_t::EXCEPTION_NONE ==> final(self)@[slot as int].cap is Null
                || spec_cap_cyclic_zombie(final(self)@[slot as int].cap, slot_addr(slot as int)),
            nulls_unlinked(old(self)@) ==> nulls_unlinked(final(self)@),
    {
        let fs_ret = self.finalise_inner(deps, slot);
        if fs_ret.status != exception_t::EXCEPTION_NONE {
            return fs_ret.status;
        }
        if fs_ret.success {
            let ghost mid = self@;
            self.set_empty(deps, slot, &fs_ret.cleanupInfo);
            proof {
                crate::ops::lemma_set_empty_null(mid, slot as int);
            }
        }
        exception_t::EXCEPTION_NONE
    }

    /// Consumes one contained slot of the zombie in `slot`: deletes
    /// the region's last live slot through the inner layer, then
    /// either decrements the zombie's count or recognises that the
    /// recursion replaced it.  A shape the protocol cannot produce is
    /// reported as a fault.
    fn reduce_zombie_exposed<D: KernelDeps>(&mut self, deps: &mut D, slot: usize) -> (r:
        exception_t)
        requires
            cspace_wf(old(self)@),
            slot < old(self)@.len(),
            old(self)@[slot as int].cap is Zombie,
            spec_zombie_number(old(self)@[slot as int].cap) != 0,
        ensures
            cspace_wf(final(self)@),
            final(self)@.len() == old(self)@.len(),
            !zombie_end_ok(old(self)@, old(self)@[slot as int].cap) ==> r
                == exception_t::EXCEPTION_FAULT && final(self)@ == old(self)@,
            nulls_unlinked(old(self)@) ==> nulls_unlinked(final(self)@),
            r == exception_t::EXCEPTION_NONE ==> zombie_reduced(old(self)@, final(self)@, slot as int),
    {
        let cap = self.get_slot(slot).cap.clone();
        let slot_ptr = self.get_ptr(slot);
        let ptr = cap.get_zombie_ptr();
        let n = cap.get_zombie_number();
        let zombie_type = cap.get_zombie_type();
        let end128: u128 = ptr as u128 + (n as u128 - 1) * 32;
        let len64 = self.len() as u64;
        if !(end128 >= 32 && end128 % 32 == 0 && end128 / 32 <= len64 as u128) {
            return exception_t::EXCEPTION_FAULT;
        }
        let end_addr = end128 as u64;
        proof {
            lemma_slot_index_addr(end_addr);
        }
        let end_slot = (end_addr / 32 - 1) as usize;
        let status = self.delete_all_inner(deps, end_slot);
        if status != exception_t::EXCEPTION_NONE {
            return status;
        }
        match self.get_slot(slot).cap.get_cap_type() {
            CapTag::CapNullCap => exception_t::EXCEPTION_NONE,
            CapTag::CapZombieCap => {
                let cap2 = self.get_slot(slot).cap.clone();
                let ptr2 = cap2.get_zombie_ptr();
                if ptr == ptr2 && cap2.get_zombie_number() == n && cap2.get_zombie_type()
                    == zombie_type {
                    if self.get_slot(end_slot).cap.get_cap_type() != CapTag::CapNullCap {
                        return exception_t::EXCEPTION_FAULT;
                    }
                    let ghost pre = self@;
                    let mut node = *self.get_slot(slot);
                    node.cap.set_zombie_number(n - 1);
                    self.set_slot(slot, node);
                    proof {
                        lemma_cap_update_wf(pre, slot as int, node.cap@);
                        assert(self@ =~= pre.update(
                            slot as int,
                            CteData { cap: node.cap@, mdb: pre[slot as int].mdb },
                        ));
                        crate::bits::lemma_mask_low_values();
                        crate::bits::lemma_and_mask_le(
                            cap2@->Zombie_ztype,
                            crate::bits::mask_low(6),
                        );
                        crate::bits::lemma_and_mask_le(
                            cap2@->Zombie_id,
                            crate::zombie::spec_zombie_mask(cap2@),
                        );
                        crate::bits::lemma_le_mask_and(
                            (n - 1) as u64,
                            (crate::zombie::spec_zombie_bit(cap2@) + 1) as u64,
                        );
                        if nulls_unlinked(pre) {
                            lemma_cap_update_nulls(pre, slot as int, node.cap@);
                        }
                    }
                    exception_t::EXCEPTION_NONE
                } else {
                    if ptr2 == slot_ptr && ptr != slot_ptr {
                        exception_t::EXCEPTION_NONE
                    } else {
                        exception_t::EXCEPTION_FAULT
                    }
                }
            },
            _ => exception_t::EXCEPTION_FAULT,
        }
    }

    /// The outer finalise loop (`immediate == true`): drives `slot`
    /// until its capability is removable, consuming contained slots of
    /// a zombie remainder one per iteration.
    fn finalise_exposed<D: KernelDeps>(&mut self, deps: &mut D, slot: usize) -> (r:
        finaliseSlot_ret)
        requires
            cspace_wf(old(self)@),
            slot < old(self)@.len(),
        ensures
            cspace_wf(final(self)@),
            final(self)@.len() == old(self)@.len(),
            spec_finalise_trivial(old(self)@[slot as int].cap) ==> r.status
                == exception_t::EXCEPTION_NONE && r.success && final(self)@ == old(self)@,
            r.status == exception_t::EXCEPTION_NONE ==> r.success,
            nulls_unlinked(old(self)@) ==> nulls_unlinked(final(self)@),
    {
        let ret = finaliseSlot_ret::default();
        // The same explicit stand-in for the physical bound as in the
        // inner loop.
        let mut budget: u64 = 0xffff_ffff_ffff_ffffu64;
        loop
            invariant
                cspace_wf(self@),
                self@.len() == old(self)@.len(),
                slot < self@.len(),
                spec_finalise_trivial(old(self)@[slot as int].cap) ==> self@ == old(self)@
                    && budget > 0,
                nulls_unlinked(old(self)@) ==> nulls_unlinked(self@),
                ret.status == exception_t::EXCEPTION_NONE,
                ret.success,
            decreases budget,
        {
            if self.get_slot(slot).cap.get_cap_type() == CapTag::CapNullCap {
                return ret;
            }
            if budget == 0 {
                return finaliseSlot_ret {
                    status: exception_t::EXCEPTION_PREEMPTED,
                    success: false,
                    cleanupInfo: cap_t::new_null_cap(),
                };
            }
            budget = budget - 1;
            let is_final = self.is_final_cap(slot);
            let cap = self.get_slot(slot).cap.clone();
            let fc_ret = deps.finaliseCap(&cap, is_final, false);
            let slot_ptr = self.get_ptr(slot);
            if cap_removable(&fc_ret.remainder, slot_ptr) {
                return finaliseSlot_ret {
                    status: exception_t::EXCEPTION_NONE,
                    success: true,
                    cleanupInfo: fc_ret.cleanupInfo,
                };
            }
            let ghost pre = self@;
            let mut node = *self.get_slot(slot);
            node.cap = fc_ret.remainder;
            self.set_slot(slot, node);
            proof {
                lemma_cap_update_wf(pre, slot as int, fc_ret.remainder@);
                assert(self@ =~= pre.update(
                    slot as int,
                    CteData { cap: fc_ret.remainder@, mdb: pre[slot as int].mdb },
                ));
                if nulls_unlinked(pre) {
                    lemma_cap_update_nulls(pre, slot as int, fc_ret.remainder@);
                }
            }
            let status = self.reduce_zombie_exposed(deps, slot);
            if status != exception_t::EXCEPTION_NONE {
                return finaliseSlot_ret {
                    status,
                    success: false,
                    cleanupInfo: cap_t::new_null_cap(),
                };
            }
            let status = deps.preemptionPoint();
            if status != exception_t::EXCEPTION_NONE {
                return finaliseSlot_ret {
                    status,
                    success: false,
                    cleanupInfo: cap_t::new_null_cap(),
                };
            }
        }
    }

    /// Drives `slot` to the null capability (when `exposed`) or until
    /// its teardown has been deferred as a cyclic zombie.  A
    /// capability with immediate finalisation is removed exactly as
    /// `set_empty` describes.  Any non-`EXCEPTION_NONE` status asks
    /// the caller to restart the operation later: symmetry and the
    /// null-slot invariant still hold, and the slot then carries
    /// either the null capability, a zombie of the remaining work, or
    /// — when a deferral swapped the zombie out — a capability of the
    /// region being torn down, each of which a repeated call consumes.
    pub fn delete_all<D: KernelDeps>(&mut self, deps: &mut D, slot: usize, exposed: bool) -> (r:
        exception_t)
        requires
            cspace_wf(old(self)@),
            slot < old(self)@.len(),
        ensures
            cspace_wf(final(self)@),
            final(self)@.len() == old(self)@.len(),
            spec_finalise_trivial(old(self)@[slot as int].cap) ==> r == exception_t::EXCEPTION_NONE
                && final(self)@ == spec_set_empty(old(self)@, slot as int),
            r == exception_t::EXCEPTION_NONE && exposed ==> final(self)@[slot as int].cap is Null,
            r == exception_t::EXCEPTION_NONE && !exposed ==> final(self)@[slot as int].cap is Null
                || spec_cap_cyclic_zombie(final(self)@[slot as int].cap, slot_addr(slot as int)),
            nulls_unlinked(old(self)@) ==> nulls_unlinked(final(self)@),
            r == exception_t::EXCEPTION_NONE && exposed && nulls_unlinked(old(self)@) ==> final(self)@[slot as int].mdb.next == 0 && final(self)@[slot as int].mdb.prev == 0,
    {
        if !exposed {
            return self.delete_all_inner(deps, slot);
        }
        let fs_ret = self.finalise_exposed(deps, slot);
        if fs_ret.status != exception_t::EXCEPTION_NONE {
            return fs_ret.status;
        }
        let ghost mid = self@;
        self.set_empty(deps, slot, &fs_ret.cleanupInfo);
        proof {
            crate::ops::lemma_set_empty_null(mid, slot as int);
        }
        exception_t::EXCEPTION_NONE
    }

    /// Removes every MDB descendant of `slot`: while the successor is
    /// an MDB child, deletes it completely, pausing at a preemption
    /// point after each child.  On success the slot has no child left.
    /// The slot itself is never deleted by this function, though a
    /// child's own teardown may consume it when the child's region
    /// contains the slot (deleting a CNode that holds the slot one
    /// revokes from).
    pub fn revoke<D: KernelDeps>(&mut self, deps: &mut D, slot: usize) -> (r: exception_t)
        requires
            cspace_wf(old(self)@),
            slot < old(self)@.len(),
        ensures
            cspace_wf(final(self)@),
            final(self)@.len() == old(self)@.len(),
            r == exception_t::EXCEPTION_NONE ==> crate::cte::spec_no_children(
                final(self)@,
                slot as int,
            ),
            crate::cte::spec_no_children(old(self)@, slot as int) ==> r
                == exception_t::EXCEPTION_NONE && final(self)@ == old(self)@,
            nulls_unlinked(old(self)@) ==> nulls_unlinked(final(self)@),
    {
        // As in the finalise loops, an explicit budget stands in for
        // the physical bound on the number of children; exhausting it
        // reports a preemption between child deletions.
        let mut budget: u64 = 0xffff_ffff_ffff_ffffu64;
        loop
            invariant
                cspace_wf(self@),
                self@.len() == old(self)@.len(),
                slot < self@.len(),
                crate::cte::spec_no_children(old(self)@, slot as int) ==> self@ == old(self)@
                    && budget > 0,
                nulls_unlinked(old(self)@) ==> nulls_unlinked(self@),
            decreases budget,
        {
            if budget == 0 {
                return exception_t::EXCEPTION_PREEMPTED;
            }
            budget = budget - 1;
            proof {
                assert(slot_wf(self@, slot as int));
            }
            let next = self.get_slot(slot).cteMDBNode.get_next();
            if next == 0 {
                return exception_t::EXCEPTION_NONE;
            }
            let child = (next / 32 - 1) as usize;
            if !self.is_mdb_parent_of(slot, child) {
                return exception_t::EXCEPTION_NONE;
            }
            let mut status = self.delete_all(deps, child, true);
            if status != exception_t::EXCEPTION_NONE {
                return status;
            }
            status = deps.preemptionPoint();
            if status != exception_t::EXCEPTION_NONE {
                return status;
            }
        }
    }
}

} // verus!
