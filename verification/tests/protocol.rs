//! The MDB protocol and the deletion engine on a slot arena, and
//! guarded-radix address resolution.
use cspace::arch::riscv64::{cap_t, CapTag};
use cspace::cte::CSpace;
use cspace::delete::cap_removable;
use cspace::deps::{KernelDeps, NullDeps};
use cspace::exception::exception_t;
use cspace::ops::{cte_insert, cte_move, cte_swap, insert_new_cap};
use cspace::resolve::resolve_address_bits;
use cspace::structures::finaliseCap_ret;
use cspace::zombie::Zombie_new;

#[test]
fn new_arena_is_empty() {
    let cs = CSpace::new(8);
    assert_eq!(cs.len(), 8);
    for i in 0..8 {
        let s = cs.get_slot(i);
        assert_eq!(s.cap.get_cap_type(), CapTag::CapNullCap);
        assert_eq!(s.cteMDBNode.get_next(), 0);
        assert_eq!(s.cteMDBNode.get_prev(), 0);
    }
}

#[test]
fn cte_insert_test() {
    let cap1 = cap_t::new_asid_control_cap();
    let cap2 = cap_t::new_domain_cap();
    let mut cs = CSpace::new(4);
    cte_insert(&mut cs, &cap1, 0, 1);
    cte_insert(&mut cs, &cap2, 1, 2);
    assert_eq!(cs.get_slot(1).cap.get_cap_type(), CapTag::CapASIDControlCap);
    assert_eq!(cs.get_slot(2).cap.get_cap_type(), CapTag::CapDomainCap);
    assert_eq!(cs.get_slot(0).cteMDBNode.get_next(), cs.get_ptr(1));
    assert_eq!(cs.get_slot(1).cteMDBNode.get_next(), cs.get_ptr(2));
    assert_eq!(cs.get_slot(1).cteMDBNode.get_prev(), cs.get_ptr(0));
    assert_eq!(cs.get_slot(2).cteMDBNode.get_prev(), cs.get_ptr(1));
    assert_eq!(cs.get_slot(2).cteMDBNode.get_next(), 0);
}

#[test]
fn cte_move_test() {
    let cap1 = cap_t::new_asid_control_cap();
    let cap2 = cap_t::new_domain_cap();
    let cap3 = cap_t::new_irq_control_cap();
    let mut cs = CSpace::new(5);
    cte_insert(&mut cs, &cap1, 0, 1);
    cte_insert(&mut cs, &cap2, 1, 2);
    cte_move(&mut cs, &cap3, 1, 3);
    assert_eq!(cs.get_slot(3).cap.get_cap_type(), CapTag::CapIrqControlCap);
    assert_eq!(cs.get_slot(1).cap.get_cap_type(), CapTag::CapNullCap);
    assert_eq!(cs.get_slot(1).cteMDBNode.get_next(), 0);
    assert_eq!(cs.get_slot(1).cteMDBNode.get_prev(), 0);
    assert_eq!(cs.get_slot(3).cteMDBNode.get_next(), cs.get_ptr(2));
    assert_eq!(cs.get_slot(3).cteMDBNode.get_prev(), cs.get_ptr(0));
    assert_eq!(cs.get_slot(0).cteMDBNode.get_next(), cs.get_ptr(3));
    assert_eq!(cs.get_slot(2).cteMDBNode.get_prev(), cs.get_ptr(3));
}

#[test]
fn cte_move_roundtrip_restores() {
    let cap1 = cap_t::new_asid_control_cap();
    let cap2 = cap_t::new_domain_cap();
    let mut cs = CSpace::new(5);
    cte_insert(&mut cs, &cap1, 0, 1);
    cte_insert(&mut cs, &cap2, 1, 2);
    let moved = *cs.get_slot(1);
    cte_move(&mut cs, &moved.cap, 1, 3);
    let moved_again = *cs.get_slot(3);
    cte_move(&mut cs, &moved_again.cap, 3, 1);
    assert_eq!(cs.get_slot(1).cap.get_cap_type(), CapTag::CapASIDControlCap);
    assert_eq!(cs.get_slot(3).cap.get_cap_type(), CapTag::CapNullCap);
    assert_eq!(cs.get_slot(0).cteMDBNode.get_next(), cs.get_ptr(1));
    assert_eq!(cs.get_slot(1).cteMDBNode.get_prev(), cs.get_ptr(0));
    assert_eq!(cs.get_slot(1).cteMDBNode.get_next(), cs.get_ptr(2));
    assert_eq!(cs.get_slot(2).cteMDBNode.get_prev(), cs.get_ptr(1));
    assert_eq!(cs.get_slot(3).cteMDBNode.get_next(), 0);
    assert_eq!(cs.get_slot(3).cteMDBNode.get_prev(), 0);
}

#[test]
fn cte_swap_test() {
    let cap1 = cap_t::new_asid_control_cap();
    let cap2 = cap_t::new_domain_cap();
    let mut cs = CSpace::new(6);
    cte_insert(&mut cs, &cap1, 0, 1);
    cte_insert(&mut cs, &cap2, 3, 4);
    cte_swap(&mut cs, &cap1, 1, &cap2, 4);
    assert_eq!(cs.get_slot(1).cap.get_cap_type(), CapTag::CapDomainCap);
    assert_eq!(cs.get_slot(4).cap.get_cap_type(), CapTag::CapASIDControlCap);
    assert_eq!(cs.get_slot(4).cteMDBNode.get_prev(), cs.get_ptr(0));
    assert_eq!(cs.get_slot(0).cteMDBNode.get_next(), cs.get_ptr(4));
    assert_eq!(cs.get_slot(1).cteMDBNode.get_prev(), cs.get_ptr(3));
    assert_eq!(cs.get_slot(3).cteMDBNode.get_next(), cs.get_ptr(1));
}

#[test]
fn cte_swap_adjacent_slots_stay_symmetric() {
    // Swapping two neighbours of the same list must keep every link
    // symmetric.
    let cap1 = cap_t::new_asid_control_cap();
    let cap2 = cap_t::new_domain_cap();
    let mut cs = CSpace::new(4);
    cte_insert(&mut cs, &cap1, 0, 1);
    cte_insert(&mut cs, &cap2, 1, 2);
    // Chain 0 <-> 1 <-> 2; swap the neighbours 1 and 2.
    cte_swap(&mut cs, &cap1, 1, &cap2, 2);
    assert_eq!(cs.get_slot(1).cap.get_cap_type(), CapTag::CapDomainCap);
    assert_eq!(cs.get_slot(2).cap.get_cap_type(), CapTag::CapASIDControlCap);
    assert_eq!(cs.get_slot(0).cteMDBNode.get_next(), cs.get_ptr(2));
    assert_eq!(cs.get_slot(2).cteMDBNode.get_prev(), cs.get_ptr(0));
    assert_eq!(cs.get_slot(2).cteMDBNode.get_next(), cs.get_ptr(1));
    assert_eq!(cs.get_slot(1).cteMDBNode.get_prev(), cs.get_ptr(2));
    assert_eq!(cs.get_slot(1).cteMDBNode.get_next(), 0);
}

#[test]
fn insert_new_cap_test() {
    let cap1 = cap_t::new_asid_control_cap();
    let cap2 = cap_t::new_domain_cap();
    let mut cs = CSpace::new(4);
    cte_insert(&mut cs, &cap1, 0, 1);
    insert_new_cap(&mut cs, 0, 2, &cap2);
    assert_eq!(cs.get_slot(0).cteMDBNode.get_next(), cs.get_ptr(2));
    assert_eq!(cs.get_slot(2).cteMDBNode.get_next(), cs.get_ptr(1));
    assert_eq!(cs.get_slot(1).cteMDBNode.get_prev(), cs.get_ptr(2));
    assert_eq!(cs.get_slot(2).cteMDBNode.get_prev(), cs.get_ptr(0));
    assert_eq!(cs.get_slot(2).cteMDBNode.get_revocable(), 1);
    assert_eq!(cs.get_slot(2).cteMDBNode.get_first_badged(), 1);
}

#[test]
fn insert_sets_revocable_flags() {
    let mut cs = CSpace::new(4);
    // A minted endpoint is revocable and first-badged.
    let parent = cap_t::new_endpoint_cap(0, 0, 0, 0, 0, 0x2000);
    insert_new_cap(&mut cs, 0, 1, &parent);
    let minted = cap_t::new_endpoint_cap(9, 0, 0, 0, 0, 0x2000);
    cte_insert(&mut cs, &minted, 1, 2);
    assert_eq!(cs.get_slot(2).cteMDBNode.get_revocable(), 1);
    assert_eq!(cs.get_slot(2).cteMDBNode.get_first_badged(), 1);
    // An unbadged copy is not.
    let copy = cap_t::new_endpoint_cap(0, 0, 0, 0, 0, 0x2000);
    cte_insert(&mut cs, &copy, 1, 3);
    assert_eq!(cs.get_slot(3).cteMDBNode.get_revocable(), 0);
    assert_eq!(cs.get_slot(3).cteMDBNode.get_first_badged(), 0);
}

#[test]
fn insert_untyped_twice_marks_source_full() {
    let mut cs = CSpace::new(4);
    let u = cap_t::new_untyped_cap(0, 0, 12, 0x1000);
    cte_insert(&mut cs, &u, 0, 1);
    cte_insert(&mut cs, &u, 1, 2);
    // The source's watermark is now the block's full size in
    // min-untyped units.
    assert_eq!(cs.get_slot(1).cap.get_untyped_free_index(), 256);
    assert_eq!(cs.get_slot(2).cap.get_untyped_free_index(), 0);
}

#[test]
fn derive_cap_rules() {
    let mut cs = CSpace::new(4);
    let u = cap_t::new_untyped_cap(0, 0, 12, 0x1000);
    cte_insert(&mut cs, &u, 0, 1);
    // No child yet: the untyped derives to itself.
    let r = cs.derive_cap(1, &u);
    assert_eq!(r.status, exception_t::EXCEPTION_NONE);
    assert_eq!(r.cap.get_cap_type(), CapTag::CapUntypedCap);
    // With a derived child in place, derivation is refused.
    cte_insert(&mut cs, &u, 1, 2);
    let r = cs.derive_cap(1, &u);
    assert_eq!(r.status, exception_t::EXCEPTION_SYSCALL_ERROR);
    assert_eq!(r.cap.get_cap_type(), CapTag::CapNullCap);
    assert_eq!(cs.ensure_no_children(1), exception_t::EXCEPTION_SYSCALL_ERROR);
    assert_eq!(cs.ensure_no_children(2), exception_t::EXCEPTION_NONE);
    // Zombies, replies and IRQ control are never derivable.
    let z = Zombie_new(1, 4, 0x400);
    assert_eq!(cs.derive_cap(0, &z).cap.get_cap_type(), CapTag::CapNullCap);
    let rep = cap_t::new_reply_cap(0, 0, 0x100);
    assert_eq!(cs.derive_cap(0, &rep).cap.get_cap_type(), CapTag::CapNullCap);
    let ic = cap_t::new_irq_control_cap();
    assert_eq!(cs.derive_cap(0, &ic).cap.get_cap_type(), CapTag::CapNullCap);
    // Everything else passes through.
    let d = cap_t::new_domain_cap();
    assert_eq!(cs.derive_cap(0, &d).cap.get_cap_type(), CapTag::CapDomainCap);
}

#[test]
fn is_final_and_parent_queries() {
    let mut cs = CSpace::new(4);
    let e = cap_t::new_endpoint_cap(0, 0, 0, 0, 0, 0x2000);
    cte_insert(&mut cs, &e, 0, 1);
    cte_insert(&mut cs, &e, 1, 2);
    // Two copies of the same endpoint: neither is final.
    assert!(!cs.is_final_cap(1));
    assert!(!cs.is_final_cap(2));
    let mut cs2 = CSpace::new(4);
    cte_insert(&mut cs2, &e, 0, 1);
    assert!(cs2.is_final_cap(1));
    // An untyped parent of a contained endpoint is an MDB parent.
    let mut cs3 = CSpace::new(4);
    let u = cap_t::new_untyped_cap(0, 0, 12, 0x1000);
    cte_insert(&mut cs3, &u, 0, 1);
    let inside = cap_t::new_endpoint_cap(0, 0, 0, 0, 0, 0x1100);
    insert_new_cap(&mut cs3, 1, 2, &inside);
    assert!(cs3.is_mdb_parent_of(1, 2));
    assert!(!cs3.is_mdb_parent_of(2, 1));
}

#[test]
fn is_long_running_delete_test() {
    let mut cs = CSpace::new(4);
    let c = cap_t::new_cnode_cap(2, 0, 0, 0x400);
    cte_insert(&mut cs, &c, 0, 1);
    assert!(cs.is_long_running_delete(1));
    let mut cs2 = CSpace::new(4);
    let d = cap_t::new_domain_cap();
    cte_insert(&mut cs2, &d, 0, 1);
    assert!(!cs2.is_long_running_delete(1));
    assert!(!cs2.is_long_running_delete(2));
}

#[test]
fn insert_then_delete_restores_source() {
    let mut deps = NullDeps;
    let mut cs = CSpace::new(4);
    let first = cap_t::new_asid_control_cap();
    cte_insert(&mut cs, &first, 0, 1);
    let next_before = cs.get_slot(1).cteMDBNode.get_next();
    let prev_before = cs.get_slot(1).cteMDBNode.get_prev();
    let d = cap_t::new_domain_cap();
    cte_insert(&mut cs, &d, 1, 2);
    let st = cs.delete_all(&mut deps, 2, true);
    assert_eq!(st, exception_t::EXCEPTION_NONE);
    assert_eq!(cs.get_slot(1).cteMDBNode.get_next(), next_before);
    assert_eq!(cs.get_slot(1).cteMDBNode.get_prev(), prev_before);
    assert_eq!(cs.get_slot(2).cap.get_cap_type(), CapTag::CapNullCap);
    assert_eq!(cs.get_slot(2).cteMDBNode.get_next(), 0);
    assert_eq!(cs.get_slot(2).cteMDBNode.get_prev(), 0);
}

#[test]
fn delete_middle_joins_neighbours() {
    let mut deps = NullDeps;
    let mut cs = CSpace::new(4);
    let a = cap_t::new_asid_control_cap();
    let d = cap_t::new_domain_cap();
    cte_insert(&mut cs, &a, 0, 1);
    cte_insert(&mut cs, &d, 1, 2);
    let st = cs.delete_all(&mut deps, 1, true);
    assert_eq!(st, exception_t::EXCEPTION_NONE);
    assert_eq!(cs.get_slot(0).cteMDBNode.get_next(), cs.get_ptr(2));
    assert_eq!(cs.get_slot(2).cteMDBNode.get_prev(), cs.get_ptr(0));
    assert_eq!(cs.get_slot(1).cap.get_cap_type(), CapTag::CapNullCap);
}

#[test]
fn delete_one_test() {
    let mut deps = NullDeps;
    let mut cs = CSpace::new(4);
    let d = cap_t::new_domain_cap();
    cte_insert(&mut cs, &d, 0, 1);
    cs.delete_one(&mut deps, 1);
    assert_eq!(cs.get_slot(1).cap.get_cap_type(), CapTag::CapNullCap);
    assert_eq!(cs.get_slot(1).cteMDBNode.get_next(), 0);
    assert_eq!(cs.get_slot(1).cteMDBNode.get_prev(), 0);
    assert_eq!(cs.get_slot(0).cteMDBNode.get_next(), 0);
}

#[test]
fn set_empty_propagates_first_badged() {
    let mut deps = NullDeps;
    let mut cs = CSpace::new(4);
    let parent = cap_t::new_endpoint_cap(0, 0, 0, 0, 0, 0x2000);
    insert_new_cap(&mut cs, 0, 1, &parent);
    let minted = cap_t::new_endpoint_cap(9, 0, 0, 0, 0, 0x2000);
    cte_insert(&mut cs, &minted, 1, 2);
    let copy = cap_t::new_endpoint_cap(9, 0, 0, 0, 0, 0x2000);
    cte_insert(&mut cs, &copy, 2, 3);
    assert_eq!(cs.get_slot(2).cteMDBNode.get_first_badged(), 1);
    assert_eq!(cs.get_slot(3).cteMDBNode.get_first_badged(), 0);
    // Deleting the first-badged mint hands the flag to its successor.
    let st = cs.delete_all(&mut deps, 2, true);
    assert_eq!(st, exception_t::EXCEPTION_NONE);
    assert_eq!(cs.get_slot(3).cteMDBNode.get_first_badged(), 1);
}

#[test]
fn revoke_removes_descendants() {
    let mut deps = NullDeps;
    let mut cs = CSpace::new(6);
    let u = cap_t::new_untyped_cap(0, 0, 12, 0x1000);
    cte_insert(&mut cs, &u, 0, 1);
    let e1 = cap_t::new_endpoint_cap(0, 0, 0, 0, 0, 0x1100);
    let e2 = cap_t::new_endpoint_cap(0, 0, 0, 0, 0, 0x1200);
    cte_insert(&mut cs, &e1, 1, 2);
    cte_insert(&mut cs, &e2, 1, 3);
    // Chain: 1 -> 3 -> 2, both children of the untyped.
    let st = cs.revoke(&mut deps, 1);
    assert_eq!(st, exception_t::EXCEPTION_NONE);
    assert_eq!(cs.get_slot(2).cap.get_cap_type(), CapTag::CapNullCap);
    assert_eq!(cs.get_slot(3).cap.get_cap_type(), CapTag::CapNullCap);
    assert_eq!(cs.get_slot(1).cap.get_cap_type(), CapTag::CapUntypedCap);
    assert_eq!(cs.get_slot(1).cteMDBNode.get_next(), 0);
    assert_eq!(cs.ensure_no_children(1), exception_t::EXCEPTION_NONE);
}

/// A collaborator that turns the final CNode capability into a zombie,
/// as a hosted kernel does, and counts its preemption checks.
struct ZombieDeps {
    preemptions: u64,
}

impl KernelDeps for ZombieDeps {
    fn finaliseCap(&mut self, cap: &cap_t, _final: bool, _exposed: bool) -> finaliseCap_ret {
        if cap.get_cap_type() == CapTag::CapCNodeCap && _final {
            let n = 1u64 << cap.get_cnode_radix();
            finaliseCap_ret {
                remainder: Zombie_new(n, cap.get_cnode_radix(), cap.get_cnode_ptr()),
                cleanupInfo: cap_t::new_null_cap(),
            }
        } else if cap.get_cap_type() == CapTag::CapZombieCap {
            finaliseCap_ret { remainder: *cap, cleanupInfo: cap_t::new_null_cap() }
        } else {
            finaliseCap_ret {
                remainder: cap_t::new_null_cap(),
                cleanupInfo: cap_t::new_null_cap(),
            }
        }
    }

    fn post_cap_deletion(&mut self, _cap: &cap_t) {}

    fn preemptionPoint(&mut self) -> exception_t {
        self.preemptions += 1;
        exception_t::EXCEPTION_NONE
    }
}

#[test]
fn delete_all_drains_a_cnode_zombie() {
    let mut deps = ZombieDeps { preemptions: 0 };
    // Slots 7..9 form a radix-1 CNode (its base address, slot 7, is
    // 256, aligned to the 64-byte CNode size).  Slot 1 holds the final
    // CNode capability; the CNode's two slots hold domain caps.
    let mut cs = CSpace::new(16);
    let cnode = cap_t::new_cnode_cap(1, 0, 0, cs.get_ptr(7));
    cte_insert(&mut cs, &cnode, 0, 1);
    let d = cap_t::new_domain_cap();
    insert_new_cap(&mut cs, 2, 7, &d);
    insert_new_cap(&mut cs, 2, 8, &d);
    let st = cs.delete_all(&mut deps, 1, true);
    assert_eq!(st, exception_t::EXCEPTION_NONE);
    assert_eq!(cs.get_slot(1).cap.get_cap_type(), CapTag::CapNullCap);
    assert_eq!(cs.get_slot(7).cap.get_cap_type(), CapTag::CapNullCap);
    assert_eq!(cs.get_slot(8).cap.get_cap_type(), CapTag::CapNullCap);
    assert!(deps.preemptions > 0);
}

/// A collaborator whose preemption point always yields.
struct YieldDeps;

impl KernelDeps for YieldDeps {
    fn finaliseCap(&mut self, cap: &cap_t, _final: bool, _exposed: bool) -> finaliseCap_ret {
        if cap.get_cap_type() == CapTag::CapCNodeCap && _final {
            let n = 1u64 << cap.get_cnode_radix();
            finaliseCap_ret {
                remainder: Zombie_new(n, cap.get_cnode_radix(), cap.get_cnode_ptr()),
                cleanupInfo: cap_t::new_null_cap(),
            }
        } else if cap.get_cap_type() == CapTag::CapZombieCap {
            finaliseCap_ret { remainder: *cap, cleanupInfo: cap_t::new_null_cap() }
        } else {
            finaliseCap_ret {
                remainder: cap_t::new_null_cap(),
                cleanupInfo: cap_t::new_null_cap(),
            }
        }
    }

    fn post_cap_deletion(&mut self, _cap: &cap_t) {}

    fn preemptionPoint(&mut self) -> exception_t {
        exception_t::EXCEPTION_PREEMPTED
    }
}

#[test]
fn preemption_propagates_out_of_delete_all() {
    let mut deps = YieldDeps;
    let mut cs = CSpace::new(16);
    let cnode = cap_t::new_cnode_cap(1, 0, 0, cs.get_ptr(7));
    cte_insert(&mut cs, &cnode, 0, 1);
    let d = cap_t::new_domain_cap();
    insert_new_cap(&mut cs, 2, 7, &d);
    let st = cs.delete_all(&mut deps, 1, true);
    assert_eq!(st, exception_t::EXCEPTION_PREEMPTED);
    // The slot is left in a consistent, restartable zombie state.
    assert_eq!(cs.get_slot(1).cap.get_cap_type(), CapTag::CapZombieCap);
}

#[test]
fn resolve_one_level() {
    let mut cs = CSpace::new(16);
    // A radix-3, guard-2 CNode over slots 7..15, guard value 2.
    let cnode = cap_t::new_cnode_cap(3, 2, 2, cs.get_ptr(7));
    let d = cap_t::new_domain_cap();
    insert_new_cap(&mut cs, 0, 12, &d);
    // cap_ptr = guard 2, then offset 5 -> slot 7 + 5 = 12.
    let cap_ptr = (2 << 3) | 5;
    let r = resolve_address_bits(&cs, &cnode, cap_ptr, 5);
    assert_eq!(r.status, exception_t::EXCEPTION_NONE);
    assert_eq!(r.bitsRemaining, 0);
    assert_eq!(r.slot, 12);
    assert_eq!(cs.get_slot(r.slot).cap.get_cap_type(), CapTag::CapDomainCap);
}

#[test]
fn resolve_address_bits_test() {
    // Two guarded levels: guard 2 radix 3, then guard 3 radix 3.
    let mut cs = CSpace::new(32);
    let cap1 = cap_t::new_cnode_cap(3, 2, 2, cs.get_ptr(7));
    let cap2 = cap_t::new_cnode_cap(3, 2, 3, cs.get_ptr(15));
    let cap3 = cap_t::new_domain_cap();
    let idx: u64 = 2;
    insert_new_cap(&mut cs, 0, 9, &cap2);  // offset 2 of the first level
    insert_new_cap(&mut cs, 0, 17, &cap3);  // offset 2 of the second level
    let cap_ptr = (2 << 8) | (idx << 5) | (3 << 3) | idx;
    let r = resolve_address_bits(&cs, &cap1, cap_ptr, 10);
    assert_eq!(r.status, exception_t::EXCEPTION_NONE);
    assert_eq!(r.bitsRemaining, 0);
    assert_eq!(r.slot, 17);
    assert_eq!(cs.get_slot(r.slot).cap.get_cap_type(), CapTag::CapDomainCap);
}

#[test]
fn resolve_faults() {
    let cs = CSpace::new(16);
    // A non-CNode root faults at once.
    let d = cap_t::new_domain_cap();
    let r = resolve_address_bits(&cs, &d, 0, 5);
    assert_eq!(r.status, exception_t::EXCEPTION_LOOKUP_FAULT);
    assert_eq!(r.bitsRemaining, 5);
    // A mismatched guard faults.
    let cnode = cap_t::new_cnode_cap(3, 2, 2, cs.get_ptr(7));
    let r = resolve_address_bits(&cs, &cnode, (3 << 3) | 5, 5);
    assert_eq!(r.status, exception_t::EXCEPTION_LOOKUP_FAULT);
    // A level that consumes more bits than remain faults.
    let r = resolve_address_bits(&cs, &cnode, 4, 3);
    assert_eq!(r.status, exception_t::EXCEPTION_LOOKUP_FAULT);
    assert_eq!(r.bitsRemaining, 3);
}

#[test]
fn resolve_fault_reports_original_bits() {
    // A guard mismatch at the second level reports the caller's
    // original bit count untranslated, not the bits left at the
    // faulting level.
    let mut cs = CSpace::new(32);
    let cap1 = cap_t::new_cnode_cap(3, 2, 2, cs.get_ptr(7));
    let cap2 = cap_t::new_cnode_cap(3, 2, 3, cs.get_ptr(15));
    insert_new_cap(&mut cs, 0, 9, &cap2);
    // First level resolves (guard 2, offset 2); the second level's
    // guard is 3 but the address carries 1.
    let cap_ptr = (2 << 8) | (2 << 5) | (1 << 3) | 2;
    let r = resolve_address_bits(&cs, &cap1, cap_ptr, 10);
    assert_eq!(r.status, exception_t::EXCEPTION_LOOKUP_FAULT);
    assert_eq!(r.bitsRemaining, 10);
}

#[test]
fn resolve_partial_stops_at_non_cnode() {
    let mut cs = CSpace::new(16);
    let cnode = cap_t::new_cnode_cap(3, 2, 2, cs.get_ptr(7));
    let d = cap_t::new_domain_cap();
    insert_new_cap(&mut cs, 0, 9, &d);
    // Ten bits requested, but the slot at offset 2 is not a CNode:
    // partial resolution, not a fault.
    let cap_ptr = (2 << 8) | (2 << 5) | 31;
    let r = resolve_address_bits(&cs, &cnode, cap_ptr, 10);
    assert_eq!(r.status, exception_t::EXCEPTION_NONE);
    assert_eq!(r.slot, 9);
    assert_eq!(r.bitsRemaining, 5);
}

#[test]
fn deferred_delete_leaves_cyclic_zombie() {
    // A non-exposed deletion of a CNode defers its teardown: the
    // zombie is swapped into the region's first slot, where it sits as
    // the cyclic sentinel, and the original slot is freed.
    let mut deps = ZombieDeps { preemptions: 0 };
    let mut cs = CSpace::new(16);
    let cnode = cap_t::new_cnode_cap(0, 0, 0, cs.get_ptr(7));
    cte_insert(&mut cs, &cnode, 0, 1);
    let d = cap_t::new_domain_cap();
    insert_new_cap(&mut cs, 2, 7, &d);
    let st = cs.delete_all(&mut deps, 1, false);
    assert_eq!(st, exception_t::EXCEPTION_NONE);
    assert_eq!(cs.get_slot(1).cap.get_cap_type(), CapTag::CapNullCap);
    assert_eq!(cs.get_slot(7).cap.get_cap_type(), CapTag::CapZombieCap);
    assert!(cspace::zombie::capCyclicZombie(&cs.get_slot(7).cap, cs.get_ptr(7)));
}

#[test]
fn cap_removable_rules() {
    assert!(cap_removable(&cap_t::new_null_cap(), 64));
    let spent = Zombie_new(0, 4, 0x2400);
    assert!(cap_removable(&spent, 64));
    let sentinel = Zombie_new(1, 4, 0x2400);
    assert!(cap_removable(&sentinel, 0x2400));
    assert!(!cap_removable(&sentinel, 64));
    let busy = Zombie_new(2, 4, 0x2400);
    assert!(!cap_removable(&busy, 0x2400));
}

#[test]
fn slot_addressing() {
    let cs = CSpace::new(16);
    assert_eq!(cs.get_ptr(0), 32);
    assert_eq!(cs.get_ptr(7), 256);
    assert_eq!(cs.get_offset_slot(7, 2), 9);
}

/// A collaborator that hands back a zombie pointing outside the arena,
/// as a corrupted kernel would.
struct WildDeps;

impl KernelDeps for WildDeps {
    fn finaliseCap(&mut self, cap: &cap_t, _final: bool, _exposed: bool) -> finaliseCap_ret {
        if cap.get_cap_type() == CapTag::CapCNodeCap && _final {
            finaliseCap_ret {
                remainder: Zombie_new(3, 4, 0x7000_0000),
                cleanupInfo: cap_t::new_null_cap(),
            }
        } else {
            finaliseCap_ret {
                remainder: cap_t::new_null_cap(),
                cleanupInfo: cap_t::new_null_cap(),
            }
        }
    }

    fn post_cap_deletion(&mut self, _cap: &cap_t) {}

    fn preemptionPoint(&mut self) -> exception_t {
        exception_t::EXCEPTION_NONE
    }
}

#[test]
fn wild_zombie_pointer_is_a_fault() {
    let mut deps = WildDeps;
    let mut cs = CSpace::new(16);
    let cnode = cap_t::new_cnode_cap(1, 0, 0, cs.get_ptr(7));
    cte_insert(&mut cs, &cnode, 0, 1);
    let st = cs.delete_all(&mut deps, 1, true);
    assert_eq!(st, exception_t::EXCEPTION_FAULT);
}
