//! Bit-level behaviour of the two-word descriptors: constructors,
//! accessors, the MDB node, and the zombie id packing.
use cspace::arch::riscv64::{cap_t, CapTag};
use cspace::config::MAX_FREE_INDEX;
use cspace::mdb::mdb_node_t;
use cspace::zombie::{capCyclicZombie, Zombie_new, ZombieType_ZombieCNode, ZombieType_ZombieTCB};

#[test]
fn null_cap_roundtrip() {
    let c = cap_t::new_null_cap();
    assert_eq!(c.get_cap_type(), CapTag::CapNullCap);
    assert!(!c.isArchCap());
}

#[test]
fn untyped_cap_roundtrip() {
    let c = cap_t::new_untyped_cap(7, 1, 21, 0x1234_5000);
    assert_eq!(c.get_cap_type(), CapTag::CapUntypedCap);
    assert_eq!(c.get_untyped_free_index(), 7);
    assert_eq!(c.get_untyped_is_device(), 1);
    assert_eq!(c.get_untyped_block_size(), 21);
    assert_eq!(c.get_untyped_ptr(), 0x1234_5000);
    assert!(!c.isArchCap());
    let mut c2 = c;
    c2.set_untyped_free_index(99);
    assert_eq!(c2.get_untyped_free_index(), 99);
    assert_eq!(c2.get_untyped_ptr(), 0x1234_5000);
    assert_eq!(c2.get_untyped_block_size(), 21);
}

#[test]
fn endpoint_cap_roundtrip() {
    let c = cap_t::new_endpoint_cap(0xdead_beef_dead_beef, 1, 0, 1, 0, 0x40_0000);
    assert_eq!(c.get_cap_type(), CapTag::CapEndpointCap);
    assert_eq!(c.get_ep_badge(), 0xdead_beef_dead_beef);
    assert_eq!(c.get_ep_can_grant_reply(), 1);
    assert_eq!(c.get_ep_can_grant(), 0);
    assert_eq!(c.get_ep_can_send(), 1);
    assert_eq!(c.get_ep_can_receive(), 0);
    assert_eq!(c.get_ep_ptr(), 0x40_0000);
}

#[test]
fn notification_cap_roundtrip() {
    let c = cap_t::new_notification_cap(42, 1, 1, 0x80_0000);
    assert_eq!(c.get_cap_type(), CapTag::CapNotificationCap);
    assert_eq!(c.get_nf_badge(), 42);
    assert_eq!(c.get_nf_can_receive(), 1);
    assert_eq!(c.get_nf_can_send(), 1);
    assert_eq!(c.get_nf_ptr(), 0x80_0000);
}

#[test]
fn reply_cap_roundtrip() {
    let c = cap_t::new_reply_cap(1, 0, 0xffff_0000_1234_5678);
    assert_eq!(c.get_cap_type(), CapTag::CapReplyCap);
    assert_eq!(c.get_reply_can_grant(), 1);
    assert_eq!(c.get_reply_master(), 0);
    assert_eq!(c.get_reply_tcb_ptr(), 0xffff_0000_1234_5678);
}

#[test]
fn cnode_cap_roundtrip() {
    let c = cap_t::new_cnode_cap(12, 6, 0x3f, 0x20_0000);
    assert_eq!(c.get_cap_type(), CapTag::CapCNodeCap);
    assert_eq!(c.get_cnode_radix(), 12);
    assert_eq!(c.get_cnode_guard_size(), 6);
    assert_eq!(c.get_cnode_guard(), 0x3f);
    assert_eq!(c.get_cnode_ptr(), 0x20_0000);
}

#[test]
fn thread_and_irq_caps_roundtrip() {
    let t = cap_t::new_thread_cap(0x66_6000);
    assert_eq!(t.get_cap_type(), CapTag::CapThreadCap);
    assert_eq!(t.get_tcb_ptr(), 0x66_6000);
    let ic = cap_t::new_irq_control_cap();
    assert_eq!(ic.get_cap_type(), CapTag::CapIrqControlCap);
    let ih = cap_t::new_irq_handler_cap(27);
    assert_eq!(ih.get_cap_type(), CapTag::CapIrqHandlerCap);
    assert_eq!(ih.get_irq_handler(), 27);
    let d = cap_t::new_domain_cap();
    assert_eq!(d.get_cap_type(), CapTag::CapDomainCap);
    let ac = cap_t::new_asid_control_cap();
    assert_eq!(ac.get_cap_type(), CapTag::CapASIDControlCap);
}

#[test]
fn frame_cap_roundtrip() {
    let c = cap_t::new_frame_cap(55, 0x55_5000, 2, 3, 1, 0x7000_0000);
    assert_eq!(c.get_cap_type(), CapTag::CapFrameCap);
    assert!(c.isArchCap());
    assert_eq!(c.get_frame_mapped_asid(), 55);
    assert_eq!(c.get_frame_base_ptr(), 0x55_5000);
    assert_eq!(c.get_frame_size(), 2);
    assert_eq!(c.get_frame_vm_rights(), 3);
    assert_eq!(c.get_frame_is_device(), 1);
    assert_eq!(c.get_frame_mapped_address(), 0x7000_0000);
}

#[test]
fn page_table_cap_roundtrip() {
    let c = cap_t::new_page_table_cap(9, 0x31_0000, 1, 0x4000_0000);
    assert_eq!(c.get_cap_type(), CapTag::CapPageTableCap);
    assert!(c.isArchCap());
    assert_eq!(c.get_pt_mapped_asid(), 9);
    assert_eq!(c.get_pt_base_ptr(), 0x31_0000);
    assert_eq!(c.get_pt_is_mapped(), 1);
    assert_eq!(c.get_pt_mapped_address(), 0x4000_0000);
}

#[test]
fn asid_pool_cap_roundtrip() {
    let c = cap_t::new_asid_pool_cap(17, 0x12_3000);
    assert_eq!(c.get_cap_type(), CapTag::CapASIDPoolCap);
    assert!(c.isArchCap());
    assert_eq!(c.get_asid_base(), 17);
    assert_eq!(c.get_asid_pool(), 0x12_3000);
}

#[test]
fn mdb_node_roundtrip() {
    let m = mdb_node_t::new(0x140, 1, 0, 0x1_0000);
    assert_eq!(m.get_next(), 0x140);
    assert_eq!(m.get_revocable(), 1);
    assert_eq!(m.get_first_badged(), 0);
    assert_eq!(m.get_prev(), 0x1_0000);
    let mut m2 = m;
    m2.set_next(0x2000);
    m2.set_prev(0);
    m2.set_revocable(0);
    m2.set_first_badged(1);
    assert_eq!(m2.get_next(), 0x2000);
    assert_eq!(m2.get_prev(), 0);
    assert_eq!(m2.get_revocable(), 0);
    assert_eq!(m2.get_first_badged(), 1);
}

#[test]
fn zombie_packing() {
    // A CNode zombie of radix 4: the count lives in the low 5 bits.
    let z = Zombie_new(9, 4, 0x2400);
    assert_eq!(z.get_cap_type(), CapTag::CapZombieCap);
    assert_eq!(z.get_zombie_bit(), 4);
    assert_eq!(z.get_zombie_ptr(), 0x2400);
    assert_eq!(z.get_zombie_number(), 9);
    let mut z2 = z;
    z2.set_zombie_number(3);
    assert_eq!(z2.get_zombie_ptr(), 0x2400);
    assert_eq!(z2.get_zombie_number(), 3);
    assert_eq!(z2.get_zombie_type(), 4);
}

#[test]
fn zombie_tcb_packing() {
    let z = Zombie_new(5, ZombieType_ZombieTCB, 0x8000);
    assert_eq!(z.get_zombie_bit(), 4);
    assert_eq!(z.get_zombie_ptr(), 0x8000);
    assert_eq!(z.get_zombie_number(), 5);
    assert_eq!(z.get_zombie_type(), ZombieType_ZombieTCB);
    assert_eq!(ZombieType_ZombieCNode(68), 4);
}

#[test]
fn cyclic_zombie_sentinel() {
    let z = Zombie_new(1, 4, 0x2400);
    assert!(capCyclicZombie(&z, 0x2400));
    assert!(!capCyclicZombie(&z, 0x2000));
    assert!(!capCyclicZombie(&cap_t::new_domain_cap(), 0x2400));
}

#[test]
fn max_free_index_values() {
    assert_eq!(MAX_FREE_INDEX(4), 1);
    assert_eq!(MAX_FREE_INDEX(12), 256);
    assert_eq!(MAX_FREE_INDEX(21), 1 << 17);
}
