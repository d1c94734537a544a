//! The capability algebra: region and object equality, revocability,
//! and `update_data`, on both architectures' descriptors.
use cspace::arch::aarch64;
use cspace::arch::riscv64::{arch_same_object_as, arch_same_region_as, cap_t, CapTag};
use cspace::arch::riscv64::{arch_mask_cap_rights, VMKernelOnly, VMReadOnly, VMReadWrite};
use cspace::cap::{is_cap_revocable, same_object_as, same_region_as};
use cspace::exception::exception_t;
use cspace::rights::seL4_CapRights_t;

#[test]
fn untyped_contains_frame() {
    // An untyped block [0x1000, 0x2000) and a frame inside it.
    let u = cap_t::new_untyped_cap(0, 0, 12, 0x1000);
    let f = cap_t::new_frame_cap(0, 0x1400, 0, 0, 0, 0);
    assert!(same_region_as(&u, &f));
    assert!(!same_object_as(&u, &f));
    assert!(!is_cap_revocable(&f, &u));
}

#[test]
fn untyped_containment_bounds() {
    let u = cap_t::new_untyped_cap(0, 0, 12, 0x1000);
    // An endpoint (16 bytes) just inside, and one just outside.
    let inside = cap_t::new_endpoint_cap(0, 0, 0, 0, 0, 0x1ff0);
    let outside = cap_t::new_endpoint_cap(0, 0, 0, 0, 0, 0x1ff8);
    assert!(same_region_as(&u, &inside));
    assert!(!same_region_as(&u, &outside));
    // A non-physical capability is never inside an untyped region.
    assert!(!same_region_as(&u, &cap_t::new_domain_cap()));
}

#[test]
fn same_region_by_variant() {
    let e1 = cap_t::new_endpoint_cap(1, 0, 0, 0, 0, 0x2000);
    let e2 = cap_t::new_endpoint_cap(9, 1, 1, 1, 1, 0x2000);
    let e3 = cap_t::new_endpoint_cap(1, 0, 0, 0, 0, 0x3000);
    assert!(same_region_as(&e1, &e2));
    assert!(!same_region_as(&e1, &e3));
    let c1 = cap_t::new_cnode_cap(3, 2, 1, 0x100);
    let c2 = cap_t::new_cnode_cap(3, 5, 9, 0x100);
    let c3 = cap_t::new_cnode_cap(4, 2, 1, 0x100);
    assert!(same_region_as(&c1, &c2));
    assert!(!same_region_as(&c1, &c3));
    let ic = cap_t::new_irq_control_cap();
    let ih1 = cap_t::new_irq_handler_cap(7);
    let ih2 = cap_t::new_irq_handler_cap(8);
    assert!(same_region_as(&ic, &ih1));
    assert!(same_region_as(&ic, &ic));
    assert!(same_region_as(&ih1, &ih1));
    assert!(!same_region_as(&ih1, &ih2));
    assert!(!same_region_as(&ih1, &ic));
    assert!(same_region_as(&cap_t::new_domain_cap(), &cap_t::new_domain_cap()));
    assert!(!same_region_as(&cap_t::new_null_cap(), &cap_t::new_null_cap()));
}

#[test]
fn same_object_as_test() {
    let cap1 = cap_t::new_cnode_cap(1, 1, 1, 64);
    let cap3 = cap_t::new_cnode_cap(2, 1, 1, 64);
    let cs = cspace::cte::CSpace::new(2);
    let cap2 = cs.derive_cap(0, &cap3).cap;
    assert_eq!(same_object_as(&cap1, &cap2), false);
    assert_eq!(same_object_as(&cap2, &cap3), true);
}

#[test]
fn irq_control_not_same_object_as_handler() {
    let ic = cap_t::new_irq_control_cap();
    let ih = cap_t::new_irq_handler_cap(5);
    assert!(same_region_as(&ic, &ih));
    assert!(!same_object_as(&ic, &ih));
}

#[test]
fn frames_same_object_needs_size_and_device() {
    let f1 = cap_t::new_frame_cap(0, 0x4000, 0, 0, 0, 0);
    let f2 = cap_t::new_frame_cap(3, 0x4000, 0, 2, 0, 0x100);
    let f3 = cap_t::new_frame_cap(0, 0x4000, 1, 0, 0, 0);
    let f4 = cap_t::new_frame_cap(0, 0x4000, 0, 0, 1, 0);
    assert!(same_object_as(&f1, &f2));
    assert!(!same_object_as(&f1, &f3));
    assert!(!same_object_as(&f1, &f4));
    assert!(arch_same_object_as(&f1, &f2));
    assert!(arch_same_region_as(&f1, &f2));
}

#[test]
fn revocability_rules() {
    let u = cap_t::new_untyped_cap(0, 0, 12, 0x1000);
    assert!(is_cap_revocable(&u, &u));
    let parent = cap_t::new_endpoint_cap(0, 0, 0, 0, 0, 0x2000);
    let minted = cap_t::new_endpoint_cap(77, 0, 0, 0, 0, 0x2000);
    assert!(is_cap_revocable(&minted, &parent));
    assert!(!is_cap_revocable(&parent, &parent));
    let ih = cap_t::new_irq_handler_cap(3);
    assert!(is_cap_revocable(&ih, &cap_t::new_irq_control_cap()));
    assert!(!is_cap_revocable(&ih, &ih));
    assert!(!is_cap_revocable(&cap_t::new_domain_cap(), &cap_t::new_domain_cap()));
}

#[test]
fn update_data_mints_once() {
    let e = cap_t::new_endpoint_cap(0, 1, 1, 1, 1, 0x2000);
    let minted = e.update_data(false, 1234);
    assert_eq!(minted.get_cap_type(), CapTag::CapEndpointCap);
    assert_eq!(minted.get_ep_badge(), 1234);
    assert_eq!(minted.get_ep_ptr(), 0x2000);
    // A second mint, and any preserving update, destroy the capability.
    assert_eq!(minted.update_data(false, 9).get_cap_type(), CapTag::CapNullCap);
    assert_eq!(minted.update_data(true, 9).get_cap_type(), CapTag::CapNullCap);
    let n = cap_t::new_notification_cap(0, 1, 1, 0x3000);
    let nm = n.update_data(false, 55);
    assert_eq!(nm.get_nf_badge(), 55);
    assert_eq!(nm.update_data(false, 1).get_cap_type(), CapTag::CapNullCap);
}

#[test]
fn update_data_preserve_is_idempotent() {
    // The round trip on a capability that update_data leaves alone.
    let t = cap_t::new_thread_cap(0x9000);
    let once = t.update_data(false, 7);
    let twice = once.update_data(true, 99);
    assert_eq!(twice.get_cap_type(), CapTag::CapThreadCap);
    assert_eq!(twice.get_tcb_ptr(), 0x9000);
    // And on a badged endpoint, where both sides collapse to null.
    let e = cap_t::new_endpoint_cap(5, 0, 0, 0, 0, 0x2000);
    let once_e = e.update_data(false, 7);
    assert_eq!(once_e.get_cap_type(), CapTag::CapNullCap);
    assert_eq!(once_e.update_data(true, 1).get_cap_type(), CapTag::CapNullCap);
}

#[test]
fn update_data_rewrites_cnode_guard() {
    let c = cap_t::new_cnode_cap(4, 2, 1, 0x200);
    // data packs {guard, guard_size}: guard size in the low six bits.
    let upd = c.update_data(false, (13 << 6) | 3);
    assert_eq!(upd.get_cap_type(), CapTag::CapCNodeCap);
    assert_eq!(upd.get_cnode_guard_size(), 3);
    assert_eq!(upd.get_cnode_guard(), 5);  // 13 masked to 3 bits
    assert_eq!(upd.get_cnode_radix(), 4);
    assert_eq!(upd.get_cnode_ptr(), 0x200);
    // A guard too wide for the word is refused.
    let bad = c.update_data(false, 63);
    assert_eq!(bad.get_cap_type(), CapTag::CapNullCap);
}

#[test]
fn update_data_leaves_arch_caps() {
    let f = cap_t::new_frame_cap(3, 0x4000, 1, 2, 0, 0x8000);
    let upd = f.update_data(false, 999);
    assert_eq!(upd.get_cap_type(), CapTag::CapFrameCap);
    assert_eq!(upd.get_frame_mapped_asid(), 3);
}

#[test]
fn cap_size_and_physical() {
    let u = cap_t::new_untyped_cap(0, 0, 19, 0x1000);
    assert_eq!(u.get_cap_size_bits(), 19);
    assert_eq!(cap_t::new_endpoint_cap(0, 0, 0, 0, 0, 0).get_cap_size_bits(), 4);
    assert_eq!(cap_t::new_notification_cap(0, 0, 0, 0).get_cap_size_bits(), 5);
    assert_eq!(cap_t::new_cnode_cap(7, 0, 0, 0).get_cap_size_bits(), 12);
    assert_eq!(cap_t::new_reply_cap(0, 0, 0).get_cap_size_bits(), 4);
    assert_eq!(cap_t::new_domain_cap().get_cap_size_bits(), 0);
    assert!(u.get_cap_is_physical());
    assert!(!cap_t::new_domain_cap().get_cap_is_physical());
    assert!(!cap_t::new_irq_control_cap().get_cap_is_physical());
    assert_eq!(u.get_cap_ptr(), 0x1000);
    assert_eq!(cap_t::new_thread_cap(0x7700).get_cap_ptr(), 0x7700);
    assert_eq!(cap_t::new_asid_control_cap().get_cap_ptr(), 0);
}

#[test]
fn riscv_arch_derive() {
    let cs = cspace::cte::CSpace::new(1);
    let pt_mapped = cap_t::new_page_table_cap(1, 0x5000, 1, 0x4000);
    let r = cs.arch_derive_cap(&pt_mapped);
    assert_eq!(r.status, exception_t::EXCEPTION_NONE);
    assert_eq!(r.cap.get_cap_type(), CapTag::CapPageTableCap);
    let pt_unmapped = cap_t::new_page_table_cap(1, 0x5000, 0, 0x4000);
    let r = cs.arch_derive_cap(&pt_unmapped);
    assert_eq!(r.status, exception_t::EXCEPTION_SYSCALL_ERROR);
    assert_eq!(r.cap.get_cap_type(), CapTag::CapNullCap);
    let f = cap_t::new_frame_cap(3, 0x4000, 1, 2, 0, 0x8000);
    let r = cs.arch_derive_cap(&f);
    assert_eq!(r.status, exception_t::EXCEPTION_NONE);
    assert_eq!(r.cap.get_frame_mapped_asid(), 0);
    assert_eq!(r.cap.get_frame_mapped_address(), 0);
    assert_eq!(r.cap.get_frame_base_ptr(), 0x4000);
}

#[test]
fn aarch64_descriptor_roundtrip() {
    let u = aarch64::cap_t::new_untyped_cap(5, 0, 30, 0xff_0000_0000);
    assert_eq!(u.get_cap_type(), aarch64::CapTag::CapUntypedCap);
    assert_eq!(u.get_untyped_free_index(), 5);
    assert_eq!(u.get_untyped_block_size(), 30);
    assert_eq!(u.get_untyped_ptr(), 0xff_0000_0000);
    assert_eq!(u.get_cap_ptr(), 0xff_0000_0000);
    let c = aarch64::cap_t::new_cnode_cap(10, 4, 9, 0x7000_0000_0000);
    assert_eq!(c.get_cnode_ptr(), 0x7000_0000_0000);
    assert_eq!(c.get_cap_ptr(), 0x7000_0000_0000);
    let p = aarch64::cap_t::new_asid_pool_cap(3, 0x1_0000);
    assert_eq!(p.get_asid_pool(), 0x1_0000);
    assert_eq!(p.get_cap_ptr(), 0x1_0000);
    let pud = aarch64::cap_t::new_page_upper_directory_cap(2, 0x9000, 1, 511);
    assert_eq!(pud.get_pud_mapped_asid(), 2);
    assert_eq!(pud.get_pud_base_ptr(), 0x9000);
    assert_eq!(pud.get_pud_is_mapped(), 1);
    assert_eq!(pud.get_pud_mapped_address(), 511);
    assert_eq!(pud.get_cap_ptr(), 0x9000);
    assert!(pud.isArchCap());
}

#[test]
fn aarch64_vtable_root() {
    let pgd = aarch64::cap_t::new_page_global_directory_cap(7, 0xa000, 1);
    assert!(pgd.is_vtable_root());
    assert!(pgd.is_valid_native_root());
    assert!(pgd.is_valid_vtable_root());
    let unmapped = aarch64::cap_t::new_page_global_directory_cap(7, 0xa000, 0);
    assert!(unmapped.is_vtable_root());
    assert!(!unmapped.is_valid_native_root());
    assert!(!aarch64::cap_t::new_thread_cap(0x100).is_vtable_root());
}

#[test]
fn aarch64_arch_derive() {
    let pgd = aarch64::cap_t::new_page_global_directory_cap(7, 0xa000, 1);
    let r = aarch64::arch_derive_cap(&pgd);
    assert_eq!(r.status, exception_t::EXCEPTION_NONE);
    assert_eq!(r.cap.get_cap_type(), aarch64::CapTag::CapPageGlobalDirectoryCap);
    let pd_unmapped = aarch64::cap_t::new_page_directory_cap(1, 0xb000, 0, 17);
    let r = aarch64::arch_derive_cap(&pd_unmapped);
    assert_eq!(r.status, exception_t::EXCEPTION_SYSCALL_ERROR);
    assert_eq!(r.cap.get_cap_type(), aarch64::CapTag::CapNullCap);
    let pd_mapped = aarch64::cap_t::new_page_directory_cap(1, 0xb000, 1, 17);
    let r = aarch64::arch_derive_cap(&pd_mapped);
    assert_eq!(r.status, exception_t::EXCEPTION_NONE);
    let f = aarch64::cap_t::new_frame_cap(0, 1, 0x20_0000, 1, 9, 0xc000);
    let r = aarch64::arch_derive_cap(&f);
    assert_eq!(r.status, exception_t::EXCEPTION_NONE);
    assert_eq!(r.cap.get_frame_mapped_asid(), 0);
    assert_eq!(r.cap.get_frame_base_ptr(), 0xc000);
}

#[test]
fn aarch64_region_and_object() {
    let f1 = aarch64::cap_t::new_frame_cap(0, 0, 0, 1, 0, 0x10_0000);
    let f2 = aarch64::cap_t::new_frame_cap(0, 0, 0, 1, 3, 0x10_0000);
    assert!(aarch64::arch_same_region_as(&f1, &f2));
    assert!(aarch64::arch_same_object_as(&f1, &f2));
    let big = aarch64::cap_t::new_frame_cap(0, 0, 0, 1, 0, 0x10_0000);
    let small_inside = aarch64::cap_t::new_frame_cap(0, 0, 0, 0, 0, 0x10_0000);
    assert!(aarch64::arch_same_region_as(&big, &small_inside));
    assert!(!aarch64::arch_same_object_as(&big, &small_inside));
    let pud1 = aarch64::cap_t::new_page_upper_directory_cap(0, 0x9000, 1, 0);
    let pud2 = aarch64::cap_t::new_page_upper_directory_cap(5, 0x9000, 0, 3);
    let pud3 = aarch64::cap_t::new_page_upper_directory_cap(0, 0x9100, 1, 0);
    assert!(aarch64::arch_same_region_as(&pud1, &pud2));
    assert!(!aarch64::arch_same_region_as(&pud1, &pud3));
    assert!(aarch64::arch_same_region_as(
        &aarch64::cap_t::new_asid_control_cap(),
        &aarch64::cap_t::new_asid_control_cap(),
    ));
}

#[test]
fn aarch64_setters_roundtrip() {
    let mut u = aarch64::cap_t::new_untyped_cap(5, 0, 30, 0xff_0000_0000);
    u.set_untyped_free_index(77);
    u.set_untyped_is_device(1);
    assert_eq!(u.get_untyped_free_index(), 77);
    assert_eq!(u.get_untyped_is_device(), 1);
    assert_eq!(u.get_untyped_ptr(), 0xff_0000_0000);
    let mut c = aarch64::cap_t::new_cnode_cap(10, 4, 9, 0x7000_0000_0000);
    c.set_cnode_guard(0x1f);
    c.set_cnode_guard_size(5);
    assert_eq!(c.get_cnode_guard(), 0x1f);
    assert_eq!(c.get_cnode_guard_size(), 5);
    assert_eq!(c.get_cnode_ptr(), 0x7000_0000_0000);
    let mut p = aarch64::cap_t::new_asid_pool_cap(3, 0x1_0000);
    p.set_asid_pool(0x80_0000);
    assert_eq!(p.get_asid_pool(), 0x80_0000);
    assert_eq!(p.get_asid_base(), 3);
}

#[test]
fn riscv_mask_cap_rights() {
    let rw = seL4_CapRights_t::new(0, 0, 1, 1);
    let ro = seL4_CapRights_t::new(0, 0, 1, 0);
    let none = seL4_CapRights_t::new(0, 0, 0, 0);
    let f = cap_t::new_frame_cap(0, 0x4000, 0, VMReadWrite, 0, 0);
    assert_eq!(arch_mask_cap_rights(rw, &f).get_frame_vm_rights(), VMReadWrite);
    assert_eq!(arch_mask_cap_rights(ro, &f).get_frame_vm_rights(), VMReadOnly);
    assert_eq!(arch_mask_cap_rights(none, &f).get_frame_vm_rights(), VMKernelOnly);
    let f_ro = cap_t::new_frame_cap(0, 0x4000, 0, VMReadOnly, 0, 0);
    assert_eq!(arch_mask_cap_rights(rw, &f_ro).get_frame_vm_rights(), VMReadOnly);
    assert_eq!(arch_mask_cap_rights(none, &f_ro).get_frame_vm_rights(), VMKernelOnly);
    // Every other variant passes through untouched.
    let t = cap_t::new_thread_cap(0x9000);
    let masked = arch_mask_cap_rights(none, &t);
    assert_eq!(masked.get_cap_type(), CapTag::CapThreadCap);
    assert_eq!(masked.get_tcb_ptr(), 0x9000);
}

#[test]
fn aarch64_mask_cap_rights() {
    let rw = seL4_CapRights_t::new(0, 0, 1, 1);
    let ro = seL4_CapRights_t::new(0, 0, 1, 0);
    let none = seL4_CapRights_t::new(0, 0, 0, 0);
    let f = aarch64::cap_t::new_frame_cap(0, aarch64::VMReadWrite, 0, 0, 0, 0x4000);
    assert_eq!(
        aarch64::arch_mask_cap_rights(rw, &f).get_frame_vm_rights(),
        aarch64::VMReadWrite
    );
    assert_eq!(
        aarch64::arch_mask_cap_rights(ro, &f).get_frame_vm_rights(),
        aarch64::VMReadOnly
    );
    assert_eq!(
        aarch64::arch_mask_cap_rights(none, &f).get_frame_vm_rights(),
        aarch64::VMKernelOnly
    );
}

#[test]
fn cap_rights_word_roundtrip() {
    let r = seL4_CapRights_t::new(1, 0, 1, 0);
    assert_eq!(r.get_cap_allow_grant_reply(), 1);
    assert_eq!(r.get_cap_allow_grant(), 0);
    assert_eq!(r.get_cap_allow_read(), 1);
    assert_eq!(r.get_cap_allow_write(), 0);
}
