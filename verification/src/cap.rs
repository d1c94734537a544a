//! The capability algebra: region and object equality, revocability of
//! a derived capability, and the mint/mutate operation `update_data`.
use vstd::prelude::*;

use crate::arch::riscv64::{
    arch_same_object_as, cap_t, spec_arch_same_object_as, spec_cap_type, spec_is_arch, CapData,
    CapTag,
};
use crate::bits::{lemma_and_mask_le, mask_low, mask_u64};
use crate::config::{
    pageBitsForSize, spec_page_bits_for_size, wordBits, seL4_EndpointBits, seL4_NotificationBits,
    seL4_ReplyBits, seL4_SlotBits, PT_SIZE_BITS,
};
use crate::zombie::spec_zombie_ptr;

verus! {

/// The packed `{guard, guard_size}` word handed to `update_data` for a
/// CNode capability: the guard size in the low six bits, the guard
/// value above them.
#[derive(Clone, Copy, Debug)]
pub struct CNodeCapData {
    pub words: [u64; 1],
}

/// The guard value packed into a CNode-data word.
pub open spec fn spec_cnode_data_guard(data: u64) -> u64 {
    (data & 0xffff_ffff_ffff_ffc0u64) >> 6u64
}

/// The guard size packed into a CNode-data word.
pub open spec fn spec_cnode_data_guard_size(data: u64) -> u64 {
    data & 0x3fu64
}

impl CNodeCapData {
    /// Wraps a raw CNode-data word.
    pub fn new(data: u64) -> (r: Self)
        ensures
            r.words[0] == data,
    {
        CNodeCapData { words: [data] }
    }

    /// Extracts the guard value.
    pub fn get_guard(&self) -> (r: u64)
        ensures
            r == spec_cnode_data_guard(self.words[0]),
    {
        (self.words[0] & 0xffff_ffff_ffff_ffc0u64) >> 6u64
    }

    /// Extracts the guard size.
    pub fn get_guard_size(&self) -> (r: u64)
        ensures
            r == spec_cnode_data_guard_size(self.words[0]),
            r <= 63,
    {
        proof {
            lemma_and_mask_le(self.words[0], 0x3fu64);
        }
        self.words[0] & 0x3fu64
    }
}

/// The object pointer of a capability: the base of the kernel object
/// it names, or zero for the variants that carry none.
pub open spec fn spec_cap_ptr(c: CapData) -> u64 {
    match c {
        CapData::Untyped { ptr, .. } => ptr,
        CapData::Endpoint { ptr, .. } => ptr,
        CapData::Notification { ptr, .. } => ptr,
        CapData::CNode { ptr, .. } => ptr,
        CapData::Thread { tcb_ptr } => tcb_ptr,
        CapData::Zombie { .. } => spec_zombie_ptr(c),
        CapData::Frame { base_ptr, .. } => base_ptr,
        CapData::PageTable { base_ptr, .. } => base_ptr,
        CapData::ASIDPool { pool, .. } => pool,
        _ => 0,
    }
}

/// The object size of a capability as log2 bytes, or zero for the
/// variants without a sized object.
pub open spec fn spec_cap_size_bits(c: CapData) -> u64 {
    match c {
        CapData::Untyped { block_size, .. } => block_size,
        CapData::Endpoint { .. } => seL4_EndpointBits,
        CapData::Notification { .. } => seL4_NotificationBits,
        CapData::CNode { radix, .. } => (radix + seL4_SlotBits) as u64,
        CapData::PageTable { .. } => PT_SIZE_BITS,
        CapData::Reply { .. } => seL4_ReplyBits,
        _ => 0,
    }
}

/// True of the capability variants that name physical memory.
pub open spec fn spec_cap_is_physical(c: CapData) -> bool {
    match c {
        CapData::Untyped { .. } => true,
        CapData::Endpoint { .. } => true,
        CapData::Notification { .. } => true,
        CapData::CNode { .. } => true,
        CapData::Frame { .. } => true,
        CapData::ASIDPool { .. } => true,
        CapData::PageTable { .. } => true,
        CapData::Zombie { .. } => true,
        CapData::Thread { .. } => true,
        _ => false,
    }
}

/// True iff the memory region of `a` covers the region of `b`:
/// an untyped region contains any physical object inside it; most
/// other variants cover exactly their own object; the IRQ control
/// capability covers every IRQ handler.
pub open spec fn spec_same_region_as(a: CapData, b: CapData) -> bool {
    match a {
        CapData::Untyped { block_size, ptr, .. } => spec_cap_is_physical(b) && {
            let a_base = ptr as int;
            let b_base = spec_cap_ptr(b) as int;
            let a_top = a_base + mask_low(block_size);
            let b_top = b_base + mask_low(spec_cap_size_bits(b));
            a_base <= b_base && b_top <= a_top && b_base <= b_top
        },
        CapData::Endpoint { .. } => spec_cap_type(b) == spec_cap_type(a) && spec_cap_ptr(a)
            == spec_cap_ptr(b),
        CapData::Notification { .. } => spec_cap_type(b) == spec_cap_type(a) && spec_cap_ptr(a)
            == spec_cap_ptr(b),
        CapData::PageTable { .. } => spec_cap_type(b) == spec_cap_type(a) && spec_cap_ptr(a)
            == spec_cap_ptr(b),
        CapData::ASIDPool { .. } => spec_cap_type(b) == spec_cap_type(a) && spec_cap_ptr(a)
            == spec_cap_ptr(b),
        CapData::Thread { .. } => spec_cap_type(b) == spec_cap_type(a) && spec_cap_ptr(a)
            == spec_cap_ptr(b),
        CapData::ASIDControl => b is ASIDControl,
        CapData::Domain => b is Domain,
        CapData::CNode { radix, ptr, .. } => {
            &&& b matches CapData::CNode { radix: r2, ptr: p2, .. }
            &&& ptr == p2
            &&& radix == r2
        },
        CapData::IrqControl => b is IrqControl || b is IrqHandler,
        CapData::IrqHandler { irq } => b matches CapData::IrqHandler { irq: i2 } && irq == i2,
        CapData::Frame { base_ptr, size, .. } => {
            &&& b matches CapData::Frame { base_ptr: b2, size: s2, .. }
            &&& {
                let bot_a = base_ptr as int;
                let bot_b = b2 as int;
                let top_a = bot_a + mask_low(spec_page_bits_for_size(size));
                let top_b = bot_b + mask_low(spec_page_bits_for_size(s2));
                bot_a <= bot_b && top_a >= top_b && bot_b <= top_b
            }
        },
        _ => false,
    }
}

/// True iff `a` and `b` name the very same kernel object.  An untyped
/// capability is never the same object as anything (its children are
/// distinct objects in its region); the IRQ control capability is not
/// the handler object; frames must also agree on size and device-ness.
pub open spec fn spec_same_object_as(a: CapData, b: CapData) -> bool {
    if a is Untyped {
        false
    } else if a is IrqControl && b is IrqHandler {
        false
    } else if spec_is_arch(a) && spec_is_arch(b) {
        spec_arch_same_object_as(a, b)
    } else {
        spec_same_region_as(a, b)
    }
}

/// True iff a capability derived from `src` may outlive its parent's
/// revocation: untyped children always, badged endpoint and
/// notification mints, and IRQ handlers created from IRQ control.
pub open spec fn spec_is_cap_revocable(derived: CapData, src: CapData) -> bool {
    if spec_is_arch(derived) {
        false
    } else {
        match derived {
            CapData::Endpoint { badge, .. } => badge != src->Endpoint_badge,
            CapData::Notification { badge, .. } => badge != src->Notification_badge,
            CapData::IrqHandler { .. } => src is IrqControl,
            CapData::Untyped { .. } => true,
            _ => false,
        }
    }
}

/// The mint/mutate operation: stamps a badge into an unbadged endpoint
/// or notification (once; a second mint yields the null capability),
/// rewrites a CNode's guard, and leaves every other variant unchanged.
pub open spec fn spec_update_data(c: CapData, preserve: bool, new_data: u64) -> CapData {
    if spec_is_arch(c) {
        c
    } else {
        match c {
            CapData::Endpoint { badge, can_grant_reply, can_grant, can_send, can_receive, ptr } =>
                if !preserve && badge == 0 {
                    CapData::Endpoint {
                        badge: new_data,
                        can_grant_reply,
                        can_grant,
                        can_send,
                        can_receive,
                        ptr,
                    }
                } else {
                    CapData::Null
                },
            CapData::Notification { badge, can_receive, can_send, ptr } => if !preserve && badge
                == 0 {
                CapData::Notification { badge: new_data, can_receive, can_send, ptr }
            } else {
                CapData::Null
            },
            CapData::CNode { radix, guard_size, guard, ptr } => {
                let gs = spec_cnode_data_guard_size(new_data);
                if gs + radix > wordBits {
                    CapData::Null
                } else {
                    CapData::CNode {
                        radix,
                        guard_size: gs,
                        guard: spec_cnode_data_guard(new_data) & mask_low(gs),
                        ptr,
                    }
                }
            },
            _ => c,
        }
    }
}

impl cap_t {
    /// Applies the mint/mutate operation to this capability.
    pub fn update_data(&self, preserve: bool, new_data: u64) -> (r: cap_t)
        ensures
            r@ == spec_update_data(self@, preserve, new_data),
    {
        if self.isArchCap() {
            return self.clone();
        }
        match self.get_cap_type() {
            CapTag::CapEndpointCap => {
                if !preserve && self.get_ep_badge() == 0 {
                    let mut new_cap = self.clone();
                    new_cap.set_ep_badge(new_data);
                    new_cap
                } else {
                    cap_t::new_null_cap()
                }
            },
            CapTag::CapNotificationCap => {
                if !preserve && self.get_nf_badge() == 0 {
                    let mut new_cap = self.clone();
                    new_cap.set_nf_badge(new_data);
                    new_cap
                } else {
                    cap_t::new_null_cap()
                }
            },
            CapTag::CapCNodeCap => {
                let w = CNodeCapData::new(new_data);
                let guard_size = w.get_guard_size();
                if guard_size + self.get_cnode_radix() > wordBits {
                    return cap_t::new_null_cap();
                }
                let guard = w.get_guard() & mask_u64(guard_size);
                let mut new_cap = self.clone();
                new_cap.set_cnode_guard(guard);
                new_cap.set_cnode_guard_size(guard_size);
                new_cap
            },
            _ => self.clone(),
        }
    }

    /// Reads the object pointer of this capability, zero for variants
    /// without one.
    pub fn get_cap_ptr(&self) -> (r: u64)
        ensures
            r == spec_cap_ptr(self@),
    {
        match self.get_cap_type() {
            CapTag::CapUntypedCap => self.get_untyped_ptr(),
            CapTag::CapEndpointCap => self.get_ep_ptr(),
            CapTag::CapNotificationCap => self.get_nf_ptr(),
            CapTag::CapCNodeCap => self.get_cnode_ptr(),
            CapTag::CapThreadCap => self.get_tcb_ptr(),
            CapTag::CapZombieCap => self.get_zombie_ptr(),
            CapTag::CapFrameCap => self.get_frame_base_ptr(),
            CapTag::CapPageTableCap => self.get_pt_base_ptr(),
            CapTag::CapASIDPoolCap => self.get_asid_pool(),
            _ => 0,
        }
    }

    /// Reads the object size of this capability as log2 bytes, zero
    /// for variants without a sized object.
    pub fn get_cap_size_bits(&self) -> (r: u64)
        ensures
            r == spec_cap_size_bits(self@),
    {
        match self.get_cap_type() {
            CapTag::CapUntypedCap => self.get_untyped_block_size(),
            CapTag::CapEndpointCap => seL4_EndpointBits,
            CapTag::CapNotificationCap => seL4_NotificationBits,
            CapTag::CapCNodeCap => self.get_cnode_radix() + seL4_SlotBits,
            CapTag::CapPageTableCap => PT_SIZE_BITS,
            CapTag::CapReplyCap => seL4_ReplyBits,
            _ => 0,
        }
    }

    /// True iff this capability names physical memory.
    pub fn get_cap_is_physical(&self) -> (r: bool)
        ensures
            r == spec_cap_is_physical(self@),
    {
        match self.get_cap_type() {
            CapTag::CapUntypedCap
            | CapTag::CapEndpointCap
            | CapTag::CapNotificationCap
            | CapTag::CapCNodeCap
            | CapTag::CapFrameCap
            | CapTag::CapASIDPoolCap
            | CapTag::CapPageTableCap
            | CapTag::CapZombieCap
            | CapTag::CapThreadCap => true,
            _ => false,
        }
    }
}

/// Decides whether `cap1`'s memory region covers `cap2`'s.
pub fn same_region_as(cap1: &cap_t, cap2: &cap_t) -> (r: bool)
    ensures
        r == spec_same_region_as(cap1@, cap2@),
{
    match cap1.get_cap_type() {
        CapTag::CapUntypedCap => {
            if cap2.get_cap_is_physical() {
                let a_base = cap1.get_untyped_ptr();
                let b_base = cap2.get_cap_ptr();
                let a_top: u128 = a_base as u128 + mask_u64(cap1.get_untyped_block_size()) as u128;
                let b_top: u128 = b_base as u128 + mask_u64(cap2.get_cap_size_bits()) as u128;
                (a_base as u128 <= b_base as u128) && (b_top <= a_top) && (b_base as u128 <= b_top)
            } else {
                false
            }
        },
        CapTag::CapEndpointCap
        | CapTag::CapNotificationCap
        | CapTag::CapPageTableCap
        | CapTag::CapASIDPoolCap
        | CapTag::CapThreadCap => {
            if cap2.get_cap_type() == cap1.get_cap_type() {
                cap1.get_cap_ptr() == cap2.get_cap_ptr()
            } else {
                false
            }
        },
        CapTag::CapASIDControlCap | CapTag::CapDomainCap => cap2.get_cap_type()
            == cap1.get_cap_type(),
        CapTag::CapCNodeCap => {
            if cap2.get_cap_type() == CapTag::CapCNodeCap {
                (cap1.get_cnode_ptr() == cap2.get_cnode_ptr()) && (cap1.get_cnode_radix()
                    == cap2.get_cnode_radix())
            } else {
                false
            }
        },
        CapTag::CapIrqControlCap => match cap2.get_cap_type() {
            CapTag::CapIrqControlCap | CapTag::CapIrqHandlerCap => true,
            _ => false,
        },
        CapTag::CapIrqHandlerCap => {
            if cap2.get_cap_type() == CapTag::CapIrqHandlerCap {
                cap1.get_irq_handler() == cap2.get_irq_handler()
            } else {
                false
            }
        },
        CapTag::CapFrameCap => {
            if cap2.get_cap_type() == CapTag::CapFrameCap {
                let bot_a = cap1.get_frame_base_ptr();
                let bot_b = cap2.get_frame_base_ptr();
                let top_a: u128 = bot_a as u128 + mask_u64(
                    pageBitsForSize(cap1.get_frame_size()),
                ) as u128;
                let top_b: u128 = bot_b as u128 + mask_u64(
                    pageBitsForSize(cap2.get_frame_size()),
                ) as u128;
                (bot_a as u128 <= bot_b as u128) && (top_a >= top_b) && (bot_b as u128 <= top_b)
            } else {
                false
            }
        },
        _ => false,
    }
}

/// Decides whether `cap1` and `cap2` name the same kernel object.
pub fn same_object_as(cap1: &cap_t, cap2: &cap_t) -> (r: bool)
    ensures
        r == spec_same_object_as(cap1@, cap2@),
{
    if cap1.get_cap_type() == CapTag::CapUntypedCap {
        return false;
    }
    if cap1.get_cap_type() == CapTag::CapIrqControlCap && cap2.get_cap_type()
        == CapTag::CapIrqHandlerCap {
        return false;
    }
    if cap1.isArchCap() && cap2.isArchCap() {
        return arch_same_object_as(cap1, cap2);
    }
    same_region_as(cap1, cap2)
}

/// Decides whether `derived_cap`, derived from `src_cap`, may outlive
/// its parent's revocation.
pub fn is_cap_revocable(derived_cap: &cap_t, src_cap: &cap_t) -> (r: bool)
    requires
        derived_cap@ is Endpoint ==> src_cap@ is Endpoint,
        derived_cap@ is Notification ==> src_cap@ is Notification,
    ensures
        r == spec_is_cap_revocable(derived_cap@, src_cap@),
{
    if derived_cap.isArchCap() {
        return false;
    }
    match derived_cap.get_cap_type() {
        CapTag::CapEndpointCap => derived_cap.get_ep_badge() != src_cap.get_ep_badge(),
        CapTag::CapNotificationCap => derived_cap.get_nf_badge() != src_cap.get_nf_badge(),
        CapTag::CapIrqHandlerCap => src_cap.get_cap_type() == CapTag::CapIrqControlCap,
        CapTag::CapUntypedCap => true,
        _ => false,
    }
}

} // verus!
