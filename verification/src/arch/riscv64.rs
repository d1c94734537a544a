//! The RISC-V sv39 capability descriptor: a tagged union packed into
//! two 64-bit words.  The bit positions and widths below are kernel
//! ABI; the abstract view `CapData` is what every contract speaks of.
use vstd::prelude::*;

use crate::bits::{
    fld_get, fld_set, get_field, lemma_get_set_other, lemma_get_set_same, lemma_get_zero,
    lemma_get_bound, lemma_mask_low_values, lemma_shift1_roundtrip, lemma_shift2_roundtrip,
    lemma_shl1_bound, lemma_shl2_bound, mask_low, set_field,
};

verus! {

/// The variant tag of a capability, stored in bits 59..64 of word 0.
/// Odd tag values are architectural capabilities.
#[derive(Clone, Copy, PartialEq, Eq, Structural, Debug)]
pub enum CapTag {
    CapNullCap,
    CapUntypedCap,
    CapEndpointCap,
    CapNotificationCap,
    CapReplyCap,
    CapCNodeCap,
    CapThreadCap,
    CapIrqControlCap,
    CapIrqHandlerCap,
    CapZombieCap,
    CapDomainCap,
    CapFrameCap,
    CapPageTableCap,
    CapASIDControlCap,
    CapASIDPoolCap,
}

/// The ABI tag value of each variant.
pub open spec fn spec_tag_value(t: CapTag) -> u64 {
    match t {
        CapTag::CapNullCap => 0,
        CapTag::CapUntypedCap => 2,
        CapTag::CapEndpointCap => 4,
        CapTag::CapNotificationCap => 6,
        CapTag::CapReplyCap => 8,
        CapTag::CapCNodeCap => 10,
        CapTag::CapThreadCap => 12,
        CapTag::CapIrqControlCap => 14,
        CapTag::CapIrqHandlerCap => 16,
        CapTag::CapZombieCap => 18,
        CapTag::CapDomainCap => 20,
        CapTag::CapFrameCap => 1,
        CapTag::CapPageTableCap => 3,
        CapTag::CapASIDControlCap => 11,
        CapTag::CapASIDPoolCap => 13,
    }
}

/// The abstract value of a capability: one variant per tag, with the
/// decoded payload fields.  Flag fields are 0 or 1; pointer fields are
/// already shifted back to byte addresses.
#[derive(PartialEq, Eq, Structural)]
pub enum CapData {
    Null,
    Untyped { free_index: u64, is_device: u64, block_size: u64, ptr: u64 },
    Endpoint {
        badge: u64,
        can_grant_reply: u64,
        can_grant: u64,
        can_send: u64,
        can_receive: u64,
        ptr: u64,
    },
    Notification { badge: u64, can_receive: u64, can_send: u64, ptr: u64 },
    Reply { can_grant: u64, master: u64, tcb_ptr: u64 },
    CNode { radix: u64, guard_size: u64, guard: u64, ptr: u64 },
    Thread { tcb_ptr: u64 },
    IrqControl,
    IrqHandler { irq: u64 },
    Zombie { id: u64, ztype: u64 },
    Domain,
    Frame {
        mapped_asid: u64,
        base_ptr: u64,
        size: u64,
        vm_rights: u64,
        is_device: u64,
        mapped_address: u64,
    },
    PageTable { mapped_asid: u64, base_ptr: u64, is_mapped: u64, mapped_address: u64 },
    ASIDControl,
    ASIDPool { asid_base: u64, pool: u64 },
}

/// The variant tag of an abstract capability value.
pub open spec fn spec_cap_type(c: CapData) -> CapTag {
    match c {
        CapData::Null => CapTag::CapNullCap,
        CapData::Untyped { .. } => CapTag::CapUntypedCap,
        CapData::Endpoint { .. } => CapTag::CapEndpointCap,
        CapData::Notification { .. } => CapTag::CapNotificationCap,
        CapData::Reply { .. } => CapTag::CapReplyCap,
        CapData::CNode { .. } => CapTag::CapCNodeCap,
        CapData::Thread { .. } => CapTag::CapThreadCap,
        CapData::IrqControl => CapTag::CapIrqControlCap,
        CapData::IrqHandler { .. } => CapTag::CapIrqHandlerCap,
        CapData::Zombie { .. } => CapTag::CapZombieCap,
        CapData::Domain => CapTag::CapDomainCap,
        CapData::Frame { .. } => CapTag::CapFrameCap,
        CapData::PageTable { .. } => CapTag::CapPageTableCap,
        CapData::ASIDControl => CapTag::CapASIDControlCap,
        CapData::ASIDPool { .. } => CapTag::CapASIDPoolCap,
    }
}

/// True of the architectural capability variants (odd tag values).
pub open spec fn spec_is_arch(c: CapData) -> bool {
    match c {
        CapData::Frame { .. } => true,
        CapData::PageTable { .. } => true,
        CapData::ASIDControl => true,
        CapData::ASIDPool { .. } => true,
        _ => false,
    }
}

/// A capability descriptor: two machine words whose bit layout is
/// kernel ABI.  All contracts speak of the abstract view `CapData`.
#[derive(Clone, Copy, Debug)]
pub struct cap_t {
    w0: u64,
    w1: u64,
}

impl View for cap_t {
    type V = CapData;

    /// Decodes the two words: the tag in bits 59..64 of word 0 selects
    /// the variant, whose fields sit at the fixed positions below.
    /// Words with an unassigned tag value decode to `Null`; no such
    /// word is ever produced by this crate.
    closed spec fn view(&self) -> CapData {
        let t = get_field(self.w0, 59, 5);
        if t == 0 {
            CapData::Null
        } else if t == 2 {
            CapData::Untyped {
                free_index: get_field(self.w1, 25, 39),
                is_device: get_field(self.w1, 6, 1),
                block_size: get_field(self.w1, 0, 6),
                ptr: get_field(self.w0, 0, 39),
            }
        } else if t == 4 {
            CapData::Endpoint {
                badge: self.w1,
                can_grant_reply: get_field(self.w0, 58, 1),
                can_grant: get_field(self.w0, 57, 1),
                can_send: get_field(self.w0, 55, 1),
                can_receive: get_field(self.w0, 56, 1),
                ptr: get_field(self.w0, 0, 39),
            }
        } else if t == 6 {
            CapData::Notification {
                badge: self.w1,
                can_receive: get_field(self.w0, 58, 1),
                can_send: get_field(self.w0, 57, 1),
                ptr: get_field(self.w0, 0, 39),
            }
        } else if t == 8 {
            CapData::Reply {
                can_grant: get_field(self.w0, 1, 1),
                master: get_field(self.w0, 0, 1),
                tcb_ptr: self.w1,
            }
        } else if t == 10 {
            CapData::CNode {
                radix: get_field(self.w0, 47, 6),
                guard_size: get_field(self.w0, 53, 6),
                guard: self.w1,
                ptr: (get_field(self.w0, 0, 38) << 1u64) as u64,
            }
        } else if t == 12 {
            CapData::Thread { tcb_ptr: get_field(self.w0, 0, 39) }
        } else if t == 14 {
            CapData::IrqControl
        } else if t == 16 {
            CapData::IrqHandler { irq: get_field(self.w1, 0, 12) }
        } else if t == 18 {
            CapData::Zombie { id: self.w1, ztype: get_field(self.w0, 0, 7) }
        } else if t == 20 {
            CapData::Domain
        } else if t == 1 {
            CapData::Frame {
                mapped_asid: get_field(self.w1, 48, 16),
                base_ptr: get_field(self.w1, 9, 39),
                size: get_field(self.w0, 57, 2),
                vm_rights: get_field(self.w0, 55, 2),
                is_device: get_field(self.w0, 54, 1),
                mapped_address: get_field(self.w0, 0, 39),
            }
        } else if t == 3 {
            CapData::PageTable {
                mapped_asid: get_field(self.w1, 48, 16),
                base_ptr: get_field(self.w1, 9, 39),
                is_mapped: get_field(self.w0, 39, 1),
                mapped_address: get_field(self.w0, 0, 39),
            }
        } else if t == 11 {
            CapData::ASIDControl
        } else if t == 13 {
            CapData::ASIDPool {
                asid_base: get_field(self.w0, 43, 16),
                pool: (get_field(self.w0, 0, 37) << 2u64) as u64,
            }
        } else {
            CapData::Null
        }
    }
}

impl cap_t {
    /// The tag value always names a variant of the layout, and the
    /// null capability has every other bit zero.
    #[verifier::type_invariant]
    closed spec fn inv(&self) -> bool {
        let t = get_field(self.w0, 59, 5);
        &&& (t == 0 || t == 1 || t == 2 || t == 3 || t == 4 || t == 6 || t == 8 || t == 10 || t
            == 11 || t == 12 || t == 13 || t == 14 || t == 16 || t == 18 || t == 20)
        &&& (t == 0 ==> self.w0 == 0 && self.w1 == 0)
    }

    /// Builds the null capability: both words zero.
    pub fn new_null_cap() -> (r: cap_t)
        ensures
            r@ == CapData::Null,
    {
        proof {
            lemma_get_zero(59, 5);
        }
        cap_t { w0: 0, w1: 0 }
    }

    /// Builds an Untyped capability.
    pub fn new_untyped_cap(free_index: u64, is_device: u64, block_size: u64, ptr: u64) -> (r: cap_t)
        requires
            free_index <= 0x7f_ffff_ffffu64,
            is_device <= 1,
            block_size <= 0x3fu64,
            ptr <= 0x7f_ffff_ffffu64,
        ensures
            r@ == (CapData::Untyped { free_index: free_index, is_device: is_device, block_size: block_size, ptr: ptr }),
    {
        let w0_a: u64 = fld_set(0, 0, 39, ptr);
        let w0: u64 = fld_set(w0_a, 59, 5, 2u64);
        let w1_a: u64 = fld_set(0, 25, 39, free_index);
        let w1_b: u64 = fld_set(w1_a, 6, 1, is_device);
        let w1: u64 = fld_set(w1_b, 0, 6, block_size);
        proof {
            lemma_mask_low_values();
            lemma_get_set_same(0, 0, 39, ptr);
            lemma_get_set_same(w0_a, 59, 5, 2u64);
            lemma_get_set_other(w0_a, 59, 5, 2u64, 0, 39);
            lemma_get_set_same(0, 25, 39, free_index);
            lemma_get_set_same(w1_a, 6, 1, is_device);
            lemma_get_set_other(w1_a, 6, 1, is_device, 25, 39);
            lemma_get_set_same(w1_b, 0, 6, block_size);
            lemma_get_set_other(w1_b, 0, 6, block_size, 25, 39);
            lemma_get_set_other(w1_b, 0, 6, block_size, 6, 1);
        }
        cap_t { w0: w0, w1: w1 }
    }

    /// Reads the `free_index` field of an Untyped capability.
    pub fn get_untyped_free_index(&self) -> (r: u64)
        requires
            self@ is Untyped,
        ensures
            r == self@->Untyped_free_index,
            r <= 0x7f_ffff_ffffu64,
    {
        proof {
            lemma_mask_low_values();
            lemma_get_bound(self.w1, 25, 39);
        }
        fld_get(self.w1, 25, 39)
    }

    /// Reads the `is_device` field of an Untyped capability.
    pub fn get_untyped_is_device(&self) -> (r: u64)
        requires
            self@ is Untyped,
        ensures
            r == self@->Untyped_is_device,
            r <= 1,
    {
        proof {
            lemma_mask_low_values();
            lemma_get_bound(self.w1, 6, 1);
        }
        fld_get(self.w1, 6, 1)
    }

    /// Reads the `block_size` field of an Untyped capability.
    pub fn get_untyped_block_size(&self) -> (r: u64)
        requires
            self@ is Untyped,
        ensures
            r == self@->Untyped_block_size,
            r <= 0x3fu64,
    {
        proof {
            lemma_mask_low_values();
            lemma_get_bound(self.w1, 0, 6);
        }
        fld_get(self.w1, 0, 6)
    }

    /// Reads the `ptr` field of an Untyped capability.
    pub fn get_untyped_ptr(&self) -> (r: u64)
        requires
            self@ is Untyped,
        ensures
            r == self@->Untyped_ptr,
            r <= 0x7f_ffff_ffffu64,
    {
        proof {
            lemma_mask_low_values();
            lemma_get_bound(self.w0, 0, 39);
        }
        fld_get(self.w0, 0, 39)
    }

    /// Replaces the `free_index` field of an Untyped capability.
    pub fn set_untyped_free_index(&mut self, v: u64)
        requires
            old(self)@ is Untyped,
            v <= 0x7f_ffff_ffffu64,
        ensures
            final(self)@ == (CapData::Untyped { free_index: v, is_device: old(self)@->Untyped_is_device, block_size: old(self)@->Untyped_block_size, ptr: old(self)@->Untyped_ptr }),
    {
        let nw: u64 = fld_set(self.w1, 25, 39, v);
        proof {
            use_type_invariant(&*self);
            lemma_mask_low_values();
            lemma_get_set_same(self.w1, 25, 39, v);
            lemma_get_set_other(self.w1, 25, 39, v, 6, 1);
            lemma_get_set_other(self.w1, 25, 39, v, 0, 6);
        }
        *self = cap_t { w0: self.w0, w1: nw };
    }

    /// Replaces the `is_device` field of an Untyped capability.
    pub fn set_untyped_is_device(&mut self, v: u64)
        requires
            old(self)@ is Untyped,
            v <= 1,
        ensures
            final(self)@ == (CapData::Untyped { free_index: old(self)@->Untyped_free_index, is_device: v, block_size: old(self)@->Untyped_block_size, ptr: old(self)@->Untyped_ptr }),
    {
        let nw: u64 = fld_set(self.w1, 6, 1, v);
        proof {
            use_type_invariant(&*self);
            lemma_mask_low_values();
            lemma_get_set_same(self.w1, 6, 1, v);
            lemma_get_set_other(self.w1, 6, 1, v, 25, 39);
            lemma_get_set_other(self.w1, 6, 1, v, 0, 6);
        }
        *self = cap_t { w0: self.w0, w1: nw };
    }

    /// Replaces the `block_size` field of an Untyped capability.
    pub fn set_untyped_block_size(&mut self, v: u64)
        requires
            old(self)@ is Untyped,
            v <= 0x3fu64,
        ensures
            final(self)@ == (CapData::Untyped { free_index: old(self)@->Untyped_free_index, is_device: old(self)@->Untyped_is_device, block_size: v, ptr: old(self)@->Untyped_ptr }),
    {
        let nw: u64 = fld_set(self.w1, 0, 6, v);
        proof {
            use_type_invariant(&*self);
            lemma_mask_low_values();
            lemma_get_set_same(self.w1, 0, 6, v);
            lemma_get_set_other(self.w1, 0, 6, v, 25, 39);
            lemma_get_set_other(self.w1, 0, 6, v, 6, 1);
        }
        *self = cap_t { w0: self.w0, w1: nw };
    }

    /// Replaces the `ptr` field of an Untyped capability.
    pub fn set_untyped_ptr(&mut self, v: u64)
        requires
            old(self)@ is Untyped,
            v <= 0x7f_ffff_ffffu64,
        ensures
            final(self)@ == (CapData::Untyped { free_index: old(self)@->Untyped_free_index, is_device: old(self)@->Untyped_is_device, block_size: old(self)@->Untyped_block_size, ptr: v }),
    {
        let nw: u64 = fld_set(self.w0, 0, 39, v);
        proof {
            use_type_invariant(&*self);
            lemma_mask_low_values();
            lemma_get_set_same(self.w0, 0, 39, v);
            lemma_get_set_other(self.w0, 0, 39, v, 59, 5);
        }
        *self = cap_t { w0: nw, w1: self.w1 };
    }

    /// Builds an Endpoint capability.
    pub fn new_endpoint_cap(badge: u64, can_grant_reply: u64, can_grant: u64, can_send: u64, can_receive: u64, ptr: u64) -> (r: cap_t)
        requires
            can_grant_reply <= 1,
            can_grant <= 1,
            can_send <= 1,
            can_receive <= 1,
            ptr <= 0x7f_ffff_ffffu64,
        ensures
            r@ == (CapData::Endpoint { badge: badge, can_grant_reply: can_grant_reply, can_grant: can_grant, can_send: can_send, can_receive: can_receive, ptr: ptr }),
    {
        let w0_a: u64 = fld_set(0, 58, 1, can_grant_reply);
        let w0_b: u64 = fld_set(w0_a, 57, 1, can_grant);
        let w0_c: u64 = fld_set(w0_b, 55, 1, can_send);
        let w0_d: u64 = fld_set(w0_c, 56, 1, can_receive);
        let w0_e: u64 = fld_set(w0_d, 0, 39, ptr);
        let w0: u64 = fld_set(w0_e, 59, 5, 4u64);
        proof {
            lemma_mask_low_values();
            lemma_get_set_same(0, 58, 1, can_grant_reply);
            lemma_get_set_same(w0_a, 57, 1, can_grant);
            lemma_get_set_other(w0_a, 57, 1, can_grant, 58, 1);
            lemma_get_set_same(w0_b, 55, 1, can_send);
            lemma_get_set_other(w0_b, 55, 1, can_send, 58, 1);
            lemma_get_set_other(w0_b, 55, 1, can_send, 57, 1);
            lemma_get_set_same(w0_c, 56, 1, can_receive);
            lemma_get_set_other(w0_c, 56, 1, can_receive, 58, 1);
            lemma_get_set_other(w0_c, 56, 1, can_receive, 57, 1);
            lemma_get_set_other(w0_c, 56, 1, can_receive, 55, 1);
            lemma_get_set_same(w0_d, 0, 39, ptr);
            lemma_get_set_other(w0_d, 0, 39, ptr, 58, 1);
            lemma_get_set_other(w0_d, 0, 39, ptr, 57, 1);
            lemma_get_set_other(w0_d, 0, 39, ptr, 55, 1);
            lemma_get_set_other(w0_d, 0, 39, ptr, 56, 1);
            lemma_get_set_same(w0_e, 59, 5, 4u64);
            lemma_get_set_other(w0_e, 59, 5, 4u64, 58, 1);
            lemma_get_set_other(w0_e, 59, 5, 4u64, 57, 1);
            lemma_get_set_other(w0_e, 59, 5, 4u64, 55, 1);
            lemma_get_set_other(w0_e, 59, 5, 4u64, 56, 1);
            lemma_get_set_other(w0_e, 59, 5, 4u64, 0, 39);
        }
        cap_t { w0: w0, w1: badge }
    }

    /// Reads the `badge` field of an Endpoint capability.
    pub fn get_ep_badge(&self) -> (r: u64)
        requires
            self@ is Endpoint,
        ensures
            r == self@->Endpoint_badge,
    {
        self.w1
    }

    /// Reads the `can_grant_reply` field of an Endpoint capability.
    pub fn get_ep_can_grant_reply(&self) -> (r: u64)
        requires
            self@ is Endpoint,
        ensures
            r == self@->Endpoint_can_grant_reply,
            r <= 1,
    {
        proof {
            lemma_mask_low_values();
            lemma_get_bound(self.w0, 58, 1);
        }
        fld_get(self.w0, 58, 1)
    }

    /// Reads the `can_grant` field of an Endpoint capability.
    pub fn get_ep_can_grant(&self) -> (r: u64)
        requires
            self@ is Endpoint,
        ensures
            r == self@->Endpoint_can_grant,
            r <= 1,
    {
        proof {
            lemma_mask_low_values();
            lemma_get_bound(self.w0, 57, 1);
        }
        fld_get(self.w0, 57, 1)
    }

    /// Reads the `can_send` field of an Endpoint capability.
    pub fn get_ep_can_send(&self) -> (r: u64)
        requires
            self@ is Endpoint,
        ensures
            r == self@->Endpoint_can_send,
            r <= 1,
    {
        proof {
            lemma_mask_low_values();
            lemma_get_bound(self.w0, 55, 1);
        }
        fld_get(self.w0, 55, 1)
    }

    /// Reads the `can_receive` field of an Endpoint capability.
    pub fn get_ep_can_receive(&self) -> (r: u64)
        requires
            self@ is Endpoint,
        ensures
            r == self@->Endpoint_can_receive,
            r <= 1,
    {
        proof {
            lemma_mask_low_values();
            lemma_get_bound(self.w0, 56, 1);
        }
        fld_get(self.w0, 56, 1)
    }

    /// Reads the `ptr` field of an Endpoint capability.
    pub fn get_ep_ptr(&self) -> (r: u64)
        requires
            self@ is Endpoint,
        ensures
            r == self@->Endpoint_ptr,
            r <= 0x7f_ffff_ffffu64,
    {
        proof {
            lemma_mask_low_values();
            lemma_get_bound(self.w0, 0, 39);
        }
        fld_get(self.w0, 0, 39)
    }

    /// Replaces the `badge` field of an Endpoint capability.
    pub fn set_ep_badge(&mut self, v: u64)
        requires
            old(self)@ is Endpoint,
        ensures
            final(self)@ == (CapData::Endpoint { badge: v, can_grant_reply: old(self)@->Endpoint_can_grant_reply, can_grant: old(self)@->Endpoint_can_grant, can_send: old(self)@->Endpoint_can_send, can_receive: old(self)@->Endpoint_can_receive, ptr: old(self)@->Endpoint_ptr }),
    {
        proof {
            use_type_invariant(&*self);
        }
        *self = cap_t { w0: self.w0, w1: v };
    }

    /// Replaces the `can_grant_reply` field of an Endpoint capability.
    pub fn set_ep_can_grant_reply(&mut self, v: u64)
        requires
            old(self)@ is Endpoint,
            v <= 1,
        ensures
            final(self)@ == (CapData::Endpoint { badge: old(self)@->Endpoint_badge, can_grant_reply: v, can_grant: old(self)@->Endpoint_can_grant, can_send: old(self)@->Endpoint_can_send, can_receive: old(self)@->Endpoint_can_receive, ptr: old(self)@->Endpoint_ptr }),
    {
        let nw: u64 = fld_set(self.w0, 58, 1, v);
        proof {
            use_type_invariant(&*self);
            lemma_mask_low_values();
            lemma_get_set_same(self.w0, 58, 1, v);
            lemma_get_set_other(self.w0, 58, 1, v, 57, 1);
            lemma_get_set_other(self.w0, 58, 1, v, 55, 1);
            lemma_get_set_other(self.w0, 58, 1, v, 56, 1);
            lemma_get_set_other(self.w0, 58, 1, v, 0, 39);
            lemma_get_set_other(self.w0, 58, 1, v, 59, 5);
        }
        *self = cap_t { w0: nw, w1: self.w1 };
    }

    /// Replaces the `can_grant` field of an Endpoint capability.
    pub fn set_ep_can_grant(&mut self, v: u64)
        requires
            old(self)@ is Endpoint,
            v <= 1,
        ensures
            final(self)@ == (CapData::Endpoint { badge: old(self)@->Endpoint_badge, can_grant_reply: old(self)@->Endpoint_can_grant_reply, can_grant: v, can_send: old(self)@->Endpoint_can_send, can_receive: old(self)@->Endpoint_can_receive, ptr: old(self)@->Endpoint_ptr }),
    {
        let nw: u64 = fld_set(self.w0, 57, 1, v);
        proof {
            use_type_invariant(&*self);
            lemma_mask_low_values();
            lemma_get_set_same(self.w0, 57, 1, v);
            lemma_get_set_other(self.w0, 57, 1, v, 58, 1);
            lemma_get_set_other(self.w0, 57, 1, v, 55, 1);
            lemma_get_set_other(self.w0, 57, 1, v, 56, 1);
            lemma_get_set_other(self.w0, 57, 1, v, 0, 39);
            lemma_get_set_other(self.w0, 57, 1, v, 59, 5);
        }
        *self = cap_t { w0: nw, w1: self.w1 };
    }

    /// Replaces the `can_send` field of an Endpoint capability.
    pub fn set_ep_can_send(&mut self, v: u64)
        requires
            old(self)@ is Endpoint,
            v <= 1,
        ensures
            final(self)@ == (CapData::Endpoint { badge: old(self)@->Endpoint_badge, can_grant_reply: old(self)@->Endpoint_can_grant_reply, can_grant: old(self)@->Endpoint_can_grant, can_send: v, can_receive: old(self)@->Endpoint_can_receive, ptr: old(self)@->Endpoint_ptr }),
    {
        let nw: u64 = fld_set(self.w0, 55, 1, v);
        proof {
            use_type_invariant(&*self);
            lemma_mask_low_values();
            lemma_get_set_same(self.w0, 55, 1, v);
            lemma_get_set_other(self.w0, 55, 1, v, 58, 1);
            lemma_get_set_other(self.w0, 55, 1, v, 57, 1);
            lemma_get_set_other(self.w0, 55, 1, v, 56, 1);
            lemma_get_set_other(self.w0, 55, 1, v, 0, 39);
            lemma_get_set_other(self.w0, 55, 1, v, 59, 5);
        }
        *self = cap_t { w0: nw, w1: self.w1 };
    }

    /// Replaces the `can_receive` field of an Endpoint capability.
    pub fn set_ep_can_receive(&mut self, v: u64)
        requires
            old(self)@ is Endpoint,
            v <= 1,
        ensures
            final(self)@ == (CapData::Endpoint { badge: old(self)@->Endpoint_badge, can_grant_reply: old(self)@->Endpoint_can_grant_reply, can_grant: old(self)@->Endpoint_can_grant, can_send: old(self)@->Endpoint_can_send, can_receive: v, ptr: old(self)@->Endpoint_ptr }),
    {
        let nw: u64 = fld_set(self.w0, 56, 1, v);
        proof {
            use_type_invariant(&*self);
            lemma_mask_low_values();
            lemma_get_set_same(self.w0, 56, 1, v);
            lemma_get_set_other(self.w0, 56, 1, v, 58, 1);
            lemma_get_set_other(self.w0, 56, 1, v, 57, 1);
            lemma_get_set_other(self.w0, 56, 1, v, 55, 1);
            lemma_get_set_other(self.w0, 56, 1, v, 0, 39);
            lemma_get_set_other(self.w0, 56, 1, v, 59, 5);
        }
        *self = cap_t { w0: nw, w1: self.w1 };
    }

    /// Replaces the `ptr` field of an Endpoint capability.
    pub fn set_ep_ptr(&mut self, v: u64)
        requires
            old(self)@ is Endpoint,
            v <= 0x7f_ffff_ffffu64,
        ensures
            final(self)@ == (CapData::Endpoint { badge: old(self)@->Endpoint_badge, can_grant_reply: old(self)@->Endpoint_can_grant_reply, can_grant: old(self)@->Endpoint_can_grant, can_send: old(self)@->Endpoint_can_send, can_receive: old(self)@->Endpoint_can_receive, ptr: v }),
    {
        let nw: u64 = fld_set(self.w0, 0, 39, v);
        proof {
            use_type_invariant(&*self);
            lemma_mask_low_values();
            lemma_get_set_same(self.w0, 0, 39, v);
            lemma_get_set_other(self.w0, 0, 39, v, 58, 1);
            lemma_get_set_other(self.w0, 0, 39, v, 57, 1);
            lemma_get_set_other(self.w0, 0, 39, v, 55, 1);
            lemma_get_set_other(self.w0, 0, 39, v, 56, 1);
            lemma_get_set_other(self.w0, 0, 39, v, 59, 5);
        }
        *self = cap_t { w0: nw, w1: self.w1 };
    }

    /// Builds a Notification capability.
    pub fn new_notification_cap(badge: u64, can_receive: u64, can_send: u64, ptr: u64) -> (r: cap_t)
        requires
            can_receive <= 1,
            can_send <= 1,
            ptr <= 0x7f_ffff_ffffu64,
        ensures
            r@ == (CapData::Notification { badge: badge, can_receive: can_receive, can_send: can_send, ptr: ptr }),
    {
        let w0_a: u64 = fld_set(0, 58, 1, can_receive);
        let w0_b: u64 = fld_set(w0_a, 57, 1, can_send);
        let w0_c: u64 = fld_set(w0_b, 0, 39, ptr);
        let w0: u64 = fld_set(w0_c, 59, 5, 6u64);
        proof {
            lemma_mask_low_values();
            lemma_get_set_same(0, 58, 1, can_receive);
            lemma_get_set_same(w0_a, 57, 1, can_send);
            lemma_get_set_other(w0_a, 57, 1, can_send, 58, 1);
            lemma_get_set_same(w0_b, 0, 39, ptr);
            lemma_get_set_other(w0_b, 0, 39, ptr, 58, 1);
            lemma_get_set_other(w0_b, 0, 39, ptr, 57, 1);
            lemma_get_set_same(w0_c, 59, 5, 6u64);
            lemma_get_set_other(w0_c, 59, 5, 6u64, 58, 1);
            lemma_get_set_other(w0_c, 59, 5, 6u64, 57, 1);
            lemma_get_set_other(w0_c, 59, 5, 6u64, 0, 39);
        }
        cap_t { w0: w0, w1: badge }
    }

    /// Reads the `badge` field of a Notification capability.
    pub fn get_nf_badge(&self) -> (r: u64)
        requires
            self@ is Notification,
        ensures
            r == self@->Notification_badge,
    {
        self.w1
    }

    /// Reads the `can_receive` field of a Notification capability.
    pub fn get_nf_can_receive(&self) -> (r: u64)
        requires
            self@ is Notification,
        ensures
            r == self@->Notification_can_receive,
            r <= 1,
    {
        proof {
            lemma_mask_low_values();
            lemma_get_bound(self.w0, 58, 1);
        }
        fld_get(self.w0, 58, 1)
    }

    /// Reads the `can_send` field of a Notification capability.
    pub fn get_nf_can_send(&self) -> (r: u64)
        requires
            self@ is Notification,
        ensures
            r == self@->Notification_can_send,
            r <= 1,
    {
        proof {
            lemma_mask_low_values();
            lemma_get_bound(self.w0, 57, 1);
        }
        fld_get(self.w0, 57, 1)
    }

    /// Reads the `ptr` field of a Notification capability.
    pub fn get_nf_ptr(&self) -> (r: u64)
        requires
            self@ is Notification,
        ensures
            r == self@->Notification_ptr,
            r <= 0x7f_ffff_ffffu64,
    {
        proof {
            lemma_mask_low_values();
            lemma_get_bound(self.w0, 0, 39);
        }
        fld_get(self.w0, 0, 39)
    }

    /// Replaces the `badge` field of a Notification capability.
    pub fn set_nf_badge(&mut self, v: u64)
        requires
            old(self)@ is Notification,
        ensures
            final(self)@ == (CapData::Notification { badge: v, can_receive: old(self)@->Notification_can_receive, can_send: old(self)@->Notification_can_send, ptr: old(self)@->Notification_ptr }),
    {
        proof {
            use_type_invariant(&*self);
        }
        *self = cap_t { w0: self.w0, w1: v };
    }

    /// Replaces the `can_receive` field of a Notification capability.
    pub fn set_nf_can_receive(&mut self, v: u64)
        requires
            old(self)@ is Notification,
            v <= 1,
        ensures
            final(self)@ == (CapData::Notification { badge: old(self)@->Notification_badge, can_receive: v, can_send: old(self)@->Notification_can_send, ptr: old(self)@->Notification_ptr }),
    {
        let nw: u64 = fld_set(self.w0, 58, 1, v);
        proof {
            use_type_invariant(&*self);
            lemma_mask_low_values();
            lemma_get_set_same(self.w0, 58, 1, v);
            lemma_get_set_other(self.w0, 58, 1, v, 57, 1);
            lemma_get_set_other(self.w0, 58, 1, v, 0, 39);
            lemma_get_set_other(self.w0, 58, 1, v, 59, 5);
        }
        *self = cap_t { w0: nw, w1: self.w1 };
    }

    /// Replaces the `can_send` field of a Notification capability.
    pub fn set_nf_can_send(&mut self, v: u64)
        requires
            old(self)@ is Notification,
            v <= 1,
        ensures
            final(self)@ == (CapData::Notification { badge: old(self)@->Notification_badge, can_receive: old(self)@->Notification_can_receive, can_send: v, ptr: old(self)@->Notification_ptr }),
    {
        let nw: u64 = fld_set(self.w0, 57, 1, v);
        proof {
            use_type_invariant(&*self);
            lemma_mask_low_values();
            lemma_get_set_same(self.w0, 57, 1, v);
            lemma_get_set_other(self.w0, 57, 1, v, 58, 1);
            lemma_get_set_other(self.w0, 57, 1, v, 0, 39);
            lemma_get_set_other(self.w0, 57, 1, v, 59, 5);
        }
        *self = cap_t { w0: nw, w1: self.w1 };
    }

    /// Replaces the `ptr` field of a Notification capability.
    pub fn set_nf_ptr(&mut self, v: u64)
        requires
            old(self)@ is Notification,
            v <= 0x7f_ffff_ffffu64,
        ensures
            final(self)@ == (CapData::Notification { badge: old(self)@->Notification_badge, can_receive: old(self)@->Notification_can_receive, can_send: old(self)@->Notification_can_send, ptr: v }),
    {
        let nw: u64 = fld_set(self.w0, 0, 39, v);
        proof {
            use_type_invariant(&*self);
            lemma_mask_low_values();
            lemma_get_set_same(self.w0, 0, 39, v);
            lemma_get_set_other(self.w0, 0, 39, v, 58, 1);
            lemma_get_set_other(self.w0, 0, 39, v, 57, 1);
            lemma_get_set_other(self.w0, 0, 39, v, 59, 5);
        }
        *self = cap_t { w0: nw, w1: self.w1 };
    }

    /// Builds a Reply capability.
    pub fn new_reply_cap(can_grant: u64, master: u64, tcb_ptr: u64) -> (r: cap_t)
        requires
            can_grant <= 1,
            master <= 1,
        ensures
            r@ == (CapData::Reply { can_grant: can_grant, master: master, tcb_ptr: tcb_ptr }),
    {
        let w0_a: u64 = fld_set(0, 1, 1, can_grant);
        let w0_b: u64 = fld_set(w0_a, 0, 1, master);
        let w0: u64 = fld_set(w0_b, 59, 5, 8u64);
        proof {
            lemma_mask_low_values();
            lemma_get_set_same(0, 1, 1, can_grant);
            lemma_get_set_same(w0_a, 0, 1, master);
            lemma_get_set_other(w0_a, 0, 1, master, 1, 1);
            lemma_get_set_same(w0_b, 59, 5, 8u64);
            lemma_get_set_other(w0_b, 59, 5, 8u64, 1, 1);
            lemma_get_set_other(w0_b, 59, 5, 8u64, 0, 1);
        }
        cap_t { w0: w0, w1: tcb_ptr }
    }

    /// Reads the `can_grant` field of a Reply capability.
    pub fn get_reply_can_grant(&self) -> (r: u64)
        requires
            self@ is Reply,
        ensures
            r == self@->Reply_can_grant,
            r <= 1,
    {
        proof {
            lemma_mask_low_values();
            lemma_get_bound(self.w0, 1, 1);
        }
        fld_get(self.w0, 1, 1)
    }

    /// Reads the `master` field of a Reply capability.
    pub fn get_reply_master(&self) -> (r: u64)
        requires
            self@ is Reply,
        ensures
            r == self@->Reply_master,
            r <= 1,
    {
        proof {
            lemma_mask_low_values();
            lemma_get_bound(self.w0, 0, 1);
        }
        fld_get(self.w0, 0, 1)
    }

    /// Reads the `tcb_ptr` field of a Reply capability.
    pub fn get_reply_tcb_ptr(&self) -> (r: u64)
        requires
            self@ is Reply,
        ensures
            r == self@->Reply_tcb_ptr,
    {
        self.w1
    }

    /// Replaces the `can_grant` field of a Reply capability.
    pub fn set_reply_can_grant(&mut self, v: u64)
        requires
            old(self)@ is Reply,
            v <= 1,
        ensures
            final(self)@ == (CapData::Reply { can_grant: v, master: old(self)@->Reply_master, tcb_ptr: old(self)@->Reply_tcb_ptr }),
    {
        let nw: u64 = fld_set(self.w0, 1, 1, v);
        proof {
            use_type_invariant(&*self);
            lemma_mask_low_values();
            lemma_get_set_same(self.w0, 1, 1, v);
            lemma_get_set_other(self.w0, 1, 1, v, 0, 1);
            lemma_get_set_other(self.w0, 1, 1, v, 59, 5);
        }
        *self = cap_t { w0: nw, w1: self.w1 };
    }

    /// Replaces the `master` field of a Reply capability.
    pub fn set_reply_master(&mut self, v: u64)
        requires
            old(self)@ is Reply,
            v <= 1,
        ensures
            final(self)@ == (CapData::Reply { can_grant: old(self)@->Reply_can_grant, master: v, tcb_ptr: old(self)@->Reply_tcb_ptr }),
    {
        let nw: u64 = fld_set(self.w0, 0, 1, v);
        proof {
            use_type_invariant(&*self);
            lemma_mask_low_values();
            lemma_get_set_same(self.w0, 0, 1, v);
            lemma_get_set_other(self.w0, 0, 1, v, 1, 1);
            lemma_get_set_other(self.w0, 0, 1, v, 59, 5);
        }
        *self = cap_t { w0: nw, w1: self.w1 };
    }

    /// Replaces the `tcb_ptr` field of a Reply capability.
    pub fn set_reply_tcb_ptr(&mut self, v: u64)
        requires
            old(self)@ is Reply,
        ensures
            final(self)@ == (CapData::Reply { can_grant: old(self)@->Reply_can_grant, master: old(self)@->Reply_master, tcb_ptr: v }),
    {
        proof {
            use_type_invariant(&*self);
        }
        *self = cap_t { w0: self.w0, w1: v };
    }

    /// Builds a CNode capability.
    pub fn new_cnode_cap(radix: u64, guard_size: u64, guard: u64, ptr: u64) -> (r: cap_t)
        requires
            radix <= 0x3fu64,
            guard_size <= 0x3fu64,
            ptr <= 0x7f_ffff_ffffu64,
            ptr % 2 == 0,
        ensures
            r@ == (CapData::CNode { radix: radix, guard_size: guard_size, guard: guard, ptr: ptr }),
    {
        let w0_a: u64 = fld_set(0, 47, 6, radix);
        let w0_b: u64 = fld_set(w0_a, 53, 6, guard_size);
        let w0_c: u64 = fld_set(w0_b, 0, 38, (ptr >> 1u64));
        let w0: u64 = fld_set(w0_c, 59, 5, 10u64);
        proof {
            lemma_mask_low_values();
            lemma_shift1_roundtrip(ptr, 38);
            lemma_get_set_same(0, 47, 6, radix);
            lemma_get_set_same(w0_a, 53, 6, guard_size);
            lemma_get_set_other(w0_a, 53, 6, guard_size, 47, 6);
            lemma_get_set_same(w0_b, 0, 38, (ptr >> 1u64));
            lemma_get_set_other(w0_b, 0, 38, (ptr >> 1u64), 47, 6);
            lemma_get_set_other(w0_b, 0, 38, (ptr >> 1u64), 53, 6);
            lemma_get_set_same(w0_c, 59, 5, 10u64);
            lemma_get_set_other(w0_c, 59, 5, 10u64, 47, 6);
            lemma_get_set_other(w0_c, 59, 5, 10u64, 53, 6);
            lemma_get_set_other(w0_c, 59, 5, 10u64, 0, 38);
        }
        cap_t { w0: w0, w1: guard }
    }

    /// Reads the `radix` field of a CNode capability.
    pub fn get_cnode_radix(&self) -> (r: u64)
        requires
            self@ is CNode,
        ensures
            r == self@->CNode_radix,
            r <= 0x3fu64,
    {
        proof {
            lemma_mask_low_values();
            lemma_get_bound(self.w0, 47, 6);
        }
        fld_get(self.w0, 47, 6)
    }

    /// Reads the `guard_size` field of a CNode capability.
    pub fn get_cnode_guard_size(&self) -> (r: u64)
        requires
            self@ is CNode,
        ensures
            r == self@->CNode_guard_size,
            r <= 0x3fu64,
    {
        proof {
            lemma_mask_low_values();
            lemma_get_bound(self.w0, 53, 6);
        }
        fld_get(self.w0, 53, 6)
    }

    /// Reads the `guard` field of a CNode capability.
    pub fn get_cnode_guard(&self) -> (r: u64)
        requires
            self@ is CNode,
        ensures
            r == self@->CNode_guard,
    {
        self.w1
    }

    /// Reads the `ptr` field of a CNode capability.
    pub fn get_cnode_ptr(&self) -> (r: u64)
        requires
            self@ is CNode,
        ensures
            r == self@->CNode_ptr,
            r <= 0x7f_ffff_ffffu64,
            r % 2 == 0,
    {
        proof {
            lemma_mask_low_values();
            lemma_get_bound(self.w0, 0, 38);
            lemma_shl1_bound(get_field(self.w0, 0, 38), 38);
        }
        fld_get(self.w0, 0, 38) << 1u64
    }

    /// Replaces the `radix` field of a CNode capability.
    pub fn set_cnode_radix(&mut self, v: u64)
        requires
            old(self)@ is CNode,
            v <= 0x3fu64,
        ensures
            final(self)@ == (CapData::CNode { radix: v, guard_size: old(self)@->CNode_guard_size, guard: old(self)@->CNode_guard, ptr: old(self)@->CNode_ptr }),
    {
        let nw: u64 = fld_set(self.w0, 47, 6, v);
        proof {
            use_type_invariant(&*self);
            lemma_mask_low_values();
            lemma_get_set_same(self.w0, 47, 6, v);
            lemma_get_set_other(self.w0, 47, 6, v, 53, 6);
            lemma_get_set_other(self.w0, 47, 6, v, 0, 38);
            lemma_get_set_other(self.w0, 47, 6, v, 59, 5);
        }
        *self = cap_t { w0: nw, w1: self.w1 };
    }

    /// Replaces the `guard_size` field of a CNode capability.
    pub fn set_cnode_guard_size(&mut self, v: u64)
        requires
            old(self)@ is CNode,
            v <= 0x3fu64,
        ensures
            final(self)@ == (CapData::CNode { radix: old(self)@->CNode_radix, guard_size: v, guard: old(self)@->CNode_guard, ptr: old(self)@->CNode_ptr }),
    {
        let nw: u64 = fld_set(self.w0, 53, 6, v);
        proof {
            use_type_invariant(&*self);
            lemma_mask_low_values();
            lemma_get_set_same(self.w0, 53, 6, v);
            lemma_get_set_other(self.w0, 53, 6, v, 47, 6);
            lemma_get_set_other(self.w0, 53, 6, v, 0, 38);
            lemma_get_set_other(self.w0, 53, 6, v, 59, 5);
        }
        *self = cap_t { w0: nw, w1: self.w1 };
    }

    /// Replaces the `guard` field of a CNode capability.
    pub fn set_cnode_guard(&mut self, v: u64)
        requires
            old(self)@ is CNode,
        ensures
            final(self)@ == (CapData::CNode { radix: old(self)@->CNode_radix, guard_size: old(self)@->CNode_guard_size, guard: v, ptr: old(self)@->CNode_ptr }),
    {
        proof {
            use_type_invariant(&*self);
        }
        *self = cap_t { w0: self.w0, w1: v };
    }

    /// Replaces the `ptr` field of a CNode capability.
    pub fn set_cnode_ptr(&mut self, v: u64)
        requires
            old(self)@ is CNode,
            v <= 0x7f_ffff_ffffu64,
            v % 2 == 0,
        ensures
            final(self)@ == (CapData::CNode { radix: old(self)@->CNode_radix, guard_size: old(self)@->CNode_guard_size, guard: old(self)@->CNode_guard, ptr: v }),
    {
        let nw: u64 = fld_set(self.w0, 0, 38, (v >> 1u64));
        proof {
            use_type_invariant(&*self);
            lemma_mask_low_values();
            lemma_shift1_roundtrip(v, 38);
            lemma_get_set_same(self.w0, 0, 38, (v >> 1u64));
            lemma_get_set_other(self.w0, 0, 38, (v >> 1u64), 47, 6);
            lemma_get_set_other(self.w0, 0, 38, (v >> 1u64), 53, 6);
            lemma_get_set_other(self.w0, 0, 38, (v >> 1u64), 59, 5);
        }
        *self = cap_t { w0: nw, w1: self.w1 };
    }

    /// Builds a Thread capability.
    pub fn new_thread_cap(tcb_ptr: u64) -> (r: cap_t)
        requires
            tcb_ptr <= 0x7f_ffff_ffffu64,
        ensures
            r@ == (CapData::Thread { tcb_ptr: tcb_ptr }),
    {
        let w0_a: u64 = fld_set(0, 0, 39, tcb_ptr);
        let w0: u64 = fld_set(w0_a, 59, 5, 12u64);
        proof {
            lemma_mask_low_values();
            lemma_get_set_same(0, 0, 39, tcb_ptr);
            lemma_get_set_same(w0_a, 59, 5, 12u64);
            lemma_get_set_other(w0_a, 59, 5, 12u64, 0, 39);
        }
        cap_t { w0: w0, w1: 0 }
    }

    /// Reads the `tcb_ptr` field of a Thread capability.
    pub fn get_tcb_ptr(&self) -> (r: u64)
        requires
            self@ is Thread,
        ensures
            r == self@->Thread_tcb_ptr,
            r <= 0x7f_ffff_ffffu64,
    {
        proof {
            lemma_mask_low_values();
            lemma_get_bound(self.w0, 0, 39);
        }
        fld_get(self.w0, 0, 39)
    }

    /// Replaces the `tcb_ptr` field of a Thread capability.
    pub fn set_tcb_ptr(&mut self, v: u64)
        requires
            old(self)@ is Thread,
            v <= 0x7f_ffff_ffffu64,
        ensures
            final(self)@ == (CapData::Thread { tcb_ptr: v }),
    {
        let nw: u64 = fld_set(self.w0, 0, 39, v);
        proof {
            use_type_invariant(&*self);
            lemma_mask_low_values();
            lemma_get_set_same(self.w0, 0, 39, v);
            lemma_get_set_other(self.w0, 0, 39, v, 59, 5);
        }
        *self = cap_t { w0: nw, w1: self.w1 };
    }

    /// Builds an IrqControl capability.
    pub fn new_irq_control_cap() -> (r: cap_t)
        ensures
            r@ == CapData::IrqControl,
    {
        let w0: u64 = fld_set(0, 59, 5, 14u64);
        proof {
            lemma_mask_low_values();
            lemma_get_set_same(0, 59, 5, 14u64);
        }
        cap_t { w0: w0, w1: 0 }
    }

    /// Builds an IrqHandler capability.
    pub fn new_irq_handler_cap(irq: u64) -> (r: cap_t)
        requires
            irq <= 0xfffu64,
        ensures
            r@ == (CapData::IrqHandler { irq: irq }),
    {
        let w0: u64 = fld_set(0, 59, 5, 16u64);
        let w1: u64 = fld_set(0, 0, 12, irq);
        proof {
            lemma_mask_low_values();
            lemma_get_set_same(0, 59, 5, 16u64);
            lemma_get_set_same(0, 0, 12, irq);
        }
        cap_t { w0: w0, w1: w1 }
    }

    /// Reads the `irq` field of an IrqHandler capability.
    pub fn get_irq_handler(&self) -> (r: u64)
        requires
            self@ is IrqHandler,
        ensures
            r == self@->IrqHandler_irq,
            r <= 0xfffu64,
    {
        proof {
            lemma_mask_low_values();
            lemma_get_bound(self.w1, 0, 12);
        }
        fld_get(self.w1, 0, 12)
    }

    /// Replaces the `irq` field of an IrqHandler capability.
    pub fn set_irq_handler(&mut self, v: u64)
        requires
            old(self)@ is IrqHandler,
            v <= 0xfffu64,
        ensures
            final(self)@ == (CapData::IrqHandler { irq: v }),
    {
        let nw: u64 = fld_set(self.w1, 0, 12, v);
        proof {
            use_type_invariant(&*self);
            lemma_mask_low_values();
            lemma_get_set_same(self.w1, 0, 12, v);
        }
        *self = cap_t { w0: self.w0, w1: nw };
    }

    /// Builds a Zombie capability.
    pub fn new_zombie_cap(id: u64, ztype: u64) -> (r: cap_t)
        requires
            ztype <= 0x7fu64,
        ensures
            r@ == (CapData::Zombie { id: id, ztype: ztype }),
    {
        let w0_a: u64 = fld_set(0, 0, 7, ztype);
        let w0: u64 = fld_set(w0_a, 59, 5, 18u64);
        proof {
            lemma_mask_low_values();
            lemma_get_set_same(0, 0, 7, ztype);
            lemma_get_set_same(w0_a, 59, 5, 18u64);
            lemma_get_set_other(w0_a, 59, 5, 18u64, 0, 7);
        }
        cap_t { w0: w0, w1: id }
    }

    /// Reads the `id` field of a Zombie capability.
    pub fn get_zombie_id(&self) -> (r: u64)
        requires
            self@ is Zombie,
        ensures
            r == self@->Zombie_id,
    {
        self.w1
    }

    /// Reads the `ztype` field of a Zombie capability.
    pub fn get_zombie_type(&self) -> (r: u64)
        requires
            self@ is Zombie,
        ensures
            r == self@->Zombie_ztype,
            r <= 0x7fu64,
    {
        proof {
            lemma_mask_low_values();
            lemma_get_bound(self.w0, 0, 7);
        }
        fld_get(self.w0, 0, 7)
    }

    /// Replaces the `id` field of a Zombie capability.
    pub fn set_zombie_id(&mut self, v: u64)
        requires
            old(self)@ is Zombie,
        ensures
            final(self)@ == (CapData::Zombie { id: v, ztype: old(self)@->Zombie_ztype }),
    {
        proof {
            use_type_invariant(&*self);
        }
        *self = cap_t { w0: self.w0, w1: v };
    }

    /// Replaces the `ztype` field of a Zombie capability.
    pub fn set_zombie_type(&mut self, v: u64)
        requires
            old(self)@ is Zombie,
            v <= 0x7fu64,
        ensures
            final(self)@ == (CapData::Zombie { id: old(self)@->Zombie_id, ztype: v }),
    {
        let nw: u64 = fld_set(self.w0, 0, 7, v);
        proof {
            use_type_invariant(&*self);
            lemma_mask_low_values();
            lemma_get_set_same(self.w0, 0, 7, v);
            lemma_get_set_other(self.w0, 0, 7, v, 59, 5);
        }
        *self = cap_t { w0: nw, w1: self.w1 };
    }

    /// Builds a Domain capability.
    pub fn new_domain_cap() -> (r: cap_t)
        ensures
            r@ == CapData::Domain,
    {
        let w0: u64 = fld_set(0, 59, 5, 20u64);
        proof {
            lemma_mask_low_values();
            lemma_get_set_same(0, 59, 5, 20u64);
        }
        cap_t { w0: w0, w1: 0 }
    }

    /// Builds a Frame capability.
    pub fn new_frame_cap(mapped_asid: u64, base_ptr: u64, size: u64, vm_rights: u64, is_device: u64, mapped_address: u64) -> (r: cap_t)
        requires
            mapped_asid <= 0xffffu64,
            base_ptr <= 0x7f_ffff_ffffu64,
            size <= 0x3u64,
            vm_rights <= 0x3u64,
            is_device <= 1,
            mapped_address <= 0x7f_ffff_ffffu64,
        ensures
            r@ == (CapData::Frame { mapped_asid: mapped_asid, base_ptr: base_ptr, size: size, vm_rights: vm_rights, is_device: is_device, mapped_address: mapped_address }),
    {
        let w0_a: u64 = fld_set(0, 57, 2, size);
        let w0_b: u64 = fld_set(w0_a, 55, 2, vm_rights);
        let w0_c: u64 = fld_set(w0_b, 54, 1, is_device);
        let w0_d: u64 = fld_set(w0_c, 0, 39, mapped_address);
        let w0: u64 = fld_set(w0_d, 59, 5, 1u64);
        let w1_a: u64 = fld_set(0, 48, 16, mapped_asid);
        let w1: u64 = fld_set(w1_a, 9, 39, base_ptr);
        proof {
            lemma_mask_low_values();
            lemma_get_set_same(0, 57, 2, size);
            lemma_get_set_same(w0_a, 55, 2, vm_rights);
            lemma_get_set_other(w0_a, 55, 2, vm_rights, 57, 2);
            lemma_get_set_same(w0_b, 54, 1, is_device);
            lemma_get_set_other(w0_b, 54, 1, is_device, 57, 2);
            lemma_get_set_other(w0_b, 54, 1, is_device, 55, 2);
            lemma_get_set_same(w0_c, 0, 39, mapped_address);
            lemma_get_set_other(w0_c, 0, 39, mapped_address, 57, 2);
            lemma_get_set_other(w0_c, 0, 39, mapped_address, 55, 2);
            lemma_get_set_other(w0_c, 0, 39, mapped_address, 54, 1);
            lemma_get_set_same(w0_d, 59, 5, 1u64);
            lemma_get_set_other(w0_d, 59, 5, 1u64, 57, 2);
            lemma_get_set_other(w0_d, 59, 5, 1u64, 55, 2);
            lemma_get_set_other(w0_d, 59, 5, 1u64, 54, 1);
            lemma_get_set_other(w0_d, 59, 5, 1u64, 0, 39);
            lemma_get_set_same(0, 48, 16, mapped_asid);
            lemma_get_set_same(w1_a, 9, 39, base_ptr);
            lemma_get_set_other(w1_a, 9, 39, base_ptr, 48, 16);
        }
        cap_t { w0: w0, w1: w1 }
    }

    /// Reads the `mapped_asid` field of a Frame capability.
    pub fn get_frame_mapped_asid(&self) -> (r: u64)
        requires
            self@ is Frame,
        ensures
            r == self@->Frame_mapped_asid,
            r <= 0xffffu64,
    {
        proof {
            lemma_mask_low_values();
            lemma_get_bound(self.w1, 48, 16);
        }
        fld_get(self.w1, 48, 16)
    }

    /// Reads the `base_ptr` field of a Frame capability.
    pub fn get_frame_base_ptr(&self) -> (r: u64)
        requires
            self@ is Frame,
        ensures
            r == self@->Frame_base_ptr,
            r <= 0x7f_ffff_ffffu64,
    {
        proof {
            lemma_mask_low_values();
            lemma_get_bound(self.w1, 9, 39);
        }
        fld_get(self.w1, 9, 39)
    }

    /// Reads the `size` field of a Frame capability.
    pub fn get_frame_size(&self) -> (r: u64)
        requires
            self@ is Frame,
        ensures
            r == self@->Frame_size,
            r <= 0x3u64,
    {
        proof {
            lemma_mask_low_values();
            lemma_get_bound(self.w0, 57, 2);
        }
        fld_get(self.w0, 57, 2)
    }

    /// Reads the `vm_rights` field of a Frame capability.
    pub fn get_frame_vm_rights(&self) -> (r: u64)
        requires
            self@ is Frame,
        ensures
            r == self@->Frame_vm_rights,
            r <= 0x3u64,
    {
        proof {
            lemma_mask_low_values();
            lemma_get_bound(self.w0, 55, 2);
        }
        fld_get(self.w0, 55, 2)
    }

    /// Reads the `is_device` field of a Frame capability.
    pub fn get_frame_is_device(&self) -> (r: u64)
        requires
            self@ is Frame,
        ensures
            r == self@->Frame_is_device,
            r <= 1,
    {
        proof {
            lemma_mask_low_values();
            lemma_get_bound(self.w0, 54, 1);
        }
        fld_get(self.w0, 54, 1)
    }

    /// Reads the `mapped_address` field of a Frame capability.
    pub fn get_frame_mapped_address(&self) -> (r: u64)
        requires
            self@ is Frame,
        ensures
            r == self@->Frame_mapped_address,
            r <= 0x7f_ffff_ffffu64,
    {
        proof {
            lemma_mask_low_values();
            lemma_get_bound(self.w0, 0, 39);
        }
        fld_get(self.w0, 0, 39)
    }

    /// Replaces the `mapped_asid` field of a Frame capability.
    pub fn set_frame_mapped_asid(&mut self, v: u64)
        requires
            old(self)@ is Frame,
            v <= 0xffffu64,
        ensures
            final(self)@ == (CapData::Frame { mapped_asid: v, base_ptr: old(self)@->Frame_base_ptr, size: old(self)@->Frame_size, vm_rights: old(self)@->Frame_vm_rights, is_device: old(self)@->Frame_is_device, mapped_address: old(self)@->Frame_mapped_address }),
    {
        let nw: u64 = fld_set(self.w1, 48, 16, v);
        proof {
            use_type_invariant(&*self);
            lemma_mask_low_values();
            lemma_get_set_same(self.w1, 48, 16, v);
            lemma_get_set_other(self.w1, 48, 16, v, 9, 39);
        }
        *self = cap_t { w0: self.w0, w1: nw };
    }

    /// Replaces the `base_ptr` field of a Frame capability.
    pub fn set_frame_base_ptr(&mut self, v: u64)
        requires
            old(self)@ is Frame,
            v <= 0x7f_ffff_ffffu64,
        ensures
            final(self)@ == (CapData::Frame { mapped_asid: old(self)@->Frame_mapped_asid, base_ptr: v, size: old(self)@->Frame_size, vm_rights: old(self)@->Frame_vm_rights, is_device: old(self)@->Frame_is_device, mapped_address: old(self)@->Frame_mapped_address }),
    {
        let nw: u64 = fld_set(self.w1, 9, 39, v);
        proof {
            use_type_invariant(&*self);
            lemma_mask_low_values();
            lemma_get_set_same(self.w1, 9, 39, v);
            lemma_get_set_other(self.w1, 9, 39, v, 48, 16);
        }
        *self = cap_t { w0: self.w0, w1: nw };
    }

    /// Replaces the `size` field of a Frame capability.
    pub fn set_frame_size(&mut self, v: u64)
        requires
            old(self)@ is Frame,
            v <= 0x3u64,
        ensures
            final(self)@ == (CapData::Frame { mapped_asid: old(self)@->Frame_mapped_asid, base_ptr: old(self)@->Frame_base_ptr, size: v, vm_rights: old(self)@->Frame_vm_rights, is_device: old(self)@->Frame_is_device, mapped_address: old(self)@->Frame_mapped_address }),
    {
        let nw: u64 = fld_set(self.w0, 57, 2, v);
        proof {
            use_type_invariant(&*self);
            lemma_mask_low_values();
            lemma_get_set_same(self.w0, 57, 2, v);
            lemma_get_set_other(self.w0, 57, 2, v, 55, 2);
            lemma_get_set_other(self.w0, 57, 2, v, 54, 1);
            lemma_get_set_other(self.w0, 57, 2, v, 0, 39);
            lemma_get_set_other(self.w0, 57, 2, v, 59, 5);
        }
        *self = cap_t { w0: nw, w1: self.w1 };
    }

    /// Replaces the `vm_rights` field of a Frame capability.
    pub fn set_frame_vm_rights(&mut self, v: u64)
        requires
            old(self)@ is Frame,
            v <= 0x3u64,
        ensures
            final(self)@ == (CapData::Frame { mapped_asid: old(self)@->Frame_mapped_asid, base_ptr: old(self)@->Frame_base_ptr, size: old(self)@->Frame_size, vm_rights: v, is_device: old(self)@->Frame_is_device, mapped_address: old(self)@->Frame_mapped_address }),
    {
        let nw: u64 = fld_set(self.w0, 55, 2, v);
        proof {
            use_type_invariant(&*self);
            lemma_mask_low_values();
            lemma_get_set_same(self.w0, 55, 2, v);
            lemma_get_set_other(self.w0, 55, 2, v, 57, 2);
            lemma_get_set_other(self.w0, 55, 2, v, 54, 1);
            lemma_get_set_other(self.w0, 55, 2, v, 0, 39);
            lemma_get_set_other(self.w0, 55, 2, v, 59, 5);
        }
        *self = cap_t { w0: nw, w1: self.w1 };
    }

    /// Replaces the `is_device` field of a Frame capability.
    pub fn set_frame_is_device(&mut self, v: u64)
        requires
            old(self)@ is Frame,
            v <= 1,
        ensures
            final(self)@ == (CapData::Frame { mapped_asid: old(self)@->Frame_mapped_asid, base_ptr: old(self)@->Frame_base_ptr, size: old(self)@->Frame_size, vm_rights: old(self)@->Frame_vm_rights, is_device: v, mapped_address: old(self)@->Frame_mapped_address }),
    {
        let nw: u64 = fld_set(self.w0, 54, 1, v);
        proof {
            use_type_invariant(&*self);
            lemma_mask_low_values();
            lemma_get_set_same(self.w0, 54, 1, v);
            lemma_get_set_other(self.w0, 54, 1, v, 57, 2);
            lemma_get_set_other(self.w0, 54, 1, v, 55, 2);
            lemma_get_set_other(self.w0, 54, 1, v, 0, 39);
            lemma_get_set_other(self.w0, 54, 1, v, 59, 5);
        }
        *self = cap_t { w0: nw, w1: self.w1 };
    }

    /// Replaces the `mapped_address` field of a Frame capability.
    pub fn set_frame_mapped_address(&mut self, v: u64)
        requires
            old(self)@ is Frame,
            v <= 0x7f_ffff_ffffu64,
        ensures
            final(self)@ == (CapData::Frame { mapped_asid: old(self)@->Frame_mapped_asid, base_ptr: old(self)@->Frame_base_ptr, size: old(self)@->Frame_size, vm_rights: old(self)@->Frame_vm_rights, is_device: old(self)@->Frame_is_device, mapped_address: v }),
    {
        let nw: u64 = fld_set(self.w0, 0, 39, v);
        proof {
            use_type_invariant(&*self);
            lemma_mask_low_values();
            lemma_get_set_same(self.w0, 0, 39, v);
            lemma_get_set_other(self.w0, 0, 39, v, 57, 2);
            lemma_get_set_other(self.w0, 0, 39, v, 55, 2);
            lemma_get_set_other(self.w0, 0, 39, v, 54, 1);
            lemma_get_set_other(self.w0, 0, 39, v, 59, 5);
        }
        *self = cap_t { w0: nw, w1: self.w1 };
    }

    /// Builds a PageTable capability.
    pub fn new_page_table_cap(mapped_asid: u64, base_ptr: u64, is_mapped: u64, mapped_address: u64) -> (r: cap_t)
        requires
            mapped_asid <= 0xffffu64,
            base_ptr <= 0x7f_ffff_ffffu64,
            is_mapped <= 1,
            mapped_address <= 0x7f_ffff_ffffu64,
        ensures
            r@ == (CapData::PageTable { mapped_asid: mapped_asid, base_ptr: base_ptr, is_mapped: is_mapped, mapped_address: mapped_address }),
    {
        let w0_a: u64 = fld_set(0, 39, 1, is_mapped);
        let w0_b: u64 = fld_set(w0_a, 0, 39, mapped_address);
        let w0: u64 = fld_set(w0_b, 59, 5, 3u64);
        let w1_a: u64 = fld_set(0, 48, 16, mapped_asid);
        let w1: u64 = fld_set(w1_a, 9, 39, base_ptr);
        proof {
            lemma_mask_low_values();
            lemma_get_set_same(0, 39, 1, is_mapped);
            lemma_get_set_same(w0_a, 0, 39, mapped_address);
            lemma_get_set_other(w0_a, 0, 39, mapped_address, 39, 1);
            lemma_get_set_same(w0_b, 59, 5, 3u64);
            lemma_get_set_other(w0_b, 59, 5, 3u64, 39, 1);
            lemma_get_set_other(w0_b, 59, 5, 3u64, 0, 39);
            lemma_get_set_same(0, 48, 16, mapped_asid);
            lemma_get_set_same(w1_a, 9, 39, base_ptr);
            lemma_get_set_other(w1_a, 9, 39, base_ptr, 48, 16);
        }
        cap_t { w0: w0, w1: w1 }
    }

    /// Reads the `mapped_asid` field of a PageTable capability.
    pub fn get_pt_mapped_asid(&self) -> (r: u64)
        requires
            self@ is PageTable,
        ensures
            r == self@->PageTable_mapped_asid,
            r <= 0xffffu64,
    {
        proof {
            lemma_mask_low_values();
            lemma_get_bound(self.w1, 48, 16);
        }
        fld_get(self.w1, 48, 16)
    }

    /// Reads the `base_ptr` field of a PageTable capability.
    pub fn get_pt_base_ptr(&self) -> (r: u64)
        requires
            self@ is PageTable,
        ensures
            r == self@->PageTable_base_ptr,
            r <= 0x7f_ffff_ffffu64,
    {
        proof {
            lemma_mask_low_values();
            lemma_get_bound(self.w1, 9, 39);
        }
        fld_get(self.w1, 9, 39)
    }

    /// Reads the `is_mapped` field of a PageTable capability.
    pub fn get_pt_is_mapped(&self) -> (r: u64)
        requires
            self@ is PageTable,
        ensures
            r == self@->PageTable_is_mapped,
            r <= 1,
    {
        proof {
            lemma_mask_low_values();
            lemma_get_bound(self.w0, 39, 1);
        }
        fld_get(self.w0, 39, 1)
    }

    /// Reads the `mapped_address` field of a PageTable capability.
    pub fn get_pt_mapped_address(&self) -> (r: u64)
        requires
            self@ is PageTable,
        ensures
            r == self@->PageTable_mapped_address,
            r <= 0x7f_ffff_ffffu64,
    {
        proof {
            lemma_mask_low_values();
            lemma_get_bound(self.w0, 0, 39);
        }
        fld_get(self.w0, 0, 39)
    }

    /// Replaces the `mapped_asid` field of a PageTable capability.
    pub fn set_pt_mapped_asid(&mut self, v: u64)
        requires
            old(self)@ is PageTable,
            v <= 0xffffu64,
        ensures
            final(self)@ == (CapData::PageTable { mapped_asid: v, base_ptr: old(self)@->PageTable_base_ptr, is_mapped: old(self)@->PageTable_is_mapped, mapped_address: old(self)@->PageTable_mapped_address }),
    {
        let nw: u64 = fld_set(self.w1, 48, 16, v);
        proof {
            use_type_invariant(&*self);
            lemma_mask_low_values();
            lemma_get_set_same(self.w1, 48, 16, v);
            lemma_get_set_other(self.w1, 48, 16, v, 9, 39);
        }
        *self = cap_t { w0: self.w0, w1: nw };
    }

    /// Replaces the `base_ptr` field of a PageTable capability.
    pub fn set_pt_base_ptr(&mut self, v: u64)
        requires
            old(self)@ is PageTable,
            v <= 0x7f_ffff_ffffu64,
        ensures
            final(self)@ == (CapData::PageTable { mapped_asid: old(self)@->PageTable_mapped_asid, base_ptr: v, is_mapped: old(self)@->PageTable_is_mapped, mapped_address: old(self)@->PageTable_mapped_address }),
    {
        let nw: u64 = fld_set(self.w1, 9, 39, v);
        proof {
            use_type_invariant(&*self);
            lemma_mask_low_values();
            lemma_get_set_same(self.w1, 9, 39, v);
            lemma_get_set_other(self.w1, 9, 39, v, 48, 16);
        }
        *self = cap_t { w0: self.w0, w1: nw };
    }

    /// Replaces the `is_mapped` field of a PageTable capability.
    pub fn set_pt_is_mapped(&mut self, v: u64)
        requires
            old(self)@ is PageTable,
            v <= 1,
        ensures
            final(self)@ == (CapData::PageTable { mapped_asid: old(self)@->PageTable_mapped_asid, base_ptr: old(self)@->PageTable_base_ptr, is_mapped: v, mapped_address: old(self)@->PageTable_mapped_address }),
    {
        let nw: u64 = fld_set(self.w0, 39, 1, v);
        proof {
            use_type_invariant(&*self);
            lemma_mask_low_values();
            lemma_get_set_same(self.w0, 39, 1, v);
            lemma_get_set_other(self.w0, 39, 1, v, 0, 39);
            lemma_get_set_other(self.w0, 39, 1, v, 59, 5);
        }
        *self = cap_t { w0: nw, w1: self.w1 };
    }

    /// Replaces the `mapped_address` field of a PageTable capability.
    pub fn set_pt_mapped_address(&mut self, v: u64)
        requires
            old(self)@ is PageTable,
            v <= 0x7f_ffff_ffffu64,
        ensures
            final(self)@ == (CapData::PageTable { mapped_asid: old(self)@->PageTable_mapped_asid, base_ptr: old(self)@->PageTable_base_ptr, is_mapped: old(self)@->PageTable_is_mapped, mapped_address: v }),
    {
        let nw: u64 = fld_set(self.w0, 0, 39, v);
        proof {
            use_type_invariant(&*self);
            lemma_mask_low_values();
            lemma_get_set_same(self.w0, 0, 39, v);
            lemma_get_set_other(self.w0, 0, 39, v, 39, 1);
            lemma_get_set_other(self.w0, 0, 39, v, 59, 5);
        }
        *self = cap_t { w0: nw, w1: self.w1 };
    }

    /// Builds an ASIDControl capability.
    pub fn new_asid_control_cap() -> (r: cap_t)
        ensures
            r@ == CapData::ASIDControl,
    {
        let w0: u64 = fld_set(0, 59, 5, 11u64);
        proof {
            lemma_mask_low_values();
            lemma_get_set_same(0, 59, 5, 11u64);
        }
        cap_t { w0: w0, w1: 0 }
    }

    /// Builds an ASIDPool capability.
    pub fn new_asid_pool_cap(asid_base: u64, pool: u64) -> (r: cap_t)
        requires
            asid_base <= 0xffffu64,
            pool <= 0x7f_ffff_ffffu64,
            pool % 4 == 0,
        ensures
            r@ == (CapData::ASIDPool { asid_base: asid_base, pool: pool }),
    {
        let w0_a: u64 = fld_set(0, 43, 16, asid_base);
        let w0_b: u64 = fld_set(w0_a, 0, 37, (pool >> 2u64));
        let w0: u64 = fld_set(w0_b, 59, 5, 13u64);
        proof {
            lemma_mask_low_values();
            lemma_shift2_roundtrip(pool);
            lemma_get_set_same(0, 43, 16, asid_base);
            lemma_get_set_same(w0_a, 0, 37, (pool >> 2u64));
            lemma_get_set_other(w0_a, 0, 37, (pool >> 2u64), 43, 16);
            lemma_get_set_same(w0_b, 59, 5, 13u64);
            lemma_get_set_other(w0_b, 59, 5, 13u64, 43, 16);
            lemma_get_set_other(w0_b, 59, 5, 13u64, 0, 37);
        }
        cap_t { w0: w0, w1: 0 }
    }

    /// Reads the `asid_base` field of an ASIDPool capability.
    pub fn get_asid_base(&self) -> (r: u64)
        requires
            self@ is ASIDPool,
        ensures
            r == self@->ASIDPool_asid_base,
            r <= 0xffffu64,
    {
        proof {
            lemma_mask_low_values();
            lemma_get_bound(self.w0, 43, 16);
        }
        fld_get(self.w0, 43, 16)
    }

    /// Reads the `pool` field of an ASIDPool capability.
    pub fn get_asid_pool(&self) -> (r: u64)
        requires
            self@ is ASIDPool,
        ensures
            r == self@->ASIDPool_pool,
            r <= 0x7f_ffff_ffffu64,
            r % 4 == 0,
    {
        proof {
            lemma_mask_low_values();
            lemma_get_bound(self.w0, 0, 37);
            lemma_shl2_bound(get_field(self.w0, 0, 37));
        }
        fld_get(self.w0, 0, 37) << 2u64
    }

    /// Replaces the `asid_base` field of an ASIDPool capability.
    pub fn set_asid_base(&mut self, v: u64)
        requires
            old(self)@ is ASIDPool,
            v <= 0xffffu64,
        ensures
            final(self)@ == (CapData::ASIDPool { asid_base: v, pool: old(self)@->ASIDPool_pool }),
    {
        let nw: u64 = fld_set(self.w0, 43, 16, v);
        proof {
            use_type_invariant(&*self);
            lemma_mask_low_values();
            lemma_get_set_same(self.w0, 43, 16, v);
            lemma_get_set_other(self.w0, 43, 16, v, 0, 37);
            lemma_get_set_other(self.w0, 43, 16, v, 59, 5);
        }
        *self = cap_t { w0: nw, w1: self.w1 };
    }

    /// Replaces the `pool` field of an ASIDPool capability.
    pub fn set_asid_pool(&mut self, v: u64)
        requires
            old(self)@ is ASIDPool,
            v <= 0x7f_ffff_ffffu64,
            v % 4 == 0,
        ensures
            final(self)@ == (CapData::ASIDPool { asid_base: old(self)@->ASIDPool_asid_base, pool: v }),
    {
        let nw: u64 = fld_set(self.w0, 0, 37, (v >> 2u64));
        proof {
            use_type_invariant(&*self);
            lemma_mask_low_values();
            lemma_shift2_roundtrip(v);
            lemma_get_set_same(self.w0, 0, 37, (v >> 2u64));
            lemma_get_set_other(self.w0, 0, 37, (v >> 2u64), 43, 16);
            lemma_get_set_other(self.w0, 0, 37, (v >> 2u64), 59, 5);
        }
        *self = cap_t { w0: nw, w1: self.w1 };
    }

    /// Reads the variant tag.
    pub fn get_cap_type(&self) -> (r: CapTag)
        ensures
            r == spec_cap_type(self@),
    {
        let t = fld_get(self.w0, 59, 5);
        if t == 0 {
            CapTag::CapNullCap
        } else if t == 2 {
            CapTag::CapUntypedCap
        } else if t == 4 {
            CapTag::CapEndpointCap
        } else if t == 6 {
            CapTag::CapNotificationCap
        } else if t == 8 {
            CapTag::CapReplyCap
        } else if t == 10 {
            CapTag::CapCNodeCap
        } else if t == 12 {
            CapTag::CapThreadCap
        } else if t == 14 {
            CapTag::CapIrqControlCap
        } else if t == 16 {
            CapTag::CapIrqHandlerCap
        } else if t == 18 {
            CapTag::CapZombieCap
        } else if t == 20 {
            CapTag::CapDomainCap
        } else if t == 1 {
            CapTag::CapFrameCap
        } else if t == 3 {
            CapTag::CapPageTableCap
        } else if t == 11 {
            CapTag::CapASIDControlCap
        } else if t == 13 {
            CapTag::CapASIDPoolCap
        } else {
            CapTag::CapNullCap
        }
    }

    /// True iff this is an architectural capability (odd tag value).
    pub fn isArchCap(&self) -> (r: bool)
        ensures
            r == spec_is_arch(self@),
    {
        proof {
            use_type_invariant(&*self);
        }
        let t = fld_get(self.w0, 59, 5);
        t % 2 == 1
    }
}

/// True iff the region of arch capability `a` covers the region of
/// `b`: frames by base/top containment, page tables and ASID pools by
/// equal base pointer, ASID control by variant alone.
pub open spec fn spec_arch_same_region_as(a: CapData, b: CapData) -> bool {
    match a {
        CapData::Frame { base_ptr, size, .. } => {
            &&& b matches CapData::Frame { base_ptr: b2, size: s2, .. }
            &&& {
                let bot_a = base_ptr as int;
                let bot_b = b2 as int;
                let top_a = bot_a + mask_low(crate::config::spec_page_bits_for_size(size));
                let top_b = bot_b + mask_low(crate::config::spec_page_bits_for_size(s2));
                bot_a <= bot_b && top_a >= top_b && bot_b <= top_b
            }
        },
        CapData::PageTable { base_ptr, .. } => {
            b matches CapData::PageTable { base_ptr: b2, .. } && base_ptr == b2
        },
        CapData::ASIDControl => b is ASIDControl,
        CapData::ASIDPool { pool, .. } => {
            b matches CapData::ASIDPool { pool: p2, .. } && pool == p2
        },
        _ => false,
    }
}

/// True iff arch capabilities `a` and `b` name the same object: as the
/// region rule, but frames must also agree on size class and
/// device-ness.
pub open spec fn spec_arch_same_object_as(a: CapData, b: CapData) -> bool {
    if a is Frame && b is Frame {
        &&& a->Frame_base_ptr == b->Frame_base_ptr
        &&& a->Frame_size == b->Frame_size
        &&& (a->Frame_is_device == 0) == (b->Frame_is_device == 0)
    } else {
        spec_arch_same_region_as(a, b)
    }
}

/// Decides whether arch capability `cap1`'s region covers `cap2`'s.
pub fn arch_same_region_as(cap1: &cap_t, cap2: &cap_t) -> (r: bool)
    requires
        spec_is_arch(cap1@),
    ensures
        r == spec_arch_same_region_as(cap1@, cap2@),
{
    match cap1.get_cap_type() {
        CapTag::CapFrameCap => {
            if cap2.get_cap_type() == CapTag::CapFrameCap {
                let bot_a = cap1.get_frame_base_ptr();
                let bot_b = cap2.get_frame_base_ptr();
                let top_a: u128 = bot_a as u128 + crate::bits::mask_u64(
                    crate::config::pageBitsForSize(cap1.get_frame_size()),
                ) as u128;
                let top_b: u128 = bot_b as u128 + crate::bits::mask_u64(
                    crate::config::pageBitsForSize(cap2.get_frame_size()),
                ) as u128;
                (bot_a as u128 <= bot_b as u128) && (top_a >= top_b) && (bot_b as u128 <= top_b)
            } else {
                false
            }
        },
        CapTag::CapPageTableCap => {
            if cap2.get_cap_type() == CapTag::CapPageTableCap {
                cap1.get_pt_base_ptr() == cap2.get_pt_base_ptr()
            } else {
                false
            }
        },
        CapTag::CapASIDControlCap => cap2.get_cap_type() == CapTag::CapASIDControlCap,
        CapTag::CapASIDPoolCap => {
            if cap2.get_cap_type() == CapTag::CapASIDPoolCap {
                cap1.get_asid_pool() == cap2.get_asid_pool()
            } else {
                false
            }
        },
        _ => false,
    }
}

/// Decides whether arch capabilities `cap1` and `cap2` name the same
/// kernel object.
pub fn arch_same_object_as(cap1: &cap_t, cap2: &cap_t) -> (r: bool)
    requires
        spec_is_arch(cap1@),
    ensures
        r == spec_arch_same_object_as(cap1@, cap2@),
{
    if cap1.get_cap_type() == CapTag::CapFrameCap && cap2.get_cap_type() == CapTag::CapFrameCap {
        return cap1.get_frame_base_ptr() == cap2.get_frame_base_ptr() && cap1.get_frame_size()
            == cap2.get_frame_size() && (cap1.get_frame_is_device() == 0) == (
        cap2.get_frame_is_device() == 0);
    }
    arch_same_region_as(cap1, cap2)
}

/// The encoding of a frame's virtual-memory rights on this
/// architecture: kernel-only, read-only, or read-write.
pub const VMKernelOnly: u64 = 1;

/// Read-only mapping rights.
pub const VMReadOnly: u64 = 2;

/// Read-write mapping rights.
pub const VMReadWrite: u64 = 3;

/// The rights-masking rule: a readable mapping stays readable, write
/// access survives only when both sides allow it, and anything else
/// collapses to kernel-only.
pub open spec fn spec_mask_vm_rights(vm: u64, rights: crate::rights::RightsData) -> u64 {
    if vm == VMReadOnly && rights.allow_read == 1 {
        VMReadOnly
    } else if vm == VMReadWrite && rights.allow_read == 1 {
        if rights.allow_write == 1 {
            VMReadWrite
        } else {
            VMReadOnly
        }
    } else {
        VMKernelOnly
    }
}

/// What masking a capability's rights yields: a frame has its
/// `vm_rights` field masked; every other variant passes through.
pub open spec fn spec_arch_mask_cap_rights(rights: crate::rights::RightsData, c: CapData) -> CapData {
    match c {
        CapData::Frame { mapped_asid, base_ptr, size, vm_rights, is_device, mapped_address } => CapData::Frame {
            mapped_asid,
            base_ptr,
            size,
            vm_rights: spec_mask_vm_rights(vm_rights, rights),
            is_device,
            mapped_address,
        },
        _ => c,
    }
}

/// Applies the rights-masking rule to a frame's rights value.
pub fn maskVMRights(vm_rights: u64, rights: crate::rights::seL4_CapRights_t) -> (r: u64)
    ensures
        r == spec_mask_vm_rights(vm_rights, rights@),
        r <= 3,
{
    if vm_rights == VMReadOnly && rights.get_cap_allow_read() == 1 {
        VMReadOnly
    } else if vm_rights == VMReadWrite && rights.get_cap_allow_read() == 1 {
        if rights.get_cap_allow_write() == 1 {
            VMReadWrite
        } else {
            VMReadOnly
        }
    } else {
        VMKernelOnly
    }
}

/// Masks the rights of a capability: a frame's mapping rights are
/// reduced by `rights`; every other variant is returned unchanged.
pub fn arch_mask_cap_rights(rights: crate::rights::seL4_CapRights_t, cap: &cap_t) -> (r: cap_t)
    ensures
        r@ == spec_arch_mask_cap_rights(rights@, cap@),
{
    if cap.get_cap_type() == CapTag::CapFrameCap {
        let vm_rights = maskVMRights(cap.get_frame_vm_rights(), rights);
        let mut new_cap = cap.clone();
        new_cap.set_frame_vm_rights(vm_rights);
        new_cap
    } else {
        cap.clone()
    }
}

} // verus!
