//! Zombie capabilities: the transitional variant that holds the
//! residue of a not-yet-finished deletion.  The zombie `id` word packs
//! the target pointer and the count of remaining live slots, using a
//! radix determined by the zombie type.
use vstd::prelude::*;

use crate::arch::riscv64::{cap_t, CapData, CapTag};
use crate::bits::{lemma_and_mask_le, lemma_mask_low_values, lemma_mask_merge, mask_low, mask_u64};
use crate::config::wordRadix;

verus! {

/// The zombie type that marks a torn-down TCB's own CNode: the value
/// `2^wordRadix`, one past the largest expressible CNode radix.
pub const ZombieType_ZombieTCB: u64 = 64;

/// The radix of the slot group embedded in a TCB.
pub const TCB_CNODE_RADIX: u64 = 4;

/// The radix of the region a zombie tears down: a fixed small radix
/// for a TCB's slots, else the radix of the CNode being deleted.
pub open spec fn spec_zombie_bit(c: CapData) -> u64 {
    if c->Zombie_ztype == ZombieType_ZombieTCB {
        TCB_CNODE_RADIX
    } else {
        c->Zombie_ztype & mask_low(wordRadix)
    }
}

/// The mask that separates the remaining-slot count from the pointer
/// inside a zombie's `id` word.
pub open spec fn spec_zombie_mask(c: CapData) -> u64 {
    mask_low((spec_zombie_bit(c) + 1) as u64)
}

/// The slot-array pointer packed into a zombie's `id` word.
pub open spec fn spec_zombie_ptr(c: CapData) -> u64 {
    c->Zombie_id & !spec_zombie_mask(c)
}

/// The count of remaining live slots packed into a zombie's `id` word.
pub open spec fn spec_zombie_number(c: CapData) -> u64 {
    c->Zombie_id & spec_zombie_mask(c)
}

/// The `id` word of a zombie over `ptr` with `number` slots left,
/// under the count mask of zombie type `ztype`.
pub open spec fn spec_zombie_new(number: u64, ztype: u64, ptr: u64) -> CapData {
    let m = if ztype == ZombieType_ZombieTCB {
        mask_low((TCB_CNODE_RADIX + 1) as u64)
    } else {
        mask_low((ztype + 1) as u64)
    };
    CapData::Zombie { id: (ptr & !m) | (number & m), ztype }
}

/// True of a cyclic zombie: one whose packed pointer is the address of
/// the very slot that holds it, the sentinel that terminates
/// self-referential CNode teardown.
pub open spec fn spec_cap_cyclic_zombie(c: CapData, slot_ptr: u64) -> bool {
    c is Zombie && spec_zombie_ptr(c) == slot_ptr
}

impl cap_t {
    /// Computes the radix of the region this zombie tears down.
    pub fn get_zombie_bit(&self) -> (r: u64)
        requires
            self@ is Zombie,
        ensures
            r == spec_zombie_bit(self@),
            r <= 63,
    {
        proof {
            lemma_mask_low_values();
            lemma_and_mask_le(self@->Zombie_ztype, mask_low(wordRadix));
        }
        let t = self.get_zombie_type();
        if t == ZombieType_ZombieTCB {
            TCB_CNODE_RADIX
        } else {
            ZombieType_ZombieCNode(t)
        }
    }

    /// Extracts the slot-array pointer from the zombie's `id` word.
    pub fn get_zombie_ptr(&self) -> (r: u64)
        requires
            self@ is Zombie,
        ensures
            r == spec_zombie_ptr(self@),
    {
        let radix = self.get_zombie_bit();
        let id = self.get_zombie_id();
        id & !mask_u64(radix + 1)
    }

    /// Extracts the remaining-slot count from the zombie's `id` word.
    pub fn get_zombie_number(&self) -> (r: u64)
        requires
            self@ is Zombie,
        ensures
            r == spec_zombie_number(self@),
    {
        let radix = self.get_zombie_bit();
        let id = self.get_zombie_id();
        id & mask_u64(radix + 1)
    }

    /// Replaces the remaining-slot count, preserving the pointer bits
    /// and the zombie type.
    pub fn set_zombie_number(&mut self, n: u64)
        requires
            old(self)@ is Zombie,
        ensures
            final(self)@ is Zombie,
            final(self)@->Zombie_ztype == old(self)@->Zombie_ztype,
            spec_zombie_ptr(final(self)@) == spec_zombie_ptr(old(self)@),
            spec_zombie_number(final(self)@) == n & spec_zombie_mask(old(self)@),
    {
        let radix = self.get_zombie_bit();
        let m = mask_u64(radix + 1);
        let id = self.get_zombie_id();
        proof {
            lemma_mask_merge(id, n, m);
        }
        self.set_zombie_id((id & !m) | (n & m));
    }
}

/// The zombie type of a plain CNode of the given radix.
pub fn ZombieType_ZombieCNode(n: u64) -> (r: u64)
    ensures
        r == n & mask_low(wordRadix),
        r <= 63,
{
    proof {
        lemma_mask_low_values();
        lemma_and_mask_le(n, mask_low(wordRadix));
    }
    n & mask_u64(wordRadix)
}

/// Builds a zombie capability over the slot array at `ptr` with
/// `number` live slots remaining.
pub fn Zombie_new(number: u64, _type: u64, ptr: u64) -> (r: cap_t)
    requires
        _type <= 64,
    ensures
        r@ == spec_zombie_new(number, _type, ptr),
{
    let mask: u64;
    if _type == ZombieType_ZombieTCB {
        mask = mask_u64(TCB_CNODE_RADIX + 1);
    } else {
        mask = mask_u64(_type + 1);
    }
    cap_t::new_zombie_cap((ptr & !mask) | (number & mask), _type)
}

/// True iff `cap` is a zombie whose packed pointer equals `slot_ptr`,
/// the address of the slot that holds it.
pub fn capCyclicZombie(cap: &cap_t, slot_ptr: u64) -> (r: bool)
    ensures
        r == spec_cap_cyclic_zombie(cap@, slot_ptr),
{
    if cap.get_cap_type() == CapTag::CapZombieCap {
        cap.get_zombie_ptr() == slot_ptr
    } else {
        false
    }
}

} // verus!
