//! CSpace slots and the slot arena.  A slot (CTE) pairs a capability
//! with its MDB node.  The arena holds the slots of one capability
//! space at stable addresses: the slot at index `i` has the 32-byte
//! aligned address `(i + 1) * 32`, and the MDB links store those
//! addresses; address zero is the null link.
use vstd::prelude::*;

use crate::arch::riscv64::{cap_t, CapData, CapTag};
use crate::cap::{
    same_object_as, same_region_as, spec_same_object_as, spec_same_region_as,
};
use crate::exception::exception_t;
use crate::mdb::{mdb_node_t, mdb_zero, MdbData};

verus! {

/// The largest number of slots an arena may hold; keeps every slot
/// address inside the 37-bit MDB link field.
pub const MAX_SLOTS: u64 = 0x0100_0000;

/// Result of capability derivation: a status and the derived
/// capability (null when derivation is refused).
#[derive(Clone, Copy)]
pub struct deriveCap_ret {
    pub status: exception_t,
    pub cap: cap_t,
}

/// A CSpace slot: one capability plus its MDB node.
#[derive(Clone, Copy, Debug)]
pub struct cte_t {
    pub cap: cap_t,
    pub cteMDBNode: mdb_node_t,
}

/// The abstract value of a slot.
pub struct CteData {
    pub cap: CapData,
    pub mdb: MdbData,
}

impl View for cte_t {
    type V = CteData;

    open spec fn view(&self) -> CteData {
        CteData { cap: self.cap@, mdb: self.cteMDBNode@ }
    }
}

impl Default for cte_t {
    /// An empty slot: the null capability and a zero MDB node.
    fn default() -> (r: Self)
        ensures
            r@.cap is Null,
            r@.mdb == mdb_zero(),
    {
        cte_t { cap: cap_t::new_null_cap(), cteMDBNode: mdb_node_t::default() }
    }
}

/// The address of the slot at index `i`.
pub open spec fn slot_addr(i: int) -> u64 {
    (32 * (i + 1)) as u64
}

/// True iff `a` is the address of some slot of `st`.
pub open spec fn is_slot_addr(st: Seq<CteData>, a: u64) -> bool {
    32 <= a && a % 32 == 0 && a as int / 32 <= st.len()
}

/// The index of the slot with address `a`.
pub open spec fn slot_index(a: u64) -> int {
    a as int / 32 - 1
}

/// True iff `a` is a well-formed MDB link of `st`: null or a slot
/// address.
pub open spec fn link_ok(st: Seq<CteData>, a: u64) -> bool {
    a == 0 || is_slot_addr(st, a)
}

/// MDB symmetry at slot `i`: both links are null or valid, the
/// successor's `prev` points back here, and the predecessor's `next`
/// points back here.
pub open spec fn slot_wf(st: Seq<CteData>, i: int) -> bool {
    &&& link_ok(st, st[i].mdb.next)
    &&& link_ok(st, st[i].mdb.prev)
    &&& (st[i].mdb.next != 0 ==> st[slot_index(st[i].mdb.next)].mdb.prev == slot_addr(i))
    &&& (st[i].mdb.prev != 0 ==> st[slot_index(st[i].mdb.prev)].mdb.next == slot_addr(i))
}

/// The global MDB invariant of a slot arena: it is small enough for
/// the address encoding, and every slot's links are symmetric.
pub open spec fn cspace_wf(st: Seq<CteData>) -> bool {
    &&& st.len() <= MAX_SLOTS
    &&& forall|i: int| 0 <= i < st.len() ==> #[trigger] slot_wf(st, i)
}

/// True of a slot that carries nothing: null capability, zero MDB.
pub open spec fn empty_slot(c: CteData) -> bool {
    c.cap is Null && c.mdb == mdb_zero()
}

/// Relates a slot index to its address: the two are inverse, and the
/// address is 32-byte aligned, non-null, and small.
pub proof fn lemma_slot_addr_index(i: int)
    requires
        0 <= i < MAX_SLOTS,
    ensures
        slot_index(slot_addr(i)) == i,
        slot_addr(i) != 0,
        slot_addr(i) % 32 == 0,
        slot_addr(i) % 4 == 0,
        32 <= slot_addr(i) <= 0x2000_0000u64,
{
}

/// Relates a slot address to its index: the two are inverse.
pub proof fn lemma_slot_index_addr(a: u64)
    requires
        32 <= a,
        a % 32 == 0,
        a as int / 32 <= MAX_SLOTS,
    ensures
        slot_addr(slot_index(a)) == a,
        0 <= slot_index(a) < MAX_SLOTS,
        a % 4 == 0,
{
}

/// The null-slot invariant of the mapping database: a slot holding
/// the null capability is linked nowhere.  Deletion establishes and
/// preserves it; insertion from a still-empty source slot is the one
/// operation that may break it.
pub open spec fn nulls_unlinked(st: Seq<CteData>) -> bool {
    forall|k: int|
        0 <= k < st.len() && (#[trigger] st[k]).cap is Null ==> st[k].mdb.next == 0
            && st[k].mdb.prev == 0
}

/// Replacing a slot's capability by a non-null one preserves the
/// null-slot invariant.
pub proof fn lemma_cap_update_nulls(st: Seq<CteData>, i: int, c: CapData)
    requires
        nulls_unlinked(st),
        0 <= i < st.len(),
        !(c is Null),
    ensures
        nulls_unlinked(st.update(i, CteData { cap: c, mdb: st[i].mdb })),
{
    let res = st.update(i, CteData { cap: c, mdb: st[i].mdb });
    assert forall|k: int|
        0 <= k < res.len() && (#[trigger] res[k]).cap is Null implies res[k].mdb.next == 0
        && res[k].mdb.prev == 0 by {
        assert(st[k].cap is Null);
    }
}

/// Replacing only the capability of a slot leaves MDB symmetry
/// intact: the invariant speaks of the MDB nodes alone.
pub proof fn lemma_cap_update_wf(st: Seq<CteData>, i: int, c: CapData)
    requires
        cspace_wf(st),
        0 <= i < st.len(),
    ensures
        cspace_wf(st.update(i, CteData { cap: c, mdb: st[i].mdb })),
{
    let res = st.update(i, CteData { cap: c, mdb: st[i].mdb });
    assert forall|k: int| 0 <= k < res.len() implies #[trigger] slot_wf(res, k) by {
        assert(slot_wf(st, k));
        assert(res[k].mdb == st[k].mdb);
    }
}

/// The parent test of the mapping database: is slot `i` an MDB parent
/// of slot `j`, its immediate successor in the list?  `i` must be
/// revocable and cover `j`'s region; a badged endpoint or notification
/// parents only caps of the same badge that are not freshly minted.
pub open spec fn spec_is_mdb_parent_of(st: Seq<CteData>, i: int, j: int) -> bool {
    &&& st[i].mdb.revocable != 0
    &&& spec_same_region_as(st[i].cap, st[j].cap)
    &&& match st[i].cap {
        CapData::Endpoint { badge, .. } => badge == 0 || (badge == st[j].cap->Endpoint_badge
            && st[j].mdb.first_badged == 0),
        CapData::Notification { badge, .. } => badge == 0 || (badge
            == st[j].cap->Notification_badge && st[j].mdb.first_badged == 0),
        _ => true,
    }
}

/// True iff slot `i` has no MDB child: its successor, if any, fails
/// the parent test.
pub open spec fn spec_no_children(st: Seq<CteData>, i: int) -> bool {
    st[i].mdb.next == 0 || !spec_is_mdb_parent_of(st, i, slot_index(st[i].mdb.next))
}

/// True iff slot `i` holds the last capability to its object: neither
/// its predecessor nor its successor names the same object.
pub open spec fn spec_is_final_cap(st: Seq<CteData>, i: int) -> bool {
    let prev_is_same = st[i].mdb.prev != 0 && spec_same_object_as(
        st[slot_index(st[i].mdb.prev)].cap,
        st[i].cap,
    );
    &&& !prev_is_same
    &&& (st[i].mdb.next == 0 || !spec_same_object_as(st[i].cap, st[slot_index(st[i].mdb.next)].cap))
}

/// The architecture's derivation rule: which capability a candidate
/// derives to, and whether derivation is refused.
pub open spec fn spec_arch_derive_cap(c: CapData) -> (exception_t, CapData) {
    match c {
        CapData::PageTable { is_mapped, .. } => if is_mapped != 0 {
            (exception_t::EXCEPTION_NONE, c)
        } else {
            (exception_t::EXCEPTION_SYSCALL_ERROR, CapData::Null)
        },
        CapData::Frame { mapped_asid, base_ptr, size, vm_rights, is_device, mapped_address } => (
            exception_t::EXCEPTION_NONE,
            CapData::Frame {
                mapped_asid: 0,
                base_ptr,
                size,
                vm_rights,
                is_device,
                mapped_address: 0,
            },
        ),
        _ => (exception_t::EXCEPTION_NONE, c),
    }
}

/// The derivation rule: what inserting `c` as a child of slot `i`
/// yields, and on which inputs derivation is refused with a syscall
/// error (an untyped capability that already has a child, an unmapped
/// page table).
pub open spec fn spec_derive_cap(st: Seq<CteData>, i: int, c: CapData) -> (exception_t, CapData) {
    if crate::arch::riscv64::spec_is_arch(c) {
        spec_arch_derive_cap(c)
    } else {
        match c {
            CapData::Zombie { .. } => (exception_t::EXCEPTION_NONE, CapData::Null),
            CapData::Untyped { .. } => if spec_no_children(st, i) {
                (exception_t::EXCEPTION_NONE, c)
            } else {
                (exception_t::EXCEPTION_SYSCALL_ERROR, CapData::Null)
            },
            CapData::Reply { .. } => (exception_t::EXCEPTION_NONE, CapData::Null),
            CapData::IrqControl => (exception_t::EXCEPTION_NONE, CapData::Null),
            _ => (exception_t::EXCEPTION_NONE, c),
        }
    }
}

/// A slot arena: the slots of one capability space, at stable
/// addresses.
pub struct CSpace {
    slots: Vec<cte_t>,
}

impl View for CSpace {
    type V = Seq<CteData>;

    closed spec fn view(&self) -> Seq<CteData> {
        Seq::new(self.slots@.len(), |i: int| self.slots@[i]@)
    }
}

impl CSpace {
    /// Builds an arena of `n` empty slots.
    pub fn new(n: usize) -> (r: CSpace)
        requires
            n <= MAX_SLOTS,
        ensures
            r@.len() == n,
            cspace_wf(r@),
            forall|i: int| 0 <= i < n ==> empty_slot(#[trigger] r@[i]),
    {
        let mut slots: Vec<cte_t> = Vec::new();
        let mut k: usize = 0;
        while k < n
            invariant
                k == slots@.len(),
                k <= n,
                forall|i: int| 0 <= i < k ==> (#[trigger] slots@[i])@.cap is Null
                    && slots@[i]@.mdb == mdb_zero(),
            decreases n - k,
        {
            slots.push(cte_t::default());
            k = k + 1;
        }
        let r = CSpace { slots };
        proof {
            assert forall|i: int| 0 <= i < n implies empty_slot(#[trigger] r@[i]) by {
                assert(r@[i] == r.slots@[i]@);
            }
            assert forall|i: int| 0 <= i < r@.len() implies #[trigger] slot_wf(r@, i) by {
                assert(empty_slot(r@[i]));
            }
        }
        r
    }

    /// The number of slots in the arena.
    pub fn len(&self) -> (r: usize)
        ensures
            r == self@.len(),
    {
        self.slots.len()
    }

    /// The address of the slot at index `i`.
    pub fn get_ptr(&self, i: usize) -> (r: u64)
        requires
            i < self@.len(),
            self@.len() <= MAX_SLOTS,
        ensures
            r == slot_addr(i as int),
    {
        (i as u64 + 1) * 32
    }

    /// The index of the slot `index` places after slot `i` in the same
    /// contiguous slot group.
    pub fn get_offset_slot(&self, i: usize, index: usize) -> (r: usize)
        requires
            i + index < self@.len(),
            self@.len() <= MAX_SLOTS,
        ensures
            r == i + index,
    {
        i + index
    }

    /// Reads the slot at index `i`.
    pub fn get_slot(&self, i: usize) -> (r: &cte_t)
        requires
            i < self@.len(),
        ensures
            r@ == self@[i as int],
    {
        &self.slots[i]
    }

    /// Replaces the slot at index `i`.
    pub(crate) fn set_slot(&mut self, i: usize, v: cte_t)
        requires
            i < old(self)@.len(),
        ensures
            final(self)@ =~= old(self)@.update(i as int, v@),
    {
        self.slots.set(i, v);
    }

    /// Decides whether slot `i` is an MDB parent of slot `j`.
    pub fn is_mdb_parent_of(&self, i: usize, j: usize) -> (r: bool)
        requires
            i < self@.len(),
            j < self@.len(),
        ensures
            r == spec_is_mdb_parent_of(self@, i as int, j as int),
    {
        let node = &self.slots[i];
        let next = &self.slots[j];
        if !(node.cteMDBNode.get_revocable() != 0) {
            return false;
        }
        if !same_region_as(&node.cap, &next.cap) {
            return false;
        }
        match node.cap.get_cap_type() {
            CapTag::CapEndpointCap => {
                let badge = node.cap.get_ep_badge();
                if badge == 0 {
                    return true;
                }
                badge == next.cap.get_ep_badge() && !(next.cteMDBNode.get_first_badged() != 0)
            },
            CapTag::CapNotificationCap => {
                let badge = node.cap.get_nf_badge();
                if badge == 0 {
                    return true;
                }
                badge == next.cap.get_nf_badge() && !(next.cteMDBNode.get_first_badged() != 0)
            },
            _ => true,
        }
    }

    /// Checks that slot `i` has no derived child, reporting a syscall
    /// error if one exists.
    pub fn ensure_no_children(&self, i: usize) -> (r: exception_t)
        requires
            cspace_wf(self@),
            i < self@.len(),
        ensures
            r == (if spec_no_children(self@, i as int) {
                exception_t::EXCEPTION_NONE
            } else {
                exception_t::EXCEPTION_SYSCALL_ERROR
            }),
    {
        proof {
            assert(slot_wf(self@, i as int));
        }
        let next = self.slots[i].cteMDBNode.get_next();
        if next != 0 {
            let j = (next / 32 - 1) as usize;
            if self.is_mdb_parent_of(i, j) {
                return exception_t::EXCEPTION_SYSCALL_ERROR;
            }
        }
        exception_t::EXCEPTION_NONE
    }

    /// Decides whether slot `i` holds the last capability to its
    /// object.
    pub fn is_final_cap(&self, i: usize) -> (r: bool)
        requires
            cspace_wf(self@),
            i < self@.len(),
        ensures
            r == spec_is_final_cap(self@, i as int),
    {
        proof {
            assert(slot_wf(self@, i as int));
        }
        let prev = self.slots[i].cteMDBNode.get_prev();
        let next = self.slots[i].cteMDBNode.get_next();
        let prev_is_same_obj = if prev == 0 {
            false
        } else {
            let p = (prev / 32 - 1) as usize;
            same_object_as(&self.slots[p].cap, &self.slots[i].cap)
        };
        if prev_is_same_obj {
            false
        } else if next == 0 {
            true
        } else {
            let n = (next / 32 - 1) as usize;
            !same_object_as(&self.slots[i].cap, &self.slots[n].cap)
        }
    }

    /// Applies the architecture's derivation rules to `cap`: a frame
    /// loses its mapping, a page table must be mapped, ASID
    /// capabilities pass through.
    pub fn arch_derive_cap(&self, cap: &cap_t) -> (r: deriveCap_ret)
        requires
            crate::arch::riscv64::spec_is_arch(cap@),
        ensures
            r.status == spec_arch_derive_cap(cap@).0,
            r.cap@ == spec_arch_derive_cap(cap@).1,
    {
        match cap.get_cap_type() {
            CapTag::CapPageTableCap => {
                if cap.get_pt_is_mapped() != 0 {
                    deriveCap_ret { status: exception_t::EXCEPTION_NONE, cap: cap.clone() }
                } else {
                    deriveCap_ret {
                        status: exception_t::EXCEPTION_SYSCALL_ERROR,
                        cap: cap_t::new_null_cap(),
                    }
                }
            },
            CapTag::CapFrameCap => {
                let mut newCap = cap.clone();
                newCap.set_frame_mapped_address(0);
                newCap.set_frame_mapped_asid(0);
                deriveCap_ret { status: exception_t::EXCEPTION_NONE, cap: newCap }
            },
            _ => deriveCap_ret { status: exception_t::EXCEPTION_NONE, cap: cap.clone() },
        }
    }

    /// Derives `cap` for insertion from slot `i`: architectural
    /// capabilities follow the architecture's rules; zombies, replies
    /// and IRQ control are not derivable; an untyped capability may
    /// only be derived while it has no child.
    pub fn derive_cap(&self, i: usize, cap: &cap_t) -> (r: deriveCap_ret)
        requires
            cspace_wf(self@),
            i < self@.len(),
        ensures
            r.status == spec_derive_cap(self@, i as int, cap@).0,
            r.cap@ == spec_derive_cap(self@, i as int, cap@).1,
    {
        if cap.isArchCap() {
            return self.arch_derive_cap(cap);
        }
        match cap.get_cap_type() {
            CapTag::CapZombieCap => deriveCap_ret {
                status: exception_t::EXCEPTION_NONE,
                cap: cap_t::new_null_cap(),
            },
            CapTag::CapUntypedCap => {
                let status = self.ensure_no_children(i);
                if status != exception_t::EXCEPTION_NONE {
                    deriveCap_ret { status, cap: cap_t::new_null_cap() }
                } else {
                    deriveCap_ret { status, cap: cap.clone() }
                }
            },
            CapTag::CapReplyCap => deriveCap_ret {
                status: exception_t::EXCEPTION_NONE,
                cap: cap_t::new_null_cap(),
            },
            CapTag::CapIrqControlCap => deriveCap_ret {
                status: exception_t::EXCEPTION_NONE,
                cap: cap_t::new_null_cap(),
            },
            _ => deriveCap_ret { status: exception_t::EXCEPTION_NONE, cap: cap.clone() },
        }
    }

    /// True iff deleting slot `i` would be a long-running operation:
    /// it holds the final capability to a thread, a zombie, or a
    /// CNode.
    pub fn is_long_running_delete(&self, i: usize) -> (r: bool)
        requires
            cspace_wf(self@),
            i < self@.len(),
        ensures
            r == (self@[i as int].cap !is Null && spec_is_final_cap(self@, i as int) && (self@[
                i as int
            ].cap is Thread || self@[i as int].cap is Zombie || self@[i as int].cap is CNode)),
    {
        if self.slots[i].cap.get_cap_type() == CapTag::CapNullCap || !self.is_final_cap(i) {
            return false;
        }
        match self.slots[i].cap.get_cap_type() {
            CapTag::CapThreadCap | CapTag::CapZombieCap | CapTag::CapCNodeCap => true,
            _ => false,
        }
    }
}

} // verus!
