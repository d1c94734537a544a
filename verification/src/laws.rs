//! Laws of the capability core that relate several operations: stated
//! over the model transition functions that the executable operations
//! are proved to implement exactly.
use vstd::prelude::*;

use crate::arch::riscv64::CapData;
use crate::bits::mask_low;
use crate::cap::{
    spec_is_cap_revocable, spec_same_object_as, spec_same_region_as, spec_update_data,
};
use crate::cte::{
    cspace_wf, empty_slot, lemma_slot_addr_index, lemma_slot_index_addr, slot_addr, slot_index,
    slot_wf, spec_derive_cap, spec_no_children, CteData,
};
use crate::exception::exception_t;
use crate::ops::{
    cte_insert_pre, cte_move_pre, spec_cte_insert, spec_cte_move, spec_set_empty,
};
use crate::resolve::spec_resolve;

verus! {

/// Minting is one-shot: updating a capability's data again with
/// `preserve` set gives back exactly the once-updated capability.
/// The law holds of every capability except an unbadged endpoint or
/// notification (whose mint succeeds once and is then destroyed by a
/// preserving update) and a CNode (whose guard is rewritten by every
/// update).
pub proof fn lemma_update_data_preserve(c: CapData, d: u64, d2: u64)
    requires
        !(c matches CapData::Endpoint { badge, .. } && badge == 0),
        !(c matches CapData::Notification { badge, .. } && badge == 0),
        !(c is CNode),
    ensures
        spec_update_data(spec_update_data(c, false, d), true, d2) == spec_update_data(c, false, d),
{
}

/// Moving a capability to an empty slot and then moving it back
/// restores exactly the original arena: both slots' capabilities and
/// MDB nodes, and every neighbour link.
pub proof fn lemma_move_roundtrip(st: Seq<CteData>, src: int, dest: int)
    requires
        cte_move_pre(st, src, dest),
        empty_slot(st[dest]),
        st[src].mdb.prev != slot_addr(src),
        st[src].mdb.next != slot_addr(src),
    ensures
        spec_cte_move(spec_cte_move(st, st[src].cap, src, dest), st[src].cap, dest, src) == st,
{
    let c0 = st[src].cap;
    let st1 = spec_cte_move(st, c0, src, dest);
    let st2 = spec_cte_move(st1, c0, dest, src);
    let m = st[src].mdb;
    lemma_slot_addr_index(src);
    lemma_slot_addr_index(dest);
    assert(slot_wf(st, src));
    assert(slot_wf(st, dest));
    assert forall|k: int| 0 <= k < st.len() implies st[k].mdb.next != slot_addr(dest) && st[
        k
    ].mdb.prev != slot_addr(dest) by {
        assert(slot_wf(st, k));
        lemma_slot_addr_index(k);
    }
    if m.prev != 0 {
        lemma_slot_index_addr(m.prev);
        assert(slot_wf(st, slot_index(m.prev)));
    }
    if m.next != 0 {
        lemma_slot_index_addr(m.next);
        assert(slot_wf(st, slot_index(m.next)));
    }
    assert(st2 =~= st);
}

/// Inserting a derived capability into an empty destination and then
/// unlinking that destination again restores the source's MDB links
/// exactly.
pub proof fn lemma_insert_then_delete(st: Seq<CteData>, c: CapData, src: int, dest: int)
    requires
        cte_insert_pre(st, c, src, dest),
        !(c is Null),
    ensures
        spec_set_empty(spec_cte_insert(st, c, src, dest), dest)[src].mdb.next == st[src].mdb.next,
        spec_set_empty(spec_cte_insert(st, c, src, dest), dest)[src].mdb.prev == st[src].mdb.prev,
        empty_slot(spec_set_empty(spec_cte_insert(st, c, src, dest), dest)[dest]),
{
    let st1 = spec_cte_insert(st, c, src, dest);
    let old_next = st[src].mdb.next;
    lemma_slot_addr_index(src);
    lemma_slot_addr_index(dest);
    assert(slot_wf(st, src));
    assert(slot_wf(st, dest));
    if old_next != 0 {
        lemma_slot_index_addr(old_next);
        assert(slot_wf(st, slot_index(old_next)));
    }
    assert forall|k: int| 0 <= k < st.len() implies st[k].mdb.next != slot_addr(dest) && st[
        k
    ].mdb.prev != slot_addr(dest) by {
        assert(slot_wf(st, k));
        lemma_slot_addr_index(k);
    }
}

/// A slot that held a capability is completely empty after
/// `set_empty`: the null capability and a zero MDB node.
pub proof fn lemma_set_empty_empties(st: Seq<CteData>, i: int)
    requires
        cspace_wf(st),
        0 <= i < st.len(),
        !(st[i].cap is Null),
    ensures
        empty_slot(spec_set_empty(st, i)[i]),
{
    assert(slot_wf(st, i));
    let m = st[i].mdb;
    if m.prev != 0 {
        lemma_slot_index_addr(m.prev);
    }
    if m.next != 0 {
        lemma_slot_index_addr(m.next);
    }
}

/// An untyped capability derives to itself while it has no child, the
/// derived child is revocable, the parent's region covers the child's,
/// and the two are nonetheless not the same object.
pub proof fn lemma_untyped_derivation(st: Seq<CteData>, i: int, u: CapData)
    requires
        u is Untyped,
        0 <= i < st.len(),
        spec_no_children(st, i),
    ensures
        spec_derive_cap(st, i, u) == (exception_t::EXCEPTION_NONE, u),
        spec_is_cap_revocable(u, u),
        spec_same_region_as(u, u),
        !spec_same_object_as(u, u),
{
}

/// Resolving exactly `radix + guard_size` bits on a one-level CNode
/// whose guard matches succeeds with no bits remaining, returning the
/// slot at the decoded offset.
pub proof fn lemma_resolve_one_level(
    st: Seq<CteData>,
    node_cap: CapData,
    cap_ptr: u64,
    n_bits: u64,
)
    requires
        node_cap matches CapData::CNode { radix, guard_size, guard, ptr } && {
            &&& n_bits == radix + guard_size
            &&& n_bits <= 64
            &&& 0 < radix + guard_size
            &&& (cap_ptr >> ((radix as u64) & 63)) & mask_low(guard_size) == guard
            &&& {
                let a = ptr as int + ((cap_ptr >> ((n_bits - radix - guard_size) as u64)) & mask_low(
                    radix,
                )) as int * 32;
                32 <= a && a % 32 == 0 && a / 32 <= st.len()
            }
        },
    ensures
        spec_resolve(st, node_cap, cap_ptr, n_bits).0 == exception_t::EXCEPTION_NONE,
        spec_resolve(st, node_cap, cap_ptr, n_bits).2 == 0,
        spec_resolve(st, node_cap, cap_ptr, n_bits).1 == (node_cap->CNode_ptr as int + ((cap_ptr
            >> 0u64) & mask_low(node_cap->CNode_radix)) as int * 32) / 32 - 1,
{
    let radix = node_cap->CNode_radix;
    let guard_size = node_cap->CNode_guard_size;
    assert((n_bits - guard_size) as u64 & 63 == (radix as u64) & 63) by (bit_vector)
        requires
            n_bits == radix + guard_size,
            n_bits <= 64u64,
    ;
}

} // verus!
