//! The MDB protocol: inserting a derived capability, moving and
//! swapping slots, and unlinking an emptied slot.  Each operation has
//! a model-level transition function; the executable code is proved to
//! implement it exactly, and each transition is proved to preserve the
//! MDB symmetry invariant.
use vstd::prelude::*;

use crate::arch::riscv64::{cap_t, CapData};
use crate::cap::{is_cap_revocable, spec_is_cap_revocable};
use crate::config::{spec_max_free_index, seL4_MinUntypedBits, MAX_FREE_INDEX};
use crate::cte::{
    cspace_wf, cte_t, empty_slot, lemma_slot_addr_index, lemma_slot_index_addr, link_ok,
    nulls_unlinked, slot_addr, slot_index, slot_wf, CSpace, CteData,
};
use crate::mdb::{mdb_node_t, mdb_zero, MdbData};

verus! {

/// Marks `src_cap` as fully consumed when a second untyped capability
/// over the very same block is being derived from it, so that the
/// block is never allocated from twice.
pub open spec fn spec_set_untyped_full(src_cap: CapData, new_cap: CapData) -> CapData {
    match src_cap {
        CapData::Untyped { free_index, is_device, block_size, ptr } => match new_cap {
            CapData::Untyped { ptr: p2, block_size: b2, .. } => if ptr == p2 && block_size == b2 {
                CapData::Untyped {
                    free_index: spec_max_free_index(block_size),
                    is_device,
                    block_size,
                    ptr,
                }
            } else {
                src_cap
            },
            _ => src_cap,
        },
        _ => src_cap,
    }
}

/// What `cte_insert` asks of its caller: a well-formed arena, a
/// completely empty destination distinct from the source, a derived
/// capability whose variant matches a badged source, and an untyped
/// source whose block size fits the free-index field.
pub open spec fn cte_insert_pre(st: Seq<CteData>, new_cap: CapData, src: int, dest: int) -> bool {
    &&& cspace_wf(st)
    &&& 0 <= src < st.len()
    &&& 0 <= dest < st.len()
    &&& src != dest
    &&& st[dest].cap is Null
    &&& st[dest].mdb.next == 0
    &&& st[dest].mdb.prev == 0
    &&& (new_cap is Endpoint ==> st[src].cap is Endpoint)
    &&& (new_cap is Notification ==> st[src].cap is Notification)
    &&& (st[src].cap is Untyped ==> seL4_MinUntypedBits <= st[src].cap->Untyped_block_size <= 42)
}

/// The state after `cte_insert`: the new capability sits in `dest`,
/// spliced into the MDB list directly after `src`, with its
/// `revocable` and `first_badged` flags set by the revocability rule.
pub open spec fn spec_cte_insert(
    st: Seq<CteData>,
    new_cap: CapData,
    src: int,
    dest: int,
) -> Seq<CteData> {
    let r: u64 = if spec_is_cap_revocable(new_cap, st[src].cap) {
        1
    } else {
        0
    };
    let old_next = st[src].mdb.next;
    let src_slot = CteData {
        cap: spec_set_untyped_full(st[src].cap, new_cap),
        mdb: MdbData {
            next: slot_addr(dest),
            prev: st[src].mdb.prev,
            revocable: st[src].mdb.revocable,
            first_badged: st[src].mdb.first_badged,
        },
    };
    let dest_slot = CteData {
        cap: new_cap,
        mdb: MdbData { next: old_next, prev: slot_addr(src), revocable: r, first_badged: r },
    };
    let s1 = st.update(src, src_slot).update(dest, dest_slot);
    if old_next != 0 {
        let t = slot_index(old_next);
        s1.update(
            t,
            CteData {
                cap: s1[t].cap,
                mdb: MdbData {
                    next: s1[t].mdb.next,
                    prev: slot_addr(dest),
                    revocable: s1[t].mdb.revocable,
                    first_badged: s1[t].mdb.first_badged,
                },
            },
        )
    } else {
        s1
    }
}

/// Inserting a derived capability preserves MDB symmetry.
pub proof fn lemma_cte_insert_wf(st: Seq<CteData>, new_cap: CapData, src: int, dest: int)
    requires
        cte_insert_pre(st, new_cap, src, dest),
    ensures
        cspace_wf(spec_cte_insert(st, new_cap, src, dest)),
        spec_cte_insert(st, new_cap, src, dest).len() == st.len(),
{
    let res = spec_cte_insert(st, new_cap, src, dest);
    let old_next = st[src].mdb.next;
    lemma_slot_addr_index(src);
    lemma_slot_addr_index(dest);
    assert(slot_wf(st, src));
    assert(slot_wf(st, dest));
    // No slot links to the empty destination.
    assert forall|k: int| 0 <= k < st.len() implies st[k].mdb.next != slot_addr(dest) && st[
        k
    ].mdb.prev != slot_addr(dest) by {
        assert(slot_wf(st, k));
        lemma_slot_addr_index(k);
    }
    if old_next != 0 {
        lemma_slot_index_addr(old_next);
        assert(slot_wf(st, slot_index(old_next)));
    }
    assert forall|i: int| 0 <= i < res.len() implies #[trigger] slot_wf(res, i) by {
        assert(slot_wf(st, i));
        lemma_slot_addr_index(i);
        if st[i].mdb.next != 0 {
            lemma_slot_index_addr(st[i].mdb.next);
            assert(slot_wf(st, slot_index(st[i].mdb.next)));
        }
        if st[i].mdb.prev != 0 {
            lemma_slot_index_addr(st[i].mdb.prev);
            assert(slot_wf(st, slot_index(st[i].mdb.prev)));
        }
    }
}

/// Splices `new_cap` into `dest_slot` as a derived child of
/// `src_slot`: the destination inherits the source's successor, the
/// source's successor becomes the destination, and a derived untyped
/// source is marked fully consumed.
pub fn cte_insert(cs: &mut CSpace, new_cap: &cap_t, src_slot: usize, dest_slot: usize)
    requires
        cte_insert_pre(old(cs)@, new_cap@, src_slot as int, dest_slot as int),
    ensures
        final(cs)@ == spec_cte_insert(old(cs)@, new_cap@, src_slot as int, dest_slot as int),
        cspace_wf(final(cs)@),
        final(cs)@.len() == old(cs)@.len(),
{
    proof {
        assert(slot_wf(cs@, src_slot as int));
        lemma_slot_addr_index(src_slot as int);
        lemma_slot_addr_index(dest_slot as int);
    }
    let src_ptr = cs.get_ptr(src_slot);
    let dest_ptr = cs.get_ptr(dest_slot);
    let mut src_node = *cs.get_slot(src_slot);
    let src_cap = src_node.cap.clone();
    let newCapIsRevocable = is_cap_revocable(new_cap, &src_cap);
    let mut newMDB = src_node.cteMDBNode.clone();
    newMDB.set_prev(src_ptr);
    newMDB.set_revocable(if newCapIsRevocable { 1 } else { 0 });
    newMDB.set_first_badged(if newCapIsRevocable { 1 } else { 0 });

    setUntypedCapAsFull(&src_cap, new_cap, &mut src_node);

    src_node.cteMDBNode.set_next(dest_ptr);
    cs.set_slot(src_slot, src_node);
    cs.set_slot(dest_slot, cte_t { cap: new_cap.clone(), cteMDBNode: newMDB });
    let old_next = newMDB.get_next();
    if old_next != 0 {
        proof {
            lemma_slot_index_addr(old_next);
        }
        let t = (old_next / 32 - 1) as usize;
        let mut t_node = *cs.get_slot(t);
        t_node.cteMDBNode.set_prev(dest_ptr);
        cs.set_slot(t, t_node);
    }
    proof {
        lemma_cte_insert_wf(old(cs)@, new_cap@, src_slot as int, dest_slot as int);
        assert(cs@ =~= spec_cte_insert(old(cs)@, new_cap@, src_slot as int, dest_slot as int));
    }
}

/// If `src_cap` and `new_cap` are untyped capabilities over the same
/// block, records the source as having no free space left.
fn setUntypedCapAsFull(src_cap: &cap_t, new_cap: &cap_t, src_node: &mut cte_t)
    requires
        src_cap@ is Untyped ==> seL4_MinUntypedBits <= src_cap@->Untyped_block_size <= 42,
        old(src_node).cap@ == src_cap@,
    ensures
        final(src_node).cap@ == spec_set_untyped_full(src_cap@, new_cap@),
        final(src_node).cteMDBNode == old(src_node).cteMDBNode,
{
    if src_cap.get_cap_type() == crate::arch::riscv64::CapTag::CapUntypedCap
        && new_cap.get_cap_type() == crate::arch::riscv64::CapTag::CapUntypedCap {
        if src_cap.get_untyped_ptr() == new_cap.get_untyped_ptr()
            && src_cap.get_untyped_block_size() == new_cap.get_untyped_block_size() {
            let bits = src_cap.get_untyped_block_size();
            proof {
                crate::bits::lemma_mask_low_values();
                crate::bits::lemma_shl1_pos((bits - seL4_MinUntypedBits) as u64);
                assert(spec_max_free_index(bits) <= 0x7f_ffff_ffffu64) by {
                    assert((1u64 << ((bits - seL4_MinUntypedBits) as u64)) <= 0x7f_ffff_ffffu64)
                        by (bit_vector)
                        requires
                            (bits - seL4_MinUntypedBits) as u64 <= 38,
                    ;
                }
            }
            src_node.cap.set_untyped_free_index(MAX_FREE_INDEX(bits));
        }
    }
}

/// What `insert_new_cap` asks of its caller: a well-formed arena and
/// an unlinked slot distinct from the parent.
pub open spec fn insert_new_cap_pre(st: Seq<CteData>, parent: int, slot: int) -> bool {
    &&& cspace_wf(st)
    &&& 0 <= parent < st.len()
    &&& 0 <= slot < st.len()
    &&& parent != slot
    &&& st[slot].mdb.next == 0
    &&& st[slot].mdb.prev == 0
}

/// The state after `insert_new_cap`: the freshly created capability
/// sits in `slot` directly after `parent`, revocable and first-badged.
pub open spec fn spec_insert_new_cap(
    st: Seq<CteData>,
    parent: int,
    slot: int,
    cap: CapData,
) -> Seq<CteData> {
    let next = st[parent].mdb.next;
    let s1 = st.update(
        slot,
        CteData {
            cap,
            mdb: MdbData { next, prev: slot_addr(parent), revocable: 1, first_badged: 1 },
        },
    );
    let s2 = if next != 0 {
        let t = slot_index(next);
        s1.update(
            t,
            CteData {
                cap: s1[t].cap,
                mdb: MdbData {
                    next: s1[t].mdb.next,
                    prev: slot_addr(slot),
                    revocable: s1[t].mdb.revocable,
                    first_badged: s1[t].mdb.first_badged,
                },
            },
        )
    } else {
        s1
    };
    let p = s2[parent];
    s2.update(
        parent,
        CteData {
            cap: p.cap,
            mdb: MdbData {
                next: slot_addr(slot),
                prev: p.mdb.prev,
                revocable: p.mdb.revocable,
                first_badged: p.mdb.first_badged,
            },
        },
    )
}

/// Inserting a freshly created capability preserves MDB symmetry.
pub proof fn lemma_insert_new_cap_wf(st: Seq<CteData>, parent: int, slot: int, cap: CapData)
    requires
        insert_new_cap_pre(st, parent, slot),
    ensures
        cspace_wf(spec_insert_new_cap(st, parent, slot, cap)),
        spec_insert_new_cap(st, parent, slot, cap).len() == st.len(),
{
    let res = spec_insert_new_cap(st, parent, slot, cap);
    let next = st[parent].mdb.next;
    lemma_slot_addr_index(parent);
    lemma_slot_addr_index(slot);
    assert(slot_wf(st, parent));
    assert(slot_wf(st, slot));
    assert forall|k: int| 0 <= k < st.len() implies st[k].mdb.next != slot_addr(slot) && st[
        k
    ].mdb.prev != slot_addr(slot) by {
        assert(slot_wf(st, k));
        lemma_slot_addr_index(k);
    }
    if next != 0 {
        lemma_slot_index_addr(next);
        assert(slot_wf(st, slot_index(next)));
    }
    assert forall|i: int| 0 <= i < res.len() implies #[trigger] slot_wf(res, i) by {
        assert(slot_wf(st, i));
        lemma_slot_addr_index(i);
        if st[i].mdb.next != 0 {
            lemma_slot_index_addr(st[i].mdb.next);
            assert(slot_wf(st, slot_index(st[i].mdb.next)));
        }
        if st[i].mdb.prev != 0 {
            lemma_slot_index_addr(st[i].mdb.prev);
            assert(slot_wf(st, slot_index(st[i].mdb.prev)));
        }
    }
}

/// Installs a freshly created capability into `slot`, splicing it into
/// the MDB list directly after `parent` with both flags set.
pub fn insert_new_cap(cs: &mut CSpace, parent: usize, slot: usize, cap: &cap_t)
    requires
        insert_new_cap_pre(old(cs)@, parent as int, slot as int),
    ensures
        final(cs)@ == spec_insert_new_cap(old(cs)@, parent as int, slot as int, cap@),
        cspace_wf(final(cs)@),
        final(cs)@.len() == old(cs)@.len(),
{
    proof {
        assert(slot_wf(cs@, parent as int));
        lemma_slot_addr_index(parent as int);
        lemma_slot_addr_index(slot as int);
    }
    let parent_ptr = cs.get_ptr(parent);
    let slot_ptr = cs.get_ptr(slot);
    let next = cs.get_slot(parent).cteMDBNode.get_next();
    cs.set_slot(
        slot,
        cte_t { cap: cap.clone(), cteMDBNode: mdb_node_t::new(next, 1, 1, parent_ptr) },
    );
    if next != 0 {
        proof {
            lemma_slot_index_addr(next);
        }
        let t = (next / 32 - 1) as usize;
        let mut t_node = *cs.get_slot(t);
        t_node.cteMDBNode.set_prev(slot_ptr);
        cs.set_slot(t, t_node);
    }
    let mut parent_node = *cs.get_slot(parent);
    parent_node.cteMDBNode.set_next(slot_ptr);
    cs.set_slot(parent, parent_node);
    proof {
        lemma_insert_new_cap_wf(old(cs)@, parent as int, slot as int, cap@);
        assert(cs@ =~= spec_insert_new_cap(old(cs)@, parent as int, slot as int, cap@));
    }
}

/// What `cte_move` asks of its caller: a well-formed arena and a
/// completely empty destination distinct from the source.
pub open spec fn cte_move_pre(st: Seq<CteData>, src: int, dest: int) -> bool {
    &&& cspace_wf(st)
    &&& 0 <= src < st.len()
    &&& 0 <= dest < st.len()
    &&& src != dest
    &&& st[dest].cap is Null
    &&& st[dest].mdb.next == 0
    &&& st[dest].mdb.prev == 0
}

/// The state after `cte_move`: `dest` takes over `src`'s place in the
/// MDB list with the capability `new_cap`, and `src` is left empty.
pub open spec fn spec_cte_move(
    st: Seq<CteData>,
    new_cap: CapData,
    src: int,
    dest: int,
) -> Seq<CteData> {
    let m = st[src].mdb;
    let s1 = st.update(src, CteData { cap: CapData::Null, mdb: mdb_zero() }).update(
        dest,
        CteData { cap: new_cap, mdb: m },
    );
    let s2 = if m.prev != 0 {
        let p = slot_index(m.prev);
        s1.update(
            p,
            CteData {
                cap: s1[p].cap,
                mdb: MdbData {
                    next: slot_addr(dest),
                    prev: s1[p].mdb.prev,
                    revocable: s1[p].mdb.revocable,
                    first_badged: s1[p].mdb.first_badged,
                },
            },
        )
    } else {
        s1
    };
    if m.next != 0 {
        let n = slot_index(m.next);
        s2.update(
            n,
            CteData {
                cap: s2[n].cap,
                mdb: MdbData {
                    next: s2[n].mdb.next,
                    prev: slot_addr(dest),
                    revocable: s2[n].mdb.revocable,
                    first_badged: s2[n].mdb.first_badged,
                },
            },
        )
    } else {
        s2
    }
}

/// Moving a capability preserves MDB symmetry.
pub proof fn lemma_cte_move_wf(st: Seq<CteData>, new_cap: CapData, src: int, dest: int)
    requires
        cte_move_pre(st, src, dest),
    ensures
        cspace_wf(spec_cte_move(st, new_cap, src, dest)),
        spec_cte_move(st, new_cap, src, dest).len() == st.len(),
{
    let res = spec_cte_move(st, new_cap, src, dest);
    let m = st[src].mdb;
    lemma_slot_addr_index(src);
    lemma_slot_addr_index(dest);
    assert(slot_wf(st, src));
    assert(slot_wf(st, dest));
    assert forall|k: int| 0 <= k < st.len() implies st[k].mdb.next != slot_addr(dest) && st[
        k
    ].mdb.prev != slot_addr(dest) by {
        assert(slot_wf(st, k));
        lemma_slot_addr_index(k);
    }
    if m.prev != 0 {
        lemma_slot_index_addr(m.prev);
        assert(slot_wf(st, slot_index(m.prev)));
    }
    if m.next != 0 {
        lemma_slot_index_addr(m.next);
        assert(slot_wf(st, slot_index(m.next)));
    }
    assert forall|i: int| 0 <= i < res.len() implies #[trigger] slot_wf(res, i) by {
        assert(slot_wf(st, i));
        lemma_slot_addr_index(i);
        if st[i].mdb.next != 0 {
            lemma_slot_index_addr(st[i].mdb.next);
            assert(slot_wf(st, slot_index(st[i].mdb.next)));
        }
        if st[i].mdb.prev != 0 {
            lemma_slot_index_addr(st[i].mdb.prev);
            assert(slot_wf(st, slot_index(st[i].mdb.prev)));
        }
    }
}

/// Moves a capability from `src_slot` into the empty `dest_slot`: the
/// destination takes over the source's MDB links, the neighbours are
/// redirected, and the source becomes empty.
pub fn cte_move(cs: &mut CSpace, new_cap: &cap_t, src_slot: usize, dest_slot: usize)
    requires
        cte_move_pre(old(cs)@, src_slot as int, dest_slot as int),
    ensures
        final(cs)@ == spec_cte_move(old(cs)@, new_cap@, src_slot as int, dest_slot as int),
        cspace_wf(final(cs)@),
        final(cs)@.len() == old(cs)@.len(),
        old(cs)@[src_slot as int].mdb.prev != slot_addr(src_slot as int) ==> empty_slot(
            final(cs)@[src_slot as int],
        ),
{
    proof {
        assert(slot_wf(cs@, src_slot as int));
        lemma_slot_addr_index(src_slot as int);
        lemma_slot_addr_index(dest_slot as int);
    }
    let dest_ptr = cs.get_ptr(dest_slot);
    let mdb = cs.get_slot(src_slot).cteMDBNode.clone();
    cs.set_slot(dest_slot, cte_t { cap: new_cap.clone(), cteMDBNode: mdb });
    cs.set_slot(
        src_slot,
        cte_t { cap: cap_t::new_null_cap(), cteMDBNode: mdb_node_t::new(0, 0, 0, 0) },
    );
    let prev_ptr = mdb.get_prev();
    if prev_ptr != 0 {
        proof {
            lemma_slot_index_addr(prev_ptr);
        }
        let p = (prev_ptr / 32 - 1) as usize;
        let mut p_node = *cs.get_slot(p);
        p_node.cteMDBNode.set_next(dest_ptr);
        cs.set_slot(p, p_node);
    }
    let next_ptr = mdb.get_next();
    if next_ptr != 0 {
        proof {
            lemma_slot_index_addr(next_ptr);
        }
        let n = (next_ptr / 32 - 1) as usize;
        let mut n_node = *cs.get_slot(n);
        n_node.cteMDBNode.set_prev(dest_ptr);
        cs.set_slot(n, n_node);
    }
    proof {
        lemma_cte_move_wf(old(cs)@, new_cap@, src_slot as int, dest_slot as int);
        assert(cs@ =~= spec_cte_move(old(cs)@, new_cap@, src_slot as int, dest_slot as int));
    }
}

/// What `cte_swap` asks of its caller: a well-formed arena and two
/// distinct slots, neither of which is linked to itself (no list of
/// the mapping database ever is).
pub open spec fn cte_swap_pre(st: Seq<CteData>, i1: int, i2: int) -> bool {
    &&& cspace_wf(st)
    &&& 0 <= i1 < st.len()
    &&& 0 <= i2 < st.len()
    &&& i1 != i2
    &&& st[i1].mdb.next != slot_addr(i1)
    &&& st[i1].mdb.prev != slot_addr(i1)
    &&& st[i2].mdb.next != slot_addr(i2)
    &&& st[i2].mdb.prev != slot_addr(i2)
}

/// The state after `cte_swap`: the two slots exchange their MDB nodes,
/// slot `i1` now holds `cap2` and slot `i2` holds `cap1`, and all four
/// neighbour links are redirected.
#[verifier::opaque]
pub open spec fn spec_cte_swap(
    st: Seq<CteData>,
    cap1: CapData,
    i1: int,
    cap2: CapData,
    i2: int,
) -> Seq<CteData> {
    let m1 = st[i1].mdb;
    let sa = if m1.prev != 0 {
        let p = slot_index(m1.prev);
        st.update(
            p,
            CteData {
                cap: st[p].cap,
                mdb: MdbData {
                    next: slot_addr(i2),
                    prev: st[p].mdb.prev,
                    revocable: st[p].mdb.revocable,
                    first_badged: st[p].mdb.first_badged,
                },
            },
        )
    } else {
        st
    };
    let sb = if m1.next != 0 {
        let n = slot_index(m1.next);
        sa.update(
            n,
            CteData {
                cap: sa[n].cap,
                mdb: MdbData {
                    next: sa[n].mdb.next,
                    prev: slot_addr(i2),
                    revocable: sa[n].mdb.revocable,
                    first_badged: sa[n].mdb.first_badged,
                },
            },
        )
    } else {
        sa
    };
    let m2 = sb[i2].mdb;
    let sc = sb.update(i1, CteData { cap: cap2, mdb: m2 }).update(
        i2,
        CteData { cap: cap1, mdb: m1 },
    );
    let sd = if m2.prev != 0 {
        let p = slot_index(m2.prev);
        sc.update(
            p,
            CteData {
                cap: sc[p].cap,
                mdb: MdbData {
                    next: slot_addr(i1),
                    prev: sc[p].mdb.prev,
                    revocable: sc[p].mdb.revocable,
                    first_badged: sc[p].mdb.first_badged,
                },
            },
        )
    } else {
        sc
    };
    if m2.next != 0 {
        let n = slot_index(m2.next);
        sd.update(
            n,
            CteData {
                cap: sd[n].cap,
                mdb: MdbData {
                    next: sd[n].mdb.next,
                    prev: slot_addr(i1),
                    revocable: sd[n].mdb.revocable,
                    first_badged: sd[n].mdb.first_badged,
                },
            },
        )
    } else {
        sd
    }
}

/// Swapping two slots preserves MDB symmetry, also when the two are
/// neighbours in the list.
#[verifier::spinoff_prover]
pub proof fn lemma_cte_swap_wf(st: Seq<CteData>, cap1: CapData, i1: int, cap2: CapData, i2: int)
    requires
        cte_swap_pre(st, i1, i2),
    ensures
        cspace_wf(spec_cte_swap(st, cap1, i1, cap2, i2)),
        spec_cte_swap(st, cap1, i1, cap2, i2).len() == st.len(),
{
    let res = spec_cte_swap(st, cap1, i1, cap2, i2);
    let m1 = st[i1].mdb;
    let m2 = st[i2].mdb;
    let a1 = slot_addr(i1);
    let a2 = slot_addr(i2);
    // The MDB node slot `i1` inherits: slot `i2`'s node as it stands
    // after `i1`'s neighbours were redirected to `i2`.
    let m2x = MdbData {
        next: if m1.prev == a2 {
            a2
        } else {
            m2.next
        },
        prev: if m1.next == a2 {
            a2
        } else {
            m2.prev
        },
        revocable: m2.revocable,
        first_badged: m2.first_badged,
    };
    lemma_slot_addr_index(i1);
    lemma_slot_addr_index(i2);
    assert(slot_wf(st, i1));
    assert(slot_wf(st, i2));
    if m1.prev != 0 {
        lemma_slot_index_addr(m1.prev);
        assert(slot_wf(st, slot_index(m1.prev)));
    }
    if m1.next != 0 {
        lemma_slot_index_addr(m1.next);
        assert(slot_wf(st, slot_index(m1.next)));
    }
    if m2.prev != 0 {
        lemma_slot_index_addr(m2.prev);
        assert(slot_wf(st, slot_index(m2.prev)));
    }
    if m2.next != 0 {
        lemma_slot_index_addr(m2.next);
        assert(slot_wf(st, slot_index(m2.next)));
    }
    // Pointwise characterization of the result.
    assert(res.len() == st.len() && res[i1] == (CteData { cap: cap2, mdb: m2x })) by {
        reveal(spec_cte_swap);
    }
    assert(res[i2] == (CteData {
        cap: cap1,
        mdb: MdbData {
            next: if m2x.prev == a2 {
                a1
            } else {
                m1.next
            },
            prev: if m2x.next == a2 {
                a1
            } else {
                m1.prev
            },
            revocable: m1.revocable,
            first_badged: m1.first_badged,
        },
    })) by {
        reveal(spec_cte_swap);
    }
    assert forall|k: int| 0 <= k < st.len() && k != i1 && k != i2 implies (#[trigger] res[k])
        == (CteData {
        cap: st[k].cap,
        mdb: MdbData {
            next: if m2x.prev == slot_addr(k) {
                a1
            } else if m1.prev == slot_addr(k) {
                a2
            } else {
                st[k].mdb.next
            },
            prev: if m2x.next == slot_addr(k) {
                a1
            } else if m1.next == slot_addr(k) {
                a2
            } else {
                st[k].mdb.prev
            },
            revocable: st[k].mdb.revocable,
            first_badged: st[k].mdb.first_badged,
        },
    }) by {
        reveal(spec_cte_swap);
        lemma_slot_addr_index(k);
        assert(slot_wf(st, k));
    }
    // Symmetry of the result, from the characterization alone.
    assert forall|i: int| 0 <= i < res.len() implies #[trigger] slot_wf(res, i) by {
        assert(slot_wf(st, i));
        lemma_slot_addr_index(i);
        if st[i].mdb.next != 0 {
            lemma_slot_index_addr(st[i].mdb.next);
            assert(slot_wf(st, slot_index(st[i].mdb.next)));
        }
        if st[i].mdb.prev != 0 {
            lemma_slot_index_addr(st[i].mdb.prev);
            assert(slot_wf(st, slot_index(st[i].mdb.prev)));
        }
        assert(link_ok(res, res[i].mdb.next));
        assert(link_ok(res, res[i].mdb.prev));
        assert(res[i].mdb.next != 0 ==> res[slot_index(res[i].mdb.next)].mdb.prev == slot_addr(i));
        assert(res[i].mdb.prev != 0 ==> res[slot_index(res[i].mdb.prev)].mdb.next == slot_addr(i));
    }
}

/// Exchanges the contents of two slots, writing `cap1` into `slot2`
/// and `cap2` into `slot1`, and redirects the neighbour links of both.
pub fn cte_swap(cs: &mut CSpace, cap1: &cap_t, slot1: usize, cap2: &cap_t, slot2: usize)
    requires
        cte_swap_pre(old(cs)@, slot1 as int, slot2 as int),
    ensures
        final(cs)@ == spec_cte_swap(old(cs)@, cap1@, slot1 as int, cap2@, slot2 as int),
        cspace_wf(final(cs)@),
        final(cs)@.len() == old(cs)@.len(),
{
    proof {
        assert(slot_wf(cs@, slot1 as int));
        assert(slot_wf(cs@, slot2 as int));
        lemma_slot_addr_index(slot1 as int);
        lemma_slot_addr_index(slot2 as int);
    }
    let ptr1 = cs.get_ptr(slot1);
    let ptr2 = cs.get_ptr(slot2);
    let mdb1 = cs.get_slot(slot1).cteMDBNode.clone();
    let prev_ptr = mdb1.get_prev();
    if prev_ptr != 0 {
        proof {
            lemma_slot_index_addr(prev_ptr);
        }
        let p = (prev_ptr / 32 - 1) as usize;
        let mut p_node = *cs.get_slot(p);
        p_node.cteMDBNode.set_next(ptr2);
        cs.set_slot(p, p_node);
    }
    let next_ptr = mdb1.get_next();
    if next_ptr != 0 {
        proof {
            lemma_slot_index_addr(next_ptr);
        }
        let n = (next_ptr / 32 - 1) as usize;
        let mut n_node = *cs.get_slot(n);
        n_node.cteMDBNode.set_prev(ptr2);
        cs.set_slot(n, n_node);
    }
    let mdb2 = cs.get_slot(slot2).cteMDBNode.clone();
    cs.set_slot(slot1, cte_t { cap: cap2.clone(), cteMDBNode: mdb2 });
    cs.set_slot(slot2, cte_t { cap: cap1.clone(), cteMDBNode: mdb1 });
    let prev_ptr2 = mdb2.get_prev();
    if prev_ptr2 != 0 {
        proof {
            lemma_slot_index_addr(prev_ptr2);
        }
        let p = (prev_ptr2 / 32 - 1) as usize;
        let mut p_node = *cs.get_slot(p);
        p_node.cteMDBNode.set_next(ptr1);
        cs.set_slot(p, p_node);
    }
    let next_ptr2 = mdb2.get_next();
    if next_ptr2 != 0 {
        proof {
            lemma_slot_index_addr(next_ptr2);
        }
        let n = (next_ptr2 / 32 - 1) as usize;
        let mut n_node = *cs.get_slot(n);
        n_node.cteMDBNode.set_prev(ptr1);
        cs.set_slot(n, n_node);
    }
    proof {
        lemma_cte_swap_wf(old(cs)@, cap1@, slot1 as int, cap2@, slot2 as int);
        reveal(spec_cte_swap);
        assert(cs@ =~= spec_cte_swap(old(cs)@, cap1@, slot1 as int, cap2@, slot2 as int));
    }
}

/// The state after `set_empty` on a non-empty slot: the slot is
/// unlinked from the list, its neighbours are joined, the successor
/// inherits a set `first_badged` flag, and the slot becomes empty.  A
/// slot holding the null capability is left untouched.
pub open spec fn spec_set_empty(st: Seq<CteData>, i: int) -> Seq<CteData> {
    if st[i].cap is Null {
        st
    } else {
        let m = st[i].mdb;
        let s1 = if m.prev != 0 {
            let p = slot_index(m.prev);
            st.update(
                p,
                CteData {
                    cap: st[p].cap,
                    mdb: MdbData {
                        next: m.next,
                        prev: st[p].mdb.prev,
                        revocable: st[p].mdb.revocable,
                        first_badged: st[p].mdb.first_badged,
                    },
                },
            )
        } else {
            st
        };
        let s2 = if m.next != 0 {
            let n = slot_index(m.next);
            s1.update(
                n,
                CteData {
                    cap: s1[n].cap,
                    mdb: MdbData {
                        next: s1[n].mdb.next,
                        prev: m.prev,
                        revocable: s1[n].mdb.revocable,
                        first_badged: if s1[n].mdb.first_badged != 0 || m.first_badged != 0 {
                            1
                        } else {
                            0
                        },
                    },
                },
            )
        } else {
            s1
        };
        s2.update(i, CteData { cap: CapData::Null, mdb: mdb_zero() })
    }
}

/// After `set_empty` the slot holds the null capability.
pub proof fn lemma_set_empty_null(st: Seq<CteData>, i: int)
    requires
        cspace_wf(st),
        0 <= i < st.len(),
    ensures
        spec_set_empty(st, i)[i].cap is Null,
        spec_set_empty(st, i).len() == st.len(),
{
    if st[i].cap is Null {
    } else {
        let m = st[i].mdb;
        assert(slot_wf(st, i));
        if m.prev != 0 {
            lemma_slot_index_addr(m.prev);
        }
        if m.next != 0 {
            lemma_slot_index_addr(m.next);
        }
        let res = spec_set_empty(st, i);
        assert(res[i].cap is Null);
    }
}

/// Unlinking a non-empty slot preserves the null-slot invariant: the
/// emptied slot leaves with zero links, and under that invariant the
/// slot's neighbours cannot themselves be null.
pub proof fn lemma_set_empty_nulls(st: Seq<CteData>, i: int)
    requires
        cspace_wf(st),
        nulls_unlinked(st),
        0 <= i < st.len(),
    ensures
        nulls_unlinked(spec_set_empty(st, i)),
{
    let res = spec_set_empty(st, i);
    if st[i].cap is Null {
    } else {
        let m = st[i].mdb;
        assert(slot_wf(st, i));
        if m.prev != 0 {
            lemma_slot_index_addr(m.prev);
            assert(slot_wf(st, slot_index(m.prev)));
        }
        if m.next != 0 {
            lemma_slot_index_addr(m.next);
            assert(slot_wf(st, slot_index(m.next)));
        }
        assert forall|k: int|
            0 <= k < res.len() && (#[trigger] res[k]).cap is Null implies res[k].mdb.next == 0
            && res[k].mdb.prev == 0 by {
            if k != i {
                assert(st[k].cap is Null);
                assert(st[k].mdb.next == 0 && st[k].mdb.prev == 0);
            }
        }
    }
}

/// Swapping two slots' own contents preserves the null-slot invariant:
/// a null capability moves together with its (zero) links.
pub proof fn lemma_cte_swap_own_nulls(st: Seq<CteData>, i1: int, i2: int)
    requires
        cte_swap_pre(st, i1, i2),
        nulls_unlinked(st),
    ensures
        nulls_unlinked(spec_cte_swap(st, st[i1].cap, i1, st[i2].cap, i2)),
{
    let res = spec_cte_swap(st, st[i1].cap, i1, st[i2].cap, i2);
    let m1 = st[i1].mdb;
    let m2 = st[i2].mdb;
    let a1 = slot_addr(i1);
    let a2 = slot_addr(i2);
    let m2x = MdbData {
        next: if m1.prev == a2 {
            a2
        } else {
            m2.next
        },
        prev: if m1.next == a2 {
            a2
        } else {
            m2.prev
        },
        revocable: m2.revocable,
        first_badged: m2.first_badged,
    };
    lemma_slot_addr_index(i1);
    lemma_slot_addr_index(i2);
    assert(slot_wf(st, i1));
    assert(slot_wf(st, i2));
    if m1.prev != 0 {
        lemma_slot_index_addr(m1.prev);
        assert(slot_wf(st, slot_index(m1.prev)));
    }
    if m1.next != 0 {
        lemma_slot_index_addr(m1.next);
        assert(slot_wf(st, slot_index(m1.next)));
    }
    if m2.prev != 0 {
        lemma_slot_index_addr(m2.prev);
        assert(slot_wf(st, slot_index(m2.prev)));
    }
    if m2.next != 0 {
        lemma_slot_index_addr(m2.next);
        assert(slot_wf(st, slot_index(m2.next)));
    }
    assert(res.len() == st.len() && res[i1] == (CteData { cap: st[i2].cap, mdb: m2x })) by {
        reveal(spec_cte_swap);
    }
    assert(res[i2] == (CteData {
        cap: st[i1].cap,
        mdb: MdbData {
            next: if m2x.prev == a2 {
                a1
            } else {
                m1.next
            },
            prev: if m2x.next == a2 {
                a1
            } else {
                m1.prev
            },
            revocable: m1.revocable,
            first_badged: m1.first_badged,
        },
    })) by {
        reveal(spec_cte_swap);
    }
    assert forall|k: int| 0 <= k < st.len() && k != i1 && k != i2 implies (#[trigger] res[k])
        == (CteData {
        cap: st[k].cap,
        mdb: MdbData {
            next: if m2x.prev == slot_addr(k) {
                a1
            } else if m1.prev == slot_addr(k) {
                a2
            } else {
                st[k].mdb.next
            },
            prev: if m2x.next == slot_addr(k) {
                a1
            } else if m1.next == slot_addr(k) {
                a2
            } else {
                st[k].mdb.prev
            },
            revocable: st[k].mdb.revocable,
            first_badged: st[k].mdb.first_badged,
        },
    }) by {
        reveal(spec_cte_swap);
        lemma_slot_addr_index(k);
        assert(slot_wf(st, k));
    }
    assert forall|k: int|
        0 <= k < res.len() && (#[trigger] res[k]).cap is Null implies res[k].mdb.next == 0
        && res[k].mdb.prev == 0 by {
        lemma_slot_addr_index(k);
        assert(slot_wf(st, k));
        if k == i1 {
            assert(st[i2].cap is Null);
        } else if k == i2 {
            assert(st[i1].cap is Null);
        } else {
            assert(st[k].cap is Null);
        }
    }
}

/// Unlinking a slot preserves MDB symmetry.
pub proof fn lemma_set_empty_wf(st: Seq<CteData>, i: int)
    requires
        cspace_wf(st),
        0 <= i < st.len(),
    ensures
        cspace_wf(spec_set_empty(st, i)),
        spec_set_empty(st, i).len() == st.len(),
{
    let res = spec_set_empty(st, i);
    let m = st[i].mdb;
    lemma_slot_addr_index(i);
    assert(slot_wf(st, i));
    if m.prev != 0 {
        lemma_slot_index_addr(m.prev);
        assert(slot_wf(st, slot_index(m.prev)));
    }
    if m.next != 0 {
        lemma_slot_index_addr(m.next);
        assert(slot_wf(st, slot_index(m.next)));
    }
    assert forall|k: int| 0 <= k < res.len() implies #[trigger] slot_wf(res, k) by {
        assert(slot_wf(st, k));
        lemma_slot_addr_index(k);
        if st[k].mdb.next != 0 {
            lemma_slot_index_addr(st[k].mdb.next);
            assert(slot_wf(st, slot_index(st[k].mdb.next)));
        }
        if st[k].mdb.prev != 0 {
            lemma_slot_index_addr(st[k].mdb.prev);
            assert(slot_wf(st, slot_index(st[k].mdb.prev)));
        }
        assert(link_ok(res, res[k].mdb.next));
        assert(link_ok(res, res[k].mdb.prev));
        assert(res[k].mdb.next != 0 ==> res[slot_index(res[k].mdb.next)].mdb.prev == slot_addr(k));
        assert(res[k].mdb.prev != 0 ==> res[slot_index(res[k].mdb.prev)].mdb.next == slot_addr(k));
    }
}

} // verus!
