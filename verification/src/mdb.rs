//! The mapping-database node: two words embedded in every slot that
//! link the slot into the global derivation list.  Word 0 holds the
//! predecessor's address; word 1 packs the successor's address
//! (37 bits, stored shifted right by two) and the `revocable` and
//! `first_badged` flags in its low two bits.
use vstd::prelude::*;

use crate::bits::{
    fld_get, fld_set, get_field, lemma_get_bound, lemma_get_set_other, lemma_get_set_same,
    lemma_get_zero, lemma_mask_low_values, lemma_shift2_roundtrip, lemma_shl2_bound,
};

verus! {

/// The abstract value of an MDB node: the two neighbour addresses and
/// the two flags (0 or 1).
#[derive(PartialEq, Eq, Structural)]
pub struct MdbData {
    pub next: u64,
    pub prev: u64,
    pub revocable: u64,
    pub first_badged: u64,
}

/// The MDB node whose fields are all zero: the node of an empty slot.
pub open spec fn mdb_zero() -> MdbData {
    MdbData { next: 0, prev: 0, revocable: 0, first_badged: 0 }
}

/// An MDB node: two machine words whose bit layout is kernel ABI.
#[derive(Clone, Copy, Debug)]
pub struct mdb_node_t {
    w0: u64,
    w1: u64,
}

impl View for mdb_node_t {
    type V = MdbData;

    /// Decodes the two words: word 0 is the predecessor address; in
    /// word 1, bits 2..39 hold the successor address shifted right by
    /// two, bit 1 the `revocable` flag and bit 0 the `first_badged`
    /// flag.
    closed spec fn view(&self) -> MdbData {
        MdbData {
            next: (get_field(self.w1, 2, 37) << 2u64) as u64,
            prev: self.w0,
            revocable: get_field(self.w1, 1, 1),
            first_badged: get_field(self.w1, 0, 1),
        }
    }
}

impl mdb_node_t {
    /// Builds an MDB node from its four fields.
    pub fn new(next: u64, revocable: u64, first_badged: u64, prev: u64) -> (r: mdb_node_t)
        requires
            next <= 0x7f_ffff_ffffu64,
            next % 4 == 0,
            revocable <= 1,
            first_badged <= 1,
        ensures
            r@ == (MdbData { next, prev, revocable, first_badged }),
    {
        let w1_a: u64 = fld_set(0, 2, 37, next >> 2u64);
        let w1_b: u64 = fld_set(w1_a, 1, 1, revocable);
        let w1: u64 = fld_set(w1_b, 0, 1, first_badged);
        proof {
            lemma_mask_low_values();
            lemma_shift2_roundtrip(next);
            lemma_get_set_same(0, 2, 37, next >> 2u64);
            lemma_get_set_same(w1_a, 1, 1, revocable);
            lemma_get_set_other(w1_a, 1, 1, revocable, 2, 37);
            lemma_get_set_same(w1_b, 0, 1, first_badged);
            lemma_get_set_other(w1_b, 0, 1, first_badged, 1, 1);
            lemma_get_set_other(w1_b, 0, 1, first_badged, 2, 37);
        }
        mdb_node_t { w0: prev, w1 }
    }

    /// Reads the successor address.
    pub fn get_next(&self) -> (r: u64)
        ensures
            r == self@.next,
            r <= 0x7f_ffff_ffffu64,
            r % 4 == 0,
    {
        proof {
            lemma_mask_low_values();
            lemma_get_bound(self.w1, 2, 37);
            lemma_shl2_bound(get_field(self.w1, 2, 37));
        }
        fld_get(self.w1, 2, 37) << 2u64
    }

    /// Reads the predecessor address.
    pub fn get_prev(&self) -> (r: u64)
        ensures
            r == self@.prev,
    {
        self.w0
    }

    /// Reads the `revocable` flag.
    pub fn get_revocable(&self) -> (r: u64)
        ensures
            r == self@.revocable,
            r <= 1,
    {
        proof {
            lemma_mask_low_values();
            lemma_get_bound(self.w1, 1, 1);
        }
        fld_get(self.w1, 1, 1)
    }

    /// Reads the `first_badged` flag.
    pub fn get_first_badged(&self) -> (r: u64)
        ensures
            r == self@.first_badged,
            r <= 1,
    {
        proof {
            lemma_mask_low_values();
            lemma_get_bound(self.w1, 0, 1);
        }
        fld_get(self.w1, 0, 1)
    }

    /// Replaces the successor address.
    pub fn set_next(&mut self, v: u64)
        requires
            v <= 0x7f_ffff_ffffu64,
            v % 4 == 0,
        ensures
            final(self)@ == (MdbData { next: v, ..old(self)@ }),
    {
        let nw: u64 = fld_set(self.w1, 2, 37, v >> 2u64);
        proof {
            lemma_mask_low_values();
            lemma_shift2_roundtrip(v);
            lemma_get_set_same(self.w1, 2, 37, v >> 2u64);
            lemma_get_set_other(self.w1, 2, 37, v >> 2u64, 1, 1);
            lemma_get_set_other(self.w1, 2, 37, v >> 2u64, 0, 1);
        }
        *self = mdb_node_t { w0: self.w0, w1: nw };
    }

    /// Replaces the predecessor address.
    pub fn set_prev(&mut self, v: u64)
        ensures
            final(self)@ == (MdbData { prev: v, ..old(self)@ }),
    {
        *self = mdb_node_t { w0: v, w1: self.w1 };
    }

    /// Replaces the `revocable` flag.
    pub fn set_revocable(&mut self, v: u64)
        requires
            v <= 1,
        ensures
            final(self)@ == (MdbData { revocable: v, ..old(self)@ }),
    {
        let nw: u64 = fld_set(self.w1, 1, 1, v);
        proof {
            lemma_mask_low_values();
            lemma_get_set_same(self.w1, 1, 1, v);
            lemma_get_set_other(self.w1, 1, 1, v, 2, 37);
            lemma_get_set_other(self.w1, 1, 1, v, 0, 1);
        }
        *self = mdb_node_t { w0: self.w0, w1: nw };
    }

    /// Replaces the `first_badged` flag.
    pub fn set_first_badged(&mut self, v: u64)
        requires
            v <= 1,
        ensures
            final(self)@ == (MdbData { first_badged: v, ..old(self)@ }),
    {
        let nw: u64 = fld_set(self.w1, 0, 1, v);
        proof {
            lemma_mask_low_values();
            lemma_get_set_same(self.w1, 0, 1, v);
            lemma_get_set_other(self.w1, 0, 1, v, 2, 37);
            lemma_get_set_other(self.w1, 0, 1, v, 1, 1);
        }
        *self = mdb_node_t { w0: self.w0, w1: nw };
    }
}

impl Default for mdb_node_t {
    /// The node of an empty slot: all fields zero.
    fn default() -> (r: Self)
        ensures
            r@ == mdb_zero(),
    {
        proof {
            lemma_get_zero(2, 37);
            lemma_get_zero(1, 1);
            lemma_get_zero(0, 1);
            crate::bits::lemma_zero_shl(2);
        }
        mdb_node_t { w0: 0, w1: 0 }
    }
}

} // verus!
