//! The capability-rights word handed in by a user: four permission
//! bits packed into one machine word, read by the architectures'
//! rights-masking rules.
use vstd::prelude::*;

use crate::bits::{
    fld_get, fld_set, get_field, lemma_get_bound, lemma_get_set_other, lemma_get_set_same,
    lemma_mask_low_values,
};

verus! {

/// The abstract value of a rights word: each field is 0 or 1.
#[derive(PartialEq, Eq, Structural)]
pub struct RightsData {
    pub allow_grant_reply: u64,
    pub allow_grant: u64,
    pub allow_read: u64,
    pub allow_write: u64,
}

/// A capability-rights word: `allow_write` in bit 0, `allow_read` in
/// bit 1, `allow_grant` in bit 2 and `allow_grant_reply` in bit 3.
#[derive(Clone, Copy, Debug)]
pub struct seL4_CapRights_t {
    word: u64,
}

impl View for seL4_CapRights_t {
    type V = RightsData;

    closed spec fn view(&self) -> RightsData {
        RightsData {
            allow_grant_reply: get_field(self.word, 3, 1),
            allow_grant: get_field(self.word, 2, 1),
            allow_read: get_field(self.word, 1, 1),
            allow_write: get_field(self.word, 0, 1),
        }
    }
}

impl seL4_CapRights_t {
    /// Builds a rights word from its four permission bits.
    pub fn new(allow_grant_reply: u64, allow_grant: u64, allow_read: u64, allow_write: u64) -> (r:
        seL4_CapRights_t)
        requires
            allow_grant_reply <= 1,
            allow_grant <= 1,
            allow_read <= 1,
            allow_write <= 1,
        ensures
            r@ == (RightsData { allow_grant_reply, allow_grant, allow_read, allow_write }),
    {
        let w_a: u64 = fld_set(0, 0, 1, allow_write);
        let w_b: u64 = fld_set(w_a, 1, 1, allow_read);
        let w_c: u64 = fld_set(w_b, 2, 1, allow_grant);
        let w: u64 = fld_set(w_c, 3, 1, allow_grant_reply);
        proof {
            lemma_mask_low_values();
            lemma_get_set_same(0, 0, 1, allow_write);
            lemma_get_set_same(w_a, 1, 1, allow_read);
            lemma_get_set_other(w_a, 1, 1, allow_read, 0, 1);
            lemma_get_set_same(w_b, 2, 1, allow_grant);
            lemma_get_set_other(w_b, 2, 1, allow_grant, 0, 1);
            lemma_get_set_other(w_b, 2, 1, allow_grant, 1, 1);
            lemma_get_set_same(w_c, 3, 1, allow_grant_reply);
            lemma_get_set_other(w_c, 3, 1, allow_grant_reply, 0, 1);
            lemma_get_set_other(w_c, 3, 1, allow_grant_reply, 1, 1);
            lemma_get_set_other(w_c, 3, 1, allow_grant_reply, 2, 1);
        }
        seL4_CapRights_t { word: w }
    }

    /// Reads the `allow_grant_reply` bit.
    pub fn get_cap_allow_grant_reply(&self) -> (r: u64)
        ensures
            r == self@.allow_grant_reply,
            r <= 1,
    {
        proof {
            lemma_mask_low_values();
            lemma_get_bound(self.word, 3, 1);
        }
        fld_get(self.word, 3, 1)
    }

    /// Reads the `allow_grant` bit.
    pub fn get_cap_allow_grant(&self) -> (r: u64)
        ensures
            r == self@.allow_grant,
            r <= 1,
    {
        proof {
            lemma_mask_low_values();
            lemma_get_bound(self.word, 2, 1);
        }
        fld_get(self.word, 2, 1)
    }

    /// Reads the `allow_read` bit.
    pub fn get_cap_allow_read(&self) -> (r: u64)
        ensures
            r == self@.allow_read,
            r <= 1,
    {
        proof {
            lemma_mask_low_values();
            lemma_get_bound(self.word, 1, 1);
        }
        fld_get(self.word, 1, 1)
    }

    /// Reads the `allow_write` bit.
    pub fn get_cap_allow_write(&self) -> (r: u64)
        ensures
            r == self@.allow_write,
            r <= 1,
    {
        proof {
            lemma_mask_low_values();
            lemma_get_bound(self.word, 0, 1);
        }
        fld_get(self.word, 0, 1)
    }
}

} // verus!
