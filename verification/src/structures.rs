//! Result records of the finalise and address-resolution paths.
use vstd::prelude::*;

use crate::arch::riscv64::{cap_t, CapData};
use crate::exception::exception_t;

verus! {

/// Result of driving one slot through `finalise`: a status, whether
/// the slot's capability was fully finalised, and the cleanup
/// information the external finaliser handed back.
#[derive(Clone, Copy)]
pub struct finaliseSlot_ret {
    pub status: exception_t,
    pub success: bool,
    pub cleanupInfo: cap_t,
}

impl Default for finaliseSlot_ret {
    /// The successful empty result.
    fn default() -> (r: Self)
        ensures
            r.status == exception_t::EXCEPTION_NONE,
            r.success == true,
            r.cleanupInfo@ is Null,
    {
        finaliseSlot_ret {
            status: exception_t::EXCEPTION_NONE,
            success: true,
            cleanupInfo: cap_t::new_null_cap(),
        }
    }
}

/// What the external finaliser returns: the capability that remains in
/// the slot (null when the object is gone, a zombie when teardown must
/// continue) and optional cleanup information.
#[derive(Clone, Copy)]
pub struct finaliseCap_ret {
    pub remainder: cap_t,
    pub cleanupInfo: cap_t,
}

impl Default for finaliseCap_ret {
    /// The empty result: nothing remains, nothing to clean up.
    fn default() -> (r: Self)
        ensures
            r.remainder@ is Null,
            r.cleanupInfo@ is Null,
    {
        finaliseCap_ret { remainder: cap_t::new_null_cap(), cleanupInfo: cap_t::new_null_cap() }
    }
}

/// Result of `resolve_address_bits`: a status, the slot the walk
/// reached, and how many address bits remain untranslated.
#[derive(Clone, Copy)]
pub struct resolveAddressBits_ret_t {
    pub status: exception_t,
    pub slot: usize,
    pub bitsRemaining: u64,
}

impl Default for resolveAddressBits_ret_t {
    /// The successful empty result, pointing at the first slot.
    fn default() -> (r: Self)
        ensures
            r.status == exception_t::EXCEPTION_NONE,
            r.slot == 0,
            r.bitsRemaining == 0,
    {
        resolveAddressBits_ret_t { status: exception_t::EXCEPTION_NONE, slot: 0, bitsRemaining: 0 }
    }
}

} // verus!
