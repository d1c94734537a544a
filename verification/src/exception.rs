//! Status codes returned by the capability core.
use vstd::prelude::*;

verus! {

/// Outcome of a capability operation.  `EXCEPTION_NONE` is success;
/// the other variants report a failed structural precondition, a failed
/// address lookup, a requested preemption, or a broken kernel invariant.
#[derive(Clone, Copy, PartialEq, Eq, Structural, Debug)]
pub enum exception_t {
    EXCEPTION_NONE,
    EXCEPTION_FAULT,
    EXCEPTION_LOOKUP_FAULT,
    EXCEPTION_SYSCALL_ERROR,
    EXCEPTION_PREEMPTED,
}

} // verus!
