//! The external collaborators of the capability core, injected as a
//! trait: destroying the kernel object behind a capability, reacting
//! to a slot becoming empty, and voluntary preemption.  The core never
//! frees memory itself; it only manipulates descriptors and the MDB.
use vstd::prelude::*;

use crate::arch::riscv64::cap_t;
use crate::exception::exception_t;
use crate::structures::finaliseCap_ret;

verus! {

/// The hooks a host kernel implements for the capability core.
pub trait KernelDeps {
    /// Destroys (when `_final` holds) the kernel object behind `cap`.
    /// The remainder is the capability left in the slot: null when the
    /// teardown is complete, a zombie describing remaining work
    /// otherwise.  Only thread, CNode and zombie capabilities may
    /// leave a zombie behind, and a caller that passes `_exposed`
    /// demands an immediately complete teardown with no cleanup.
    fn finaliseCap(&mut self, cap: &cap_t, _final: bool, _exposed: bool) -> (r: finaliseCap_ret)
        ensures
            r.remainder@ is Null || r.remainder@ is Zombie,
            !(cap@ is CNode || cap@ is Thread || cap@ is Zombie) ==> r.remainder@ is Null,
            _exposed ==> r.remainder@ is Null && r.cleanupInfo@ is Null,
    ;

    /// Notified after a slot has been emptied, with the cleanup
    /// information its finalisation produced.
    fn post_cap_deletion(&mut self, cap: &cap_t);

    /// Bumps the host's work counter; a status other than
    /// `EXCEPTION_NONE` asks the core to pause the current operation
    /// and leave it in a restartable state.
    fn preemptionPoint(&mut self) -> (r: exception_t);
}

/// The trivial collaborator: every object disappears at once, no
/// cleanup is ever needed, and no preemption is ever requested.
pub struct NullDeps;

impl KernelDeps for NullDeps {
    fn finaliseCap(&mut self, cap: &cap_t, _final: bool, _exposed: bool) -> (r: finaliseCap_ret)
        ensures
            r.remainder@ is Null,
            r.cleanupInfo@ is Null,
    {
        finaliseCap_ret { remainder: cap_t::new_null_cap(), cleanupInfo: cap_t::new_null_cap() }
    }

    fn post_cap_deletion(&mut self, _cap: &cap_t) {
    }

    fn preemptionPoint(&mut self) -> (r: exception_t)
        ensures
            r == exception_t::EXCEPTION_NONE,
    {
        exception_t::EXCEPTION_NONE
    }
}

} // verus!
