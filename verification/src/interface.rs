//! The capability core's public face, re-exported in one place.
pub use crate::arch::riscv64::{cap_t, CapData, CapTag};
pub use crate::cap::{is_cap_revocable, same_object_as, same_region_as};
pub use crate::cte::{cte_t, CSpace};
pub use crate::delete::cap_removable;
pub use crate::deps::{KernelDeps, NullDeps};
pub use crate::exception::exception_t;
pub use crate::mdb::mdb_node_t;
pub use crate::ops::{cte_insert, cte_move, cte_swap, insert_new_cap};
pub use crate::resolve::resolve_address_bits;
pub use crate::structures::finaliseCap_ret;
pub use crate::zombie::{capCyclicZombie, Zombie_new};
