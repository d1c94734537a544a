//! Architecture-specific capability descriptor layouts.  The core
//! algorithms operate on the RISC-V sv39 layout, which this module
//! re-exports; the AArch64 layout is self-contained in its own module.
pub mod aarch64;
pub mod riscv64;

pub use riscv64::{cap_t, CapData, CapTag};
