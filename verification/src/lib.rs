//! A verified model of a seL4-style capability-space core: two-word
//! capability descriptors with bit-exact field layouts, the mapping
//! database (MDB) that threads every occupied slot into a doubly-linked
//! derivation list, the insert/move/swap/revoke/delete protocol over
//! that list, and guarded-radix address resolution.
#![allow(non_snake_case)]
#![allow(non_camel_case_types)]
#![allow(non_upper_case_globals)]

pub mod arch;
pub mod bits;
pub mod cap;
pub mod config;
pub mod cte;
pub mod delete;
pub mod deps;
pub mod exception;
pub mod interface;
pub mod laws;
pub mod mdb;
pub mod ops;
pub mod resolve;
pub mod rights;
pub mod structures;
pub mod zombie;
