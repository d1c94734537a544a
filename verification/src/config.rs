//! Architecture-neutral configuration constants of the capability core,
//! and the free-index arithmetic of untyped capabilities.
use vstd::prelude::*;

verus! {

/// log2 of the machine word size in bits.
pub const wordRadix: u64 = 6;

/// Machine word size in bits.
pub const wordBits: u64 = 64;

/// log2 of the byte size of one CSpace slot (two capability words plus
/// two MDB words).
pub const seL4_SlotBits: u64 = 5;

/// Byte size of one CSpace slot.
pub const SLOT_SIZE: u64 = 32;

/// log2 of the byte size of an endpoint object.
pub const seL4_EndpointBits: u64 = 4;

/// log2 of the byte size of a notification object.
pub const seL4_NotificationBits: u64 = 5;

/// log2 of the byte size of a reply object.
pub const seL4_ReplyBits: u64 = 4;

/// log2 of the byte size of a page table.
pub const PT_SIZE_BITS: u64 = 12;

/// log2 of the byte size of the smallest untyped block; the unit of an
/// untyped capability's free index.
pub const seL4_MinUntypedBits: u64 = 4;

/// The free index that marks an untyped capability of the given block
/// size as fully consumed.
pub open spec fn spec_max_free_index(block_size: u64) -> u64 {
    (1u64 << ((block_size - seL4_MinUntypedBits) as u64)) as u64
}

/// log2 of the byte size of a frame of the given size class: 4 KiB,
/// 2 MiB or 1 GiB.  Size classes outside the layout's two-bit field
/// range have no meaning; they map to zero.
pub open spec fn spec_page_bits_for_size(size: u64) -> u64 {
    if size == 0 {
        12
    } else if size == 1 {
        21
    } else if size == 2 {
        30
    } else {
        0
    }
}

/// Computes log2 of the byte size of a frame of the given size class.
pub fn pageBitsForSize(size: u64) -> (r: u64)
    ensures
        r == spec_page_bits_for_size(size),
{
    if size == 0 {
        12
    } else if size == 1 {
        21
    } else if size == 2 {
        30
    } else {
        0
    }
}

/// Computes the watermark of a fully consumed untyped block: one unit
/// of `2^seL4_MinUntypedBits` bytes for each such unit in the block.
pub fn MAX_FREE_INDEX(block_size: u64) -> (r: u64)
    requires
        seL4_MinUntypedBits <= block_size < 64 + seL4_MinUntypedBits,
    ensures
        r == spec_max_free_index(block_size),
{
    1u64 << (block_size - seL4_MinUntypedBits)
}

} // verus!
