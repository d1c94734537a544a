//! Word-level field access: every descriptor in this crate packs its
//! fields into 64-bit words at fixed offsets and widths.  The spec
//! functions here define what a packed field means; the lemmas, proved
//! once with the bit-vector solver, let the per-field proofs elsewhere
//! stay in ordinary arithmetic.
use vstd::prelude::*;

verus! {

/// The mask with the low `width` bits set.
pub open spec fn mask_low(width: u64) -> u64 {
    if width >= 64 {
        0xffff_ffff_ffff_ffffu64
    } else {
        ((1u64 << width) - 1) as u64
    }
}

/// The value of the `width`-bit field of `w` that starts at bit `off`.
pub open spec fn get_field(w: u64, off: u64, width: u64) -> u64 {
    (w >> off) & mask_low(width)
}

/// `w` with the `width`-bit field at bit `off` replaced by the low
/// `width` bits of `v`.
pub open spec fn set_field(w: u64, off: u64, width: u64, v: u64) -> u64 {
    (w & !(mask_low(width) << off)) | ((v & mask_low(width)) << off)
}

/// Reading a field just written returns the written value, as long as
/// the value fits in the field.
pub proof fn lemma_get_set_same(w: u64, off: u64, width: u64, v: u64)
    by (bit_vector)
    requires
        off + width <= 64,
        width < 64,
        v <= mask_low(width),
    ensures
        get_field(set_field(w, off, width, v), off, width) == v,
{
}

/// Writing one field leaves every disjoint field unchanged.
pub proof fn lemma_get_set_other(w: u64, off1: u64, width1: u64, v: u64, off2: u64, width2: u64)
    by (bit_vector)
    requires
        off1 + width1 <= 64,
        off2 + width2 <= 64,
        width1 < 64,
        width2 < 64,
        off1 + width1 <= off2 || off2 + width2 <= off1,
    ensures
        get_field(set_field(w, off1, width1, v), off2, width2) == get_field(w, off2, width2),
{
}

/// Every field of the zero word is zero.
pub proof fn lemma_get_zero(off: u64, width: u64)
    by (bit_vector)
    requires
        off + width <= 64,
        width < 64,
    ensures
        get_field(0u64, off, width) == 0,
{
}

/// A 2-aligned pointer below `2^(width+1)` fits a `width`-bit field
/// stored shifted right by one, and shifting back restores it.
pub proof fn lemma_shift1_roundtrip(a: u64, width: u64)
    by (bit_vector)
    requires
        width == 38 || width == 47,
        a % 2 == 0,
        a <= mask_low((width + 1) as u64),
    ensures
        (a >> 1u64) <= mask_low(width),
        (a >> 1u64) << 1u64 == a,
{
}

/// A 4-aligned pointer below `2^39` fits a 37-bit field stored shifted
/// right by two, and shifting back restores it.
pub proof fn lemma_shift2_roundtrip(a: u64)
    by (bit_vector)
    requires
        a % 4 == 0,
        a <= mask_low(39),
    ensures
        (a >> 2u64) <= mask_low(37),
        (a >> 2u64) << 2u64 == a,
{
}

/// A 2048-aligned pointer below `2^48` fits a 37-bit field stored
/// shifted right by eleven, and shifting back restores it.
pub proof fn lemma_shift11_roundtrip(a: u64)
    by (bit_vector)
    requires
        a % 2048 == 0,
        a <= mask_low(48),
    ensures
        (a >> 11u64) <= mask_low(37),
        (a >> 11u64) << 11u64 == a,
{
}

/// A field value is never larger than the field's mask.
pub proof fn lemma_get_bound(w: u64, off: u64, width: u64)
    by (bit_vector)
    requires
        off + width <= 64,
        width < 64,
    ensures
        get_field(w, off, width) <= mask_low(width),
{
}

/// The concrete masks of every field width that appears in a
/// descriptor layout of this crate.
pub proof fn lemma_mask_low_values()
    by (bit_vector)
    ensures
        mask_low(1) == 0x1u64,
        mask_low(2) == 0x3u64,
        mask_low(4) == 0xfu64,
        mask_low(5) == 0x1fu64,
        mask_low(6) == 0x3fu64,
        mask_low(7) == 0x7fu64,
        mask_low(10) == 0x3ffu64,
        mask_low(12) == 0xfffu64,
        mask_low(16) == 0xffffu64,
        mask_low(19) == 0x7ffffu64,
        mask_low(28) == 0xfff_ffffu64,
        mask_low(37) == 0x1f_ffff_ffffu64,
        mask_low(38) == 0x3f_ffff_ffffu64,
        mask_low(39) == 0x7f_ffff_ffffu64,
        mask_low(47) == 0x7fff_ffff_ffffu64,
        mask_low(48) == 0xffff_ffff_ffffu64,
{
}

/// Shifting one left by less than the word size gives a positive word.
pub proof fn lemma_shl1_pos(width: u64)
    by (bit_vector)
    requires
        width < 64,
    ensures
        1u64 << width >= 1,
{
}

/// Shifting a `width`-bit value left by one gives an even value of
/// `width + 1` bits.
pub proof fn lemma_shl1_bound(x: u64, width: u64)
    by (bit_vector)
    requires
        width == 38 || width == 47,
        x <= mask_low(width),
    ensures
        (x << 1u64) <= mask_low((width + 1) as u64),
        (x << 1u64) % 2 == 0,
{
}

/// Shifting a 37-bit value left by two gives a 4-aligned 39-bit value.
pub proof fn lemma_shl2_bound(x: u64)
    by (bit_vector)
    requires
        x <= mask_low(37),
    ensures
        (x << 2u64) <= mask_low(39),
        (x << 2u64) % 4 == 0,
{
}

/// Shifting a 37-bit value left by eleven gives a 2048-aligned 48-bit
/// value.
pub proof fn lemma_shl11_bound(x: u64)
    by (bit_vector)
    requires
        x <= mask_low(37),
    ensures
        (x << 11u64) <= mask_low(48),
        (x << 11u64) % 2048 == 0,
{
}

/// Shifting zero gives zero.
pub proof fn lemma_zero_shl(s: u64)
    by (bit_vector)
    requires
        s < 64,
    ensures
        (0u64 << s) == 0,
{
}

/// A value no larger than a low-bits mask is unchanged by it.
pub proof fn lemma_le_mask_and(x: u64, width: u64)
    by (bit_vector)
    requires
        width <= 64,
        x <= mask_low(width),
    ensures
        x & mask_low(width) == x,
{
}

/// Masking can only clear bits, so the result never exceeds the mask.
pub proof fn lemma_and_mask_le(x: u64, m: u64)
    by (bit_vector)
    ensures
        (x & m) <= m,
{
}

/// Merging two words under complementary masks keeps each side's bits:
/// the base pattern of packing a small counter into the low bits of an
/// aligned pointer.
pub proof fn lemma_mask_merge(a: u64, b: u64, m: u64)
    by (bit_vector)
    ensures
        ((a & !m) | (b & m)) & !m == a & !m,
        ((a & !m) | (b & m)) & m == b & m,
        (a & !m) & m == 0,
        (a & !m) & !m == a & !m,
{
}

/// Computes the mask with the low `width` bits set; widths of 64 and
/// above give the full word.
pub fn mask_u64(width: u64) -> (r: u64)
    ensures
        r == mask_low(width),
{
    if width >= 64 {
        0xffff_ffff_ffff_ffffu64
    } else {
        proof {
            lemma_shl1_pos(width);
        }
        (1u64 << width) - 1
    }
}

/// Reads the `width`-bit field of `w` at bit `off`.
pub fn fld_get(w: u64, off: u64, width: u64) -> (r: u64)
    requires
        off + width <= 64,
        0 < width < 64,
    ensures
        r == get_field(w, off, width),
{
    proof {
        lemma_shl1_pos(width);
    }
    (w >> off) & ((1u64 << width) - 1)
}

/// Replaces the `width`-bit field of `w` at bit `off` with the low
/// `width` bits of `v`.
pub fn fld_set(w: u64, off: u64, width: u64, v: u64) -> (r: u64)
    requires
        off + width <= 64,
        0 < width < 64,
    ensures
        r == set_field(w, off, width, v),
{
    proof {
        lemma_shl1_pos(width);
    }
    (w & !(((1u64 << width) - 1) << off)) | ((v & ((1u64 << width) - 1)) << off)
}

} // verus!
