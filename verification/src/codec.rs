//! Packed bit-field codec.
//!
//! A packed pixel is a single 16-bit word holding several disjoint bit
//! fields, one per color component.  Each field is described by a
//! `(shift, mask, clear)` triple: `get` reads `(word >> shift) & mask`,
//! `set` writes `(word & clear) | ((value & mask) << shift)`.  A descriptor
//! is well formed when `clear` is the bit-complement of `mask << shift`;
//! the lemmas below show that under that condition `set` stores exactly the
//! masked value and leaves every disjoint field untouched.

use vstd::prelude::*;

verus! {

/// The component held by the field `(shift, mask)` of a packed word, widened
/// to 8 bits with the remaining bits zero.
pub open spec fn field_get(packed: u16, shift: u16, mask: u16) -> u8 {
    ((packed >> shift) & mask) as u8
}

/// The packed word after the field `(shift, mask, clear)` is overwritten
/// with `value`: bits of `value` beyond the field width are dropped.
pub open spec fn field_set(packed: u16, shift: u16, mask: u16, clear: u16, value: u8) -> u16 {
    (packed & clear) | (((value as u16) & mask) << shift)
}

/// A descriptor's `clear` word is well formed when it is the bit-complement
/// of the field it belongs to; a malformed `clear` would corrupt adjacent
/// fields on every write.
pub open spec fn clear_matches(shift: u16, mask: u16, clear: u16) -> bool {
    clear == !(mask << shift)
}

/// A field lies inside the packed word: shifting the mask up does not drop
/// any of its bits.
pub open spec fn field_fits(shift: u16, mask: u16) -> bool {
    shift < 16 && ((mask << shift) >> shift) == mask
}

/// Reads the field `(shift, mask)` of a packed word.
pub fn packed_get(packed: u16, shift: u16, mask: u16) -> (r: u8)
    requires
        shift < 16,
        mask <= 0xFF,
    ensures
        r == field_get(packed, shift, mask),
{
    proof {
        assert(((packed >> shift) & mask) <= mask) by (bit_vector);
    }
    ((packed >> shift) & mask) as u8
}

/// Overwrites the field `(shift, mask, clear)` of a packed word with
/// `value`, keeping only the bits of `value` that fit the field.
pub fn packed_set(packed: u16, shift: u16, mask: u16, clear: u16, value: u8) -> (r: u16)
    requires
        shift < 16,
    ensures
        r == field_set(packed, shift, mask, clear, value),
{
    (packed & clear) | (((value as u16) & mask) << shift)
}

/// Writing a well-formed field and reading it back yields the written value
/// truncated to the field width, whatever the word held before.
pub proof fn lemma_field_set_get(packed: u16, shift: u16, mask: u16, clear: u16, value: u8)
    requires
        mask <= 0xFF,
        field_fits(shift, mask),
        clear_matches(shift, mask, clear),
    ensures
        field_get(field_set(packed, shift, mask, clear, value), shift, mask) == value
            & (mask as u8),
{
    assert(((((packed & !(mask << shift)) | (((value as u16) & mask) << shift)) >> shift) & mask)
        as u8 == value & (mask as u8)) by (bit_vector)
        requires
            shift < 16u16,
            mask <= 0xFFu16,
            ((mask << shift) >> shift) == mask,
    ;
}

/// Writing one well-formed field leaves every field disjoint from it
/// unchanged.
pub proof fn lemma_field_set_frames_other(
    packed: u16,
    shift: u16,
    mask: u16,
    clear: u16,
    value: u8,
    other_shift: u16,
    other_mask: u16,
)
    requires
        field_fits(shift, mask),
        clear_matches(shift, mask, clear),
        (mask << shift) & (other_mask << other_shift) == 0,
    ensures
        field_get(field_set(packed, shift, mask, clear, value), other_shift, other_mask)
            == field_get(packed, other_shift, other_mask),
{
    assert(((((packed & !(mask << shift)) | (((value as u16) & mask) << shift)) >> other_shift)
        & other_mask) as u8 == ((packed >> other_shift) & other_mask) as u8) by (bit_vector)
        requires
            shift < 16u16,
            ((mask << shift) >> shift) == mask,
            (mask << shift) & (other_mask << other_shift) == 0u16,
    ;
}

} // verus!
