//! Bit ranges inside a register byte: masks, extraction and insertion.
use vstd::prelude::*;

verus! {

/// A bit range `low..=high` is well formed when it lies inside one byte.
pub open spec fn valid_range(low: u8, high: u8) -> bool {
    low <= high && high <= 7
}

/// The bits `low..=high` set, all others clear.
pub open spec fn range_mask(low: u8, high: u8) -> u8 {
    ((0xffu8 >> ((7 - (high - low)) as u8)) << low) as u8
}

/// The largest value that a range of `high - low + 1` bits can hold.
pub open spec fn range_max(low: u8, high: u8) -> u8 {
    0xffu8 >> ((7 - (high - low)) as u8)
}

/// The value stored in bits `low..=high` of `byte`, shifted down to bit 0.
pub open spec fn extract(byte: u8, low: u8, high: u8) -> u8 {
    ((byte & range_mask(low, high)) >> low) as u8
}

/// `byte` with bits `low..=high` replaced by `value`; bits of `value` that do not fit
/// the range are dropped.
pub open spec fn insert(byte: u8, low: u8, high: u8, value: u8) -> u8 {
    ((byte & !range_mask(low, high)) | (((value << low) as u8) & range_mask(low, high))) as u8
}

/// Reads bits `low..=high` of `byte`, shifted down to bit 0.
pub fn get_bits(byte: u8, low: u8, high: u8) -> (r: u8)
    requires
        valid_range(low, high),
    ensures
        r == extract(byte, low, high),
        r <= range_max(low, high),
{
    let mask: u8 = (0xffu8 >> (7 - (high - low))) << low;
    proof {
        assert(((byte & mask) >> low) as u8 <= range_max(low, high)) by (bit_vector)
            requires
                low <= high && high <= 7,
                mask == ((0xffu8 >> ((7 - (high - low)) as u8)) << low) as u8,
        ;
    }
    (byte & mask) >> low
}

/// Replaces bits `low..=high` of `byte` with `value`, dropping the bits of `value` that
/// do not fit the range.
pub fn set_bits(byte: u8, low: u8, high: u8, value: u8) -> (r: u8)
    requires
        valid_range(low, high),
    ensures
        r == insert(byte, low, high, value),
{
    let mask: u8 = (0xffu8 >> (7 - (high - low))) << low;
    (byte & !mask) | ((value << low) & mask)
}

/// Reading a range back after writing it gives the written value, masked to the range's width.
pub proof fn lemma_extract_insert(byte: u8, low: u8, high: u8, value: u8)
    requires
        valid_range(low, high),
    ensures
        extract(insert(byte, low, high, value), low, high) == value & range_max(low, high),
{
    assert(extract(insert(byte, low, high, value), low, high) == value & range_max(low, high))
        by (bit_vector)
        requires
            low <= high && high <= 7,
    ;
}

/// Writing a range leaves every bit outside it as it was.
pub proof fn lemma_insert_keeps_other_bits(byte: u8, low: u8, high: u8, value: u8, bit: u8)
    requires
        valid_range(low, high),
        bit <= 7,
        bit < low || high < bit,
    ensures
        (insert(byte, low, high, value) >> bit) & 1 == (byte >> bit) & 1,
{
    assert((insert(byte, low, high, value) >> bit) & 1 == (byte >> bit) & 1) by (bit_vector)
        requires
            low <= high && high <= 7,
            bit <= 7,
            bit < low || high < bit,
    ;
}

/// Writing one range leaves every disjoint range of the same byte as it was.
pub proof fn lemma_insert_keeps_other_range(
    byte: u8,
    low: u8,
    high: u8,
    value: u8,
    other_low: u8,
    other_high: u8,
)
    requires
        valid_range(low, high),
        valid_range(other_low, other_high),
        high < other_low || other_high < low,
    ensures
        extract(insert(byte, low, high, value), other_low, other_high) == extract(
            byte,
            other_low,
            other_high,
        ),
{
    assert(extract(insert(byte, low, high, value), other_low, other_high) == extract(
        byte,
        other_low,
        other_high,
    )) by (bit_vector)
        requires
            low <= high && high <= 7,
            other_low <= other_high && other_high <= 7,
            high < other_low || other_high < low,
    ;
}

} // verus!
