use vstd::prelude::*;

verus! {

/// `value` limited to the range from `low` to `high`; `high` wins where the range is empty.
pub open spec fn clamped(low: int, value: int, high: int) -> int {
    if value > high {
        high
    } else if value < low {
        low
    } else {
        value
    }
}

/// Limits `value` to `low..=high`: values above `high` give `high`, values below
/// `low` give `low`, the others are returned unchanged.
pub fn clamp(low: i32, value: i32, high: i32) -> (r: i32)
    ensures
        r == clamped(low as int, value as int, high as int),
{
    if value > high {
        high
    } else if value < low {
        low
    } else {
        value
    }
}

} // verus!

verus! {

/// The `i32` that a `u32` becomes under `as`: the same number up to
/// `i32::MAX`, and `2^32` less above it.
pub open spec fn wrap_to_i32(x: u32) -> int {
    if x <= i32::MAX {
        x as int
    } else {
        x - 0x1_0000_0000
    }
}

/// The `u32` that an `i32` becomes under `as`: the same number from zero up,
/// and `2^32` more below zero.
pub open spec fn wrap_to_u32(x: i32) -> int {
    if x >= 0 {
        x as int
    } else {
        x + 0x1_0000_0000
    }
}

/// `as` from `u32` to `i32` wraps as `wrap_to_i32` says.
pub(crate) fn u32_to_i32(x: u32) -> (r: i32)
    ensures
        r == wrap_to_i32(x),
{
    let r = x as i32;
    assert(x <= 0x7fff_ffff ==> r == x) by (bit_vector)
        requires
            r == x as i32,
    ;
    assert(x > 0x7fff_ffff ==> r as int == x as int - 0x1_0000_0000) by (bit_vector)
        requires
            r == x as i32,
    ;
    r
}

/// `as` from `i32` to `u32` wraps as `wrap_to_u32` says.
pub(crate) fn i32_to_u32(x: i32) -> (r: u32)
    ensures
        r == wrap_to_u32(x),
{
    let r = x as u32;
    assert(x >= 0 ==> r == x) by (bit_vector)
        requires
            r == x as u32,
    ;
    assert(x < 0 ==> r as int == x as int + 0x1_0000_0000) by (bit_vector)
        requires
            r == x as u32,
    ;
    r
}

} // verus!

verus! {

/// Clamping to a non-empty range lands in the range, leaves values already
/// in it alone, and clamping twice is clamping once.
pub proof fn lemma_clamp_range(low: int, value: int, high: int)
    requires
        low <= high,
    ensures
        low <= clamped(low, value, high) <= high,
        low <= value <= high ==> clamped(low, value, high) == value,
        clamped(low, clamped(low, value, high), high) == clamped(low, value, high),
{
}

} // verus!
