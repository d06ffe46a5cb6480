//! Conversions between host integers and the 32-bit signed fields of a
//! subtitle rectangle.
//!
//! Writes narrow: a host value that does not fit is reduced to its low 32 bits,
//! read as two's complement. Reads widen the stored field back, so a negative
//! field shows up as a large unsigned value.

use libc::c_int;
use vstd::prelude::*;

verus! {

/// The 32-bit two's-complement value that has the same low 32 bits as `v`.
pub open spec fn c_int_from(v: int) -> c_int {
    let low = v % 0x1_0000_0000;
    if low < 0x8000_0000 {
        low as c_int
    } else {
        (low - 0x1_0000_0000) as c_int
    }
}

/// A 32-bit field read as `u32`: negative fields count down from `2^32`.
pub open spec fn u32_from(v: c_int) -> u32 {
    if v >= 0 {
        v as u32
    } else {
        (v + 0x1_0000_0000) as u32
    }
}

/// A 32-bit field read as `usize`: negative fields count down from
/// `usize::MAX + 1`.
pub open spec fn usize_from(v: c_int) -> usize {
    if v >= 0 {
        v as usize
    } else {
        (v + usize::MAX + 1) as usize
    }
}

/// Narrows a `usize` to a field value, keeping the low 32 bits.
pub fn usize_to_c_int(value: usize) -> (out: c_int)
    ensures
        out == c_int_from(value as int),
{
    assert(value as i32 == c_int_from(value as int)) by (bit_vector);
    #[verifier::truncate]
    (value as c_int)
}

/// Narrows a `u32` to a field value, keeping all 32 bits.
pub fn u32_to_c_int(value: u32) -> (out: c_int)
    ensures
        out == c_int_from(value as int),
{
    assert(value as i32 == c_int_from(value as int)) by (bit_vector);
    #[verifier::truncate]
    (value as c_int)
}

/// Reads a field value as `u32`.
pub fn c_int_to_u32(value: c_int) -> (out: u32)
    ensures
        out == u32_from(value),
{
    assert(value as u32 == u32_from(value)) by (bit_vector);
    #[verifier::truncate]
    (value as u32)
}

/// Reads a field value as `usize`.
pub fn c_int_to_usize(value: c_int) -> (out: usize)
    ensures
        out == usize_from(value),
{
    if value >= 0 {
        value as usize
    } else {
        let below: c_int = -(value + 1);
        usize::MAX - (below as usize)
    }
}

} // verus!
