//! The flags bitmask shared by every kind of subtitle rectangle.

use libc::c_int;
use vstd::prelude::*;

verus! {

/// Bit set on a rectangle that must be shown even when subtitles are hidden.
pub const FORCED: c_int = 1;

/// The flags of a rectangle. Every bit of the stored field is kept, whether
/// this library knows its meaning or not.
#[derive(Clone, Copy, Debug, PartialEq, Eq, Structural)]
pub struct Flags {
    pub(crate) bits: c_int,
}

impl Flags {
    /// Flags with exactly the given bits.
    pub open(crate) spec fn spec_from_bits(bits: c_int) -> Flags {
        Flags { bits }
    }

    /// The bits, as stored in the rectangle.
    pub open(crate) spec fn spec_bits(&self) -> c_int {
        self.bits
    }

    /// Flags with exactly the given bits.
    #[verifier::when_used_as_spec(spec_from_bits)]
    pub fn from_bits(bits: c_int) -> (out: Flags)
        ensures
            out == Flags::spec_from_bits(bits),
            out.bits() == bits,
    {
        Flags { bits }
    }

    /// The bits, as stored in the rectangle.
    #[verifier::when_used_as_spec(spec_bits)]
    pub fn bits(&self) -> (out: c_int)
        ensures
            out == self.spec_bits(),
    {
        self.bits
    }

    /// Whether no bit is set.
    pub fn is_empty(&self) -> (out: bool)
        ensures
            out == (self.bits() == 0),
    {
        self.bits == 0
    }

    /// Whether every bit of `other` is set in `self`.
    pub fn contains(&self, other: Flags) -> (out: bool)
        ensures
            out == (self.bits() & other.bits() == other.bits()),
    {
        self.bits & other.bits == other.bits
    }

    /// Whether the forced-display bit is set.
    pub fn is_forced(&self) -> (out: bool)
        ensures
            out == (self.bits() & FORCED == FORCED),
    {
        self.bits & FORCED == FORCED
    }
}

} // verus!
