//! Coordinates and zoom levels, carried as IEEE-754 binary64 bit patterns.
use vstd::prelude::*;

verus! {

/// The bits that hold the biased exponent of a binary64 value.
pub const EXPONENT_MASK: u64 = 0x7ff0_0000_0000_0000;

/// The bits that hold the fraction of a binary64 value.
pub const FRACTION_MASK: u64 = 0x000f_ffff_ffff_ffff;

/// Every bit but the sign.
pub const MAGNITUDE_MASK: u64 = 0x7fff_ffff_ffff_ffff;

/// A binary64 number (a latitude, a longitude or a zoom level) held by its bit
/// pattern, so that the library can compare it without doing arithmetic on it.
#[derive(Clone, Copy, Debug)]
pub struct Num {
    pub bits: u64,
}

/// The bit pattern is a NaN: all exponent bits set and a nonzero fraction.
pub open spec fn is_nan_bits(b: u64) -> bool {
    (b & EXPONENT_MASK) == EXPONENT_MASK && (b & FRACTION_MASK) != 0
}

/// The bit pattern is positive or negative zero.
pub open spec fn is_zero_bits(b: u64) -> bool {
    (b & MAGNITUDE_MASK) == 0
}

/// IEEE-754 equality: a NaN equals nothing, the two zeros are equal, and any
/// other two values are equal exactly when their bit patterns are.
pub open spec fn num_eq(a: Num, b: Num) -> bool {
    &&& !is_nan_bits(a.bits)
    &&& !is_nan_bits(b.bits)
    &&& (a.bits == b.bits || (is_zero_bits(a.bits) && is_zero_bits(b.bits)))
}

/// IEEE-754 equality of two optional values, as `Option`'s `==` has it: both
/// absent, or both present and equal.
pub open spec fn opt_num_eq(a: Option<Num>, b: Option<Num>) -> bool {
    match (a, b) {
        (None, None) => true,
        (Some(x), Some(y)) => num_eq(x, y),
        _ => false,
    }
}

impl Num {
    pub fn from_bits(bits: u64) -> (r: Num)
        ensures
            r.bits == bits,
    {
        Num { bits }
    }

    pub fn to_bits(self) -> (r: u64)
        ensures
            r == self.bits,
    {
        self.bits
    }

    pub fn is_nan(self) -> (r: bool)
        ensures
            r == is_nan_bits(self.bits),
    {
        (self.bits & EXPONENT_MASK) == EXPONENT_MASK && (self.bits & FRACTION_MASK) != 0
    }

    /// Compares two numbers as `f64`'s `==` does.
    pub fn same_value(self, other: Num) -> (r: bool)
        ensures
            r == num_eq(self, other),
    {
        !self.is_nan() && !other.is_nan() && (self.bits == other.bits || ((self.bits
            & MAGNITUDE_MASK) == 0 && (other.bits & MAGNITUDE_MASK) == 0))
    }
}

/// Compares two optional numbers as `Option<f64>`'s `==` does.
pub fn same_opt_value(a: Option<Num>, b: Option<Num>) -> (r: bool)
    ensures
        r == opt_num_eq(a, b),
{
    match (a, b) {
        (None, None) => true,
        (Some(x), Some(y)) => x.same_value(y),
        _ => false,
    }
}

} // verus!
