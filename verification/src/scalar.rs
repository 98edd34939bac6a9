//! Double-precision values held by their bit pattern.

use vstd::prelude::*;

verus! {

/// The exponent field of a binary64 bit pattern.
pub const EXPONENT_MASK: u64 = 0x7ff0_0000_0000_0000;

/// The fraction field of a binary64 bit pattern.
pub const FRACTION_MASK: u64 = 0x000f_ffff_ffff_ffff;

/// Everything but the sign bit of a binary64 bit pattern.
pub const MAGNITUDE_MASK: u64 = 0x7fff_ffff_ffff_ffff;

/// A double-precision value (IEEE 754 binary64), held by its bit pattern.
///
/// Coordinates, scroll ticks, axis positions and delta times are carried
/// through the event model as they are; nothing here does arithmetic on
/// them. The bits are those of `f64::to_bits`, and `f64::from_bits` reads
/// them back, at the edge of the program.
///
/// Two scalars that are equal as values of a structure (`==` in a
/// contract) have the same bits. The executable `==` is the numeric one
/// instead: a NaN equals nothing, and the two zeros equal each other.
#[derive(Copy, Clone, Debug)]
pub struct Scalar {
    /// The bit pattern: sign, exponent and fraction, from the highest bit down.
    pub bits: u64,
}

impl Scalar {
    /// The exponent field is all ones and the fraction is not zero.
    pub open spec fn is_nan_spec(self) -> bool {
        self.bits & EXPONENT_MASK == EXPONENT_MASK && self.bits & FRACTION_MASK != 0
    }

    /// The exponent field is not all ones: neither an infinity nor a NaN.
    pub open spec fn is_finite_spec(self) -> bool {
        self.bits & EXPONENT_MASK != EXPONENT_MASK
    }

    /// Positive or negative zero.
    pub open spec fn is_zero_spec(self) -> bool {
        self.bits & MAGNITUDE_MASK == 0
    }

    /// Numeric equality of two bit patterns: neither is a NaN, and they are
    /// the same pattern or both a zero.
    pub open spec fn same_number(self, other: Scalar) -> bool {
        &&& !self.is_nan_spec()
        &&& !other.is_nan_spec()
        &&& (self.bits == other.bits || (self.is_zero_spec() && other.is_zero_spec()))
    }

    /// Whether this is a NaN.
    #[verifier::when_used_as_spec(is_nan_spec)]
    pub fn is_nan(self) -> (r: bool)
        ensures
            r == self.is_nan_spec(),
    {
        self.bits & EXPONENT_MASK == EXPONENT_MASK && self.bits & FRACTION_MASK != 0
    }

    /// Whether this is neither an infinity nor a NaN.
    #[verifier::when_used_as_spec(is_finite_spec)]
    pub fn is_finite(self) -> (r: bool)
        ensures
            r == self.is_finite_spec(),
    {
        self.bits & EXPONENT_MASK != EXPONENT_MASK
    }

    /// Whether this is positive or negative zero.
    #[verifier::when_used_as_spec(is_zero_spec)]
    pub fn is_zero(self) -> (r: bool)
        ensures
            r == self.is_zero_spec(),
    {
        self.bits & MAGNITUDE_MASK == 0
    }
}

impl PartialEq for Scalar {
    /// Whether the two scalars are the same number.
    fn eq(&self, other: &Scalar) -> (r: bool)
        ensures
            r == self.same_number(*other),
    {
        if self.is_nan() || other.is_nan() {
            false
        } else {
            self.bits == other.bits || (self.is_zero() && other.is_zero())
        }
    }
}

impl vstd::std_specs::cmp::PartialEqSpecImpl for Scalar {
    open spec fn obeys_eq_spec() -> bool {
        true
    }

    open spec fn eq_spec(&self, other: &Scalar) -> bool {
        self.same_number(*other)
    }
}

/// A zero is finite, and what is finite is no NaN. A scalar is the same
/// number as itself unless it is a NaN.
pub proof fn lemma_scalar_classes(s: Scalar)
    ensures
        s.is_zero_spec() ==> s.is_finite_spec(),
        s.is_finite_spec() ==> !s.is_nan_spec(),
        s.same_number(s) <==> !s.is_nan_spec(),
{
    let bits: u64 = s.bits;
    assert(bits & 0x7fff_ffff_ffff_ffff == 0 ==> bits & 0x7ff0_0000_0000_0000
        != 0x7ff0_0000_0000_0000) by (bit_vector);
}

/// Being the same number is symmetric and transitive.
pub proof fn lemma_same_number_equivalence(a: Scalar, b: Scalar, c: Scalar)
    ensures
        a.same_number(b) ==> b.same_number(a),
        a.same_number(b) && b.same_number(c) ==> a.same_number(c),
{
}

} // verus!
