//! Scalars and complex numbers, held by their IEEE-754 bit patterns.

use vstd::prelude::*;
use vstd::std_specs::cmp::PartialEqSpecImpl;
use vstd::std_specs::convert::FromSpecImpl;

verus! {

/// The sign bit of a binary64 pattern.
pub const SIGN_BIT: u64 = 0x8000_0000_0000_0000;

/// The pattern of positive infinity: every pattern whose magnitude lies
/// above it is a NaN.
pub const INFINITY_BITS: u64 = 0x7FF0_0000_0000_0000;

/// A binary64 scalar, held by its bit pattern.
#[derive(Clone, Copy, Debug)]
pub struct Real {
    pub bits: u64,
}

/// A complex number: real part, imaginary part.
#[derive(Clone, Copy, Debug)]
pub struct Complex(pub Real, pub Real);

impl Real {
    /// The pattern without its sign bit.
    pub open spec fn spec_magnitude(self) -> int {
        self.bits as int % 0x8000_0000_0000_0000
    }

    /// The pattern is one of the NaNs.
    pub open spec fn spec_is_nan(self) -> bool {
        self.spec_magnitude() > INFINITY_BITS
    }

    /// The pattern is positive or negative zero.
    pub open spec fn spec_is_zero(self) -> bool {
        self.spec_magnitude() == 0
    }

    /// The scalar is below zero, as IEEE-754 orders scalars: its sign bit
    /// is set and it is neither a zero nor a NaN.
    pub open spec fn spec_is_negative(self) -> bool {
        &&& self.bits >= SIGN_BIT
        &&& !self.spec_is_zero()
        &&& !self.spec_is_nan()
    }

    /// The place of a scalar that is no NaN among the others: scalars are
    /// ordered as these integers are, and the two zeros share one place.
    pub open spec fn spec_key(self) -> int {
        if self.bits >= SIGN_BIT {
            -self.spec_magnitude()
        } else {
            self.spec_magnitude()
        }
    }

    /// The scalar is at most `other`, as IEEE-754 orders scalars: neither
    /// is a NaN, and it stands at or before `other`.
    pub open spec fn spec_le(self, other: Real) -> bool {
        &&& !self.spec_is_nan()
        &&& !other.spec_is_nan()
        &&& self.spec_key() <= other.spec_key()
    }

    /// Equality of the two scalars as IEEE-754 defines it: a NaN equals
    /// nothing, the two zeros equal each other, every other value equals
    /// only its own pattern.
    pub open spec fn same_value(self, other: Real) -> bool {
        &&& !self.spec_is_nan()
        &&& !other.spec_is_nan()
        &&& (self.bits == other.bits || (self.spec_is_zero() && other.spec_is_zero()))
    }

    /// The scalar with the given pattern.
    pub fn from_bits(bits: u64) -> (r: Real)
        ensures
            r.bits == bits,
    {
        Real { bits }
    }

    /// The pattern of the scalar.
    pub fn to_bits(self) -> (bits: u64)
        ensures
            bits == self.bits,
    {
        self.bits
    }

    /// Positive zero.
    pub fn zero() -> (r: Real)
        ensures
            r.bits == 0,
    {
        Real { bits: 0 }
    }

    /// The pattern without its sign bit.
    pub fn magnitude(self) -> (m: u64)
        ensures
            m == self.spec_magnitude(),
    {
        if self.bits >= SIGN_BIT {
            self.bits - SIGN_BIT
        } else {
            self.bits
        }
    }

    #[verifier::when_used_as_spec(spec_is_nan)]
    pub fn is_nan(self) -> (r: bool)
        ensures
            r == self.spec_is_nan(),
    {
        self.magnitude() > INFINITY_BITS
    }

    /// The place of the scalar among the others.
    pub fn key(self) -> (k: i128)
        ensures
            k == self.spec_key(),
    {
        if self.bits >= SIGN_BIT {
            -(self.magnitude() as i128)
        } else {
            self.magnitude() as i128
        }
    }

    #[verifier::when_used_as_spec(spec_le)]
    pub fn le(self, other: Real) -> (r: bool)
        ensures
            r == self.spec_le(other),
    {
        !self.is_nan() && !other.is_nan() && self.key() <= other.key()
    }

    #[verifier::when_used_as_spec(spec_is_negative)]
    pub fn is_negative(self) -> (r: bool)
        ensures
            r == self.spec_is_negative(),
    {
        self.bits >= SIGN_BIT && !self.is_zero() && !self.is_nan()
    }

    #[verifier::when_used_as_spec(spec_is_zero)]
    pub fn is_zero(self) -> (r: bool)
        ensures
            r == self.spec_is_zero(),
    {
        self.magnitude() == 0
    }
}

impl PartialEq for Real {
    fn eq(&self, other: &Real) -> (r: bool) {
        !self.is_nan() && !other.is_nan() && (self.bits == other.bits || (self.is_zero()
            && other.is_zero()))
    }
}

impl PartialEqSpecImpl for Real {
    open spec fn obeys_eq_spec() -> bool {
        true
    }

    open spec fn eq_spec(&self, other: &Real) -> bool {
        self.same_value(*other)
    }
}

impl Complex {
    /// Both parts are equal as scalars.
    pub open spec fn same_value(self, other: Complex) -> bool {
        self.0.same_value(other.0) && self.1.same_value(other.1)
    }

    /// The origin, both parts positive zero.
    pub fn zero() -> (c: Complex)
        ensures
            c.0.bits == 0,
            c.1.bits == 0,
    {
        Complex(Real::zero(), Real::zero())
    }
}

impl PartialEq for Complex {
    fn eq(&self, other: &Complex) -> (r: bool) {
        self.0 == other.0 && self.1 == other.1
    }
}

impl PartialEqSpecImpl for Complex {
    open spec fn obeys_eq_spec() -> bool {
        true
    }

    open spec fn eq_spec(&self, other: &Complex) -> bool {
        self.same_value(*other)
    }
}

impl From<Real> for Complex {
    fn from(re: Real) -> (c: Complex) {
        Complex(re, Real::zero())
    }
}

impl FromSpecImpl<Real> for Complex {
    open spec fn obeys_from_spec() -> bool {
        true
    }

    open spec fn from_spec(re: Real) -> Complex {
        Complex(re, Real { bits: 0 })
    }
}

} // verus!
