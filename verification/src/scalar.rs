//! Coordinates, radii and angles as the library stores them.
use vstd::prelude::*;

verus! {

/// Bit pattern of the binary64 number zero.
pub const ZERO_BITS: u64 = 0;

/// Bit pattern of the binary64 number fifty.
pub const FIFTY_BITS: u64 = 0x4049_0000_0000_0000;

/// Bit pattern of the binary64 number three hundred and sixty.
pub const FULL_TURN_BITS: u64 = 0x4076_8000_0000_0000;

/// A real quantity, carried as the bit pattern of its IEEE 754 binary64
/// encoding.
///
/// The library stores and hands back such values without ever computing with
/// them, so two scalars are equal exactly when their bit patterns are.
#[derive(Clone, Copy, PartialEq, Eq, Structural, Debug)]
pub struct Scalar {
    pub bits: u64,
}

impl Scalar {
    /// The scalar with the given bit pattern.
    pub fn from_bits(bits: u64) -> (s: Scalar)
        ensures
            s.bits == bits,
    {
        Scalar { bits }
    }

    /// The bit pattern of this scalar.
    pub fn to_bits(self) -> (bits: u64)
        ensures
            bits == self.bits,
    {
        self.bits
    }

    /// The number zero.
    pub open spec fn spec_zero() -> Scalar {
        Scalar { bits: ZERO_BITS }
    }

    /// The number fifty.
    pub open spec fn spec_fifty() -> Scalar {
        Scalar { bits: FIFTY_BITS }
    }

    /// The number three hundred and sixty, a full turn in degrees.
    pub open spec fn spec_full_turn() -> Scalar {
        Scalar { bits: FULL_TURN_BITS }
    }

    /// The number zero.
    #[verifier::when_used_as_spec(spec_zero)]
    pub fn zero() -> (s: Scalar)
        ensures
            s == Scalar::spec_zero(),
    {
        Scalar { bits: ZERO_BITS }
    }

    /// The number fifty.
    #[verifier::when_used_as_spec(spec_fifty)]
    pub fn fifty() -> (s: Scalar)
        ensures
            s == Scalar::spec_fifty(),
    {
        Scalar { bits: FIFTY_BITS }
    }

    /// The number three hundred and sixty, a full turn in degrees.
    #[verifier::when_used_as_spec(spec_full_turn)]
    pub fn full_turn() -> (s: Scalar)
        ensures
            s == Scalar::spec_full_turn(),
    {
        Scalar { bits: FULL_TURN_BITS }
    }
}

} // verus!
