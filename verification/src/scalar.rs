//! Opaque engine-side real numbers.
//!
//! Every real-valued quantity that crosses the boundary to the numeric
//! engine (angles, Julian-date fractions, state-vector components, ...)
//! is carried through this layer as the raw 64-bit IEEE-754 pattern of
//! the engine's double-precision value.  This layer never does real
//! arithmetic: it validates, routes and stores these values, so the bit
//! pattern is the right model — two quantities are the same exactly when
//! their patterns are.

use vstd::prelude::*;

verus! {

/// A double-precision engine value, held as its raw bit pattern.
#[derive(Debug, Clone, Copy, PartialEq, Eq, Structural)]
pub struct Scalar {
    pub bits: u64,
}

/// Bit pattern of the engine value `+0.0`.
pub const POS_ZERO_BITS: u64 = 0x0000_0000_0000_0000;

/// Bit pattern of the engine value `-0.0`.
pub const NEG_ZERO_BITS: u64 = 0x8000_0000_0000_0000;

impl Scalar {
    /// Wrap a raw IEEE-754 double bit pattern.
    pub fn from_bits(bits: u64) -> (s: Scalar)
        ensures
            s.bits == bits,
    {
        Scalar { bits }
    }

    /// The raw IEEE-754 double bit pattern of this value.
    pub fn bits(&self) -> (b: u64)
        ensures
            b == self.bits,
    {
        self.bits
    }

    /// The engine value `0.0` as a spec value.
    pub open spec fn spec_zero() -> Scalar {
        Scalar { bits: POS_ZERO_BITS }
    }

    /// The engine value `0.0`, used where no correction term is supplied.
    pub fn zero() -> (s: Scalar)
        ensures
            s == Scalar::spec_zero(),
            s.bits == POS_ZERO_BITS,
    {
        Scalar { bits: POS_ZERO_BITS }
    }

    /// Whether this is one of the two IEEE-754 zeros.  The engine uses a
    /// zero as the "value absent" sentinel, so both encodings count.
    pub fn is_zero(&self) -> (z: bool)
        ensures
            z == self.spec_is_zero(),
    {
        self.bits == POS_ZERO_BITS || self.bits == NEG_ZERO_BITS
    }

    pub open spec fn spec_is_zero(&self) -> bool {
        self.bits == POS_ZERO_BITS || self.bits == NEG_ZERO_BITS
    }
}

/// A three-component engine vector (a position, a velocity or a unit
/// direction), component by component.
#[derive(Debug, Clone, Copy, PartialEq, Eq, Structural)]
pub struct Vector3 {
    pub x: Scalar,
    pub y: Scalar,
    pub z: Scalar,
}

impl Vector3 {
    pub fn new(x: Scalar, y: Scalar, z: Scalar) -> (v: Vector3)
        ensures
            v.x == x && v.y == y && v.z == z,
    {
        Vector3 { x, y, z }
    }

    /// The all-zero vector.
    pub fn zero() -> (v: Vector3)
        ensures
            v.x.spec_is_zero() && v.y.spec_is_zero() && v.z.spec_is_zero(),
    {
        Vector3 { x: Scalar::zero(), y: Scalar::zero(), z: Scalar::zero() }
    }
}

} // verus!
