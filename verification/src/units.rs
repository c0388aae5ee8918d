//! The numeric vocabulary of the crate: scalars, points and resolutions.

use vstd::prelude::*;

verus! {

/// Bit pattern of the binary64 number `0.0`.
pub const ZERO: u64 = 0x0000_0000_0000_0000;

/// Bit pattern of the binary64 number `0.5`.
pub const HALF: u64 = 0x3FE0_0000_0000_0000;

/// Bit pattern of the binary64 number `1.0`.
pub const ONE: u64 = 0x3FF0_0000_0000_0000;

/// Width and height of an image, in pixels.
pub type Resolution = (u32, u32);

/// The colour accumulators of an image, one per pixel.
pub type Pixels = Vec<Point>;

/// An IEEE 754 binary64 number, carried as its 64-bit pattern.
///
/// The crate stores such numbers and hands them back; it does no arithmetic on
/// them. Two scalars are equal when their bit patterns are, so `0.0` differs from
/// `-0.0` and a NaN equals itself.
#[derive(Clone, Copy, Debug, PartialEq, Eq)]
pub struct Scalar {
    pub bits: u64,
}

impl Scalar {
    /// The scalar with the given bit pattern.
    pub fn from_bits(bits: u64) -> (scalar: Scalar)
        ensures
            scalar.bits == bits,
    {
        Scalar { bits }
    }

    /// The bit pattern of this scalar.
    pub fn to_bits(self) -> (bits: u64)
        ensures
            bits == self.bits,
    {
        self.bits
    }
}

/// A point or a direction in space, by its three coordinates.
#[derive(Clone, Copy, Debug, PartialEq, Eq)]
pub struct Point {
    pub x: Scalar,
    pub y: Scalar,
    pub z: Scalar,
}

impl Point {
    /// The point `(0.0, 0.0, 0.0)`.
    pub open spec fn origin() -> Point {
        Point { x: Scalar { bits: ZERO }, y: Scalar { bits: ZERO }, z: Scalar { bits: ZERO } }
    }

    /// The point with the given coordinates.
    pub fn new(x: Scalar, y: Scalar, z: Scalar) -> (point: Point)
        ensures
            point == (Point { x, y, z }),
    {
        Point { x, y, z }
    }
}

impl Default for Point {
    /// The origin.
    fn default() -> (point: Point)
        ensures
            point == Point::origin(),
    {
        Point { x: Scalar { bits: ZERO }, y: Scalar { bits: ZERO }, z: Scalar { bits: ZERO } }
    }
}

} // verus!
