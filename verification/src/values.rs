//! Plain-value carriers for the numeric quantities an effect document holds.
//!
//! The external runtime works with IEEE-754 single-precision numbers. The
//! document model carries each such number as its raw 32-bit pattern, so that
//! every field is a plain integer: editing, compiling and persisting never
//! interpret the number, they only move it, and moving bits is exact.

use vstd::prelude::*;

verus! {

/// One IEEE-754 single-precision number, carried as its raw bit pattern.
#[derive(Clone, Copy, Debug, PartialEq, Eq, Structural)]
pub struct FloatBits {
    pub bits: u32,
}

/// A three-component vector of single-precision numbers, by bit pattern.
#[derive(Clone, Copy, Debug, PartialEq, Eq, Structural)]
pub struct Vec3Bits {
    pub x: FloatBits,
    pub y: FloatBits,
    pub z: FloatBits,
}

/// A four-component vector of single-precision numbers, by bit pattern.
#[derive(Clone, Copy, Debug, PartialEq, Eq, Structural)]
pub struct Vec4Bits {
    pub x: FloatBits,
    pub y: FloatBits,
    pub z: FloatBits,
    pub w: FloatBits,
}

} // verus!
