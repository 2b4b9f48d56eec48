//! Opaque real-valued quantities.
//!
//! The harness works with real numbers — camera angles and world
//! coordinates — whose arithmetic is floating point and therefore lives in the
//! unverified shell. Inside the library each such quantity is carried as its
//! raw 32-bit word. The library never interprets the word: it only stores,
//! copies and compares these values, so every contract about them is a
//! statement about which quantity flows where, never about its magnitude.

use vstd::prelude::*;

verus! {

/// A real-valued quantity, carried as its raw 32-bit encoding.
#[derive(Clone, Copy, Debug, PartialEq, Eq, Structural)]
pub struct Scalar {
    /// The raw encoding. The library treats it as opaque.
    pub bits: u32,
}

/// A point or direction in world space: three opaque coordinates.
#[derive(Clone, Copy, Debug, PartialEq, Eq, Structural)]
pub struct Vec3 {
    pub x: Scalar,
    pub y: Scalar,
    pub z: Scalar,
}

} // verus!
