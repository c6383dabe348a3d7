//! Fixed-point 3D force vectors.
//!
//! Components are integers in hundredths of a metre per second squared
//! (centi-units), so Earth's 9.81 is stored as 981. Equality is exact,
//! component by component, which is what the applier's write suppression
//! relies on.

use vstd::prelude::*;

verus! {

/// A 3D force vector with fixed-point components (hundredths of a metre
/// per second squared).
#[derive(Clone, Copy, Debug, PartialEq, Eq, Structural)]
pub struct Force3 {
    pub x: i32,
    pub y: i32,
    pub z: i32,
}

impl Force3 {
    /// The zero vector.
    pub open spec fn spec_zero() -> Force3 {
        Force3 { x: 0, y: 0, z: 0 }
    }

    /// Returns the zero vector.
    pub fn zero() -> (r: Force3)
        ensures
            r == Force3::spec_zero(),
    {
        Force3 { x: 0, y: 0, z: 0 }
    }

    /// Builds a vector from its three components.
    pub fn new(x: i32, y: i32, z: i32) -> (r: Force3)
        ensures
            r == (Force3 { x, y, z }),
    {
        Force3 { x, y, z }
    }

    /// Tests whether every component is zero.
    pub fn is_zero(&self) -> (r: bool)
        ensures
            r == (*self == Force3::spec_zero()),
    {
        self.x == 0 && self.y == 0 && self.z == 0
    }
}

} // verus!
