//! The closed set of gravity presets and their force table.
//!
//! Each preset maps to a downward force along the vertical axis, and to a
//! sign-reversed counterpart of the same magnitude along the positive
//! vertical axis. Space is the zero vector in both orientations. The
//! mapping is pure and total: no other modes, no interpolation.

use vstd::prelude::*;

use crate::force::Force3;

verus! {

/// A named gravity preset. Magnitudes are in hundredths of a metre per
/// second squared: Moon is 162, Earth is 981, Space is zero.
#[derive(Clone, Copy, Debug, PartialEq, Eq, Structural)]
pub enum GravityType {
    Space,
    Moon,
    Earth,
}

impl GravityType {
    /// The downward force of this preset: zero for Space, otherwise a
    /// negative component on the vertical axis.
    pub open spec fn spec_force(self) -> Force3 {
        match self {
            GravityType::Space => Force3 { x: 0, y: 0, z: 0 },
            GravityType::Moon => Force3 { x: 0, y: -162i32, z: 0 },
            GravityType::Earth => Force3 { x: 0, y: -981i32, z: 0 },
        }
    }

    /// The reversed force of this preset: the same magnitude as
    /// `spec_force`, along the positive vertical axis.
    pub open spec fn spec_reverse(self) -> Force3 {
        match self {
            GravityType::Space => Force3 { x: 0, y: 0, z: 0 },
            GravityType::Moon => Force3 { x: 0, y: 162, z: 0 },
            GravityType::Earth => Force3 { x: 0, y: 981, z: 0 },
        }
    }

    /// Returns the downward force for this preset.
    pub fn gravity_force(self) -> (r: Force3)
        ensures
            r == self.spec_force(),
    {
        match self {
            GravityType::Space => Force3 { x: 0, y: 0, z: 0 },
            GravityType::Moon => Force3 { x: 0, y: -162i32, z: 0 },
            GravityType::Earth => Force3 { x: 0, y: -981i32, z: 0 },
        }
    }

    /// Returns the reversed force for this preset: the downward force
    /// with its vertical component negated.
    pub fn gravity_reverse(self) -> (r: Force3)
        ensures
            r == self.spec_reverse(),
            r.y == -self.spec_force().y,
            r.x == self.spec_force().x,
            r.z == self.spec_force().z,
    {
        match self {
            GravityType::Space => Force3 { x: 0, y: 0, z: 0 },
            GravityType::Moon => Force3 { x: 0, y: 162, z: 0 },
            GravityType::Earth => Force3 { x: 0, y: 981, z: 0 },
        }
    }
}

} // verus!
