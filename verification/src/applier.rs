//! The per-tick gravity applier.
//!
//! Once per tick, after the input-handling pass has settled, the applier
//! compares the controller's state against the engine's currently-applied
//! gravity vector and decides what to write. Disabled gravity forces the
//! zero vector unconditionally, every tick. Enabled gravity writes the
//! resolved force only when it differs from the applied vector (exact
//! component equality), and records the old and new values for a
//! diagnostic; when they already agree, nothing is written and no
//! diagnostic is produced. The engine write itself is the host adapter's
//! job; this module only decides.

use vstd::prelude::*;

use crate::force::Force3;
use crate::state::WorldGravity;

verus! {

/// What the applier decided for this tick.
#[derive(Clone, Copy, Debug, PartialEq, Eq, Structural)]
pub enum GravityWrite {
    /// Gravity is disabled: write the zero vector, without a diagnostic.
    ForceZero,
    /// Gravity is enabled and the applied vector has drifted from the
    /// resolved force: write `current` and log the change.
    Change { previous: Force3, current: Force3 },
    /// Gravity is enabled and the applied vector already equals the
    /// resolved force: no write, no diagnostic.
    Suppress,
}

impl GravityWrite {
    /// Whether this decision writes into the engine.
    pub open spec fn spec_writes(self) -> bool {
        self !is Suppress
    }

    /// Whether this decision produces a diagnostic record.
    pub open spec fn spec_diagnoses(self) -> bool {
        self is Change
    }

    /// The applied vector after the decision is carried out, given the
    /// vector that was applied before.
    pub open spec fn spec_written(self, prior: Force3) -> Force3 {
        match self {
            GravityWrite::ForceZero => Force3::spec_zero(),
            GravityWrite::Change { current, .. } => current,
            GravityWrite::Suppress => prior,
        }
    }

    /// Returns the vector the engine holds after this decision is
    /// carried out, given the vector it held before.
    pub fn written(&self, prior: &Force3) -> (r: Force3)
        ensures
            r == self.spec_written(*prior),
    {
        match self {
            GravityWrite::ForceZero => Force3::zero(),
            GravityWrite::Change { current, .. } => *current,
            GravityWrite::Suppress => *prior,
        }
    }
}

impl WorldGravity {
    /// The applier's decision for this state against an applied vector.
    pub open spec fn spec_apply(self, applied: Force3) -> GravityWrite {
        if !self.is_enabled {
            GravityWrite::ForceZero
        } else if applied != self.gravity_force {
            GravityWrite::Change { previous: applied, current: self.gravity_force }
        } else {
            GravityWrite::Suppress
        }
    }

    /// Decides this tick's write against the engine's currently-applied
    /// vector. Disabled gravity always forces zero; enabled gravity
    /// writes the cached force exactly when the applied vector differs
    /// from it, and suppresses the write (and the diagnostic) when they
    /// already agree. Either way, an enabled state ends the tick with
    /// the cached force applied, a disabled one with zero applied.
    pub fn apply_gravity(&self, applied: &Force3) -> (w: GravityWrite)
        ensures
            w == self.spec_apply(*applied),
            !self.is_enabled ==> w.spec_written(*applied) == Force3::spec_zero(),
            self.is_enabled ==> w.spec_written(*applied) == self.gravity_force,
            w is Suppress <==> self.is_enabled && *applied == self.gravity_force,
    {
        if !self.is_enabled {
            GravityWrite::ForceZero
        } else if !(applied.x == self.gravity_force.x && applied.y == self.gravity_force.y
            && applied.z == self.gravity_force.z) {
            GravityWrite::Change { previous: *applied, current: self.gravity_force }
        } else {
            GravityWrite::Suppress
        }
    }

    /// Decides this tick's write when the engine's gravity resource may
    /// be absent. The host guarantees the resource by initialization
    /// order, so absence is a soft condition, not an error: the tick's
    /// write is silently skipped. When the resource is present the
    /// decision is exactly `apply_gravity`'s.
    pub fn apply_gravity_if_present(&self, applied: &Option<Force3>) -> (w: Option<GravityWrite>)
        ensures
            *applied matches Some(a) ==> w == Some(self.spec_apply(a)),
            *applied is None ==> w is None,
    {
        match applied {
            Some(a) => Some(self.apply_gravity(a)),
            None => None,
        }
    }
}

} // verus!
