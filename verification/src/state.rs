//! The gravity controller's state machine and input mapper.
//!
//! `WorldGravity` holds the enabled flag, the reversed flag, the current
//! preset, and the force vector they resolve to. Discrete edge-triggered
//! inputs mutate the flags and the preset; after every input-handling
//! pass the resolved force is recomputed unconditionally, so the cached
//! vector always matches the flags and preset once the pass is over,
//! even if something else mutated the state in between.

use vstd::prelude::*;

use crate::force::Force3;
use crate::mode::GravityType;

verus! {

/// A discrete input event, recognized on the press edge of its key.
#[derive(Clone, Copy, Debug, PartialEq, Eq, Structural)]
pub enum GravityInput {
    /// Flip the enabled flag.
    ToggleEnabled,
    /// Select a gravity preset.
    SelectMode(GravityType),
    /// Flip the reversed flag.
    ToggleReversed,
}

/// The controller's state: created once with `WorldGravity::default()`
/// and mutated only through the methods below.
#[derive(Clone, Copy, Debug, PartialEq, Eq, Structural)]
pub struct WorldGravity {
    /// Whether gravity is applied to the engine at all.
    pub is_enabled: bool,
    /// Whether the resolved force points up instead of down.
    pub is_reversed: bool,
    /// The selected preset.
    pub gravity_type: GravityType,
    /// The cached force that the preset and the reversed flag resolve to.
    pub gravity_force: Force3,
}

impl WorldGravity {
    /// The force the flags and preset currently imply: the preset's
    /// reversed force when `is_reversed` holds, its downward force
    /// otherwise.
    pub open spec fn spec_resolved(self) -> Force3 {
        if self.is_reversed {
            self.gravity_type.spec_reverse()
        } else {
            self.gravity_type.spec_force()
        }
    }

    /// Well-formedness: the cached vector matches what the preset and
    /// the reversed flag resolve to. Established by the constructor and
    /// restored by every input-handling pass.
    pub open spec fn wf(self) -> bool {
        self.gravity_force == self.spec_resolved()
    }

    /// The initial state: disabled, not reversed, Space preset, zero
    /// force.
    pub open spec fn spec_default() -> WorldGravity {
        WorldGravity {
            is_enabled: false,
            is_reversed: false,
            gravity_type: GravityType::Space,
            gravity_force: Force3::spec_zero(),
        }
    }

    /// The bare transition an input triggers. Each input touches exactly
    /// one field; none recomputes the cached force.
    pub open spec fn spec_transition(self, input: GravityInput) -> WorldGravity {
        match input {
            GravityInput::ToggleEnabled => WorldGravity {
                is_enabled: !self.is_enabled,
                is_reversed: self.is_reversed,
                gravity_type: self.gravity_type,
                gravity_force: self.gravity_force,
            },
            GravityInput::SelectMode(m) => WorldGravity {
                is_enabled: self.is_enabled,
                is_reversed: self.is_reversed,
                gravity_type: m,
                gravity_force: self.gravity_force,
            },
            GravityInput::ToggleReversed => WorldGravity {
                is_enabled: self.is_enabled,
                is_reversed: !self.is_reversed,
                gravity_type: self.gravity_type,
                gravity_force: self.gravity_force,
            },
        }
    }

    /// The recompute step: the cached force is replaced by what the
    /// flags and preset resolve to; everything else is kept.
    pub open spec fn spec_recompute(self) -> WorldGravity {
        WorldGravity {
            is_enabled: self.is_enabled,
            is_reversed: self.is_reversed,
            gravity_type: self.gravity_type,
            gravity_force: self.spec_resolved(),
        }
    }

    /// One full input-handling pass: the transition for the input that
    /// fired this tick, if any, followed by the unconditional recompute.
    pub open spec fn spec_step(self, input: Option<GravityInput>) -> WorldGravity {
        match input {
            Some(i) => self.spec_transition(i).spec_recompute(),
            None => self.spec_recompute(),
        }
    }

    /// Applies the bare transition for one input, without recomputing
    /// the cached force.
    pub fn apply_input(&mut self, input: GravityInput)
        ensures
            *final(self) == old(self).spec_transition(input),
    {
        match input {
            GravityInput::ToggleEnabled => {
                self.is_enabled = !self.is_enabled;
            },
            GravityInput::SelectMode(m) => {
                self.gravity_type = m;
            },
            GravityInput::ToggleReversed => {
                self.is_reversed = !self.is_reversed;
            },
        }
    }

    /// Recomputes the cached force from the preset and the reversed
    /// flag. Run unconditionally at the end of every tick's
    /// input-handling pass, so it restores well-formedness whatever
    /// mutated the state before it.
    pub fn recompute_force(&mut self)
        ensures
            *final(self) == old(self).spec_recompute(),
            final(self).wf(),
    {
        if self.is_reversed {
            self.gravity_force = self.gravity_type.gravity_reverse();
        } else {
            self.gravity_force = self.gravity_type.gravity_force();
        }
    }

    /// One full input-handling pass for this tick: applies the
    /// transition for the input that fired, if any, then recomputes the
    /// cached force unconditionally. Leaves the state well-formed, with
    /// the cached force equal to what the new flags and preset resolve
    /// to.
    pub fn handle_gravity_type(&mut self, input: Option<GravityInput>)
        ensures
            *final(self) == old(self).spec_step(input),
            final(self).wf(),
            final(self).gravity_force == final(self).spec_resolved(),
    {
        match input {
            Some(i) => {
                self.apply_input(i);
            },
            None => {},
        }
        self.recompute_force();
    }
}

impl Default for WorldGravity {
    /// Returns the initial state: disabled, not reversed, Space preset,
    /// zero force. Well-formed from the start.
    fn default() -> (r: WorldGravity)
        ensures
            r == WorldGravity::spec_default(),
            r.wf(),
    {
        WorldGravity {
            is_enabled: false,
            is_reversed: false,
            gravity_type: GravityType::Space,
            gravity_force: Force3::zero(),
        }
    }
}

} // verus!
