//! Laws of the gravity controller, stated and proved once over the
//! specification-level step and apply functions.

use vstd::prelude::*;

use crate::applier::GravityWrite;
use crate::force::Force3;
use crate::mode::GravityType;
use crate::state::GravityInput;
use crate::state::WorldGravity;

verus! {

/// After any input-handling pass — whichever transition fired, or none —
/// the cached force equals what the reversed flag and preset resolve to:
/// the preset's reversed force when reversed, its downward force
/// otherwise.
pub proof fn lemma_step_resolves(s: WorldGravity, input: Option<GravityInput>)
    ensures
        s.spec_step(input).wf(),
        s.spec_step(input).gravity_force == (if s.spec_step(input).is_reversed {
            s.spec_step(input).gravity_type.spec_reverse()
        } else {
            s.spec_step(input).gravity_type.spec_force()
        }),
{
}

/// Selecting the same preset twice in succession yields exactly the
/// state that selecting it once yields; in particular the resolved
/// force is the same.
pub proof fn lemma_select_mode_idempotent(s: WorldGravity, m: GravityType)
    ensures
        s.spec_step(Some(GravityInput::SelectMode(m))).spec_step(
            Some(GravityInput::SelectMode(m)),
        ) == s.spec_step(Some(GravityInput::SelectMode(m))),
{
}

/// The degenerate case: toggling the reversed flag while the preset is
/// Space flips the flag but leaves the resolved force at the zero
/// vector, both before and after the toggle.
pub proof fn lemma_space_reverse_degenerate(s: WorldGravity)
    requires
        s.wf(),
        s.gravity_type == GravityType::Space,
    ensures
        s.gravity_force == Force3::spec_zero(),
        s.spec_step(Some(GravityInput::ToggleReversed)).is_reversed == !s.is_reversed,
        s.spec_step(Some(GravityInput::ToggleReversed)).gravity_force == Force3::spec_zero(),
{
}

/// Disabled overrides the resolved force: whenever the enabled flag is
/// down, the tick leaves the zero vector applied to the engine,
/// whatever the preset, the reversed flag, or the previously-applied
/// vector were.
pub proof fn lemma_disabled_overrides(s: WorldGravity, applied: Force3)
    requires
        !s.is_enabled,
    ensures
        s.spec_apply(applied).spec_written(applied) == Force3::spec_zero(),
{
}

/// Write suppression: with gravity enabled and the applied vector
/// already equal to the resolved force, a tick with no input event
/// decides to write nothing and produces no diagnostic.
pub proof fn lemma_write_suppression(s: WorldGravity, applied: Force3)
    requires
        s.wf(),
        s.is_enabled,
        applied == s.gravity_force,
    ensures
        s.spec_step(None) == s,
        s.spec_step(None).spec_apply(applied) == GravityWrite::Suppress,
        !s.spec_step(None).spec_apply(applied).spec_writes(),
        !s.spec_step(None).spec_apply(applied).spec_diagnoses(),
{
}

} // verus!
