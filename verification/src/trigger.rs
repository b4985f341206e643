//! Central edge detection. Every clocked component decides whether a clock
//! transition fires through the one predicate defined here, so the edge model
//! cannot drift between primitives.

use vstd::prelude::*;

verus! {

/// Which clock-level transition fires a synchronous action.
#[derive(PartialEq, Eq, Structural, Clone, Copy, Debug)]
pub enum TriggerMode {
    /// Fire when the level goes from low to high.
    RisingEdge,
    /// Fire when the level goes from high to low.
    FallingEdge,
    /// Fire on either transition.
    BothEdges,
}

/// A transition fires only when the incoming level differs from the stored
/// one, and then only if the direction matches the trigger mode.
pub open spec fn fires(old_clock_state: bool, new_clock_state: bool, trigger_mode: TriggerMode) -> bool {
    new_clock_state != old_clock_state && (trigger_mode is BothEdges
        || (trigger_mode is RisingEdge && new_clock_state)
        || (trigger_mode is FallingEdge && !new_clock_state))
}

/// Decide whether the change from `old_clock_state` to `new_clock_state`
/// fires an action under `trigger_mode`.
pub fn should_trigger(old_clock_state: bool, new_clock_state: bool, trigger_mode: TriggerMode) -> (r: bool)
    ensures
        r == fires(old_clock_state, new_clock_state, trigger_mode),
{
    if new_clock_state != old_clock_state && (trigger_mode == TriggerMode::BothEdges
        || trigger_mode == TriggerMode::RisingEdge && new_clock_state
        || trigger_mode == TriggerMode::FallingEdge && !new_clock_state) {
        return true;
    }
    false
}

/// Re-asserting the level already held never fires, under any mode.
pub proof fn lemma_same_level_never_fires(level: bool, trigger_mode: TriggerMode)
    ensures
        !fires(level, level, trigger_mode),
{
}

} // verus!
