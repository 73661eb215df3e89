//! Fire safety interlock: while the smoke input is asserted it overrides
//! the control engine, and when the input clears it restores the vent
//! command captured at the moment of assertion.

use vstd::prelude::*;

use crate::calendar::spec_tick;
use crate::control::{SprinklerState, VentState};
use crate::preferences::Preferences;

verus! {

/// The interlock's state: `Normal` while no smoke is detected, `Alarm`
/// while it is.  `Alarm` carries the vent command that was in force when
/// smoke was first asserted, to be restored verbatim when it clears.
#[derive(Clone, Copy, Debug, PartialEq, Eq, Structural)]
pub enum InterlockState {
    Normal,
    Alarm { prior_vent: VentState },
}

/// The full actuator override the interlock commands, buzzer included.
#[derive(Clone, Copy, Debug, PartialEq, Eq, Structural)]
pub struct SafetyOutputs {
    pub vent: VentState,
    pub sprinklers: SprinklerState,
    pub buzzer: bool,
}

/// The state entered when smoke is first asserted: the current vent
/// command is captured for later restoration.
pub open spec fn spec_engage(current_vent: VentState) -> InterlockState {
    InterlockState::Alarm { prior_vent: current_vent }
}

/// The outputs forced for the whole time smoke is asserted: sprinklers
/// on, vent closed, buzzer on.
pub open spec fn spec_alarm_outputs() -> SafetyOutputs {
    SafetyOutputs { vent: VentState::Closed, sprinklers: SprinklerState::On, buzzer: true }
}

/// The outputs commanded when smoke clears: buzzer and sprinklers off,
/// and the vent restored to the command captured at assertion (not
/// recomputed from sensor data).
pub open spec fn spec_clear_outputs(state: InterlockState) -> SafetyOutputs
    recommends
        state is Alarm,
{
    SafetyOutputs { vent: state->prior_vent, sprinklers: SprinklerState::Off, buzzer: false }
}

/// Enters the alarm state when smoke is first asserted, capturing the
/// vent's currently commanded state, and returns the forced outputs.
pub fn engage(current_vent: VentState) -> (r: (InterlockState, SafetyOutputs))
    ensures
        r.0 == spec_engage(current_vent),
        r.1 == spec_alarm_outputs(),
{
    (
        InterlockState::Alarm { prior_vent: current_vent },
        SafetyOutputs { vent: VentState::Closed, sprinklers: SprinklerState::On, buzzer: true },
    )
}

/// One iteration of the alarm loop (period about one second): wall-clock
/// tracking continues, the forced outputs stay in place, and the captured
/// state is untouched.
pub fn alarm_iteration(prefs: &mut Preferences, state: &InterlockState) -> (outputs: SafetyOutputs)
    requires
        old(prefs).calendar.wf(),
    ensures
        outputs == spec_alarm_outputs(),
        final(prefs).calendar == spec_tick(old(prefs).calendar),
        final(prefs).calendar.wf(),
        final(prefs).temperature == old(prefs).temperature,
        final(prefs).humidity == old(prefs).humidity,
        final(prefs).watering == old(prefs).watering,
{
    prefs.tick_time();
    SafetyOutputs { vent: VentState::Closed, sprinklers: SprinklerState::On, buzzer: true }
}

/// Leaves the alarm state when the smoke input clears: buzzer and
/// sprinklers go off and the vent returns to the command captured at
/// assertion, regardless of any sensor readings taken during the alarm.
/// The next regular poll cycle then re-evaluates everything afresh.
pub fn clear(state: InterlockState) -> (r: (InterlockState, SafetyOutputs))
    requires
        state is Alarm,
    ensures
        r.0 == InterlockState::Normal,
        r.1 == spec_clear_outputs(state),
{
    match state {
        InterlockState::Alarm { prior_vent } => (
            InterlockState::Normal,
            SafetyOutputs { vent: prior_vent, sprinklers: SprinklerState::Off, buzzer: false },
        ),
        InterlockState::Normal => (
            InterlockState::Normal,
            SafetyOutputs {
                vent: VentState::Closed,
                sprinklers: SprinklerState::Off,
                buzzer: false,
            },
        ),
    }
}

/// Law: whatever vent command is in force when smoke is asserted — open
/// or closed — is the one commanded again immediately after smoke clears.
/// Alarm iterations advance only the calendar, never the captured state,
/// so no sensor reading taken during the alarm can influence the restored
/// command.
pub proof fn lemma_vent_restored(prior_vent: VentState)
    ensures
        spec_clear_outputs(spec_engage(prior_vent)).vent == prior_vent,
        spec_clear_outputs(spec_engage(prior_vent)).sprinklers == SprinklerState::Off,
        !spec_clear_outputs(spec_engage(prior_vent)).buzzer,
{
}

} // verus!
