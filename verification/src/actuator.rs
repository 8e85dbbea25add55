//! The two-state digital actuator.

use vstd::prelude::*;

verus! {

/// Commanded state of the actuator.
#[derive(Clone, Copy, Debug, PartialEq, Eq, Structural)]
pub enum ActuatorState {
    /// Off, low: the physically safe state.
    Disengaged,
    /// On, high.
    Engaged,
}

impl ActuatorState {
    /// The state the actuator starts in and is left in when the loop ends.
    pub open spec fn safe() -> ActuatorState {
        ActuatorState::Disengaged
    }

    /// Whether the output is driven high.
    pub fn is_engaged(&self) -> (engaged: bool)
        ensures
            engaged == (*self == ActuatorState::Engaged),
    {
        match self {
            ActuatorState::Engaged => true,
            ActuatorState::Disengaged => false,
        }
    }
}

impl Default for ActuatorState {
    /// The safe state.
    fn default() -> (state: ActuatorState)
        ensures
            state == ActuatorState::safe(),
    {
        ActuatorState::Disengaged
    }
}

} // verus!
