//! Control policies: what the actuator should be, given what it is and what
//! the sensor just said.
//!
//! A threshold policy has a deadband between `low` and `high` in which the
//! actuator keeps its state, so that a signal hovering near one set-point
//! cannot make it chatter. A duty schedule ignores the sample's value and
//! follows the clock.

use vstd::prelude::*;
use crate::actuator::ActuatorState;
use crate::reading::SensorReading;

verus! {

/// Mathematical content of a policy.
pub enum PolicyModel {
    /// Engage at or above `high`, disengage at or below `low`.
    Threshold { low: int, high: int },
    /// Engaged for `on` milliseconds, then disengaged for `off`, repeating.
    Duty { on: nat, off: nat },
}

impl PolicyModel {
    /// Validity: thresholds are strictly ordered; a schedule has a period.
    pub open spec fn wf(self) -> bool {
        match self {
            PolicyModel::Threshold { low, high } => low < high,
            PolicyModel::Duty { on, off } => on + off > 0 && on + off <= u64::MAX,
        }
    }

    /// Whether `value` lies strictly inside the deadband of a threshold policy.
    pub open spec fn in_deadband(self, value: int) -> bool {
        match self {
            PolicyModel::Threshold { low, high } => low < value < high,
            PolicyModel::Duty { .. } => false,
        }
    }

    /// The state the actuator should have after `reading`, having been `current`.
    pub open spec fn decide(self, current: ActuatorState, reading: SensorReading) -> ActuatorState {
        match self {
            PolicyModel::Threshold { low, high } => {
                if reading.value >= high {
                    ActuatorState::Engaged
                } else if reading.value <= low {
                    ActuatorState::Disengaged
                } else {
                    current
                }
            },
            PolicyModel::Duty { on, off } => {
                if (reading.taken_at as int) % ((on + off) as int) < on {
                    ActuatorState::Engaged
                } else {
                    ActuatorState::Disengaged
                }
            },
        }
    }
}

/// Why a policy could not be built.
#[derive(Clone, Copy, Debug, PartialEq, Eq, Structural)]
pub enum PolicyError {
    /// `low` is not strictly below `high`.
    ThresholdsNotOrdered,
    /// Both durations are zero: the schedule has no period.
    EmptyPeriod,
    /// The two durations together exceed what a `u64` holds.
    PeriodTooLong,
}

/// A pair of thresholds with `low < high`.
#[derive(Clone, Copy, Debug)]
pub struct ThresholdPolicy {
    low: i64,
    high: i64,
}

impl View for ThresholdPolicy {
    type V = PolicyModel;

    closed spec fn view(&self) -> PolicyModel {
        PolicyModel::Threshold { low: self.low as int, high: self.high as int }
    }
}

impl ThresholdPolicy {
    #[verifier::type_invariant]
    spec fn ordered(self) -> bool {
        self.low < self.high
    }

    /// Builds the policy, or says why the thresholds are unusable.
    pub fn new(low: i64, high: i64) -> (made: Result<ThresholdPolicy, PolicyError>)
        ensures
            low < high ==> made is Ok && made->Ok_0@ == (PolicyModel::Threshold {
                low: low as int,
                high: high as int,
            }),
            low >= high ==> made == Err::<ThresholdPolicy, PolicyError>(
                PolicyError::ThresholdsNotOrdered,
            ),
    {
        if low < high {
            Ok(ThresholdPolicy { low, high })
        } else {
            Err(PolicyError::ThresholdsNotOrdered)
        }
    }

    /// The value at or below which the actuator disengages.
    pub fn low(&self) -> (low: i64)
        ensures
            self@ matches PolicyModel::Threshold { low: l, .. } && l == low,
    {
        self.low
    }

    /// The value at or above which the actuator engages.
    pub fn high(&self) -> (high: i64)
        ensures
            self@ matches PolicyModel::Threshold { high: h, .. } && h == high,
    {
        self.high
    }

    /// The next actuator state under this policy.
    pub fn decide(&self, current: ActuatorState, reading: &SensorReading) -> (next: ActuatorState)
        ensures
            self@.wf(),
            next == self@.decide(current, *reading),
    {
        proof {
            use_type_invariant(self);
        }
        if reading.value >= self.high {
            ActuatorState::Engaged
        } else if reading.value <= self.low {
            ActuatorState::Disengaged
        } else {
            current
        }
    }
}

/// A fixed on/off timing pattern with a non-empty period.
#[derive(Clone, Copy, Debug)]
pub struct DutySchedule {
    on_duration: u64,
    off_duration: u64,
}

impl View for DutySchedule {
    type V = PolicyModel;

    closed spec fn view(&self) -> PolicyModel {
        PolicyModel::Duty { on: self.on_duration as nat, off: self.off_duration as nat }
    }
}

impl DutySchedule {
    #[verifier::type_invariant]
    spec fn has_period(self) -> bool {
        0 < self.on_duration + self.off_duration <= u64::MAX
    }

    /// Builds the schedule from its two durations in milliseconds.
    pub fn new(on_duration: u64, off_duration: u64) -> (made: Result<DutySchedule, PolicyError>)
        ensures
            on_duration + off_duration == 0 ==> made == Err::<DutySchedule, PolicyError>(
                PolicyError::EmptyPeriod,
            ),
            on_duration + off_duration > u64::MAX ==> made == Err::<DutySchedule, PolicyError>(
                PolicyError::PeriodTooLong,
            ),
            0 < on_duration + off_duration <= u64::MAX ==> made is Ok && made->Ok_0@ == (
            PolicyModel::Duty { on: on_duration as nat, off: off_duration as nat }),
    {
        if on_duration == 0 && off_duration == 0 {
            Err(PolicyError::EmptyPeriod)
        } else if on_duration > u64::MAX - off_duration {
            Err(PolicyError::PeriodTooLong)
        } else {
            Ok(DutySchedule { on_duration, off_duration })
        }
    }

    /// Milliseconds spent engaged in each period.
    pub fn on_duration(&self) -> (on: u64)
        ensures
            self@ matches PolicyModel::Duty { on: d, .. } && d == on,
    {
        self.on_duration
    }

    /// Milliseconds spent disengaged in each period.
    pub fn off_duration(&self) -> (off: u64)
        ensures
            self@ matches PolicyModel::Duty { off: d, .. } && d == off,
    {
        self.off_duration
    }

    /// Length of one full cycle in milliseconds.
    pub fn period(&self) -> (period: u64)
        ensures
            self@ matches PolicyModel::Duty { on, off } && period == on + off,
            period > 0,
    {
        proof {
            use_type_invariant(self);
        }
        self.on_duration + self.off_duration
    }

    /// The state the schedule prescribes at the moment the sample was taken.
    pub fn decide(&self, reading: &SensorReading) -> (next: ActuatorState)
        ensures
            self@.wf(),
            forall|current: ActuatorState| next == #[trigger] self@.decide(current, *reading),
    {
        let period = self.period();
        let phase = reading.taken_at % period;
        if phase < self.on_duration {
            ActuatorState::Engaged
        } else {
            ActuatorState::Disengaged
        }
    }
}

/// The policy a control loop is configured with, fixed at startup.
#[derive(Clone, Copy, Debug)]
pub enum HysteresisPolicy {
    Threshold(ThresholdPolicy),
    Duty(DutySchedule),
}

impl View for HysteresisPolicy {
    type V = PolicyModel;

    open spec fn view(&self) -> PolicyModel {
        match self {
            HysteresisPolicy::Threshold(thresholds) => thresholds@,
            HysteresisPolicy::Duty(schedule) => schedule@,
        }
    }
}

impl HysteresisPolicy {
    /// A threshold policy, if `low < high`.
    pub fn threshold(low: i64, high: i64) -> (made: Result<HysteresisPolicy, PolicyError>)
        ensures
            low < high ==> made is Ok && made->Ok_0@ == (PolicyModel::Threshold {
                low: low as int,
                high: high as int,
            }),
            low >= high ==> made == Err::<HysteresisPolicy, PolicyError>(
                PolicyError::ThresholdsNotOrdered,
            ),
    {
        match ThresholdPolicy::new(low, high) {
            Ok(thresholds) => Ok(HysteresisPolicy::Threshold(thresholds)),
            Err(error) => Err(error),
        }
    }

    /// A duty schedule, if its period is non-empty and fits.
    pub fn duty(on_duration: u64, off_duration: u64) -> (made: Result<HysteresisPolicy, PolicyError>)
        ensures
            on_duration + off_duration == 0 ==> made == Err::<HysteresisPolicy, PolicyError>(
                PolicyError::EmptyPeriod,
            ),
            on_duration + off_duration > u64::MAX ==> made == Err::<HysteresisPolicy, PolicyError>(
                PolicyError::PeriodTooLong,
            ),
            0 < on_duration + off_duration <= u64::MAX ==> made is Ok && made->Ok_0@ == (
            PolicyModel::Duty { on: on_duration as nat, off: off_duration as nat }),
    {
        match DutySchedule::new(on_duration, off_duration) {
            Ok(schedule) => Ok(HysteresisPolicy::Duty(schedule)),
            Err(error) => Err(error),
        }
    }

    /// The state the actuator should take after `reading`, having been `current`.
    ///
    /// Under a threshold policy the result is `Engaged` when the value is at
    /// or above `high`, `Disengaged` when it is at or below `low`, and
    /// `current` inside the deadband. Under a duty schedule it is `Engaged`
    /// exactly while the sample's time falls in the first `on` milliseconds of
    /// its period.
    pub fn decide(&self, current: ActuatorState, reading: &SensorReading) -> (next: ActuatorState)
        ensures
            self@.wf(),
            next == self@.decide(current, *reading),
    {
        match self {
            HysteresisPolicy::Threshold(thresholds) => thresholds.decide(current, reading),
            HysteresisPolicy::Duty(schedule) => schedule.decide(reading),
        }
    }
}

} // verus!
