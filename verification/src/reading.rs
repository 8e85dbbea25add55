//! Sensor samples.

use vstd::prelude::*;

verus! {

/// Unit in which a sample's value is expressed.
#[derive(Clone, Copy, Debug, PartialEq, Eq, Structural)]
pub enum Unit {
    /// Thousandths of a degree Celsius.
    MilliCelsius,
    /// Elapsed sampling ticks.
    Ticks,
}

/// One sample: a scalar, its unit, and when it was taken.
///
/// `taken_at` counts milliseconds since the control loop started. A sample has
/// no identity beyond these three values.
#[derive(Clone, Copy, Debug, PartialEq, Eq, Structural)]
pub struct SensorReading {
    pub value: i64,
    pub unit: Unit,
    pub taken_at: u64,
}

impl SensorReading {
    /// A temperature sample in thousandths of a degree.
    pub fn millicelsius(value: i64, taken_at: u64) -> (reading: SensorReading)
        ensures
            reading == (SensorReading { value, unit: Unit::MilliCelsius, taken_at }),
    {
        SensorReading { value, unit: Unit::MilliCelsius, taken_at }
    }

    /// The `count`-th tick of a time-driven pattern, observed at `taken_at`.
    pub fn tick(count: i64, taken_at: u64) -> (reading: SensorReading)
        ensures
            reading == (SensorReading { value: count, unit: Unit::Ticks, taken_at }),
    {
        SensorReading { value: count, unit: Unit::Ticks, taken_at }
    }
}

} // verus!
