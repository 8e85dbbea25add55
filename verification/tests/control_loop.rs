use rackbox::actuator::ActuatorState;
use rackbox::control::{Action, ControlLoop, Event, LoopState, Transition};
use rackbox::policy::{DutySchedule, HysteresisPolicy, PolicyError, ThresholdPolicy};
use rackbox::reading::{SensorReading, Unit};

fn thermostat() -> ControlLoop {
    ControlLoop::new(HysteresisPolicy::threshold(40, 50).unwrap(), 10_000)
}

fn degrees(value: i64) -> Event {
    Event::Sampled(SensorReading::millicelsius(value, 0))
}

#[test]
fn thresholds_must_be_strictly_ordered() {
    assert!(ThresholdPolicy::new(40, 50).is_ok());
    assert_eq!(ThresholdPolicy::new(50, 50).unwrap_err(), PolicyError::ThresholdsNotOrdered);
    assert_eq!(ThresholdPolicy::new(51, 50).unwrap_err(), PolicyError::ThresholdsNotOrdered);
    assert_eq!(
        HysteresisPolicy::threshold(i64::MAX, i64::MIN).unwrap_err(),
        PolicyError::ThresholdsNotOrdered
    );
    let policy = ThresholdPolicy::new(-5, 7).unwrap();
    assert_eq!(policy.low(), -5);
    assert_eq!(policy.high(), 7);
}

#[test]
fn duty_schedule_needs_a_period_that_fits() {
    assert_eq!(DutySchedule::new(0, 0).unwrap_err(), PolicyError::EmptyPeriod);
    assert_eq!(DutySchedule::new(u64::MAX, 1).unwrap_err(), PolicyError::PeriodTooLong);
    assert_eq!(DutySchedule::new(1, u64::MAX).unwrap_err(), PolicyError::PeriodTooLong);
    assert_eq!(HysteresisPolicy::duty(0, 0).unwrap_err(), PolicyError::EmptyPeriod);
    let schedule = DutySchedule::new(u64::MAX, 0).unwrap();
    assert_eq!(schedule.period(), u64::MAX);
    let schedule = DutySchedule::new(62, 38).unwrap();
    assert_eq!(schedule.on_duration(), 62);
    assert_eq!(schedule.off_duration(), 38);
    assert_eq!(schedule.period(), 100);
}

#[test]
fn readings_carry_value_unit_and_time() {
    let reading = SensorReading::millicelsius(46_251, 17);
    assert_eq!(reading, SensorReading { value: 46_251, unit: Unit::MilliCelsius, taken_at: 17 });
    let tick = SensorReading::tick(3, 186);
    assert_eq!(tick, SensorReading { value: 3, unit: Unit::Ticks, taken_at: 186 });
}

#[test]
fn threshold_decision_at_the_edges() {
    let policy = HysteresisPolicy::threshold(40, 50).unwrap();
    let at = |value: i64| SensorReading::millicelsius(value, 0);
    assert_eq!(policy.decide(ActuatorState::Disengaged, &at(50)), ActuatorState::Engaged);
    assert_eq!(policy.decide(ActuatorState::Disengaged, &at(49)), ActuatorState::Disengaged);
    assert_eq!(policy.decide(ActuatorState::Engaged, &at(40)), ActuatorState::Disengaged);
    assert_eq!(policy.decide(ActuatorState::Engaged, &at(41)), ActuatorState::Engaged);
    assert_eq!(policy.decide(ActuatorState::Engaged, &at(i64::MIN)), ActuatorState::Disengaged);
    assert_eq!(policy.decide(ActuatorState::Disengaged, &at(i64::MAX)), ActuatorState::Engaged);
    assert_eq!(policy.decide(ActuatorState::Engaged, &at(50)), ActuatorState::Engaged);
    assert_eq!(policy.decide(ActuatorState::Disengaged, &at(40)), ActuatorState::Disengaged);
}

#[test]
fn deadband_never_changes_state() {
    for start in [ActuatorState::Disengaged, ActuatorState::Engaged] {
        let policy = HysteresisPolicy::threshold(40, 50).unwrap();
        let mut state = start;
        for value in [41, 49, 45, 48, 42, 41, 49] {
            state = policy.decide(state, &SensorReading::millicelsius(value, 0));
            assert_eq!(state, start);
        }
    }
    let mut control = thermostat();
    let events: Vec<Event> = [41, 45, 49, 44].iter().map(|value| degrees(*value)).collect();
    let answers = control.replay(&events);
    assert_eq!(answers, vec![Action::Hold; 4]);
    assert_eq!(control.state(), LoopState::Running(ActuatorState::Disengaged));
}

#[test]
fn crossing_a_threshold_switches_whatever_came_before() {
    let mut control = thermostat();
    control.replay(&[degrees(45), Event::ReadFailed, degrees(41)]);
    let reading = SensorReading::millicelsius(50, 9);
    assert_eq!(
        control.step(Event::Sampled(reading)),
        Action::Switch(Transition {
            previous: ActuatorState::Disengaged,
            next: ActuatorState::Engaged,
            reading,
        })
    );
    control.replay(&[degrees(45), degrees(60), Event::ReadFailed]);
    let reading = SensorReading::millicelsius(40, 11);
    assert_eq!(
        control.step(Event::Sampled(reading)),
        Action::Switch(Transition {
            previous: ActuatorState::Engaged,
            next: ActuatorState::Disengaged,
            reading,
        })
    );
    assert_eq!(control.state(), LoopState::Running(ActuatorState::Disengaged));
}

#[test]
fn same_reading_twice_gives_no_second_transition() {
    let mut control = thermostat();
    assert!(matches!(control.step(degrees(55)), Action::Switch(_)));
    assert_eq!(control.step(degrees(55)), Action::Hold);
    assert!(matches!(control.step(degrees(30)), Action::Switch(_)));
    assert_eq!(control.step(degrees(30)), Action::Hold);
    assert_eq!(control.step(degrees(45)), Action::Hold);
    assert_eq!(control.step(degrees(45)), Action::Hold);
}

#[test]
fn shutdown_forces_safe_exactly_once() {
    for warm_up in [vec![], vec![degrees(60)]] {
        let mut control = thermostat();
        control.replay(&warm_up);
        let action = control.step(Event::ShutdownRequested);
        assert_eq!(action, Action::ForceSafe);
        assert_eq!(action.command(), Some(ActuatorState::Disengaged));
        assert!(!action.sleeps());
        assert_eq!(control.state(), LoopState::Stopped);
        assert_eq!(control.state().exit_status(), Some(0));
        let later = control.replay(&[
            Event::ShutdownRequested,
            degrees(60),
            Event::ReadFailed,
            Event::ShutdownRequested,
        ]);
        assert_eq!(later, vec![Action::Nothing; 4]);
        assert_eq!(control.state(), LoopState::Stopped);
    }
}

#[test]
fn thermostat_scenario() {
    let mut control = thermostat();
    let readings: Vec<SensorReading> = [35, 45, 52, 48, 39]
        .iter()
        .enumerate()
        .map(|(tick, value)| SensorReading::millicelsius(*value, 10_000 * tick as u64))
        .collect();
    let events: Vec<Event> = readings.iter().map(|reading| Event::Sampled(*reading)).collect();
    let answers = control.replay(&events);
    assert_eq!(
        answers,
        vec![
            Action::Hold,
            Action::Hold,
            Action::Switch(Transition {
                previous: ActuatorState::Disengaged,
                next: ActuatorState::Engaged,
                reading: readings[2],
            }),
            Action::Hold,
            Action::Switch(Transition {
                previous: ActuatorState::Engaged,
                next: ActuatorState::Disengaged,
                reading: readings[4],
            }),
        ]
    );
    assert_eq!(control.state(), LoopState::Running(ActuatorState::Disengaged));
}

#[test]
fn thermostat_scenario_step_by_step() {
    let mut control = thermostat();
    let mut states = Vec::new();
    for value in [35, 45, 52, 48, 39] {
        control.step(degrees(value));
        states.push(control.state());
    }
    assert_eq!(
        states,
        vec![
            LoopState::Running(ActuatorState::Disengaged),
            LoopState::Running(ActuatorState::Disengaged),
            LoopState::Running(ActuatorState::Engaged),
            LoopState::Running(ActuatorState::Engaged),
            LoopState::Running(ActuatorState::Disengaged),
        ]
    );
}

#[test]
fn blinker_scenario() {
    let mut control = ControlLoop::new(HysteresisPolicy::duty(62, 62).unwrap(), 62);
    assert_eq!(control.period_ms(), 62);
    assert_eq!(control.state(), LoopState::Running(ActuatorState::Disengaged));
    let mut engaged = Vec::new();
    for tick in 0..6u64 {
        let action = control.step(Event::Sampled(SensorReading::tick(tick as i64, 62 * tick)));
        assert!(matches!(action, Action::Switch(_)));
        assert!(action.sleeps());
        engaged.push(control.state() == LoopState::Running(ActuatorState::Engaged));
    }
    assert_eq!(engaged, vec![true, false, true, false, true, false]);
    control.step(Event::Sampled(SensorReading::tick(6, 372)));
    assert_eq!(control.state(), LoopState::Running(ActuatorState::Engaged));
    assert_eq!(control.step(Event::ShutdownRequested), Action::ForceSafe);
    assert_eq!(control.state(), LoopState::Stopped);
}

#[test]
fn duty_schedule_follows_the_clock_inside_a_period() {
    let policy = HysteresisPolicy::duty(62, 62).unwrap();
    let at = |time: u64| SensorReading::tick(0, time);
    for current in [ActuatorState::Disengaged, ActuatorState::Engaged] {
        assert_eq!(policy.decide(current, &at(0)), ActuatorState::Engaged);
        assert_eq!(policy.decide(current, &at(61)), ActuatorState::Engaged);
        assert_eq!(policy.decide(current, &at(62)), ActuatorState::Disengaged);
        assert_eq!(policy.decide(current, &at(123)), ActuatorState::Disengaged);
        assert_eq!(policy.decide(current, &at(124)), ActuatorState::Engaged);
        assert_eq!(policy.decide(current, &at(u64::MAX)), ActuatorState::Engaged);
        assert_eq!(policy.decide(current, &at(u64::MAX - 15)), ActuatorState::Engaged);
        assert_eq!(policy.decide(current, &at(u64::MAX - 16)), ActuatorState::Disengaged);
    }
    let never = DutySchedule::new(0, 5).unwrap();
    assert_eq!(never.decide(&at(0)), ActuatorState::Disengaged);
    let always = DutySchedule::new(5, 0).unwrap();
    assert_eq!(always.decide(&at(4)), ActuatorState::Engaged);
    assert_eq!(always.decide(&at(5)), ActuatorState::Engaged);
}

#[test]
fn failed_read_skips_the_tick_and_keeps_the_state() {
    let mut control = thermostat();
    control.step(degrees(60));
    let action = control.step(Event::ReadFailed);
    assert_eq!(action, Action::SkipTick);
    assert!(action.sleeps());
    assert_eq!(action.command(), None);
    assert_eq!(control.state(), LoopState::Running(ActuatorState::Engaged));
    assert_eq!(control.state().exit_status(), None);
}

#[test]
fn failed_actuator_write_is_fatal() {
    let mut control = thermostat();
    assert!(matches!(control.step(degrees(60)), Action::Switch(_)));
    let action = control.step(Event::WriteFailed);
    assert_eq!(action, Action::Abort);
    assert!(!action.sleeps());
    assert_eq!(action.command(), None);
    assert_eq!(control.state(), LoopState::Failed);
    assert_eq!(control.state().exit_status(), Some(1));
    assert_eq!(control.step(Event::ShutdownRequested), Action::Nothing);
    assert_eq!(control.step(degrees(10)), Action::Nothing);
    assert_eq!(control.state(), LoopState::Failed);

    let mut control = thermostat();
    assert_eq!(control.step(Event::ShutdownRequested), Action::ForceSafe);
    assert_eq!(control.step(Event::WriteFailed), Action::Abort);
    assert_eq!(control.state().exit_status(), Some(1));
}

#[test]
fn actions_say_what_to_command_and_whether_to_sleep() {
    let reading = SensorReading::millicelsius(1, 2);
    let switch = Action::Switch(Transition {
        previous: ActuatorState::Disengaged,
        next: ActuatorState::Engaged,
        reading,
    });
    assert_eq!(switch.command(), Some(ActuatorState::Engaged));
    assert!(switch.sleeps());
    assert_eq!(Action::Hold.command(), None);
    assert!(Action::Hold.sleeps());
    assert_eq!(Action::Nothing.command(), None);
    assert!(!Action::Nothing.sleeps());
    assert!(ActuatorState::Engaged.is_engaged());
    assert!(!ActuatorState::Disengaged.is_engaged());
}

#[test]
fn replay_of_nothing_changes_nothing() {
    let mut control = thermostat();
    assert_eq!(control.replay(&[]), Vec::<Action>::new());
    assert_eq!(control.state(), LoopState::Running(ActuatorState::Disengaged));
    assert_eq!(control.period_ms(), 10_000);
    assert!(matches!(control.policy(), HysteresisPolicy::Threshold(_)));
}

#[test]
fn the_actuator_starts_safe() {
    assert_eq!(ActuatorState::default(), ActuatorState::Disengaged);
}
