//! Control core of a small hardware daemon.
//!
//! A daemon of this kind detaches from its terminal, samples a sensor at a
//! fixed period, drives a two-state actuator by a hysteresis policy, and
//! leaves the actuator safe when it is told to stop. This crate holds what
//! such a daemon decides; the system calls, the hardware and the clock stay
//! with the program around it.
//!
//! - [`policy`]: threshold policies with a deadband, and duty schedules.
//! - [`control`]: the sampling loop as a state machine from events to actions.
//! - [`laws`]: what holds of every run of that machine.
//! - [`supervisor`]: the detachment sequence, step by step.
//! - [`sensor`]: the text of a thermal sensor, parsed into a sample.
//! - [`registry`], [`network`], [`dashboard`], [`text`]: the data and the
//!   markup fragments of a status page.

pub mod actuator;
pub mod control;
pub mod dashboard;
pub mod laws;
pub mod network;
pub mod policy;
pub mod reading;
pub mod registry;
pub mod sensor;
pub mod supervisor;
pub mod text;
