//! Decision core of a greenhouse environment controller.
//!
//! The crate tracks wall-clock time by counting fixed-duration polling
//! ticks, stores operator-edited environmental thresholds and an optional
//! daily watering window, and turns periodic sensor samples plus button
//! levels into actuator commands for the roof vent, the sprinklers and
//! the buzzer.  A fire-detection interlock overrides the normal control
//! decisions while smoke is asserted and restores the prior vent command
//! when it clears.
//!
//! All hardware access (sensor, display, buttons, actuator pins) lives
//! outside this crate; every function here is pure decision logic over
//! plain values and is verified.

pub mod calendar;
pub mod control;
pub mod edit;
pub mod interlock;
pub mod preferences;
pub mod schedule;
pub mod stepper;
pub mod text;
