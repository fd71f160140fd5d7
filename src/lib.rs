//! Rotating "chase with fade" for a ring of eight lights: one light fades in
//! while the one before it fades out, with gamma-corrected brightness.
//!
//! Two schedulers drive the same fade state: [`soft_pwm`] emulates PWM one
//! timer tick at a time, [`compare_pwm`] lets a timer's compare channels do
//! it. Each turns timer events into commands for the lights; applying them
//! to the pins is left to the caller.

pub mod active_led;
pub mod command;
pub mod compare_pwm;
pub mod gamma;
pub mod segment;
pub mod soft_pwm;
