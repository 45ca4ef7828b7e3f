//! Control logic for an eight-channel hardware PWM timer block.
//!
//! The crate models the peripheral's register bank as plain data and verifies
//! the logic that programs it: the pin-to-channel identity mapping, the
//! channel configuration snapshot, the frequency/duty planner that solves for
//! the 8.4 fixed-point clock divider and the compare values, the channel
//! controller, and the interrupt dispatcher.

pub mod channel;
pub mod config;
pub mod planner;
pub mod pwm;
pub mod registers;
