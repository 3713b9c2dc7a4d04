//! Externally-driven signal sources: never scheduled, always current.

pub mod basic_keyboard;
pub mod button;
pub mod control;
pub mod control_knob;
