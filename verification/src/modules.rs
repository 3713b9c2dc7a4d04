//! The rack's scheduled processing units.

pub mod adder;
pub mod adsr;
pub mod io_module;
pub mod modulo;
pub mod multiplier;
pub mod oscillator;
pub mod output;
