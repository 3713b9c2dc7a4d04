//! A modular signal-processing rack: wire signal sources and transforms into
//! a directed graph and evaluate it once per sample tick.
//!
//! Signal values are fixed-point scalars (see [`types::SampleType`]): the raw
//! integer counts micro-units, so `1_000_000` stands for the real value `1.0`.

pub mod clock;
pub mod controls;
pub mod fixed;
pub mod id_map;
pub mod in_port;
pub mod modules;
pub mod out_port;
pub mod rack;
pub mod sine;
pub mod slots;
pub mod text;
pub mod types;

pub use types::SampleType;
