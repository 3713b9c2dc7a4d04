//! Shared scalar type, engine constants and the error taxonomy.

use vstd::prelude::*;

verus! {

/// The scalar signal type carried by every port: a fixed-point number whose
/// raw value counts micro-units, so `SAMPLE_SCALE` stands for `1.0`.
pub type SampleType = i64;

/// Raw value that stands for the real number `1.0`.
pub const SAMPLE_SCALE: i64 = 1_000_000;

/// Samples per second used by the engine's clock and oscillator.
pub const SAMPLE_RATE: i64 = 44100;

/// Capacity of the bounded queue that carries samples to the audio backend.
pub const AUDIO_BUF_SIZE: usize = 1024;

/// A structural operation referred to a module or control id that the rack
/// does not hold.
#[derive(Debug, Clone, PartialEq, Eq, Structural)]
pub struct ModuleNotFoundError;

impl ModuleNotFoundError {
    /// Human-readable description of the error.
    pub fn message(&self) -> (r: String)
        ensures
            r@ == "Module doesn't exist"@,
    {
        "Module doesn't exist".to_owned()
    }
}

/// An insertion used an id already taken in the module or control namespace.
#[derive(Debug, Clone, PartialEq, Eq, Structural)]
pub struct ConflictingModuleIdError;

impl ConflictingModuleIdError {
    /// Human-readable description of the error.
    pub fn message(&self) -> (r: String)
        ensures
            r@ == "Module or Control with this ID already exists"@,
    {
        "Module or Control with this ID already exists".to_owned()
    }
}

/// A structural operation referred to a port id that the endpoint does not
/// declare.
#[derive(Debug, Clone, PartialEq, Eq, Structural)]
pub struct PortNotFoundError;

impl PortNotFoundError {
    /// Human-readable description of the error.
    pub fn message(&self) -> (r: String)
        ensures
            r@ == "Port doesn't exist"@,
    {
        "Port doesn't exist".to_owned()
    }
}

/// The full error taxonomy of the rack's structural operations. Every error
/// is recoverable and leaves the rack unchanged.
#[derive(Debug, Clone, PartialEq, Eq, Structural)]
pub enum RackError {
    /// A referenced module or control id is absent.
    ModuleNotFound(ModuleNotFoundError),
    /// A referenced port is undeclared on its endpoint.
    PortNotFound(PortNotFoundError),
    /// A duplicate id across the module and control namespaces.
    ConflictingId(ConflictingModuleIdError),
}

impl RackError {
    /// Human-readable description of the error.
    pub fn message(&self) -> (r: String)
        ensures
            self is ModuleNotFound ==> r@ == "Module doesn't exist"@,
            self is PortNotFound ==> r@ == "Port doesn't exist"@,
            self is ConflictingId ==> r@ == "Module or Control with this ID already exists"@,
    {
        match self {
            RackError::ModuleNotFound(e) => e.message(),
            RackError::PortNotFound(e) => e.message(),
            RackError::ConflictingId(e) => e.message(),
        }
    }
}

/// Result of operations that can only fail by referring to an absent module.
pub type ModuleResult<T> = Result<T, ModuleNotFoundError>;

/// Result of operations that can only fail by referring to an absent port.
pub type PortResult<T> = Result<T, PortNotFoundError>;

} // verus!
