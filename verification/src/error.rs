//! Typed errors of the device core.
//!
//! Three kinds of failure exist at this layer: fatal driver errors during
//! steady-state operation, the expected (recoverable) stale-surface condition
//! raised during acquire or present, and input-validation failures reported by
//! construction entry points.

use vstd::prelude::*;

verus! {

/// Error raised by the device core.
#[derive(Debug, Clone, PartialEq, Eq)]
pub enum Error {
    /// A shader binary failed validation (bad length or magic number).
    InvalidSpirv,
    /// A resource file (for instance a shader archive) could not be read.
    InvalidFile,
    /// No enumerated physical GPU satisfies every mandatory capability.
    NoSuitableGpu,
    /// No reported memory type satisfies both the requirement bitmask and the
    /// requested access pattern.
    UnsupportedMemoryType,
    /// The presentation surface is stale: the caller should resize and retry.
    /// This is the one recoverable steady-state condition.
    SurfaceOutOfDate,
    /// The driver reported an unrecoverable error during steady-state
    /// operation.
    GpuError,
}

impl Error {
    /// True exactly for the stale-surface condition, which asks the caller to
    /// resize and retry instead of terminating.
    pub fn requires_resize(&self) -> (r: bool)
        ensures
            r == (*self is SurfaceOutOfDate),
    {
        matches!(self, Error::SurfaceOutOfDate)
    }

    /// Short description of the error.
    pub fn message(&self) -> (r: &'static str)
    {
        match self {
            Error::InvalidSpirv => "invalid shader binary",
            Error::InvalidFile => "invalid resource file",
            Error::NoSuitableGpu => "no suitable GPU found",
            Error::UnsupportedMemoryType => "unsupported memory type",
            Error::SurfaceOutOfDate => "surface out of date, resize required",
            Error::GpuError => "unrecoverable GPU error",
        }
    }
}

} // verus!
