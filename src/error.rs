//! Errors that stop start-up.
use vstd::prelude::*;

verus! {

/// A start-up failure. Each of them is fatal: the program cannot run without
/// the resource that is missing.
#[derive(Debug, Clone, Copy, PartialEq, Eq, Structural)]
pub enum SetupError {
    /// No memory type is both allowed for the buffer and host-visible and coherent.
    NoMemoryType,
    /// No physical device has a queue family with graphics, compute and
    /// presentation support.
    NoSuitableDevice,
    /// The surface reports no format.
    NoSurfaceFormat,
}

impl SetupError {
    /// A sentence that names the cause, for the operator.
    pub fn message(&self) -> (r: &'static str)
        ensures
            *self == SetupError::NoMemoryType ==> r@ == "Failed to find memory type"@,
            *self == SetupError::NoSuitableDevice ==> r@ == "No suitable GPU found"@,
            *self == SetupError::NoSurfaceFormat ==> r@ == "The surface reports no format"@,
    {
        match self {
            SetupError::NoMemoryType => "Failed to find memory type",
            SetupError::NoSuitableDevice => "No suitable GPU found",
            SetupError::NoSurfaceFormat => "The surface reports no format",
        }
    }
}

} // verus!
