//! Errors of the kernel's early initialisation.
use vstd::prelude::*;

verus! {

/// The ways early kernel initialisation can fail.
#[derive(Debug, Clone, Copy, PartialEq, Eq, Structural)]
pub enum KernelError {
    /// The VGA text console could not be set up.
    VgaInitFailed,
    /// The logger could not be installed.
    LoggerInitFailed,
    /// Writing to an output channel failed.
    WriteFailed,
    /// An argument was out of range.
    InvalidParameter,
    /// The hardware misbehaved.
    HardwareError,
}

impl KernelError {
    /// The sentence that describes this error.
    pub fn message(&self) -> (r: &'static str)
        ensures
            *self == KernelError::VgaInitFailed ==> r == "VGA initialization failed",
            *self == KernelError::LoggerInitFailed ==> r == "Logger initialization failed",
            *self == KernelError::WriteFailed ==> r == "Write operation failed",
            *self == KernelError::InvalidParameter ==> r == "Invalid parameter",
            *self == KernelError::HardwareError ==> r == "Hardware error",
    {
        match self {
            KernelError::VgaInitFailed => "VGA initialization failed",
            KernelError::LoggerInitFailed => "Logger initialization failed",
            KernelError::WriteFailed => "Write operation failed",
            KernelError::InvalidParameter => "Invalid parameter",
            KernelError::HardwareError => "Hardware error",
        }
    }
}

/// Declares std's `core::fmt::Error`, the unit error of a formatted write, so
/// that it can be converted; nothing inside it is read.
#[verifier::external_type_specification]
#[verifier::external_body]
pub struct ExFmtError(core::fmt::Error);

/// A failed formatted write is a failed write.
impl From<core::fmt::Error> for KernelError {
    fn from(_e: core::fmt::Error) -> (r: KernelError) {
        KernelError::WriteFailed
    }
}

impl vstd::std_specs::convert::FromSpecImpl<core::fmt::Error> for KernelError {
    open spec fn obeys_from_spec() -> bool {
        true
    }

    open spec fn from_spec(_e: core::fmt::Error) -> KernelError {
        KernelError::WriteFailed
    }
}

/// The result of a fallible initialisation step.
pub type KernelResult<T> = Result<T, KernelError>;

} // verus!
