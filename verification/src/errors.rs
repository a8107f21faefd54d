//! Error taxonomy of the control core: fatal startup refusal, validation and
//! I/O errors of the two hardware layers, and the caller-facing service
//! errors of the bus boundary.

use vstd::prelude::*;

verus! {

/// Refusal to start: the machine is not on the hardware allow-list.
#[derive(Clone, Copy, Debug, PartialEq, Eq, Structural)]
pub enum StartupError {
    UnsupportedHardware,
}

/// Errors of the embedded-controller register layer.
#[derive(Clone, Copy, Debug, PartialEq, Eq, Structural)]
pub enum EcError {
    /// A fan speed outside 0-100 was rejected before any write.
    InvalidSpeed(u8),
    /// A register write failed.
    WriteFailed,
    /// A register read failed.
    ReadFailed,
}

/// Errors of the CPU frequency-scaling file layer.
#[derive(Clone, Copy, Debug, PartialEq, Eq, Structural)]
pub enum CpuError {
    /// The governor path pattern matched no control file.
    NoGovernorPaths,
    /// The turbo control file is absent: no P-State driver.
    NoTurboControl,
}

/// Caller-facing errors of the bus-exposed services.
#[derive(Debug, PartialEq, Eq)]
pub enum ServiceError {
    /// The request itself was bad: unknown profile name.
    InvalidArgs(String),
    /// The hardware operation failed; carries a human-readable cause.
    Failed(String),
}

pub open spec fn spec_ec_error_message(e: EcError) -> Seq<char> {
    match e {
        EcError::InvalidSpeed(_) => "Invalid fan speed. Must be 0-100."@,
        EcError::WriteFailed => "EC register write failed"@,
        EcError::ReadFailed => "EC register read failed"@,
    }
}

pub open spec fn spec_cpu_error_message(e: CpuError) -> Seq<char> {
    match e {
        CpuError::NoGovernorPaths => "No CPU governor control files found"@,
        CpuError::NoTurboControl => "Intel P-State driver not available"@,
    }
}

impl EcError {
    pub fn message(&self) -> (r: String)
        ensures
            r@ == spec_ec_error_message(*self),
    {
        match self {
            EcError::InvalidSpeed(_) => "Invalid fan speed. Must be 0-100.".to_owned(),
            EcError::WriteFailed => "EC register write failed".to_owned(),
            EcError::ReadFailed => "EC register read failed".to_owned(),
        }
    }
}

impl CpuError {
    pub fn message(&self) -> (r: String)
        ensures
            r@ == spec_cpu_error_message(*self),
    {
        match self {
            CpuError::NoGovernorPaths => "No CPU governor control files found".to_owned(),
            CpuError::NoTurboControl => "Intel P-State driver not available".to_owned(),
        }
    }
}

} // verus!
