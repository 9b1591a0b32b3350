use vstd::prelude::*;

verus! {

/// The three families of failure an operation can report.
#[derive(Debug, Clone, Copy, PartialEq, Eq, Structural)]
pub enum ErrorKind {
    /// Bad input; the state is left as it was.
    Validation,
    /// No device, an unsupported configuration, or a stream that could not be built.
    Device,
    /// Internal synchronisation failed (a poisoned lock).
    Lock,
}

/// Why an operation failed.
#[derive(Debug, Clone, Copy, PartialEq, Eq, Structural)]
pub enum EngineError {
    InvalidFrequency,
    InvalidWaveform,
    UnsupportedSampleRate,
    InvalidBufferSize,
    DeviceNotFound,
    NoOutputDevice,
    UnsupportedConfig,
    StreamBuildFailure,
    LockFailure,
}

pub open spec fn kind_of(e: EngineError) -> ErrorKind {
    match e {
        EngineError::InvalidFrequency | EngineError::InvalidWaveform
        | EngineError::UnsupportedSampleRate | EngineError::InvalidBufferSize => ErrorKind::Validation,
        EngineError::LockFailure => ErrorKind::Lock,
        _ => ErrorKind::Device,
    }
}

impl EngineError {
    /// The family this error belongs to.
    pub fn kind(&self) -> (r: ErrorKind)
        ensures
            r == kind_of(*self),
    {
        match self {
            EngineError::InvalidFrequency | EngineError::InvalidWaveform
            | EngineError::UnsupportedSampleRate | EngineError::InvalidBufferSize => ErrorKind::Validation,
            EngineError::LockFailure => ErrorKind::Lock,
            _ => ErrorKind::Device,
        }
    }
}

} // verus!
