use vstd::prelude::*;

verus! {

/// The engine ran out of memory.
#[derive(Clone, Copy, Debug, PartialEq, Eq, Structural)]
pub enum OomError {
    OutOfHostMemory,
    OutOfDeviceMemory,
}

/// An error code that the engine can report.
#[derive(Clone, Copy, Debug, PartialEq, Eq, Structural)]
pub enum Error {
    OutOfHostMemory,
    OutOfDeviceMemory,
    InitializationFailed,
    DeviceLost,
    MemoryMapFailed,
    LayerNotPresent,
    ExtensionNotPresent,
    FeatureNotPresent,
    IncompatibleDriver,
    TooManyObjects,
    FormatNotSupported,
}

impl Error {
    /// Whether this error says that memory ran out.
    pub open spec fn is_oom(self) -> bool {
        self is OutOfHostMemory || self is OutOfDeviceMemory
    }
}

/// The out-of-memory error that an engine error code stands for.
pub open spec fn oom_of(e: Error) -> OomError {
    match e {
        Error::OutOfDeviceMemory => OomError::OutOfDeviceMemory,
        _ => OomError::OutOfHostMemory,
    }
}

impl OomError {
    /// Converts an out-of-memory engine error code.
    pub fn from_error(err: Error) -> (r: OomError)
        requires
            err.is_oom(),
        ensures
            r == oom_of(err),
    {
        match err {
            Error::OutOfDeviceMemory => OomError::OutOfDeviceMemory,
            _ => OomError::OutOfHostMemory,
        }
    }

    /// A short human-readable description of the error.
    pub fn description(&self) -> (r: &'static str)
        ensures
            r@ == (match *self {
                OomError::OutOfHostMemory => "no memory available on the host"@,
                OomError::OutOfDeviceMemory => "no memory available on the graphical device"@,
            }),
    {
        match self {
            OomError::OutOfHostMemory => "no memory available on the host",
            OomError::OutOfDeviceMemory => "no memory available on the graphical device",
        }
    }
}

} // verus!
