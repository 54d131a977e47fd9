//! Error kinds shared by every fallible operation.
use vstd::prelude::*;

verus! {

/// Failure reported by the native driver for a call that did not succeed.
#[derive(Debug, Clone, Copy, PartialEq, Eq, Structural)]
pub enum Error {
    OutOfHostMemory,
    OutOfDeviceMemory,
    InitializationFailed,
    DeviceLost,
    MemoryMapFailed,
    LayerNotPresent,
    ExtensionNotPresent,
    FeatureNotPresent,
    IncompatibleDriver,
    TooManyObjects,
    FormatNotSupported,
    SurfaceLost,
    NativeWindowInUse,
    OutOfDate,
    IncompatibleDisplay,
    ValidationFailed,
}

/// Exhaustion of one of the two memory pools that the driver draws from.
#[derive(Debug, Clone, Copy, PartialEq, Eq, Structural)]
pub enum OomError {
    /// There is no memory available on the host (ie. the CPU, RAM, etc.).
    OutOfHostMemory,
    /// There is no memory available on the device (ie. video memory).
    OutOfDeviceMemory,
}

impl Error {
    /// True for the two failures that report exhausted memory.
    pub open spec fn is_out_of_memory_spec(self) -> bool {
        self == Error::OutOfHostMemory || self == Error::OutOfDeviceMemory
    }

    /// Returns true if the driver ran out of host or device memory.
    #[verifier::when_used_as_spec(is_out_of_memory_spec)]
    pub fn is_out_of_memory(self) -> (oom: bool)
        ensures
            oom == self.is_out_of_memory_spec(),
    {
        match self {
            Error::OutOfHostMemory => true,
            Error::OutOfDeviceMemory => true,
            _ => false,
        }
    }
}

impl OomError {
    /// Text of `description`.
    pub open spec fn description_spec(&self) -> Seq<char> {
        match self {
            OomError::OutOfHostMemory => "no memory available on the host"@,
            OomError::OutOfDeviceMemory => "no memory available on the graphical device"@,
        }
    }

    /// Returns a short description of the error.
    pub fn description(&self) -> (text: &'static str)
        ensures
            text@ == self.description_spec(),
    {
        match self {
            OomError::OutOfHostMemory => "no memory available on the host",
            OomError::OutOfDeviceMemory => "no memory available on the graphical device",
        }
    }

    /// The memory error that a driver failure stands for, if it is one.
    pub open spec fn of(err: Error) -> Option<OomError> {
        match err {
            Error::OutOfHostMemory => Some(OomError::OutOfHostMemory),
            Error::OutOfDeviceMemory => Some(OomError::OutOfDeviceMemory),
            _ => None,
        }
    }

    /// The memory error that stands for any failure of a native creation
    /// call: exhausted host memory stands for itself, and every other
    /// failure is laid to the memory of the device.
    pub open spec fn for_failure_spec(err: Error) -> OomError {
        match err {
            Error::OutOfHostMemory => OomError::OutOfHostMemory,
            _ => OomError::OutOfDeviceMemory,
        }
    }

    /// Turns any failure of a native creation call into a memory error. The
    /// two failures that report exhausted memory keep their side; every
    /// other failure comes out as exhausted device memory.
    #[verifier::when_used_as_spec(for_failure_spec)]
    pub fn for_failure(err: Error) -> (oom: OomError)
        ensures
            oom == OomError::for_failure_spec(err),
            OomError::of(err) matches Some(exact) ==> oom == exact,
    {
        match err {
            Error::OutOfHostMemory => OomError::OutOfHostMemory,
            _ => OomError::OutOfDeviceMemory,
        }
    }

    /// Converts a driver failure that reports exhausted memory.
    ///
    /// Any other failure is a defect of the caller: it is excluded by the
    /// precondition.
    pub fn from_error(err: Error) -> (oom: OomError)
        requires
            err.is_out_of_memory(),
        ensures
            OomError::of(err) == Some(oom),
    {
        match err {
            Error::OutOfHostMemory => OomError::OutOfHostMemory,
            Error::OutOfDeviceMemory => OomError::OutOfDeviceMemory,
            _ => unreached(),
        }
    }

    /// Converts a driver failure, or returns `None` if it does not report
    /// exhausted memory.
    pub fn try_from_error(err: Error) -> (oom: Option<OomError>)
        ensures
            oom == OomError::of(err),
            oom is Some <==> err.is_out_of_memory(),
    {
        match err {
            Error::OutOfHostMemory => Some(OomError::OutOfHostMemory),
            Error::OutOfDeviceMemory => Some(OomError::OutOfDeviceMemory),
            _ => None,
        }
    }
}

} // verus!
