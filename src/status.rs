//! Driver status codes and the typed errors they map to.
use vstd::prelude::*;

verus! {

/// The status code the driver returns on success.
pub const CUDA_SUCCESS: u32 = 0;

/// The status code the driver returns when it has no memory left.
pub const CUDA_ERROR_OUT_OF_MEMORY: u32 = 2;

/// The status code the driver returns for an ordinal that names no device.
pub const CUDA_ERROR_INVALID_DEVICE: u32 = 101;

/// The family of a failure.
#[derive(Clone, Copy, Debug, PartialEq, Eq, Structural)]
pub enum ErrorKind {
    /// The driver subsystem did not start.
    Initialization,
    /// The requested device index names no device.
    Resolution,
    /// Device or host memory is exhausted.
    Allocation,
    /// A copy between host and device failed.
    Transfer,
    /// A kernel launch was rejected.
    Dispatch,
    /// Releasing a context, stream or allocation failed.
    Release,
    /// The caller broke the usage protocol (wrong order, wrong sizes).
    Usage,
}

/// A typed failure, carrying the driver's status code (zero for a usage error
/// detected before any driver call).
#[derive(Clone, Copy, Debug, PartialEq, Eq, Structural)]
pub struct CudaError {
    pub kind: ErrorKind,
    pub code: u32,
}

/// Each driver call site, which fixes the kind of error its failure becomes.
#[derive(Clone, Copy, Debug, PartialEq, Eq, Structural)]
pub enum Stage {
    DriverInit,
    DeviceGet,
    ContextCreate,
    ContextDestroy,
    StreamCreate,
    StreamDestroy,
    StreamSynchronize,
    MemAlloc,
    MemFree,
    CopyToDevice,
    CopyToHost,
    Launch,
}

pub open spec fn kind_of(stage: Stage) -> ErrorKind {
    match stage {
        Stage::DriverInit => ErrorKind::Initialization,
        Stage::DeviceGet => ErrorKind::Resolution,
        Stage::ContextCreate => ErrorKind::Resolution,
        Stage::ContextDestroy => ErrorKind::Release,
        Stage::StreamCreate => ErrorKind::Dispatch,
        Stage::StreamDestroy => ErrorKind::Release,
        Stage::StreamSynchronize => ErrorKind::Dispatch,
        Stage::MemAlloc => ErrorKind::Allocation,
        Stage::MemFree => ErrorKind::Release,
        Stage::CopyToDevice => ErrorKind::Transfer,
        Stage::CopyToHost => ErrorKind::Transfer,
        Stage::Launch => ErrorKind::Dispatch,
    }
}

/// The error that a failed call at `stage` with status `code` becomes.
pub open spec fn error_of(stage: Stage, code: u32) -> CudaError {
    CudaError { kind: kind_of(stage), code }
}

/// The result of a driver call at `stage`: success exactly when the status is
/// zero, otherwise the typed error for that stage, never retried.
pub open spec fn checked(stage: Stage, code: u32) -> Result<(), CudaError> {
    if code == CUDA_SUCCESS {
        Ok(())
    } else {
        Err(error_of(stage, code))
    }
}

pub fn error_kind(stage: Stage) -> (r: ErrorKind)
    ensures
        r == kind_of(stage),
{
    match stage {
        Stage::DriverInit => ErrorKind::Initialization,
        Stage::DeviceGet => ErrorKind::Resolution,
        Stage::ContextCreate => ErrorKind::Resolution,
        Stage::ContextDestroy => ErrorKind::Release,
        Stage::StreamCreate => ErrorKind::Dispatch,
        Stage::StreamDestroy => ErrorKind::Release,
        Stage::StreamSynchronize => ErrorKind::Dispatch,
        Stage::MemAlloc => ErrorKind::Allocation,
        Stage::MemFree => ErrorKind::Release,
        Stage::CopyToDevice => ErrorKind::Transfer,
        Stage::CopyToHost => ErrorKind::Transfer,
        Stage::Launch => ErrorKind::Dispatch,
    }
}

/// Turns the status of a driver call into a result: `Ok` on success, the
/// stage's typed error otherwise.
pub fn check_status(stage: Stage, code: u32) -> (r: Result<(), CudaError>)
    ensures
        r == checked(stage, code),
        r is Ok <==> code == CUDA_SUCCESS,
{
    if code == CUDA_SUCCESS {
        Ok(())
    } else {
        Err(CudaError { kind: error_kind(stage), code })
    }
}

/// An error raised by this library before any driver call, for a request that
/// breaks the usage protocol.
pub open spec fn usage_error() -> CudaError {
    CudaError { kind: ErrorKind::Usage, code: 0 }
}

pub fn misuse() -> (r: CudaError)
    ensures
        r == usage_error(),
{
    CudaError { kind: ErrorKind::Usage, code: 0 }
}

} // verus!
