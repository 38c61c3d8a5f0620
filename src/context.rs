//! Driver start-up and the device context that owns every stream and buffer.
use vstd::prelude::*;
use crate::status::{
    check_status, checked, error_of, misuse, usage_error, CudaError, Stage, CUDA_ERROR_INVALID_DEVICE,
    CUDA_SUCCESS,
};

verus! {

/// Process-wide state of the driver subsystem.
#[derive(Clone, Copy, Debug, PartialEq, Eq, Structural)]
pub enum DriverState {
    NotStarted,
    Ready,
    Failed { code: u32 },
}

impl DriverState {
    pub fn new() -> (r: DriverState)
        ensures
            r == DriverState::NotStarted,
    {
        DriverState::NotStarted
    }

    pub fn is_ready(&self) -> (r: bool)
        ensures
            r == (*self == DriverState::Ready),
    {
        match self {
            DriverState::Ready => true,
            _ => false,
        }
    }
}

/// The state the driver is in after start-up returned `status`.
pub open spec fn started(status: u32) -> DriverState {
    if status == CUDA_SUCCESS {
        DriverState::Ready
    } else {
        DriverState::Failed { code: status }
    }
}

/// Records the outcome of starting the driver, which happens once per
/// process: a failure is reported, never retried.
pub fn init(driver: &mut DriverState, status: u32) -> (r: Result<(), CudaError>)
    requires
        *old(driver) == DriverState::NotStarted,
    ensures
        *final(driver) == started(status),
        r == checked(Stage::DriverInit, status),
{
    let r = check_status(Stage::DriverInit, status);
    if status == CUDA_SUCCESS {
        *driver = DriverState::Ready;
    } else {
        *driver = DriverState::Failed { code: status };
    }
    r
}

/// The ordinal to ask the driver for, for device `device_id`: only once the
/// driver is ready, and only for an index that the driver's `int` can hold.
pub fn device_ordinal(driver: &DriverState, device_id: u32) -> (r: Result<i32, CudaError>)
    ensures
        *driver != DriverState::Ready ==> r == Err::<i32, CudaError>(usage_error()),
        *driver == DriverState::Ready && device_id > i32::MAX ==> r == Err::<i32, CudaError>(
            error_of(Stage::DeviceGet, CUDA_ERROR_INVALID_DEVICE),
        ),
        *driver == DriverState::Ready && device_id <= i32::MAX ==> r == Ok::<i32, CudaError>(
            device_id as i32,
        ),
{
    if !driver.is_ready() {
        return Err(misuse());
    }
    if device_id > i32::MAX as u32 {
        return Err(CudaError { kind: crate::status::error_kind(Stage::DeviceGet), code: CUDA_ERROR_INVALID_DEVICE });
    }
    Ok(device_id as i32)
}

/// The device handle, once the driver has answered the lookup of an ordinal
/// with `status`: a failed lookup is a resolution error, and no context may be
/// created for it.
pub fn resolve_device(status: u32, device: i32) -> (r: Result<i32, CudaError>)
    ensures
        status == CUDA_SUCCESS ==> r == Ok::<i32, CudaError>(device),
        status != CUDA_SUCCESS ==> r == Err::<i32, CudaError>(error_of(Stage::DeviceGet, status)),
{
    match check_status(Stage::DeviceGet, status) {
        Ok(()) => Ok(device),
        Err(e) => Err(e),
    }
}

/// A driver context bound to one device, with the count of the allocations
/// and streams made and released under it.
#[derive(Debug)]
pub struct CuContext {
    /// The opaque native context handle.
    pub ctx: u64,
    pub device: i32,
    pub allocated: u64,
    pub freed: u64,
    pub streams_created: u64,
    pub streams_destroyed: u64,
}

impl CuContext {
    /// Every release matches an acquisition.
    pub open spec fn wf(&self) -> bool {
        self.freed <= self.allocated && self.streams_destroyed <= self.streams_created
    }

    pub open spec fn live_buffers(&self) -> int {
        self.allocated - self.freed
    }

    pub open spec fn live_streams(&self) -> int {
        self.streams_created - self.streams_destroyed
    }

    /// The context after one more allocation.
    pub open spec fn after_alloc(self) -> CuContext {
        CuContext { allocated: (self.allocated + 1) as u64, ..self }
    }

    /// The context after one more release of an allocation.
    pub open spec fn after_free(self) -> CuContext {
        CuContext { freed: (self.freed + 1) as u64, ..self }
    }

    pub open spec fn after_stream_create(self) -> CuContext {
        CuContext { streams_created: (self.streams_created + 1) as u64, ..self }
    }

    pub open spec fn after_stream_destroy(self) -> CuContext {
        CuContext { streams_destroyed: (self.streams_destroyed + 1) as u64, ..self }
    }

    /// The context that creation on `device` returned, with `status`.
    pub fn init(device: i32, status: u32, handle: u64) -> (r: Result<CuContext, CudaError>)
        ensures
            status != CUDA_SUCCESS ==> r == Err::<CuContext, CudaError>(
                error_of(Stage::ContextCreate, status),
            ),
            status == CUDA_SUCCESS ==> r is Ok,
            r matches Ok(c) ==> c.ctx == handle && c.device == device && c.allocated == 0
                && c.freed == 0 && c.streams_created == 0 && c.streams_destroyed == 0,
    {
        match check_status(Stage::ContextCreate, status) {
            Ok(()) => Ok(
                CuContext {
                    ctx: handle,
                    device,
                    allocated: 0,
                    freed: 0,
                    streams_created: 0,
                    streams_destroyed: 0,
                },
            ),
            Err(e) => Err(e),
        }
    }

    /// Whether the context may be destroyed: nothing made under it is alive.
    pub fn can_destroy(&self) -> (r: bool)
        ensures
            r == (self.allocated == self.freed && self.streams_created == self.streams_destroyed),
    {
        self.allocated == self.freed && self.streams_created == self.streams_destroyed
    }

    /// Consumes the context once the driver has destroyed it with `status`;
    /// a second destruction cannot be written.
    pub fn destroy(self, status: u32) -> (r: Result<(), CudaError>)
        requires
            self.allocated == self.freed,
            self.streams_created == self.streams_destroyed,
        ensures
            r == checked(Stage::ContextDestroy, status),
    {
        check_status(Stage::ContextDestroy, status)
    }
}

/// Across a buffer's lifetime, its allocation and its release are each
/// counted exactly once, and leave the number of live buffers as it was.
pub proof fn lemma_single_free(c: CuContext)
    requires
        c.wf(),
        c.allocated < u64::MAX,
    ensures
        c.after_alloc().wf(),
        c.after_alloc().freed < c.after_alloc().allocated,
        c.after_alloc().after_free().wf(),
        c.after_alloc().after_free().allocated == c.allocated + 1,
        c.after_alloc().after_free().freed == c.freed + 1,
        c.after_alloc().after_free().live_buffers() == c.live_buffers(),
        c.after_alloc().after_free().live_streams() == c.live_streams(),
{
}

} // verus!
