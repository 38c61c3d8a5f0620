//! Device buffers: sizes, allocation, release and host materialization.
use vstd::prelude::*;
use vstd::layout::size_of;
use crate::context::CuContext;
use crate::stream::CudaStream;
use crate::status::{
    check_status, checked, error_of, misuse, usage_error, CudaError, Stage,
    CUDA_ERROR_OUT_OF_MEMORY, CUDA_SUCCESS,
};

verus! {

/// The number of bytes that `num_elem` elements of `T` occupy.
pub open spec fn bytes_for<T>(num_elem: nat) -> nat {
    num_elem * size_of::<T>()
}

/// The error for a request that no allocator could satisfy.
pub open spec fn out_of_memory() -> CudaError {
    error_of(Stage::MemAlloc, CUDA_ERROR_OUT_OF_MEMORY)
}

/// The number of bytes to request from the device for `num_elem` elements of
/// `T`; a size beyond the address space is reported as exhausted memory.
pub fn alloc_request<T>(num_elem: usize) -> (r: Result<usize, CudaError>)
    ensures
        bytes_for::<T>(num_elem as nat) <= usize::MAX ==> r == Ok::<usize, CudaError>(
            bytes_for::<T>(num_elem as nat) as usize,
        ),
        bytes_for::<T>(num_elem as nat) > usize::MAX ==> r == Err::<usize, CudaError>(
            out_of_memory(),
        ),
{
    let elem = core::mem::size_of::<T>();
    match num_elem.checked_mul(elem) {
        Some(n) => Ok(n),
        None => Err(CudaError { kind: crate::status::error_kind(Stage::MemAlloc), code: CUDA_ERROR_OUT_OF_MEMORY }),
    }
}

/// The device pointer that an allocation of `bytesize` bytes returned, with
/// `status`.
pub fn mem_alloc(bytesize: usize, status: u32, dptr: u64) -> (r: Result<u64, CudaError>)
    ensures
        status == CUDA_SUCCESS ==> r == Ok::<u64, CudaError>(dptr),
        status != CUDA_SUCCESS ==> r == Err::<u64, CudaError>(error_of(Stage::MemAlloc, status)),
{
    match check_status(Stage::MemAlloc, status) {
        Ok(()) => Ok(dptr),
        Err(e) => Err(e),
    }
}

/// An owned device allocation. It cannot be cloned: it is released once, by
/// `free`, which consumes it.
#[derive(Debug)]
pub struct DeviceBuf {
    pub data_ptr: u64,
    byte_size: usize,
    owner: u64,
}

impl DeviceBuf {
    pub closed spec fn device_ptr(&self) -> u64 {
        self.data_ptr
    }

    pub closed spec fn byte_len(&self) -> nat {
        self.byte_size as nat
    }

    /// The handle of the context the allocation was made under.
    pub closed spec fn owner_ctx(&self) -> u64 {
        self.owner
    }

    pub fn byte_size(&self) -> (r: usize)
        ensures
            r as nat == self.byte_len(),
    {
        self.byte_size
    }

    pub fn ptr(&self) -> (r: u64)
        ensures
            r == self.device_ptr(),
    {
        self.data_ptr
    }

    pub fn owner(&self) -> (r: u64)
        ensures
            r == self.owner_ctx(),
    {
        self.owner
    }

    /// The buffer that an allocation of `num_elem` elements of `T` under `ctx`
    /// returned, with `status` and device pointer `dptr`. Only a successful
    /// allocation is counted.
    pub fn allocate<T>(ctx: &mut CuContext, num_elem: usize, status: u32, dptr: u64) -> (r: Result<
        DeviceBuf,
        CudaError,
    >)
        requires
            old(ctx).allocated < u64::MAX,
        ensures
            bytes_for::<T>(num_elem as nat) > usize::MAX ==> r == Err::<DeviceBuf, CudaError>(
                out_of_memory(),
            ),
            bytes_for::<T>(num_elem as nat) <= usize::MAX && status != CUDA_SUCCESS ==> r == Err::<
                DeviceBuf,
                CudaError,
            >(error_of(Stage::MemAlloc, status)),
            bytes_for::<T>(num_elem as nat) <= usize::MAX && status == CUDA_SUCCESS ==> r is Ok,
            r is Err ==> *final(ctx) == *old(ctx),
            r matches Ok(b) ==> b.device_ptr() == dptr && b.byte_len() == bytes_for::<T>(
                num_elem as nat,
            ) && b.owner_ctx() == old(ctx).ctx && *final(ctx) == old(ctx).after_alloc(),
    {
        let size = match alloc_request::<T>(num_elem) {
            Ok(n) => n,
            Err(e) => return Err(e),
        };
        let dptr = match mem_alloc(size, status, dptr) {
            Ok(p) => p,
            Err(e) => return Err(e),
        };
        ctx.allocated = ctx.allocated + 1;
        Ok(DeviceBuf { data_ptr: dptr, byte_size: size, owner: ctx.ctx })
    }

    /// The buffer for a copy of `data`, from a single allocation of
    /// `data.len()` elements; the caller then copies `byte_size()` bytes of
    /// `data` into it.
    pub fn alloc_from<T>(ctx: &mut CuContext, data: &[T], status: u32, dptr: u64) -> (r: Result<
        DeviceBuf,
        CudaError,
    >)
        requires
            old(ctx).allocated < u64::MAX,
        ensures
            bytes_for::<T>(data@.len()) > usize::MAX ==> r == Err::<DeviceBuf, CudaError>(
                out_of_memory(),
            ),
            bytes_for::<T>(data@.len()) <= usize::MAX && status != CUDA_SUCCESS ==> r == Err::<
                DeviceBuf,
                CudaError,
            >(error_of(Stage::MemAlloc, status)),
            bytes_for::<T>(data@.len()) <= usize::MAX && status == CUDA_SUCCESS ==> r is Ok,
            r is Err ==> *final(ctx) == *old(ctx),
            r matches Ok(b) ==> b.device_ptr() == dptr && b.byte_len() == bytes_for::<T>(data@.len())
                && b.owner_ctx() == old(ctx).ctx && *final(ctx) == old(ctx).after_alloc(),
    {
        DeviceBuf::allocate::<T>(ctx, data.len(), status, dptr)
    }

    /// Whether a host copy of the buffer as elements of `T` is sound: the
    /// byte length is a whole number of elements of `T`, and no operation that
    /// writes the buffer is still in flight on `stream`.
    pub open spec fn readable_as<T>(&self, stream: &CudaStream) -> bool {
        size_of::<T>() > 0 && self.byte_len() % size_of::<T>() == 0 && !stream.pending_write(
            self.device_ptr(),
        )
    }

    /// The number of elements of `T` that a host copy of the buffer holds,
    /// `byte_len / size_of::<T>()`, once `stream` has finished writing it.
    pub fn allocate_on_cpu<T>(&self, stream: &CudaStream) -> (r: Result<usize, CudaError>)
        requires
            stream.wf(),
        ensures
            self.readable_as::<T>(stream) ==> r == Ok::<usize, CudaError>(
                (self.byte_len() / size_of::<T>()) as usize,
            ),
            !self.readable_as::<T>(stream) ==> r == Err::<usize, CudaError>(usage_error()),
    {
        let elem = core::mem::size_of::<T>();
        if elem == 0 || self.byte_size % elem != 0 || stream.writes_pending(self.data_ptr) {
            return Err(misuse());
        }
        Ok(self.byte_size / elem)
    }

    /// Whether `ctx` holds the allocation, so that releasing it is owed.
    pub fn belongs_to(&self, ctx: &CuContext) -> (r: bool)
        ensures
            r == (self.owner_ctx() == ctx.ctx && ctx.freed < ctx.allocated),
    {
        self.owner == ctx.ctx && ctx.freed < ctx.allocated
    }

    /// Consumes the buffer once the driver has released it with `status`,
    /// counting exactly one release; a second release cannot be written.
    pub fn free(self, ctx: &mut CuContext, status: u32) -> (r: Result<(), CudaError>)
        ensures
            self.owner_ctx() == old(ctx).ctx && old(ctx).freed < old(ctx).allocated ==> r
                == checked(Stage::MemFree, status) && *final(ctx) == old(ctx).after_free(),
            !(self.owner_ctx() == old(ctx).ctx && old(ctx).freed < old(ctx).allocated) ==> r
                == Err::<(), CudaError>(usage_error()) && *final(ctx) == *old(ctx),
    {
        if !self.belongs_to(ctx) {
            return Err(misuse());
        }
        ctx.freed = ctx.freed + 1;
        check_status(Stage::MemFree, status)
    }
}

/// A buffer allocated for `n` elements of `T` is read back as exactly `n`
/// elements of `T`.
pub proof fn lemma_host_copy_length<T>(b: &DeviceBuf, n: nat)
    requires
        size_of::<T>() > 0,
        b.byte_len() == bytes_for::<T>(n),
    ensures
        b.byte_len() % size_of::<T>() == 0,
        b.byte_len() / size_of::<T>() == n,
{
    vstd::arithmetic::div_mod::lemma_mod_multiples_basic(n as int, size_of::<T>() as int);
    vstd::arithmetic::div_mod::lemma_div_multiples_vanish(n as int, size_of::<T>() as int);
}

} // verus!
