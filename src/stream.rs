//! Command streams, launch geometry and kernel dispatch.
use vstd::prelude::*;
use crate::buffer::DeviceBuf;
use crate::context::CuContext;
use crate::status::{
    check_status, checked, error_of, misuse, usage_error, CudaError, Stage, CUDA_SUCCESS,
};

verus! {

/// The status code the driver returns for an invalid argument.
pub const CUDA_ERROR_INVALID_VALUE: u32 = 1;

/// The layout of one kernel launch.
#[derive(Clone, Copy, Debug, PartialEq, Eq, Structural)]
pub struct LaunchGeometry {
    pub grid_x: u32,
    pub grid_y: u32,
    pub grid_z: u32,
    pub warp_count: u32,
}

impl LaunchGeometry {
    pub open spec fn nonempty(&self) -> bool {
        self.grid_x > 0 && self.grid_y > 0 && self.grid_z > 0 && self.warp_count > 0
    }

    pub fn is_nonempty(&self) -> (r: bool)
        ensures
            r == self.nonempty(),
    {
        self.grid_x > 0 && self.grid_y > 0 && self.grid_z > 0 && self.warp_count > 0
    }
}

/// The arguments of one call of a kernel entry point, in the order the entry
/// point takes them.
#[derive(Debug)]
pub struct KernelLaunch {
    pub stream: u64,
    pub geometry: LaunchGeometry,
    pub inputs: Vec<u64>,
    pub output: u64,
    pub num_elem: u64,
}

/// An ordered queue of device operations. It records, for each operation
/// issued, the device pointer it writes; the operations completed are always
/// a prefix of those issued.
#[derive(Debug)]
pub struct CudaStream {
    /// The opaque native stream handle.
    pub stream: u64,
    owner: u64,
    writes: Vec<u64>,
    completed: usize,
}

impl CudaStream {
    /// The device pointer written by each operation, in issue order.
    pub closed spec fn ops(&self) -> Seq<u64> {
        self.writes@
    }

    /// How many of the operations, from the first, have completed.
    pub closed spec fn done(&self) -> nat {
        self.completed as nat
    }

    pub closed spec fn handle(&self) -> u64 {
        self.stream
    }

    pub closed spec fn owner_ctx(&self) -> u64 {
        self.owner
    }

    pub open spec fn wf(&self) -> bool {
        self.done() <= self.ops().len()
    }

    /// Whether an operation that writes `ptr` is issued and not completed.
    pub open spec fn pending_write(&self, ptr: u64) -> bool {
        exists|i: int| self.done() <= i < self.ops().len() && self.ops()[i] == ptr
    }

    /// The stream that creation under `ctx` returned, with `status`.
    pub fn create_default(ctx: &mut CuContext, status: u32, handle: u64) -> (r: Result<
        CudaStream,
        CudaError,
    >)
        requires
            old(ctx).streams_created < u64::MAX,
        ensures
            status != CUDA_SUCCESS ==> r == Err::<CudaStream, CudaError>(
                error_of(Stage::StreamCreate, status),
            ) && *final(ctx) == *old(ctx),
            status == CUDA_SUCCESS ==> r is Ok && *final(ctx) == old(ctx).after_stream_create(),
            r matches Ok(s) ==> s.wf() && s.handle() == handle && s.owner_ctx() == old(ctx).ctx
                && s.ops().len() == 0 && s.done() == 0,
    {
        match check_status(Stage::StreamCreate, status) {
            Ok(()) => {
                ctx.streams_created = ctx.streams_created + 1;
                Ok(CudaStream { stream: handle, owner: ctx.ctx, writes: Vec::new(), completed: 0 })
            },
            Err(e) => Err(e),
        }
    }

    pub fn handle_of(&self) -> (r: u64)
        ensures
            r == self.handle(),
    {
        self.stream
    }

    /// Whether every issued operation has completed.
    pub fn is_idle(&self) -> (r: bool)
        requires
            self.wf(),
        ensures
            r == (self.done() == self.ops().len()),
    {
        self.completed == self.writes.len()
    }

    /// Whether an operation that writes `ptr` is still in flight.
    pub fn writes_pending(&self, ptr: u64) -> (r: bool)
        requires
            self.wf(),
        ensures
            r == self.pending_write(ptr),
    {
        let mut i: usize = self.completed;
        while i < self.writes.len()
            invariant
                self.wf(),
                self.done() <= i <= self.ops().len(),
                forall|j: int| self.done() <= j < i ==> self.ops()[j] != ptr,
            decreases self.ops().len() - i,
        {
            if self.writes[i] == ptr {
                return true;
            }
            i = i + 1;
        }
        false
    }

    /// The arguments for launching a kernel on this stream that reads
    /// `inputs` and writes `output`, `num_elem` elements of `elem_size` bytes
    /// each. An empty geometry is a dispatch error; a buffer too short for
    /// `num_elem` elements is a usage error.
    pub fn launch_args(
        &self,
        geometry: LaunchGeometry,
        inputs: &[&DeviceBuf],
        output: &DeviceBuf,
        num_elem: u64,
        elem_size: usize,
    ) -> (r: Result<KernelLaunch, CudaError>)
        ensures
            !geometry.nonempty() ==> r == Err::<KernelLaunch, CudaError>(
                error_of(Stage::Launch, CUDA_ERROR_INVALID_VALUE),
            ),
            geometry.nonempty() && !covers_all(inputs@, output, num_elem as int * elem_size as int)
                ==> r == Err::<KernelLaunch, CudaError>(usage_error()),
            geometry.nonempty() && covers_all(inputs@, output, num_elem as int * elem_size as int)
                ==> r is Ok,
            r matches Ok(l) ==> l.stream == self.handle() && l.geometry == geometry
                && l.output == output.device_ptr() && l.num_elem == num_elem
                && l.inputs@.len() == inputs@.len() && forall|i: int|
                0 <= i < inputs@.len() ==> l.inputs@[i] == #[trigger] inputs@[i].device_ptr(),
    {
        if !geometry.is_nonempty() {
            return Err(
                CudaError {
                    kind: crate::status::error_kind(Stage::Launch),
                    code: CUDA_ERROR_INVALID_VALUE,
                },
            );
        }
        proof {
            let (a, b) = (num_elem as int, elem_size as int);
            assert(0 <= a * b <= 0xffff_ffff_ffff_ffff * 0xffff_ffff_ffff_ffff) by (nonlinear_arith)
                requires
                    0 <= a <= 0xffff_ffff_ffff_ffff,
                    0 <= b <= 0xffff_ffff_ffff_ffff,
            ;
        }
        let need: u128 = num_elem as u128 * elem_size as u128;
        if (output.byte_size() as u128) < need {
            return Err(misuse());
        }
        let mut ptrs: Vec<u64> = Vec::new();
        let mut i: usize = 0;
        while i < inputs.len()
            invariant
                i <= inputs@.len(),
                geometry.nonempty(),
                need == num_elem as int * elem_size as int,
                output.byte_len() >= need,
                forall|j: int| 0 <= j < i ==> #[trigger] inputs@[j].byte_len() >= need,
                ptrs@.len() == i,
                forall|j: int| 0 <= j < i ==> ptrs@[j] == #[trigger] inputs@[j].device_ptr(),
            decreases inputs@.len() - i,
        {
            if (inputs[i].byte_size() as u128) < need {
                return Err(misuse());
            }
            ptrs.push(inputs[i].ptr());
            i = i + 1;
        }
        Ok(
            KernelLaunch {
                stream: self.stream,
                geometry,
                inputs: ptrs,
                output: output.ptr(),
                num_elem,
            },
        )
    }

    /// Records a launch that the driver accepted with `status`: on success
    /// it joins the end of the queue, otherwise the queue is unchanged.
    pub fn record_launch(&mut self, launch: &KernelLaunch, status: u32) -> (r: Result<(), CudaError>)
        requires
            old(self).wf(),
            old(self).ops().len() < usize::MAX,
        ensures
            r == checked(Stage::Launch, status),
            final(self).wf(),
            final(self).handle() == old(self).handle(),
            final(self).owner_ctx() == old(self).owner_ctx(),
            final(self).done() == old(self).done(),
            r is Ok ==> final(self).ops() == old(self).ops().push(launch.output),
            r is Err ==> final(self).ops() == old(self).ops(),
    {
        let r = check_status(Stage::Launch, status);
        if status == CUDA_SUCCESS {
            self.writes.push(launch.output);
        }
        r
    }

    /// Records a synchronization that returned `status`: on success every
    /// issued operation has completed.
    pub fn synchronize(&mut self, status: u32) -> (r: Result<(), CudaError>)
        requires
            old(self).wf(),
        ensures
            r == checked(Stage::StreamSynchronize, status),
            final(self).wf(),
            final(self).handle() == old(self).handle(),
            final(self).owner_ctx() == old(self).owner_ctx(),
            final(self).ops() == old(self).ops(),
            r is Ok ==> final(self).done() == old(self).ops().len(),
            r is Err ==> final(self).done() == old(self).done(),
    {
        let r = check_status(Stage::StreamSynchronize, status);
        if status == CUDA_SUCCESS {
            self.completed = self.writes.len();
        }
        r
    }

    /// Whether the stream may be destroyed: it is idle and `ctx` holds it.
    pub fn can_destroy(&self, ctx: &CuContext) -> (r: bool)
        requires
            self.wf(),
        ensures
            r == (self.done() == self.ops().len() && self.owner_ctx() == ctx.ctx
                && ctx.streams_destroyed < ctx.streams_created),
    {
        self.completed == self.writes.len() && self.owner == ctx.ctx
            && ctx.streams_destroyed < ctx.streams_created
    }

    /// Consumes the stream once the driver has destroyed it with `status`.
    pub fn destroy(self, ctx: &mut CuContext, status: u32) -> (r: Result<(), CudaError>)
        requires
            self.wf(),
        ensures
            self.done() == self.ops().len() && self.owner_ctx() == old(ctx).ctx
                && old(ctx).streams_destroyed < old(ctx).streams_created ==> r == checked(
                Stage::StreamDestroy,
                status,
            ) && *final(ctx) == old(ctx).after_stream_destroy(),
            !(self.done() == self.ops().len() && self.owner_ctx() == old(ctx).ctx
                && old(ctx).streams_destroyed < old(ctx).streams_created) ==> r == Err::<
                (),
                CudaError,
            >(usage_error()) && *final(ctx) == *old(ctx),
    {
        if !self.can_destroy(ctx) {
            return Err(misuse());
        }
        ctx.streams_destroyed = ctx.streams_destroyed + 1;
        check_status(Stage::StreamDestroy, status)
    }
}

/// Operations on one stream complete in the order they were issued: when a
/// later operation has completed, so has every earlier one, and a buffer that
/// no in-flight operation writes has had every write to it completed.
pub proof fn lemma_fifo_order(s: &CudaStream, a: int, b: int, ptr: u64)
    requires
        s.wf(),
        0 <= a < b < s.ops().len(),
    ensures
        b < s.done() ==> a < s.done(),
        !s.pending_write(ptr) ==> forall|i: int|
            0 <= i < s.ops().len() && #[trigger] s.ops()[i] == ptr ==> i < s.done(),
{
}

/// Whether every input and the output hold at least `need` bytes.
pub open spec fn covers_all(inputs: Seq<&DeviceBuf>, output: &DeviceBuf, need: int) -> bool {
    output.byte_len() >= need && forall|i: int| 0 <= i < inputs.len() ==> #[trigger] inputs[i].byte_len() >= need
}

} // verus!
