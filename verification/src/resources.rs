//! Resource creation and recording descriptors.
//!
//! Buffers, images and one-shot command submissions are created through
//! the driver; the decisions around those calls — which usage bits are
//! forced on, which allocation scheme backs which resource, how the
//! readback staging image is shaped, what a one-shot submission waits
//! on — are computed and proved here.

use vstd::prelude::*;
use vstd::string::StringExecFns;
use crate::align_to;
use crate::memory::{
    alloc_memory,
    Allocation,
    AllocationRequest,
    AllocationResource,
    AllocationScheme,
    MemoryLocation,
    MemoryRequirements,
};
use crate::sync::Extent2d;

verus! {

/// Buffer usage bit every buffer gains: its memory is addressable from
/// shaders by device address.
pub const BUFFER_USAGE_SHADER_DEVICE_ADDRESS: u32 = 0x20000;

/// Image usage bit for a blit or copy destination.
pub const IMAGE_USAGE_TRANSFER_DST: u32 = 0x2;

/// Format code of the 8-bit-per-channel, 4-channel normalized format the
/// readback path produces.
pub const FORMAT_R8G8B8A8_UNORM: i32 = 37;

/// Image tiling codes.
pub const TILING_OPTIMAL: i32 = 0;
pub const TILING_LINEAR: i32 = 1;

/// Dimensionality code of a two-dimensional image or image view.
pub const IMAGE_TYPE_2D: i32 = 1;
pub const IMAGE_VIEW_TYPE_2D: i32 = 1;

/// Single-sample count bit.
pub const SAMPLE_COUNT_1: u32 = 0x1;

/// Command pool flag for short-lived command buffers.
pub const COMMAND_POOL_TRANSIENT: u32 = 0x1;

/// Primary command buffer level code.
pub const COMMAND_BUFFER_LEVEL_PRIMARY: i32 = 0;

/// Command buffer usage flag for a single submission.
pub const COMMAND_BUFFER_ONE_TIME_SUBMIT: u32 = 0x1;

/// What the driver is asked for when a buffer object is created.
#[derive(Clone, Copy, PartialEq, Eq, Structural, Debug)]
pub struct BufferCreateDesc {
    pub size: u64,
    pub usage: u32,
}

/// Shapes a buffer creation request: the requested usage, with the
/// device-address capability always added.
pub fn buffer_create_desc(size: u64, usage: u32) -> (r: BufferCreateDesc)
    ensures
        r.size == size,
        r.usage == usage | BUFFER_USAGE_SHADER_DEVICE_ADDRESS,
{
    BufferCreateDesc { size, usage: usage | BUFFER_USAGE_SHADER_DEVICE_ADDRESS }
}

/// The allocation request backing a buffer: always linear, always a
/// dedicated block for exactly this buffer.
pub fn buffer_alloc_request(
    buffer_handle: u64,
    requirements: MemoryRequirements,
    location: MemoryLocation,
) -> (r: AllocationRequest)
    ensures
        r.requirements == requirements,
        r.location == location,
        r.linear,
        r.scheme == AllocationScheme::DedicatedBuffer(buffer_handle),
{
    alloc_memory(requirements, location, true, AllocationResource::Buffer(buffer_handle))
}

/// The allocation request backing an image: linear exactly when the
/// image's tiling is linear, and a dedicated block for exactly this
/// image.
pub fn image_alloc_request(
    image_handle: u64,
    requirements: MemoryRequirements,
    location: MemoryLocation,
    tiling: i32,
) -> (r: AllocationRequest)
    ensures
        r.requirements == requirements,
        r.location == location,
        r.linear == (tiling == TILING_LINEAR),
        r.scheme == AllocationScheme::DedicatedImage(image_handle),
{
    alloc_memory(
        requirements,
        location,
        tiling == TILING_LINEAR,
        AllocationResource::Image(image_handle),
    )
}

/// A buffer the renderer owns: one API handle, one allocation, and the
/// GPU-visible address fixed at creation.
#[derive(Debug)]
pub struct Buffer {
    pub handle: u64,
    pub allocation: Allocation,
    pub size: u64,
    pub address: u64,
}

impl Buffer {
    /// A live buffer always has a non-zero device address.
    pub open spec fn wf(self) -> bool {
        self.address != 0
    }
}

/// A buffer could not be assembled from the driver's answers.
#[derive(Clone, Copy, PartialEq, Eq, Structural, Debug)]
pub enum BufferError {
    /// The driver reported a null device address for the new buffer.
    NullDeviceAddress,
}

/// Assembles the buffer record from the driver's answers: succeeds
/// exactly when the reported device address is non-zero, and then owns
/// the given handle and allocation unchanged.
pub fn assemble_buffer(handle: u64, allocation: Allocation, size: u64, address: u64) -> (r: Result<
    Buffer,
    BufferError,
>)
    ensures
        match r {
            Ok(b) => {
                &&& b.wf()
                &&& b.handle == handle
                &&& b.allocation == allocation
                &&& b.size == size
                &&& b.address == address
                &&& address != 0
            },
            Err(e) => e == BufferError::NullDeviceAddress && address == 0,
        },
{
    if address == 0 {
        Err(BufferError::NullDeviceAddress)
    } else {
        Ok(Buffer { handle, allocation, size, address })
    }
}

/// The debug name a typed buffer is tagged with, naming the element type
/// it was sized for.
pub fn typed_buffer_label(element_name: &str) -> (r: String)
    ensures
        r@ == "BufferTyped<"@ + element_name@ + ">"@,
{
    let mut s = String::new();
    s.append("BufferTyped<");
    s.append(element_name);
    s.append(">");
    proof {
        assert(s@ =~= "BufferTyped<"@ + element_name@ + ">"@);
    }
    s
}

/// An image the renderer owns: one API handle, one allocation, its
/// format and its extent.
pub struct ManagedImage {
    pub handle: u64,
    pub allocation: Allocation,
    pub format: i32,
    pub extent: Extent2d,
}

/// What the driver is asked for when an image is created.
#[derive(Clone, Copy, PartialEq, Eq, Structural, Debug)]
pub struct ImageCreateDesc {
    pub width: u32,
    pub height: u32,
    pub depth: u32,
    pub image_type: i32,
    pub format: i32,
    pub usage: u32,
    pub samples: u32,
    pub mip_levels: u32,
    pub array_layers: u32,
    pub tiling: i32,
    pub location: MemoryLocation,
}

/// Shapes the staging image that receives a readback blit: a
/// host-readable, linear-tiled, single-level color image whose
/// dimensions are the source extent rounded up to even numbers.
pub fn capture_staging_desc(extent: Extent2d) -> (r: ImageCreateDesc)
    requires
        extent.width < u32::MAX,
        extent.height < u32::MAX,
    ensures
        r.width % 2 == 0 && extent.width <= r.width < extent.width + 2,
        r.height % 2 == 0 && extent.height <= r.height < extent.height + 2,
        r.depth == 1,
        r.image_type == IMAGE_TYPE_2D,
        r.format == FORMAT_R8G8B8A8_UNORM,
        r.usage == IMAGE_USAGE_TRANSFER_DST,
        r.samples == SAMPLE_COUNT_1,
        r.mip_levels == 1,
        r.array_layers == 1,
        r.tiling == TILING_LINEAR,
        r.location == MemoryLocation::GpuToCpu,
{
    ImageCreateDesc {
        width: align_to(extent.width, 2),
        height: align_to(extent.height, 2),
        depth: 1,
        image_type: IMAGE_TYPE_2D,
        format: FORMAT_R8G8B8A8_UNORM,
        usage: IMAGE_USAGE_TRANSFER_DST,
        samples: SAMPLE_COUNT_1,
        mip_levels: 1,
        array_layers: 1,
        tiling: TILING_LINEAR,
        location: MemoryLocation::GpuToCpu,
    }
}

/// What the driver is asked for when a two-dimensional color view onto
/// an image is created.
#[derive(Clone, Copy, PartialEq, Eq, Structural, Debug)]
pub struct ImageViewDesc {
    pub view_type: i32,
    pub format: i32,
    pub aspect_mask: u32,
    pub base_mip_level: u32,
    pub level_count: u32,
    pub base_array_layer: u32,
    pub layer_count: u32,
}

/// Shapes a two-dimensional color view starting at the given mip level
/// and covering everything from there on.
pub fn create_2d_view(format: i32, base_mip_level: u32) -> (r: ImageViewDesc)
    ensures
        r.view_type == IMAGE_VIEW_TYPE_2D,
        r.format == format,
        r.aspect_mask == crate::sync::ASPECT_COLOR,
        r.base_mip_level == base_mip_level,
        r.level_count == crate::sync::REMAINING_MIP_LEVELS,
        r.base_array_layer == 0,
        r.layer_count == crate::sync::REMAINING_ARRAY_LAYERS,
{
    ImageViewDesc {
        view_type: IMAGE_VIEW_TYPE_2D,
        format,
        aspect_mask: crate::sync::ASPECT_COLOR,
        base_mip_level,
        level_count: crate::sync::REMAINING_MIP_LEVELS,
        base_array_layer: 0,
        layer_count: crate::sync::REMAINING_ARRAY_LAYERS,
    }
}

/// The fixed shape of a one-shot synchronous submission: one primary
/// command buffer recorded for a single use, an unsignalled fence, and a
/// blocking wait with an effectively unbounded timeout.
#[derive(Clone, Copy, PartialEq, Eq, Structural, Debug)]
pub struct OneTimeSubmitPlan {
    pub fence_flags: u32,
    pub command_buffer_count: u32,
    pub command_buffer_level: i32,
    pub begin_flags: u32,
    pub wait_all: bool,
    pub wait_timeout_ns: u64,
}

/// Plans a one-shot submission. The fence starts unsignalled, exactly
/// one primary buffer is recorded with the single-use flag, and the wait
/// covers every fence with the largest expressible timeout.
pub fn one_time_submit_plan() -> (r: OneTimeSubmitPlan)
    ensures
        r.fence_flags == 0,
        r.command_buffer_count == 1,
        r.command_buffer_level == COMMAND_BUFFER_LEVEL_PRIMARY,
        r.begin_flags == COMMAND_BUFFER_ONE_TIME_SUBMIT,
        r.wait_all,
        r.wait_timeout_ns == u64::MAX,
{
    OneTimeSubmitPlan {
        fence_flags: 0,
        command_buffer_count: 1,
        command_buffer_level: COMMAND_BUFFER_LEVEL_PRIMARY,
        begin_flags: COMMAND_BUFFER_ONE_TIME_SUBMIT,
        wait_all: true,
        wait_timeout_ns: u64::MAX,
    }
}

} // verus!
