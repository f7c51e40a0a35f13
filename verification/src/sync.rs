//! Image layout transitions and blit planning.
//!
//! An image layout determines which pipeline stages and access kinds a
//! barrier must name when an image moves into or out of that layout. The
//! mapping is a closed table; a layout outside the table is a fatal
//! condition for the caller, never a silent default.

use vstd::prelude::*;

verus! {

/// The image layouts the command layer knows how to synchronize against.
/// `Other` carries a raw layout code outside the recognized set; the
/// stage/access tables are deliberately not defined on it.
#[derive(Clone, Copy, PartialEq, Eq, Structural, Debug)]
pub enum ImageLayout {
    Undefined,
    Preinitialized,
    TransferSrcOptimal,
    TransferDstOptimal,
    ColorAttachmentOptimal,
    DepthAttachmentOptimal,
    ShadingRateAttachmentOptimal,
    ShaderReadOnlyOptimal,
    PresentSrc,
    General,
    Other(i32),
}

// Pipeline stage masks, as the synchronization extension of the graphics
// API defines them.
pub const STAGE_TOP_OF_PIPE: u64 = 0x1;
pub const STAGE_VERTEX_SHADER: u64 = 0x8;
pub const STAGE_FRAGMENT_SHADER: u64 = 0x80;
pub const STAGE_EARLY_FRAGMENT_TESTS: u64 = 0x100;
pub const STAGE_LATE_FRAGMENT_TESTS: u64 = 0x200;
pub const STAGE_COLOR_ATTACHMENT_OUTPUT: u64 = 0x400;
pub const STAGE_TRANSFER: u64 = 0x1000;
pub const STAGE_BOTTOM_OF_PIPE: u64 = 0x2000;
pub const STAGE_HOST: u64 = 0x4000;
pub const STAGE_ALL_COMMANDS: u64 = 0x10000;
pub const STAGE_SHADING_RATE_ATTACHMENT: u64 = 0x400000;

// Access masks, same numbering scheme.
pub const ACCESS_NONE: u64 = 0x0;
pub const ACCESS_INPUT_ATTACHMENT_READ: u64 = 0x10;
pub const ACCESS_SHADER_READ: u64 = 0x20;
pub const ACCESS_SHADER_WRITE: u64 = 0x40;
pub const ACCESS_COLOR_ATTACHMENT_READ: u64 = 0x80;
pub const ACCESS_COLOR_ATTACHMENT_WRITE: u64 = 0x100;
pub const ACCESS_DEPTH_STENCIL_ATTACHMENT_READ: u64 = 0x200;
pub const ACCESS_DEPTH_STENCIL_ATTACHMENT_WRITE: u64 = 0x400;
pub const ACCESS_TRANSFER_READ: u64 = 0x800;
pub const ACCESS_TRANSFER_WRITE: u64 = 0x1000;
pub const ACCESS_HOST_WRITE: u64 = 0x4000;
pub const ACCESS_SHADING_RATE_ATTACHMENT_READ: u64 = 0x800000;

// Image aspect masks.
pub const ASPECT_COLOR: u32 = 0x1;
pub const ASPECT_DEPTH: u32 = 0x2;

/// Sentinel meaning "all remaining mip levels" in a subresource range.
pub const REMAINING_MIP_LEVELS: u32 = 0xFFFF_FFFF;
/// Sentinel meaning "all remaining array layers" in a subresource range.
pub const REMAINING_ARRAY_LAYERS: u32 = 0xFFFF_FFFF;

/// Whether the stage/access tables are defined on this layout.
pub open spec fn spec_recognized(layout: ImageLayout) -> bool {
    !(layout is Other)
}

/// Exec mirror of `spec_recognized`.
pub fn recognized(layout: ImageLayout) -> (r: bool)
    ensures
        r == spec_recognized(layout),
{
    !matches!(layout, ImageLayout::Other(_))
}

/// The pipeline stage mask a barrier uses for an image in `layout`.
pub open spec fn spec_stage_for(layout: ImageLayout) -> u64
    recommends
        spec_recognized(layout),
{
    match layout {
        ImageLayout::Undefined => STAGE_TOP_OF_PIPE,
        ImageLayout::Preinitialized => STAGE_HOST,
        ImageLayout::TransferSrcOptimal => STAGE_TRANSFER,
        ImageLayout::TransferDstOptimal => STAGE_TRANSFER,
        ImageLayout::ColorAttachmentOptimal => STAGE_COLOR_ATTACHMENT_OUTPUT,
        ImageLayout::DepthAttachmentOptimal => STAGE_EARLY_FRAGMENT_TESTS | STAGE_LATE_FRAGMENT_TESTS,
        ImageLayout::ShadingRateAttachmentOptimal => STAGE_SHADING_RATE_ATTACHMENT,
        ImageLayout::ShaderReadOnlyOptimal => STAGE_VERTEX_SHADER | STAGE_FRAGMENT_SHADER,
        ImageLayout::PresentSrc => STAGE_BOTTOM_OF_PIPE,
        ImageLayout::General => STAGE_ALL_COMMANDS,
        ImageLayout::Other(_) => 0,
    }
}

/// The access mask a barrier uses for an image in `layout`.
pub open spec fn spec_access_for(layout: ImageLayout) -> u64
    recommends
        spec_recognized(layout),
{
    match layout {
        ImageLayout::Undefined => ACCESS_NONE,
        ImageLayout::Preinitialized => ACCESS_HOST_WRITE,
        ImageLayout::TransferSrcOptimal => ACCESS_TRANSFER_READ,
        ImageLayout::TransferDstOptimal => ACCESS_TRANSFER_WRITE,
        ImageLayout::ColorAttachmentOptimal => ACCESS_COLOR_ATTACHMENT_READ
            | ACCESS_COLOR_ATTACHMENT_WRITE,
        ImageLayout::DepthAttachmentOptimal => ACCESS_DEPTH_STENCIL_ATTACHMENT_READ
            | ACCESS_DEPTH_STENCIL_ATTACHMENT_WRITE,
        ImageLayout::ShadingRateAttachmentOptimal => ACCESS_SHADING_RATE_ATTACHMENT_READ,
        ImageLayout::ShaderReadOnlyOptimal => ACCESS_SHADER_READ | ACCESS_INPUT_ATTACHMENT_READ,
        ImageLayout::PresentSrc => ACCESS_NONE,
        ImageLayout::General => ACCESS_SHADER_READ | ACCESS_SHADER_WRITE,
        ImageLayout::Other(_) => 0,
    }
}

/// Stage mask for a recognized layout. A layout outside the table is a
/// fatal condition; callers establish `spec_recognized` first (see
/// `try_stage_for` for the checked entry point).
pub fn stage_for(layout: ImageLayout) -> (r: u64)
    requires
        spec_recognized(layout),
    ensures
        r == spec_stage_for(layout),
{
    match layout {
        ImageLayout::Undefined => STAGE_TOP_OF_PIPE,
        ImageLayout::Preinitialized => STAGE_HOST,
        ImageLayout::TransferSrcOptimal => STAGE_TRANSFER,
        ImageLayout::TransferDstOptimal => STAGE_TRANSFER,
        ImageLayout::ColorAttachmentOptimal => STAGE_COLOR_ATTACHMENT_OUTPUT,
        ImageLayout::DepthAttachmentOptimal => STAGE_EARLY_FRAGMENT_TESTS | STAGE_LATE_FRAGMENT_TESTS,
        ImageLayout::ShadingRateAttachmentOptimal => STAGE_SHADING_RATE_ATTACHMENT,
        ImageLayout::ShaderReadOnlyOptimal => STAGE_VERTEX_SHADER | STAGE_FRAGMENT_SHADER,
        ImageLayout::PresentSrc => STAGE_BOTTOM_OF_PIPE,
        ImageLayout::General => STAGE_ALL_COMMANDS,
        ImageLayout::Other(_) => 0,
    }
}

/// Access mask for a recognized layout; same fatality rule as `stage_for`.
pub fn access_for(layout: ImageLayout) -> (r: u64)
    requires
        spec_recognized(layout),
    ensures
        r == spec_access_for(layout),
{
    match layout {
        ImageLayout::Undefined => ACCESS_NONE,
        ImageLayout::Preinitialized => ACCESS_HOST_WRITE,
        ImageLayout::TransferSrcOptimal => ACCESS_TRANSFER_READ,
        ImageLayout::TransferDstOptimal => ACCESS_TRANSFER_WRITE,
        ImageLayout::ColorAttachmentOptimal => ACCESS_COLOR_ATTACHMENT_READ
            | ACCESS_COLOR_ATTACHMENT_WRITE,
        ImageLayout::DepthAttachmentOptimal => ACCESS_DEPTH_STENCIL_ATTACHMENT_READ
            | ACCESS_DEPTH_STENCIL_ATTACHMENT_WRITE,
        ImageLayout::ShadingRateAttachmentOptimal => ACCESS_SHADING_RATE_ATTACHMENT_READ,
        ImageLayout::ShaderReadOnlyOptimal => ACCESS_SHADER_READ | ACCESS_INPUT_ATTACHMENT_READ,
        ImageLayout::PresentSrc => ACCESS_NONE,
        ImageLayout::General => ACCESS_SHADER_READ | ACCESS_SHADER_WRITE,
        ImageLayout::Other(_) => 0,
    }
}

/// Checked stage lookup: `None` exactly on layouts outside the table, so
/// the caller can fail fast instead of under-synchronizing.
pub fn try_stage_for(layout: ImageLayout) -> (r: Option<u64>)
    ensures
        r is Some <==> spec_recognized(layout),
        r is Some ==> r->Some_0 == spec_stage_for(layout),
{
    if recognized(layout) {
        Some(stage_for(layout))
    } else {
        None
    }
}

/// Checked access lookup; `None` exactly on layouts outside the table.
pub fn try_access_for(layout: ImageLayout) -> (r: Option<u64>)
    ensures
        r is Some <==> spec_recognized(layout),
        r is Some ==> r->Some_0 == spec_access_for(layout),
{
    if recognized(layout) {
        Some(access_for(layout))
    } else {
        None
    }
}

/// The aspect a transition between these two layouts synchronizes:
/// depth exactly when either side is the depth attachment layout,
/// color otherwise.
pub open spec fn spec_aspect_for(old_layout: ImageLayout, new_layout: ImageLayout) -> u32 {
    if old_layout is DepthAttachmentOptimal || new_layout is DepthAttachmentOptimal {
        ASPECT_DEPTH
    } else {
        ASPECT_COLOR
    }
}

/// Exec mirror of `spec_aspect_for`.
pub fn aspect_for(old_layout: ImageLayout, new_layout: ImageLayout) -> (r: u32)
    ensures
        r == spec_aspect_for(old_layout, new_layout),
{
    if matches!(old_layout, ImageLayout::DepthAttachmentOptimal)
        || matches!(new_layout, ImageLayout::DepthAttachmentOptimal) {
        ASPECT_DEPTH
    } else {
        ASPECT_COLOR
    }
}

/// Everything a single image memory barrier names: the layouts on both
/// sides, the derived stage and access masks, and the full subresource
/// range the transition covers.
pub struct ImageBarrier {
    pub old_layout: ImageLayout,
    pub new_layout: ImageLayout,
    pub src_stage_mask: u64,
    pub dst_stage_mask: u64,
    pub src_access_mask: u64,
    pub dst_access_mask: u64,
    pub aspect_mask: u32,
    pub base_mip_level: u32,
    pub level_count: u32,
    pub base_array_layer: u32,
    pub layer_count: u32,
}

impl ImageBarrier {
    /// The barrier is exactly the table-derived transition between its
    /// two layouts, over the whole image.
    pub open spec fn wf(self) -> bool {
        &&& spec_recognized(self.old_layout)
        &&& spec_recognized(self.new_layout)
        &&& self.src_stage_mask == spec_stage_for(self.old_layout)
        &&& self.dst_stage_mask == spec_stage_for(self.new_layout)
        &&& self.src_access_mask == spec_access_for(self.old_layout)
        &&& self.dst_access_mask == spec_access_for(self.new_layout)
        &&& self.aspect_mask == spec_aspect_for(self.old_layout, self.new_layout)
        &&& self.base_mip_level == 0
        &&& self.level_count == REMAINING_MIP_LEVELS
        &&& self.base_array_layer == 0
        &&& self.layer_count == REMAINING_ARRAY_LAYERS
    }
}

/// Computes the single pipeline barrier an image transition issues: the
/// stage and access masks come from the layout tables, the aspect from
/// the depth rule, and the range covers every mip level and array layer.
pub fn image_transition(old_layout: ImageLayout, new_layout: ImageLayout) -> (r: ImageBarrier)
    requires
        spec_recognized(old_layout),
        spec_recognized(new_layout),
    ensures
        r.wf(),
        r.old_layout == old_layout,
        r.new_layout == new_layout,
{
    ImageBarrier {
        old_layout,
        new_layout,
        src_stage_mask: stage_for(old_layout),
        dst_stage_mask: stage_for(new_layout),
        src_access_mask: access_for(old_layout),
        dst_access_mask: access_for(new_layout),
        aspect_mask: aspect_for(old_layout, new_layout),
        base_mip_level: 0,
        level_count: REMAINING_MIP_LEVELS,
        base_array_layer: 0,
        layer_count: REMAINING_ARRAY_LAYERS,
    }
}

/// Filter codes for a blit.
pub const FILTER_NEAREST: u32 = 0;
pub const FILTER_LINEAR: u32 = 1;

/// A width/height pair.
#[derive(Clone, Copy, PartialEq, Eq, Structural, Debug)]
pub struct Extent2d {
    pub width: u32,
    pub height: u32,
}

/// The layout the blit restores on its destination: the original layout,
/// except that an undefined original becomes the general layout, since an
/// image that has just been written cannot be left undefined.
pub open spec fn spec_blit_restore_layout(dst_orig_layout: ImageLayout) -> ImageLayout {
    if dst_orig_layout is Undefined {
        ImageLayout::General
    } else {
        dst_orig_layout
    }
}

/// Exec mirror of `spec_blit_restore_layout`.
pub fn blit_restore_layout(dst_orig_layout: ImageLayout) -> (r: ImageLayout)
    ensures
        r == spec_blit_restore_layout(dst_orig_layout),
{
    match dst_orig_layout {
        ImageLayout::Undefined => ImageLayout::General,
        other => other,
    }
}

/// Everything a full-extent blit between two images records: the four
/// layout transitions around it and the copy region itself.
pub struct BlitPlan {
    /// Source image into the transfer-read layout.
    pub pre_src: ImageBarrier,
    /// Destination image into the transfer-write layout.
    pub pre_dst: ImageBarrier,
    /// Source image back to its original layout.
    pub post_src: ImageBarrier,
    /// Destination image to its restored layout (original, or general if
    /// the original was undefined).
    pub post_dst: ImageBarrier,
    /// Exclusive upper corner of the source region; the lower corner is
    /// the origin.
    pub src_extent: Extent2d,
    /// Exclusive upper corner of the destination region.
    pub dst_extent: Extent2d,
    /// Aspect of the single color subresource layer copied.
    pub subresource_aspect: u32,
    pub base_array_layer: u32,
    pub layer_count: u32,
    pub mip_level: u32,
    /// Sampling filter of the blit.
    pub filter: u32,
}

/// Plans a linear-filtered, full-extent blit: both images transition to
/// their transfer layouts, the copy covers one color layer at mip zero,
/// and afterwards the source returns to its original layout while the
/// destination returns to its original layout unless that was undefined,
/// in which case it is left general.
pub fn blit_image(
    src_extent: Extent2d,
    src_orig_layout: ImageLayout,
    dst_extent: Extent2d,
    dst_orig_layout: ImageLayout,
) -> (r: BlitPlan)
    requires
        spec_recognized(src_orig_layout),
        spec_recognized(dst_orig_layout),
    ensures
        r.pre_src.wf() && r.pre_src.old_layout == src_orig_layout && r.pre_src.new_layout
            == ImageLayout::TransferSrcOptimal,
        r.pre_dst.wf() && r.pre_dst.old_layout == dst_orig_layout && r.pre_dst.new_layout
            == ImageLayout::TransferDstOptimal,
        r.post_src.wf() && r.post_src.old_layout == ImageLayout::TransferSrcOptimal
            && r.post_src.new_layout == src_orig_layout,
        r.post_dst.wf() && r.post_dst.old_layout == ImageLayout::TransferDstOptimal
            && r.post_dst.new_layout == spec_blit_restore_layout(dst_orig_layout),
        r.src_extent == src_extent && r.dst_extent == dst_extent,
        r.subresource_aspect == ASPECT_COLOR,
        r.base_array_layer == 0 && r.layer_count == 1 && r.mip_level == 0,
        r.filter == FILTER_LINEAR,
{
    BlitPlan {
        pre_src: image_transition(src_orig_layout, ImageLayout::TransferSrcOptimal),
        pre_dst: image_transition(dst_orig_layout, ImageLayout::TransferDstOptimal),
        post_src: image_transition(ImageLayout::TransferSrcOptimal, src_orig_layout),
        post_dst: image_transition(
            ImageLayout::TransferDstOptimal,
            blit_restore_layout(dst_orig_layout),
        ),
        src_extent,
        dst_extent,
        subresource_aspect: ASPECT_COLOR,
        base_array_layer: 0,
        layer_count: 1,
        mip_level: 0,
        filter: FILTER_LINEAR,
    }
}

/// A blit whose destination started undefined leaves the destination in
/// the general layout, never undefined.
pub proof fn lemma_blit_never_leaves_undefined(dst_orig_layout: ImageLayout)
    ensures
        !(spec_blit_restore_layout(dst_orig_layout) is Undefined),
        dst_orig_layout is Undefined ==> spec_blit_restore_layout(dst_orig_layout)
            is General,
{
}

} // verus!
