//! Value types for memory-barrier descriptors.
//!
//! A barrier descriptor records that a subsequent GPU operation must observe
//! the effects of a prior one. It carries a pipeline-stage mask and an access
//! mask for both the source and the destination scope; an image barrier also
//! carries an old and a new layout and the subresource range it covers.
//!
//! All values use the raw encoding of the Vulkan synchronization API:
//! stage masks are `VkPipelineStageFlags2` bits, access masks are
//! `VkAccessFlags2` bits, layouts are `VkImageLayout` values. Holding the raw
//! integers keeps the descriptors plain data; the caller converts them to its
//! driver binding's structs when it records the command stream.

use vstd::prelude::*;

verus! {

/// `VK_PIPELINE_STAGE_2_TRANSFER_BIT`: the stage executing copy, blit and
/// clear commands.
pub const STAGE_TRANSFER: u64 = 0x1000;

/// The empty access mask.
pub const ACCESS_NONE: u64 = 0;

/// `VK_ACCESS_2_TRANSFER_READ_BIT`.
pub const ACCESS_TRANSFER_READ: u64 = 0x800;

/// `VK_ACCESS_2_TRANSFER_WRITE_BIT`.
pub const ACCESS_TRANSFER_WRITE: u64 = 0x1000;

/// Both transfer access bits combined.
pub const ACCESS_TRANSFER_READ_WRITE: u64 = ACCESS_TRANSFER_READ + ACCESS_TRANSFER_WRITE;

/// `VK_WHOLE_SIZE`: a buffer range extending to the end of the buffer.
pub const WHOLE_SIZE: u64 = 0xffff_ffff_ffff_ffff;

/// `VK_REMAINING_MIP_LEVELS`: a level count covering every remaining level.
pub const REMAINING_MIP_LEVELS: u32 = 0xffff_ffff;

/// `VK_REMAINING_ARRAY_LAYERS`: a layer count covering every remaining layer.
pub const REMAINING_ARRAY_LAYERS: u32 = 0xffff_ffff;

/// `VK_IMAGE_LAYOUT_UNDEFINED`.
pub const LAYOUT_UNDEFINED: i32 = 0;

/// `VK_IMAGE_LAYOUT_TRANSFER_SRC_OPTIMAL`: the layout an image must be in to
/// serve as a transfer source.
pub const LAYOUT_TRANSFER_SRC_OPTIMAL: i32 = 6;

/// `VK_IMAGE_LAYOUT_TRANSFER_DST_OPTIMAL`: the layout an image must be in to
/// serve as a transfer destination.
pub const LAYOUT_TRANSFER_DST_OPTIMAL: i32 = 7;

/// The access mask holding the transfer-read bit iff `read` and the
/// transfer-write bit iff `write`.
pub open spec fn transfer_access(read: bool, write: bool) -> u64 {
    if read && write {
        ACCESS_TRANSFER_READ_WRITE
    } else if read {
        ACCESS_TRANSFER_READ
    } else if write {
        ACCESS_TRANSFER_WRITE
    } else {
        ACCESS_NONE
    }
}

/// Builds the access mask holding the transfer-read bit iff `read` and the
/// transfer-write bit iff `write`.
pub fn transfer_access_mask(read: bool, write: bool) -> (mask: u64)
    ensures
        mask == transfer_access(read, write),
{
    if read && write {
        ACCESS_TRANSFER_READ_WRITE
    } else if read {
        ACCESS_TRANSFER_READ
    } else if write {
        ACCESS_TRANSFER_WRITE
    } else {
        ACCESS_NONE
    }
}

/// A memory barrier covering one whole buffer.
#[derive(Clone, Copy, Debug, PartialEq, Eq, Structural)]
pub struct BufferMemoryBarrier {
    /// Source pipeline-stage mask.
    pub src_stage_mask: u64,
    /// Accesses that must complete and be made available before the barrier.
    pub src_access_mask: u64,
    /// Destination pipeline-stage mask.
    pub dst_stage_mask: u64,
    /// Accesses the barrier makes the source's effects visible to.
    pub dst_access_mask: u64,
    /// Raw handle of the buffer the barrier covers.
    pub buffer: u64,
    /// Start of the covered range, in bytes.
    pub offset: u64,
    /// Length of the covered range, in bytes, or [`WHOLE_SIZE`].
    pub size: u64,
}

/// The subresource range an image barrier covers.
#[derive(Clone, Copy, Debug, PartialEq, Eq, Structural)]
pub struct ImageSubresourceRange {
    /// Which logical planes (color, depth, stencil, ...) the range refers to.
    pub aspect_mask: u32,
    /// First mip level covered.
    pub base_mip_level: u32,
    /// Number of mip levels covered, or [`REMAINING_MIP_LEVELS`].
    pub level_count: u32,
    /// First array layer covered.
    pub base_array_layer: u32,
    /// Number of array layers covered, or [`REMAINING_ARRAY_LAYERS`].
    pub layer_count: u32,
}

/// A memory barrier covering a whole image, optionally transitioning its
/// layout from `old_layout` to `new_layout`.
#[derive(Clone, Copy, Debug, PartialEq, Eq, Structural)]
pub struct ImageMemoryBarrier {
    /// Source pipeline-stage mask.
    pub src_stage_mask: u64,
    /// Accesses that must complete and be made available before the barrier.
    pub src_access_mask: u64,
    /// Destination pipeline-stage mask.
    pub dst_stage_mask: u64,
    /// Accesses the barrier makes the source's effects visible to.
    pub dst_access_mask: u64,
    /// Layout the image is in when the barrier executes.
    pub old_layout: i32,
    /// Layout the barrier leaves the image in.
    pub new_layout: i32,
    /// Raw handle of the image the barrier covers.
    pub image: u64,
    /// The subresource range the barrier covers.
    pub subresource_range: ImageSubresourceRange,
}

/// The range covering every mip level and array layer of the aspects in
/// `aspect_mask`.
pub open spec fn spec_whole_image_range(aspect_mask: u32) -> ImageSubresourceRange {
    ImageSubresourceRange {
        aspect_mask,
        base_mip_level: 0,
        level_count: REMAINING_MIP_LEVELS,
        base_array_layer: 0,
        layer_count: REMAINING_ARRAY_LAYERS,
    }
}

/// Builds the range covering every mip level and array layer of the aspects
/// in `aspect_mask`.
pub fn whole_image_range(aspect_mask: u32) -> (range: ImageSubresourceRange)
    ensures
        range == spec_whole_image_range(aspect_mask),
{
    ImageSubresourceRange {
        aspect_mask,
        base_mip_level: 0,
        level_count: REMAINING_MIP_LEVELS,
        base_array_layer: 0,
        layer_count: REMAINING_ARRAY_LAYERS,
    }
}

} // verus!
