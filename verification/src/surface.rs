//! Exact parameters of the exported render target and of the dma-buf
//! surface the UI thread builds from it.
//!
//! The exporter creates a 2D, single-level, single-sample, 8-bit-RGBA
//! SRGB-encoded color image with optimal tiling, usable both as a render
//! attachment and as a copy source, created up front with the
//! external-memory capability and backed by a dedicated, fd-exportable
//! allocation. The UI side imports that memory as a single-plane dma-buf:
//! RGBA8888 pixel layout, no tiling modifier, offset 0, stride of four
//! bytes per pixel.

use vstd::prelude::*;
use vstd::string::StringExecFns;

use crate::frame::Extent2;
use crate::frame::FrameDescriptor;

verus! {

/// The dma-buf pixel-layout code the surface is imported with: the 32-bit
/// RGBA8888 little-endian fourcc, `RA24`.
pub const DMABUF_FOURCC_RGBA8888: u32 = 0x34324152;

/// The dma-buf layout modifier: none, the layout is linear/implicit.
pub const DMABUF_MODIFIER_NONE: u64 = 0;

/// Bytes per pixel of the exported image's format.
pub const BYTES_PER_PIXEL: u32 = 4;

/// Parameters of the GPU image the exporter creates for one render target.
#[derive(Clone, Copy, Debug, PartialEq, Eq, Structural)]
pub struct ExportImagePlan {
    pub width: u32,
    pub height: u32,
    /// Depth of the 2D image: always one layer deep.
    pub depth: u32,
    pub mip_levels: u32,
    pub array_layers: u32,
    pub sample_count: u32,
    /// 8-bit RGBA, SRGB-encoded.
    pub srgb_rgba8_format: bool,
    /// Optimal (driver-chosen) tiling.
    pub optimal_tiling: bool,
    /// Usable as a color render attachment.
    pub render_attachment_usage: bool,
    /// Usable as a copy source.
    pub copy_src_usage: bool,
    /// Created up front with the external-memory (fd-exportable) capability;
    /// it cannot be added after allocation.
    pub external_memory_fd: bool,
    /// Backed by an allocation dedicated to this single image, since
    /// exportable memory is not sub-allocated.
    pub dedicated_allocation: bool,
}

/// Plans the exported render-target image for a pixel extent. The extent
/// must be at least 1 in each dimension: zero-sized requests are clamped by
/// the caller before any export is attempted.
pub fn export_image_plan(extent: Extent2) -> (plan: ExportImagePlan)
    requires
        extent.width >= 1,
        extent.height >= 1,
    ensures
        plan == (ExportImagePlan {
            width: extent.width,
            height: extent.height,
            depth: 1,
            mip_levels: 1,
            array_layers: 1,
            sample_count: 1,
            srgb_rgba8_format: true,
            optimal_tiling: true,
            render_attachment_usage: true,
            copy_src_usage: true,
            external_memory_fd: true,
            dedicated_allocation: true,
        }),
{
    ExportImagePlan {
        width: extent.width,
        height: extent.height,
        depth: 1,
        mip_levels: 1,
        array_layers: 1,
        sample_count: 1,
        srgb_rgba8_format: true,
        optimal_tiling: true,
        render_attachment_usage: true,
        copy_src_usage: true,
        external_memory_fd: true,
        dedicated_allocation: true,
    }
}

/// The single-plane dma-buf surface description handed to the compositor.
#[derive(Clone, Copy, Debug, PartialEq, Eq, Structural)]
pub struct DmabufPlan {
    pub width: u32,
    pub height: u32,
    /// Pixel-layout code: always `DMABUF_FOURCC_RGBA8888`.
    pub fourcc: u32,
    /// Tiling modifier: always `DMABUF_MODIFIER_NONE`.
    pub modifier: u64,
    /// Number of memory planes: always one.
    pub plane_count: u32,
    /// The exported memory handle; plane 0 reads from it.
    pub memory_fd: i32,
    /// Byte offset of plane 0 in the exported memory: always zero.
    pub offset: u32,
    /// Bytes per row of plane 0: the width times `BYTES_PER_PIXEL`.
    pub stride: u32,
}

/// Plans the compositor surface for a relayed frame: one RGBA8888 plane at
/// offset zero with a stride of four bytes per pixel, no tiling modifier.
/// Returns nothing exactly when the stride would not fit a `u32`, that is,
/// when the frame is wider than `u32::MAX / BYTES_PER_PIXEL` pixels.
pub fn dmabuf_plan(frame: &FrameDescriptor) -> (plan: Option<DmabufPlan>)
    ensures
        plan is Some <==> frame.width <= u32::MAX / BYTES_PER_PIXEL,
        plan matches Some(p) ==> p == (DmabufPlan {
            width: frame.width,
            height: frame.height,
            fourcc: DMABUF_FOURCC_RGBA8888,
            modifier: DMABUF_MODIFIER_NONE,
            plane_count: 1,
            memory_fd: frame.memory_fd,
            offset: 0,
            stride: (frame.width * BYTES_PER_PIXEL) as u32,
        }),
{
    if frame.width > u32::MAX / BYTES_PER_PIXEL {
        return None;
    }
    Some(
        DmabufPlan {
            width: frame.width,
            height: frame.height,
            fourcc: DMABUF_FOURCC_RGBA8888,
            modifier: DMABUF_MODIFIER_NONE,
            plane_count: 1,
            memory_fd: frame.memory_fd,
            offset: 0,
            stride: frame.width * BYTES_PER_PIXEL,
        },
    )
}

/// The device extensions the exporter's device must be opened with: querying
/// an image's own memory requirements and exporting device memory as a file
/// descriptor.
pub fn required_device_extensions() -> (extensions: Vec<String>)
    ensures
        extensions@.len() == 2,
        extensions@[0]@ == "VK_KHR_get_memory_requirements2"@,
        extensions@[1]@ == "VK_KHR_external_memory_fd"@,
{
    let mut extensions: Vec<String> = Vec::new();
    extensions.push(String::from_str("VK_KHR_get_memory_requirements2"));
    extensions.push(String::from_str("VK_KHR_external_memory_fd"));
    extensions
}

} // verus!
