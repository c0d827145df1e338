//! Frame descriptors and pixel extents.

use vstd::prelude::*;

verus! {

/// A pixel extent: the size of a render target in device pixels.
#[derive(Clone, Copy, Debug, PartialEq, Eq, Structural)]
pub struct Extent2 {
    pub width: u32,
    pub height: u32,
}

/// Descriptor of one exported frame, produced once per resize.
///
/// The descriptor is a plain value: ownership of it transfers on every relay
/// step, and it is never shared. `memory_fd` is the exported file descriptor
/// backing the image; `texture_view` identifies the texture view that is kept
/// alive while this frame is in flight, so that the GPU resources outlive the
/// exporter's own registry entry.
#[derive(Clone, Copy, Debug, PartialEq, Eq, Structural)]
pub struct FrameDescriptor {
    pub width: u32,
    pub height: u32,
    pub memory_fd: i32,
    pub texture_view: u64,
}

/// One dimension of the effective render-target size: the reported dimension,
/// raised to at least 1, times the scale factor, clamped into the range a
/// `u32` extent can carry (and never below 1, since the exporter refuses
/// zero-sized images).
pub open spec fn effective_dim(reported: int, scale: int) -> int {
    let scaled = (if reported < 1 { 1int } else { reported }) * scale;
    if scaled < 1 {
        1int
    } else if scaled > u32::MAX as int {
        u32::MAX as int
    } else {
        scaled
    }
}

/// The effective pixel size computed from a size/scale report.
pub open spec fn effective_extent(width: int, height: int, scale: int) -> Extent2 {
    Extent2 {
        width: effective_dim(width, scale) as u32,
        height: effective_dim(height, scale) as u32,
    }
}

/// Computes one effective dimension from non-negative reports.
pub fn compute_effective_dim(reported: i32, scale: i32) -> (dim: u32)
    requires
        reported >= 0,
        scale >= 0,
    ensures
        dim == effective_dim(reported as int, scale as int),
{
    let base: u64 = if reported < 1 { 1 } else { reported as u64 };
    let factor: u64 = scale as u64;
    proof {
        assert(base * factor < 0x4000_0000_0000_0000) by (nonlinear_arith)
            requires
                base < 0x8000_0000,
                factor < 0x8000_0000,
        ;
    }
    let scaled: u64 = base * factor;
    if scaled < 1 {
        1
    } else if scaled > u32::MAX as u64 {
        u32::MAX
    } else {
        scaled as u32
    }
}

/// Computes the effective pixel size from non-negative reports.
pub fn compute_effective_extent(width: i32, height: i32, scale: i32) -> (extent: Extent2)
    requires
        width >= 0,
        height >= 0,
        scale >= 0,
    ensures
        extent == effective_extent(width as int, height as int, scale as int),
{
    Extent2 {
        width: compute_effective_dim(width, scale),
        height: compute_effective_dim(height, scale),
    }
}

} // verus!
