//! Swapchain parameter selection from the surface's reported capabilities:
//! extent clamping, surface-format and present-mode preference, and the
//! requested image count.

use vstd::prelude::*;

use crate::error::RhiError;

verus! {

/// A surface or image extent in physical pixels.
#[derive(Debug, Clone, Copy, PartialEq, Eq, Structural)]
pub struct Extent2d {
    pub width: u32,
    pub height: u32,
}

/// A supported surface format: a pixel format paired with a color space,
/// both as the driver's raw codes.
#[derive(Debug, Clone, Copy, PartialEq, Eq, Structural)]
pub struct SurfaceFormat {
    pub format: u32,
    pub color_space: u32,
}

/// Raw code of the 8-bit-per-channel BGRA sRGB pixel format.
pub const FORMAT_B8G8R8A8_SRGB: u32 = 50;

/// Raw code of the non-linear sRGB color space.
pub const COLOR_SPACE_SRGB_NONLINEAR: u32 = 0;

/// Raw code of the low-latency triple-buffering present mode.
pub const PRESENT_MODE_MAILBOX: u32 = 1;

/// Raw code of the always-supported vsync (FIFO) present mode.
pub const PRESENT_MODE_FIFO: u32 = 2;

/// The sentinel a surface reports as its current width when the window,
/// not the surface, decides the extent.
pub const EXTENT_UNDEFINED: u32 = 0xffff_ffff;

/// What the surface reports about itself: its fixed extent (or the
/// undefined sentinel), its extent bounds, and its image-count bounds.
#[derive(Debug, Clone, Copy, PartialEq, Eq, Structural)]
pub struct SurfaceCaps {
    pub current_extent: Extent2d,
    pub min_extent: Extent2d,
    pub max_extent: Extent2d,
    pub min_image_count: u32,
    pub max_image_count: u32,
}

impl SurfaceCaps {
    /// The bounds a surface is guaranteed to report: non-crossing extent
    /// bounds and an image-count minimum that leaves room for one more.
    pub open spec fn wf(self) -> bool {
        &&& self.min_extent.width <= self.max_extent.width
        &&& self.min_extent.height <= self.max_extent.height
        &&& self.min_image_count < u32::MAX
    }
}

/// The preferred surface format: 8-bit BGRA with non-linear sRGB.
pub open spec fn is_preferred_format(f: SurfaceFormat) -> bool {
    f.format == FORMAT_B8G8R8A8_SRGB && f.color_space == COLOR_SPACE_SRGB_NONLINEAR
}

/// `v` clamped into the inclusive range `[lo, hi]`.
pub open spec fn spec_clamp(v: u32, lo: u32, hi: u32) -> u32 {
    if v < lo {
        lo
    } else if v > hi {
        hi
    } else {
        v
    }
}

/// The extent rule: the surface's fixed extent when it reports one,
/// otherwise the window's pixel size clamped into the surface's bounds.
pub open spec fn spec_choose_extent(caps: SurfaceCaps, window_extent: Extent2d) -> Extent2d {
    if caps.current_extent.width != EXTENT_UNDEFINED {
        caps.current_extent
    } else {
        Extent2d {
            width: spec_clamp(window_extent.width, caps.min_extent.width, caps.max_extent.width),
            height: spec_clamp(
                window_extent.height,
                caps.min_extent.height,
                caps.max_extent.height,
            ),
        }
    }
}

/// The format rule: the preferred BGRA sRGB pair when the surface supports
/// it, otherwise the first reported format.
pub open spec fn spec_choose_format(formats: Seq<SurfaceFormat>) -> SurfaceFormat {
    if exists|i: int| 0 <= i < formats.len() && is_preferred_format(#[trigger] formats[i]) {
        SurfaceFormat { format: FORMAT_B8G8R8A8_SRGB, color_space: COLOR_SPACE_SRGB_NONLINEAR }
    } else {
        formats[0]
    }
}

/// The present-mode rule: low-latency mailbox when the surface supports it,
/// otherwise the always-supported FIFO mode.
pub open spec fn spec_choose_present_mode(modes: Seq<u32>) -> u32 {
    if exists|i: int| 0 <= i < modes.len() && #[trigger] modes[i] == PRESENT_MODE_MAILBOX {
        PRESENT_MODE_MAILBOX
    } else {
        PRESENT_MODE_FIFO
    }
}

/// The image-count rule: one more than the reported minimum, capped at the
/// reported maximum and clamped to at least one.
pub open spec fn spec_choose_image_count(min_image_count: u32, max_image_count: u32) -> int {
    let capped = if min_image_count + 1 <= max_image_count {
        min_image_count + 1
    } else {
        max_image_count as int
    };
    if capped >= 1 {
        capped
    } else {
        1
    }
}

/// Clamps `value` into the inclusive range `[lo, hi]`.
pub fn clamp_u32(value: u32, lo: u32, hi: u32) -> (r: u32)
    requires
        lo <= hi,
    ensures
        r == spec_clamp(value, lo, hi),
        lo <= r <= hi,
{
    if value < lo {
        lo
    } else if value > hi {
        hi
    } else {
        value
    }
}

/// The extent the swapchain is built with. A window shrunk to a single
/// pixel (or below the surface's minimum) is clamped up, never underflowed.
pub fn choose_extent(caps: &SurfaceCaps, window_extent: Extent2d) -> (r: Extent2d)
    requires
        caps.wf(),
    ensures
        r == spec_choose_extent(*caps, window_extent),
        caps.current_extent.width == EXTENT_UNDEFINED ==> {
            &&& caps.min_extent.width <= r.width <= caps.max_extent.width
            &&& caps.min_extent.height <= r.height <= caps.max_extent.height
        },
{
    if caps.current_extent.width != EXTENT_UNDEFINED {
        caps.current_extent
    } else {
        Extent2d {
            width: clamp_u32(window_extent.width, caps.min_extent.width, caps.max_extent.width),
            height: clamp_u32(
                window_extent.height,
                caps.min_extent.height,
                caps.max_extent.height,
            ),
        }
    }
}

/// The surface format the swapchain is built with.
pub fn choose_surface_format(formats: &Vec<SurfaceFormat>) -> (r: SurfaceFormat)
    requires
        formats@.len() > 0,
    ensures
        r == spec_choose_format(formats@),
{
    let mut idx: usize = 0;
    while idx < formats.len()
        invariant
            idx <= formats@.len(),
            forall|j: int| 0 <= j < idx ==> !is_preferred_format(#[trigger] formats@[j]),
        decreases formats@.len() - idx,
    {
        let f = formats[idx];
        if f.format == FORMAT_B8G8R8A8_SRGB && f.color_space == COLOR_SPACE_SRGB_NONLINEAR {
            assert(is_preferred_format(formats@[idx as int]));
            return f;
        }
        idx = idx + 1;
    }
    formats[0]
}

/// The present mode the swapchain is built with.
pub fn choose_present_mode(modes: &Vec<u32>) -> (r: u32)
    ensures
        r == spec_choose_present_mode(modes@),
{
    let mut idx: usize = 0;
    while idx < modes.len()
        invariant
            idx <= modes@.len(),
            forall|j: int| 0 <= j < idx ==> #[trigger] modes@[j] != PRESENT_MODE_MAILBOX,
        decreases modes@.len() - idx,
    {
        if modes[idx] == PRESENT_MODE_MAILBOX {
            return PRESENT_MODE_MAILBOX;
        }
        idx = idx + 1;
    }
    PRESENT_MODE_FIFO
}

/// The image count requested from the driver.
pub fn choose_image_count(min_image_count: u32, max_image_count: u32) -> (r: u32)
    requires
        min_image_count < u32::MAX,
    ensures
        r == spec_choose_image_count(min_image_count, max_image_count),
        r >= 1,
{
    let capped = if min_image_count + 1 <= max_image_count {
        min_image_count + 1
    } else {
        max_image_count
    };
    if capped >= 1 {
        capped
    } else {
        1
    }
}

/// Everything the swapchain-create call needs that the surface decides:
/// extent, format, present mode, and the image count to request.
#[derive(Debug, Clone, Copy, PartialEq, Eq, Structural)]
pub struct SwapchainPlan {
    pub extent: Extent2d,
    pub format: SurfaceFormat,
    pub present_mode: u32,
    pub min_image_count: u32,
}

impl SwapchainPlan {
    /// Selects all swapchain parameters from the surface's reported
    /// capabilities, formats and present modes, failing exactly when the
    /// surface reports no format or no present mode.
    pub fn build(
        caps: &SurfaceCaps,
        formats: &Vec<SurfaceFormat>,
        modes: &Vec<u32>,
        window_extent: Extent2d,
    ) -> (r: Result<SwapchainPlan, RhiError>)
        requires
            caps.wf(),
        ensures
            r is Err <==> (formats@.len() == 0 || modes@.len() == 0),
            r is Err ==> r == Result::<SwapchainPlan, RhiError>::Err(RhiError::IncompatibleSurface),
            r matches Ok(p) ==> p == (SwapchainPlan {
                extent: spec_choose_extent(*caps, window_extent),
                format: spec_choose_format(formats@),
                present_mode: spec_choose_present_mode(modes@),
                min_image_count: spec_choose_image_count(
                    caps.min_image_count,
                    caps.max_image_count,
                ) as u32,
            }),
    {
        if formats.len() == 0 || modes.len() == 0 {
            return Err(RhiError::IncompatibleSurface);
        }
        let extent = choose_extent(caps, window_extent);
        let format = choose_surface_format(formats);
        let present_mode = choose_present_mode(modes);
        let min_image_count = choose_image_count(caps.min_image_count, caps.max_image_count);
        Ok(SwapchainPlan { extent, format, present_mode, min_image_count })
    }
}

} // verus!
