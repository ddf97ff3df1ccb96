//! Surface capability queries and swap-chain configuration policy.
//!
//! The embedding application queries the native surface for its
//! capabilities, supported formats and present modes, and hands them to
//! this module as plain values. The functions here pick the surface
//! format, present mode, image count and extent exactly as the frame
//! engine requires them.

use vstd::prelude::*;

verus! {

/// Format number for 8-bit BGRA with unsigned normalized components.
pub const FORMAT_B8G8R8A8_UNORM: u32 = 44;

/// Color space number for non-linear sRGB.
pub const COLOR_SPACE_SRGB_NONLINEAR: u32 = 0;

/// Present mode number for immediate (no vsync) presentation.
pub const PRESENT_MODE_IMMEDIATE: u32 = 0;

/// Present mode number for low-latency triple-buffered presentation.
pub const PRESENT_MODE_MAILBOX: u32 = 1;

/// Present mode number for first-in first-out (vsync) presentation.
pub const PRESENT_MODE_FIFO: u32 = 2;

/// Sentinel width with which a surface signals an undefined current
/// extent, meaning the window pixel size decides.
pub const EXTENT_UNDEFINED: u32 = 0xffff_ffff;

/// A two-dimensional pixel extent.
#[derive(Clone, Copy, PartialEq, Eq, Structural, Debug)]
pub struct VkExtent2D {
    pub width: u32,
    pub height: u32,
}

/// A surface format paired with its color space.
#[derive(Clone, Copy, PartialEq, Eq, Structural, Debug)]
pub struct VkSurfaceFormat {
    pub format: u32,
    pub color_space: u32,
}

/// The limits a presentation surface reports for swap-chain creation.
///
/// A `max_image_count` of zero means the image count is unlimited.
#[derive(Clone, Copy, PartialEq, Eq, Structural, Debug)]
pub struct VkSurfaceCapabilities {
    pub min_image_count: u32,
    pub max_image_count: u32,
    pub current_extent: VkExtent2D,
    pub min_image_extent: VkExtent2D,
    pub max_image_extent: VkExtent2D,
}

/// The preferred surface format: non-linear sRGB 8-bit BGRA.
pub open spec fn is_preferred_format(f: VkSurfaceFormat) -> bool {
    f.format == FORMAT_B8G8R8A8_UNORM && f.color_space == COLOR_SPACE_SRGB_NONLINEAR
}

/// Pick the first preferred surface format, or the first enumerated
/// format when the platform offers no preferred one.
pub fn choose_swapchain_surface_format(available_formats: &Vec<VkSurfaceFormat>) -> (chosen: VkSurfaceFormat)
    requires
        available_formats@.len() > 0,
    ensures
        (exists|i: int|
            0 <= i < available_formats@.len() && is_preferred_format(available_formats@[i]))
            ==> exists|w: int|
                0 <= w < available_formats@.len() && chosen == available_formats@[w]
                    && is_preferred_format(available_formats@[w])
                    && (forall|j: int| 0 <= j < w ==> !is_preferred_format(available_formats@[j])),
        !(exists|i: int|
            0 <= i < available_formats@.len() && is_preferred_format(available_formats@[i]))
            ==> chosen == available_formats@[0],
{
    let mut k: usize = 0;
    while k < available_formats.len()
        invariant
            k <= available_formats@.len(),
            forall|j: int| 0 <= j < k ==> !is_preferred_format(available_formats@[j]),
        decreases available_formats@.len() - k,
    {
        let f = available_formats[k];
        if f.format == FORMAT_B8G8R8A8_UNORM && f.color_space == COLOR_SPACE_SRGB_NONLINEAR {
            return f;
        }
        k = k + 1;
    }
    available_formats[0]
}

/// The present mode the policy selects from the offered set: mailbox
/// first, FIFO second, immediate as the last resort.
pub open spec fn spec_chosen_present_mode(modes: Seq<u32>) -> u32 {
    if modes.contains(PRESENT_MODE_MAILBOX) {
        PRESENT_MODE_MAILBOX
    } else if modes.contains(PRESENT_MODE_FIFO) {
        PRESENT_MODE_FIFO
    } else {
        PRESENT_MODE_IMMEDIATE
    }
}

/// Report whether the slice of present modes offers the given one.
fn contains_present_mode(modes: &Vec<u32>, mode: u32) -> (present: bool)
    ensures
        present == modes@.contains(mode),
{
    let mut k: usize = 0;
    while k < modes.len()
        invariant
            k <= modes@.len(),
            forall|j: int| 0 <= j < k ==> modes@[j] != mode,
        decreases modes@.len() - k,
    {
        if modes[k] == mode {
            assert(modes@.contains(mode));
            return true;
        }
        k = k + 1;
    }
    false
}

/// Pick the present mode: mailbox if offered, else FIFO, else immediate.
pub fn choose_swapchain_surface_present_mode(available_present_modes: &Vec<u32>) -> (chosen: u32)
    ensures
        chosen == spec_chosen_present_mode(available_present_modes@),
{
    if contains_present_mode(available_present_modes, PRESENT_MODE_MAILBOX) {
        PRESENT_MODE_MAILBOX
    } else if contains_present_mode(available_present_modes, PRESENT_MODE_FIFO) {
        PRESENT_MODE_FIFO
    } else {
        PRESENT_MODE_IMMEDIATE
    }
}

/// The image count the policy requests: one more than the minimum the
/// surface supports, clamped to the maximum when one is reported.
pub open spec fn spec_chosen_image_count(caps: VkSurfaceCapabilities) -> int {
    let preferred = caps.min_image_count + 1;
    if caps.max_image_count > 0 && preferred > caps.max_image_count {
        caps.max_image_count as int
    } else {
        preferred
    }
}

/// Pick the swap-chain image count from the surface capabilities.
pub fn choose_image_count(capabilities: &VkSurfaceCapabilities) -> (count: u32)
    requires
        capabilities.min_image_count < 0xffff_ffffu32,
    ensures
        count == spec_chosen_image_count(*capabilities),
{
    let max = capabilities.max_image_count;
    let mut preferred = capabilities.min_image_count + 1;
    if max > 0 && preferred > max {
        preferred = max;
    }
    preferred
}

/// Clamp a value into the inclusive range `[lo, hi]`.
pub open spec fn spec_clamp(v: u32, lo: u32, hi: u32) -> u32 {
    if v > hi {
        hi
    } else if v < lo {
        lo
    } else {
        v
    }
}

/// The extent the policy selects: the surface's current extent when it
/// is defined, otherwise the window pixel size clamped into the
/// supported extent range.
pub open spec fn spec_chosen_extent(caps: VkSurfaceCapabilities, dimensions: Seq<u32>) -> VkExtent2D {
    if caps.current_extent.width != EXTENT_UNDEFINED {
        caps.current_extent
    } else {
        VkExtent2D {
            width: spec_clamp(dimensions[0], caps.min_image_extent.width, caps.max_image_extent.width),
            height: spec_clamp(dimensions[1], caps.min_image_extent.height, caps.max_image_extent.height),
        }
    }
}

/// Pick the swap-chain extent for the given window size.
pub fn choose_swapchain_extent(capabilities: &VkSurfaceCapabilities, dimensions: &[u32; 2]) -> (extent: VkExtent2D)
    ensures
        extent == spec_chosen_extent(*capabilities, dimensions@),
{
    if capabilities.current_extent.width != EXTENT_UNDEFINED {
        return capabilities.current_extent;
    }

    let min = capabilities.min_image_extent;
    let max = capabilities.max_image_extent;
    let width = clamp_u32(dimensions[0], min.width, max.width);
    let height = clamp_u32(dimensions[1], min.height, max.height);
    VkExtent2D { width, height }
}

/// Clamp a value into the inclusive range `[lo, hi]`.
fn clamp_u32(v: u32, lo: u32, hi: u32) -> (clamped: u32)
    ensures
        clamped == spec_clamp(v, lo, hi),
{
    if v > hi {
        hi
    } else if v < lo {
        lo
    } else {
        v
    }
}

} // verus!
