//! Choices made when building a swapchain from what the surface supports.
use vstd::prelude::*;

use crate::error::EngineError;
use crate::queue::FamilyIndices;

verus! {

/// Format code: 8-bit BGRA, unsigned normalised.
pub const FORMAT_B8G8R8A8_UNORM: i32 = 44;
/// Colour space code: sRGB, non-linear.
pub const COLOR_SPACE_SRGB_NONLINEAR: i32 = 0;
/// Present mode code: mailbox.
pub const PRESENT_MODE_MAILBOX: i32 = 1;
/// Width of the current extent when the window manager lets the swapchain pick its size.
pub const EXTENT_UNDEFINED: u32 = 0xFFFF_FFFF;

/// A format and colour space that the surface can present.
#[derive(Debug, Clone, Copy, PartialEq, Eq, Structural)]
pub struct SurfaceFormat {
    pub format: i32,
    pub color_space: i32,
}

/// A width and height in pixels.
#[derive(Debug, Clone, Copy, PartialEq, Eq, Structural)]
pub struct Extent2D {
    pub width: u32,
    pub height: u32,
}

/// The size and image-count limits of a surface.
#[derive(Debug, Clone, Copy, PartialEq, Eq, Structural)]
pub struct SurfaceCapabilities {
    pub current_extent: Extent2D,
    pub min_image_extent: Extent2D,
    pub max_image_extent: Extent2D,
    pub min_image_count: u32,
    /// Zero when the surface sets no upper limit.
    pub max_image_count: u32,
}

/// What a surface supports on a physical device.
pub struct SupportDetail {
    pub capabilities: SurfaceCapabilities,
    pub formats: Vec<SurfaceFormat>,
    pub present_modes: Vec<i32>,
}

/// The preferred surface format.
pub open spec fn preferred_format() -> SurfaceFormat {
    SurfaceFormat { format: FORMAT_B8G8R8A8_UNORM, color_space: COLOR_SPACE_SRGB_NONLINEAR }
}

/// `v` clamped into `[lo, hi]`; `lo` wins when the bounds cross.
pub open spec fn clamp_u32(v: u32, lo: u32, hi: u32) -> u32 {
    if v > hi {
        if hi < lo {
            lo
        } else {
            hi
        }
    } else if v < lo {
        lo
    } else {
        v
    }
}

fn clamp(v: u32, lo: u32, hi: u32) -> (r: u32)
    ensures
        r == clamp_u32(v, lo, hi),
{
    let upper = if v > hi {
        hi
    } else {
        v
    };
    if upper < lo {
        lo
    } else {
        upper
    }
}

impl SupportDetail {
    /// The preferred format when offered, else the first one offered.
    pub fn choose_format(&self) -> (r: Result<SurfaceFormat, EngineError>)
        ensures
            self.formats@.contains(preferred_format()) ==> r == Ok::<SurfaceFormat, EngineError>(
                preferred_format(),
            ),
            !self.formats@.contains(preferred_format()) && self.formats@.len() > 0 ==> r == Ok::<
                SurfaceFormat,
                EngineError,
            >(self.formats@[0]),
            self.formats@.len() == 0 ==> r == Err::<SurfaceFormat, EngineError>(
                EngineError::NoSuitableFormat,
            ),
    {
        let mut i: usize = 0;
        while i < self.formats.len()
            invariant
                i <= self.formats@.len(),
                forall|j: int| 0 <= j < i ==> self.formats@[j] != preferred_format(),
            decreases self.formats@.len() - i,
        {
            let f = self.formats[i];
            if f.format == FORMAT_B8G8R8A8_UNORM && f.color_space == COLOR_SPACE_SRGB_NONLINEAR {
                return Ok(f);
            }
            i = i + 1;
        }
        if self.formats.len() == 0 {
            Err(EngineError::NoSuitableFormat)
        } else {
            Ok(self.formats[0])
        }
    }

    /// Mailbox when offered, else the first present mode offered.
    pub fn choose_present_mode(&self) -> (r: Result<i32, EngineError>)
        ensures
            self.present_modes@.contains(PRESENT_MODE_MAILBOX) ==> r == Ok::<i32, EngineError>(
                PRESENT_MODE_MAILBOX,
            ),
            !self.present_modes@.contains(PRESENT_MODE_MAILBOX) && self.present_modes@.len() > 0
                ==> r == Ok::<i32, EngineError>(self.present_modes@[0]),
            self.present_modes@.len() == 0 ==> r == Err::<i32, EngineError>(
                EngineError::NoSuitablePresentMode,
            ),
    {
        let mut i: usize = 0;
        while i < self.present_modes.len()
            invariant
                i <= self.present_modes@.len(),
                forall|j: int| 0 <= j < i ==> self.present_modes@[j] != PRESENT_MODE_MAILBOX,
            decreases self.present_modes@.len() - i,
        {
            if self.present_modes[i] == PRESENT_MODE_MAILBOX {
                return Ok(PRESENT_MODE_MAILBOX);
            }
            i = i + 1;
        }
        if self.present_modes.len() == 0 {
            Err(EngineError::NoSuitablePresentMode)
        } else {
            Ok(self.present_modes[0])
        }
    }

    /// The surface's current extent, or, when the surface leaves the size to the
    /// swapchain, the window's size clamped into the surface's limits.
    pub fn choose_swap_extent(&self, window_width: u32, window_height: u32) -> (r: Extent2D)
        ensures
            self.capabilities.current_extent.width != EXTENT_UNDEFINED ==> r
                == self.capabilities.current_extent,
            self.capabilities.current_extent.width == EXTENT_UNDEFINED ==> r == (Extent2D {
                width: clamp_u32(
                    window_width,
                    self.capabilities.min_image_extent.width,
                    self.capabilities.max_image_extent.width,
                ),
                height: clamp_u32(
                    window_height,
                    self.capabilities.min_image_extent.height,
                    self.capabilities.max_image_extent.height,
                ),
            }),
    {
        let caps = &self.capabilities;
        if caps.current_extent.width != EXTENT_UNDEFINED {
            caps.current_extent
        } else {
            Extent2D {
                width: clamp(window_width, caps.min_image_extent.width, caps.max_image_extent.width),
                height: clamp(
                    window_height,
                    caps.min_image_extent.height,
                    caps.max_image_extent.height,
                ),
            }
        }
    }

    /// The number of images to ask for: as many as the surface allows, or its
    /// minimum when it sets no upper limit.
    pub fn image_count(&self) -> (r: u32)
        ensures
            self.capabilities.max_image_count > 0 ==> r == self.capabilities.max_image_count,
            self.capabilities.max_image_count == 0 ==> r == self.capabilities.min_image_count,
    {
        if self.capabilities.max_image_count > 0 {
            self.capabilities.max_image_count
        } else {
            self.capabilities.min_image_count
        }
    }
}

/// The queue families that share the swapchain's images: both, when graphics and
/// presentation use different families, else none (the images stay exclusive).
pub fn sharing_families(indices: &FamilyIndices) -> (r: Vec<u32>)
    requires
        indices.graphics is Some,
        indices.present is Some,
    ensures
        indices.graphics != indices.present ==> r@ == seq![
            indices.graphics->Some_0,
            indices.present->Some_0,
        ],
        indices.graphics == indices.present ==> r@ == Seq::<u32>::empty(),
{
    let g = indices.graphics.unwrap();
    let p = indices.present.unwrap();
    if g != p {
        vec![g, p]
    } else {
        Vec::new()
    }
}

} // verus!
