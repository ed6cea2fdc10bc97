//! What a window surface reports about itself, as plain values.
//!
//! Formats, colour spaces, present modes and transforms are held as the raw
//! codes that the Vulkan API assigns to them, so that a code the library has
//! no name for still passes through unchanged.

use vstd::prelude::*;

verus! {

/// Raw code of the 8-bit BGRA format with sRGB encoding.
pub const FORMAT_B8G8R8A8_SRGB: i32 = 50;

/// Raw code of the 8-bit RGBA format with sRGB encoding.
pub const FORMAT_R8G8B8A8_SRGB: i32 = 43;

/// Raw code of the 8-bit RGBA format with linear encoding.
pub const FORMAT_R8G8B8A8_UNORM: i32 = 37;

/// Raw code of the non-linear sRGB colour space.
pub const COLOR_SPACE_SRGB_NONLINEAR: i32 = 0;

/// Raw code of the present mode that shows an image as soon as it is queued.
pub const PRESENT_MODE_IMMEDIATE: i32 = 0;

/// Raw code of the present mode that replaces a queued image with a newer one.
pub const PRESENT_MODE_MAILBOX: i32 = 1;

/// Raw code of the present mode that queues images first in, first out.
pub const PRESENT_MODE_FIFO: i32 = 2;

/// Raw code of the first-in-first-out present mode that may tear when late.
pub const PRESENT_MODE_FIFO_RELAXED: i32 = 3;

/// The width a surface reports when its size is set by the swapchain.
pub const UNDEFINED_EXTENT: u32 = 0xFFFF_FFFF;

/// A width and a height in pixels.
#[derive(Clone, Copy, Debug, PartialEq, Eq, Structural)]
pub struct Extent2D {
    pub width: u32,
    pub height: u32,
}

/// A pixel format together with the colour space it is shown in.
#[derive(Clone, Copy, Debug, PartialEq, Eq, Structural)]
pub struct SurfaceFormat {
    pub format: i32,
    pub color_space: i32,
}

/// The limits a surface places on a swapchain.
#[derive(Clone, Copy, Debug, PartialEq, Eq, Structural)]
pub struct SurfaceCapabilities {
    /// Fewest images a swapchain may have.
    pub min_image_count: u32,
    /// Most images a swapchain may have; zero means there is no limit.
    pub max_image_count: u32,
    /// Current size of the surface, or `UNDEFINED_EXTENT` in the width.
    pub current_extent: Extent2D,
    pub min_image_extent: Extent2D,
    pub max_image_extent: Extent2D,
    /// Transform currently applied to the surface, as raw flag bits.
    pub current_transform: u32,
}

/// Everything a device reports about presenting to one surface.
#[derive(Debug)]
pub struct SwapChainSupportDetails {
    pub capabilities: SurfaceCapabilities,
    pub formats: Vec<SurfaceFormat>,
    pub present_modes: Vec<i32>,
}

impl Extent2D {
    /// Neither side is zero.
    pub open spec fn is_non_degenerate(self) -> bool {
        self.width > 0 && self.height > 0
    }
}

impl SurfaceCapabilities {
    /// The surface leaves its size to the swapchain.
    pub open spec fn extent_is_undefined(self) -> bool {
        self.current_extent.width == UNDEFINED_EXTENT
    }

    /// The smallest allowed extent is no larger than the largest, on both axes.
    pub open spec fn extent_bounds_ordered(self) -> bool {
        &&& self.min_image_extent.width <= self.max_image_extent.width
        &&& self.min_image_extent.height <= self.max_image_extent.height
    }

    /// The surface leaves room for a swapchain with an area: where it sets
    /// the size itself, that size has no zero side, and where it leaves the
    /// size to the swapchain, the largest size it allows has none.
    pub open spec fn offers_area(self) -> bool {
        if self.extent_is_undefined() {
            self.max_image_extent.is_non_degenerate()
        } else {
            self.current_extent.is_non_degenerate()
        }
    }

    /// Whether the surface leaves room for a swapchain with an area.
    pub fn has_area_on_offer(&self) -> (offered: bool)
        ensures
            offered == self.offers_area(),
    {
        if self.current_extent.width == UNDEFINED_EXTENT {
            self.max_image_extent.width > 0 && self.max_image_extent.height > 0
        } else {
            self.current_extent.width > 0 && self.current_extent.height > 0
        }
    }

    /// Whether the smallest allowed extent is no larger than the largest.
    pub fn has_ordered_extent_bounds(&self) -> (ordered: bool)
        ensures
            ordered == self.extent_bounds_ordered(),
    {
        self.min_image_extent.width <= self.max_image_extent.width
            && self.min_image_extent.height <= self.max_image_extent.height
    }
}

impl SwapChainSupportDetails {
    /// At least one format and one present mode are on offer.
    pub open spec fn adequate(&self) -> bool {
        self.formats@.len() > 0 && self.present_modes@.len() > 0
    }

    /// Whether at least one format and one present mode are on offer.
    pub fn is_adequate(&self) -> (ok: bool)
        ensures
            ok == self.adequate(),
    {
        !self.formats.is_empty() && !self.present_modes.is_empty()
    }
}

} // verus!
