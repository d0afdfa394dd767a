//! Choosing the settings of a new swapchain, and the viewport that follows
//! from its images.
//!
//! The renderer queries the surface and hands the answers over as plain
//! values: how many images the surface requires at least, and how many
//! formats and composite-alpha modes it supports, in the order the driver
//! reports them. The choice is the plainest one that works: the surface's
//! minimum image count, the first reported format, the first reported
//! composite-alpha mode, and the window's current size as the extent.

use vstd::prelude::*;

verus! {

/// A size in pixels.
#[derive(Clone, Copy, PartialEq, Eq, Structural, Debug)]
pub struct Extent2d {
    pub width: u32,
    pub height: u32,
}

/// What the surface reports when asked what a swapchain on it may look like.
#[derive(Clone, Copy, PartialEq, Eq, Structural, Debug)]
pub struct SurfaceTraits {
    /// The fewest images a swapchain on this surface may have.
    pub min_image_count: u32,
    /// How many image formats the surface supports.
    pub format_count: usize,
    /// How many composite-alpha modes the surface supports.
    pub alpha_count: usize,
}

/// The settings a new swapchain is created with, as positions in the lists
/// the surface reported.
#[derive(Clone, Copy, PartialEq, Eq, Structural, Debug)]
pub struct SwapchainSettings {
    /// How many images to ask for.
    pub image_count: u32,
    /// Index of the image format to use, among the reported formats.
    pub format_index: usize,
    /// Index of the composite-alpha mode to use, among the reported modes.
    pub alpha_index: usize,
    /// The size of the swapchain's images.
    pub extent: Extent2d,
}

/// Settle the settings of a new swapchain: the surface's minimum image
/// count, its first reported format, its first reported composite-alpha
/// mode, and the window's size. A surface that reports no format or no
/// composite-alpha mode offers nothing to present to, so those counts must
/// be positive.
pub fn choose_swapchain_settings(surface: &SurfaceTraits, window_extent: Extent2d) -> (s:
    SwapchainSettings)
    requires
        surface.format_count > 0,
        surface.alpha_count > 0,
    ensures
        s == (SwapchainSettings {
            image_count: surface.min_image_count,
            format_index: 0,
            alpha_index: 0,
            extent: window_extent,
        }),
{
    SwapchainSettings {
        image_count: surface.min_image_count,
        format_index: 0,
        alpha_index: 0,
        extent: window_extent,
    }
}

/// The viewport covers the swapchain's images: it takes the size of the
/// first image. All images of one swapchain share a size, so the first
/// stands for all; a swapchain always has at least one image.
pub fn viewport_extent(image_extents: &Vec<Extent2d>) -> (r: Extent2d)
    requires
        image_extents@.len() > 0,
    ensures
        r == image_extents@[0],
{
    image_extents[0]
}

} // verus!
