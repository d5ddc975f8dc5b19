//! The renderer's choices for the swapchain it creates on the window's surface.

use vstd::prelude::*;

verus! {

/// The fewest swapchain images the renderer works with.
pub const MIN_SWAPCHAIN_IMAGES: u32 = 2;

/// The number of swapchain images the renderer asks for on a surface that
/// allows no fewer than `surface_min_image_count`.
pub open spec fn image_count(surface_min_image_count: u32) -> u32 {
    if surface_min_image_count >= MIN_SWAPCHAIN_IMAGES {
        surface_min_image_count
    } else {
        MIN_SWAPCHAIN_IMAGES
    }
}

/// The number of swapchain images to ask for: the least the surface allows,
/// but never fewer than two, so that one image can be drawn while another is
/// shown.
pub fn swapchain_image_count(surface_min_image_count: u32) -> (n: u32)
    ensures
        n == image_count(surface_min_image_count),
        n == if surface_min_image_count >= MIN_SWAPCHAIN_IMAGES {
            surface_min_image_count
        } else {
            MIN_SWAPCHAIN_IMAGES
        },
{
    if surface_min_image_count >= MIN_SWAPCHAIN_IMAGES {
        surface_min_image_count
    } else {
        MIN_SWAPCHAIN_IMAGES
    }
}

/// The count is the least one that the surface allows and that is at least
/// two: it is never below either bound, and it is one of them.
pub proof fn image_count_is_the_least_allowed(m: u32)
    ensures
        image_count(m) >= MIN_SWAPCHAIN_IMAGES,
        image_count(m) >= m,
        image_count(m) == m || image_count(m) == MIN_SWAPCHAIN_IMAGES,
        MIN_SWAPCHAIN_IMAGES == 2,
{
}

} // verus!
