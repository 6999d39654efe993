//! Choices made when the swapchain is created: its extent, its image format,
//! how many images it holds and how they are presented.
use vstd::prelude::*;
use crate::error::SetupError;

verus! {

/// The value a surface reports as its current width when the size is left to
/// the swapchain.
pub const EXTENT_UNDEFINED: u32 = 0xFFFF_FFFF;

/// Present mode FIFO: one image is shown per vertical blank, never torn.
pub const PRESENT_MODE_FIFO: i32 = 2;

/// A width and a height in pixels.
#[derive(Debug, Clone, Copy, PartialEq, Eq, Structural)]
pub struct Extent {
    pub width: u32,
    pub height: u32,
}

/// What the surface reports of itself.
#[derive(Debug, Clone, Copy, PartialEq, Eq, Structural)]
pub struct SurfaceCapabilities {
    pub min_image_count: u32,
    pub current_extent: Extent,
}

/// An image format with its colour space, as raw values.
#[derive(Debug, Clone, Copy, PartialEq, Eq, Structural)]
pub struct SurfaceFormat {
    pub format: i32,
    pub color_space: i32,
}

/// The parameters the swapchain is created with.
#[derive(Debug, Clone, Copy, PartialEq, Eq, Structural)]
pub struct SwapchainPlan {
    pub extent: Extent,
    pub format: SurfaceFormat,
    pub image_count: u32,
    pub present_mode: i32,
}

/// The surface's own extent, unless it leaves the size to the swapchain.
pub open spec fn extent_spec(current: Extent, width: u32, height: u32) -> Extent {
    if current.width != EXTENT_UNDEFINED {
        current
    } else {
        Extent { width, height }
    }
}

/// The extent of the swapchain images: the surface's current extent if it
/// reports one, else the requested size.
pub fn choose_extent(current: Extent, width: u32, height: u32) -> (r: Extent)
    ensures
        r == extent_spec(current, width, height),
{
    if current.width != EXTENT_UNDEFINED {
        current
    } else {
        Extent { width, height }
    }
}

/// The swapchain parameters for a surface with capabilities `caps` and the
/// formats `formats` (in the order reported), for a window of
/// `width` × `height`. The first reported format is taken; an empty list is
/// an error.
pub fn plan_swapchain(caps: SurfaceCapabilities, formats: &Vec<SurfaceFormat>, width: u32, height: u32) -> (r: Result<SwapchainPlan, SetupError>)
    requires
        caps.min_image_count < u32::MAX,
    ensures
        formats@.len() == 0 <==> r == Err::<SwapchainPlan, SetupError>(SetupError::NoSurfaceFormat),
        formats@.len() > 0 ==> r == Ok::<SwapchainPlan, SetupError>(SwapchainPlan {
            extent: extent_spec(caps.current_extent, width, height),
            format: formats@[0],
            image_count: (caps.min_image_count + 1) as u32,
            present_mode: PRESENT_MODE_FIFO,
        }),
{
    if formats.len() == 0 {
        return Err(SetupError::NoSurfaceFormat);
    }
    let extent = choose_extent(caps.current_extent, width, height);
    Ok(SwapchainPlan {
        extent,
        format: formats[0],
        image_count: caps.min_image_count + 1,
        present_mode: PRESENT_MODE_FIFO,
    })
}

} // verus!
