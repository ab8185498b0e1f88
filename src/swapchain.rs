//! Negotiating a swapchain configuration from fresh surface capabilities.
use vstd::prelude::*;

use crate::surface::{
    chosen_format, chosen_image_count, chosen_present_mode, select_extent, select_image_count,
    select_present_mode, select_surface_format, clamped_extent, is_degenerate, Capabilities, Extent,
    PresentMode, SurfaceFormat,
};

verus! {

/// The queue families that submit graphics work and present images.
#[derive(Clone, Copy, Debug, PartialEq, Eq, Structural)]
pub struct QueueFamilies {
    pub graphics: u32,
    pub present: u32,
}

/// How swapchain images are shared between queue families.
#[derive(Clone, Copy, Debug, PartialEq, Eq, Structural)]
pub enum SharingMode {
    /// One queue family owns the images.
    Exclusive,
    /// The images are used from both families concurrently.
    Concurrent { graphics: u32, present: u32 },
}

/// Everything a swapchain is built with.
#[derive(Clone, Copy, Debug, PartialEq, Eq, Structural)]
pub struct SwapchainConfig {
    pub format: SurfaceFormat,
    pub present_mode: PresentMode,
    pub image_count: u32,
    pub extent: Extent,
    pub sharing: SharingMode,
}

/// Why no swapchain configuration could be negotiated.
#[derive(Clone, Copy, Debug, PartialEq, Eq, Structural)]
pub enum NegotiationError {
    /// The surface offers no format at all: a setup error.
    NoSurfaceFormats,
    /// The surface has no area right now; try again on a later tick.
    UnsupportedDimensions,
}

pub open spec fn sharing_for(queues: QueueFamilies) -> SharingMode {
    if queues.graphics == queues.present {
        SharingMode::Exclusive
    } else {
        SharingMode::Concurrent { graphics: queues.graphics, present: queues.present }
    }
}

/// The configuration a swapchain built now from `caps` gets, or why there is none.
pub open spec fn negotiated(caps: Capabilities, desired: Extent, queues: QueueFamilies) -> Result<
    SwapchainConfig,
    NegotiationError,
> {
    if caps.supported_formats@.len() == 0 {
        Err(NegotiationError::NoSurfaceFormats)
    } else if caps.degenerate_for(desired) {
        Err(NegotiationError::UnsupportedDimensions)
    } else {
        Ok(
            SwapchainConfig {
                format: chosen_format(caps.supported_formats@)->0,
                present_mode: chosen_present_mode(caps.present_modes),
                image_count: chosen_image_count(caps.min_image_count, caps.max_image_count),
                extent: caps.extent_for(desired),
                sharing: sharing_for(queues),
            },
        )
    }
}

/// Exclusive access when one family does both jobs, concurrent otherwise.
pub fn select_sharing_mode(queues: QueueFamilies) -> (r: SharingMode)
    ensures
        r == sharing_for(queues),
{
    if queues.graphics == queues.present {
        SharingMode::Exclusive
    } else {
        SharingMode::Concurrent { graphics: queues.graphics, present: queues.present }
    }
}

/// Picks format, present mode, image count, extent and sharing for a swapchain
/// to be built now on a surface with capabilities `caps`.
pub fn negotiate(caps: &Capabilities, desired: Extent, queues: QueueFamilies) -> (r: Result<
    SwapchainConfig,
    NegotiationError,
>)
    ensures
        r == negotiated(*caps, desired, queues),
{
    let format = match select_surface_format(&caps.supported_formats) {
        Some(f) => f,
        None => return Err(NegotiationError::NoSurfaceFormats),
    };
    let requested = match caps.current_extent {
        Some(c) => c,
        None => desired,
    };
    let extent = select_extent(caps, desired);
    if requested.width == 0 || requested.height == 0 || extent.width == 0 || extent.height == 0 {
        return Err(NegotiationError::UnsupportedDimensions);
    }
    Ok(
        SwapchainConfig {
            format,
            present_mode: select_present_mode(caps.present_modes),
            image_count: select_image_count(caps.min_image_count, caps.max_image_count),
            extent,
            sharing: select_sharing_mode(queues),
        },
    )
}

/// Resize round trip: on a surface that leaves the size to the swapchain, or
/// that reports the very size asked for, a swapchain negotiated for a
/// requested `(w, h)` gets `(w, h)` held to the supported range, and exactly
/// `(w, h)` when that lies in the range; such a request is never skipped as
/// degenerate.
pub proof fn lemma_resize_round_trip(caps: Capabilities, w: u32, h: u32, queues: QueueFamilies)
    requires
        caps.current_extent is None || caps.current_extent == Some(Extent { width: w, height: h }),
        caps.supported_formats@.len() > 0,
        w > 0,
        h > 0,
    ensures
        caps.max_image_extent.width > 0 && caps.max_image_extent.height > 0 ==> (negotiated(
            caps,
            Extent { width: w, height: h },
            queues,
        ) matches Ok(config) && config.extent == clamped_extent(
            Extent { width: w, height: h },
            caps.min_image_extent,
            caps.max_image_extent,
        )),
        caps.min_image_extent.width <= w <= caps.max_image_extent.width
            && caps.min_image_extent.height <= h <= caps.max_image_extent.height ==> (negotiated(
            caps,
            Extent { width: w, height: h },
            queues,
        ) matches Ok(config) && config.extent == (Extent { width: w, height: h })),
{
}

/// A request for a surface with no area, on a surface that leaves the size to
/// the swapchain or itself reports no area, is refused as
/// `UnsupportedDimensions`: no swapchain is built.
pub proof fn lemma_degenerate_request(caps: Capabilities, desired: Extent, queues: QueueFamilies)
    requires
        caps.current_extent matches Some(e) ==> is_degenerate(e),
        caps.supported_formats@.len() > 0,
        is_degenerate(desired),
    ensures
        negotiated(caps, desired, queues) == Err::<SwapchainConfig, NegotiationError>(
            NegotiationError::UnsupportedDimensions,
        ),
{
}

} // verus!
