//! Binding each swapchain image to a render target of the one render pass.
use vstd::prelude::*;

use crate::surface::PixelFormat;

verus! {

/// The render target of one swapchain image, tagged with the swapchain
/// generation it belongs to.
#[derive(Clone, Copy, Debug, PartialEq, Eq, Structural)]
pub struct RenderTarget {
    pub generation: u64,
    pub image_index: u32,
}

/// The images' format is not the one the render pass draws into.
#[derive(Clone, Copy, Debug, PartialEq, Eq, Structural)]
pub struct IncompatibleFormat {
    pub image_format: PixelFormat,
    pub attachment_format: PixelFormat,
}

/// `targets` is the full framebuffer set of a swapchain of generation
/// `generation` with `count` images: one target per image, in image order.
pub open spec fn is_framebuffer_set(targets: Seq<RenderTarget>, generation: u64, count: nat) -> bool {
    &&& targets.len() == count
    &&& forall|i: int|
        0 <= i < targets.len() ==> #[trigger] targets[i] == (RenderTarget {
            generation,
            image_index: i as u32,
        })
}

/// Builds one render target per image of a swapchain of generation
/// `generation` with `image_count` images of format `image_format`, for a
/// render pass whose color attachment has format `attachment_format`.
pub fn build_framebuffers(
    generation: u64,
    image_count: u32,
    image_format: PixelFormat,
    attachment_format: PixelFormat,
) -> (r: Result<Vec<RenderTarget>, IncompatibleFormat>)
    ensures
        r is Err <==> image_format != attachment_format,
        r matches Err(e) ==> e == (IncompatibleFormat { image_format, attachment_format }),
        r matches Ok(v) ==> is_framebuffer_set(v@, generation, image_count as nat),
{
    if image_format != attachment_format {
        return Err(IncompatibleFormat { image_format, attachment_format });
    }
    let mut targets: Vec<RenderTarget> = Vec::new();
    let mut i: u32 = 0;
    while i < image_count
        invariant
            i <= image_count,
            is_framebuffer_set(targets@, generation, i as nat),
        decreases image_count - i,
    {
        targets.push(RenderTarget { generation, image_index: i });
        i = i + 1;
    }
    Ok(targets)
}

} // verus!
