//! What a presentation surface supports, and the pure policy that picks a
//! format, a present mode, an image count and an extent from it.
use vstd::prelude::*;

verus! {

/// Vulkan code of `VK_FORMAT_B8G8R8A8_SRGB`.
pub const BGRA8_SRGB: u32 = 50;

/// Vulkan code of `VK_COLOR_SPACE_SRGB_NONLINEAR_KHR`.
pub const SRGB_NONLINEAR: u32 = 0;

/// A pixel format, by its Vulkan code.
#[derive(Clone, Copy, Debug, PartialEq, Eq, Structural)]
pub struct PixelFormat {
    pub code: u32,
}

/// A color space, by its Vulkan code.
#[derive(Clone, Copy, Debug, PartialEq, Eq, Structural)]
pub struct ColorSpace {
    pub code: u32,
}

/// One (format, color space) pair that a surface can present.
#[derive(Clone, Copy, Debug, PartialEq, Eq, Structural)]
pub struct SurfaceFormat {
    pub format: PixelFormat,
    pub color_space: ColorSpace,
}

/// How presented images reach the display.
#[derive(Clone, Copy, Debug, PartialEq, Eq, Structural)]
pub enum PresentMode {
    Immediate,
    Mailbox,
    Fifo,
    Relaxed,
}

/// The present modes a surface supports.
#[derive(Clone, Copy, Debug, PartialEq, Eq, Structural)]
pub struct SupportedPresentModes {
    pub immediate: bool,
    pub mailbox: bool,
    pub fifo: bool,
    pub relaxed: bool,
}

/// Width and height in pixels.
#[derive(Clone, Copy, Debug, PartialEq, Eq, Structural)]
pub struct Extent {
    pub width: u32,
    pub height: u32,
}

/// A snapshot of what a surface supports for one physical device.
#[derive(Clone, Debug)]
pub struct Capabilities {
    pub supported_formats: Vec<SurfaceFormat>,
    pub present_modes: SupportedPresentModes,
    pub min_image_count: u32,
    /// `None` when the surface sets no upper bound.
    pub max_image_count: Option<u32>,
    /// `None` when the surface takes its size from the swapchain.
    pub current_extent: Option<Extent>,
    pub min_image_extent: Extent,
    pub max_image_extent: Extent,
}

/// The format every surface is asked for first.
pub open spec fn preferred_format() -> SurfaceFormat {
    SurfaceFormat {
        format: PixelFormat { code: BGRA8_SRGB },
        color_space: ColorSpace { code: SRGB_NONLINEAR },
    }
}

/// The preferred format if the surface offers it, else the first one offered.
pub open spec fn chosen_format(formats: Seq<SurfaceFormat>) -> Option<SurfaceFormat> {
    if formats.len() == 0 {
        None
    } else if formats.contains(preferred_format()) {
        Some(preferred_format())
    } else {
        Some(formats[0])
    }
}

/// Mailbox over immediate over FIFO.
pub open spec fn chosen_present_mode(modes: SupportedPresentModes) -> PresentMode {
    if modes.mailbox {
        PresentMode::Mailbox
    } else if modes.immediate {
        PresentMode::Immediate
    } else {
        PresentMode::Fifo
    }
}

/// One image more than the minimum, held to the maximum (or to `u32::MAX`).
pub open spec fn chosen_image_count(min: u32, max: Option<u32>) -> u32 {
    let bound: int = match max {
        Some(m) => m as int,
        None => u32::MAX as int,
    };
    if min + 1 > bound {
        bound as u32
    } else {
        (min + 1) as u32
    }
}

pub open spec fn clamp(v: u32, lo: u32, hi: u32) -> u32 {
    if v < lo {
        lo
    } else if v > hi {
        hi
    } else {
        v
    }
}

/// The surface's own extent when it has one, else the one the caller asks for.
pub open spec fn requested_extent(current: Option<Extent>, desired: Extent) -> Extent {
    match current {
        Some(e) => e,
        None => desired,
    }
}

/// `e` held, axis by axis, within the surface's supported range.
pub open spec fn clamped_extent(e: Extent, lo: Extent, hi: Extent) -> Extent {
    Extent { width: clamp(e.width, lo.width, hi.width), height: clamp(e.height, lo.height, hi.height) }
}

pub open spec fn is_degenerate(e: Extent) -> bool {
    e.width == 0 || e.height == 0
}

impl Capabilities {
    /// The extent a swapchain built now would get.
    pub open spec fn extent_for(&self, desired: Extent) -> Extent {
        clamped_extent(
            requested_extent(self.current_extent, desired),
            self.min_image_extent,
            self.max_image_extent,
        )
    }

    /// No swapchain can be built at `desired`: the size asked for, or the
    /// surface's whole range, has no area (a minimised window).
    pub open spec fn degenerate_for(&self, desired: Extent) -> bool {
        is_degenerate(requested_extent(self.current_extent, desired)) || is_degenerate(
            self.extent_for(desired),
        )
    }
}

/// Picks the format: `(BGRA8_SRGB, SRGB_NONLINEAR)` when offered, else the
/// first offered; `None` when the surface offers none.
pub fn select_surface_format(formats: &Vec<SurfaceFormat>) -> (r: Option<SurfaceFormat>)
    ensures
        r == chosen_format(formats@),
{
    if formats.len() == 0 {
        return None;
    }
    let want = SurfaceFormat {
        format: PixelFormat { code: BGRA8_SRGB },
        color_space: ColorSpace { code: SRGB_NONLINEAR },
    };
    let mut i: usize = 0;
    while i < formats.len()
        invariant
            0 <= i <= formats@.len(),
            want == preferred_format(),
            forall|j: int| 0 <= j < i ==> formats@[j] != want,
        decreases formats@.len() - i,
    {
        if formats[i] == want {
            return Some(want);
        }
        i = i + 1;
    }
    Some(formats[0])
}

/// Picks the present mode: mailbox, else immediate, else FIFO (always there).
pub fn select_present_mode(modes: SupportedPresentModes) -> (r: PresentMode)
    ensures
        r == chosen_present_mode(modes),
{
    if modes.mailbox {
        PresentMode::Mailbox
    } else if modes.immediate {
        PresentMode::Immediate
    } else {
        PresentMode::Fifo
    }
}

/// Asks for one image more than the surface's minimum, within its maximum.
pub fn select_image_count(min: u32, max: Option<u32>) -> (r: u32)
    ensures
        r == chosen_image_count(min, max),
{
    let bound = match max {
        Some(m) => m,
        None => u32::MAX,
    };
    if min >= bound {
        bound
    } else {
        min + 1
    }
}

fn clamp_axis(v: u32, lo: u32, hi: u32) -> (r: u32)
    ensures
        r == clamp(v, lo, hi),
{
    if v < lo {
        lo
    } else if v > hi {
        hi
    } else {
        v
    }
}

/// The extent a swapchain built now gets: the surface's current extent, or
/// `desired` when it has none, held within the supported range.
pub fn select_extent(caps: &Capabilities, desired: Extent) -> (r: Extent)
    ensures
        r == caps.extent_for(desired),
{
    let e = match caps.current_extent {
        Some(c) => c,
        None => desired,
    };
    Extent {
        width: clamp_axis(e.width, caps.min_image_extent.width, caps.max_image_extent.width),
        height: clamp_axis(e.height, caps.min_image_extent.height, caps.max_image_extent.height),
    }
}

/// The present modes of a surface that supports `m` and, as every surface
/// does, FIFO.
pub open spec fn modes_offering(m: PresentMode) -> SupportedPresentModes {
    SupportedPresentModes {
        immediate: m == PresentMode::Immediate,
        mailbox: m == PresentMode::Mailbox,
        fifo: true,
        relaxed: m == PresentMode::Relaxed,
    }
}

/// Format and present-mode selection are pure: capabilities that offer the
/// same formats and modes get the same choice, and choosing again among only
/// what was chosen gives it back.
pub proof fn lemma_selection_idempotent(a: Capabilities, b: Capabilities)
    requires
        a.supported_formats@ == b.supported_formats@,
        a.present_modes == b.present_modes,
    ensures
        chosen_format(a.supported_formats@) == chosen_format(b.supported_formats@),
        chosen_present_mode(a.present_modes) == chosen_present_mode(b.present_modes),
        a.supported_formats@.len() > 0 ==> chosen_format(seq![chosen_format(a.supported_formats@)->0])
            == chosen_format(a.supported_formats@),
        chosen_present_mode(modes_offering(chosen_present_mode(a.present_modes)))
            == chosen_present_mode(a.present_modes),
{
    let f = a.supported_formats@;
    if f.len() > 0 {
        let c = chosen_format(f)->0;
        let one = seq![c];
        assert(one[0] == c);
        if c == preferred_format() {
            assert(one.contains(preferred_format()));
        } else {
            assert(!one.contains(preferred_format())) by {
                if one.contains(preferred_format()) {
                    let k = choose|k: int| 0 <= k < one.len() && one[k] == preferred_format();
                    assert(k == 0);
                }
            }
        }
    }
}

} // verus!
