use frame_presenter::framebuffer::{build_framebuffers, IncompatibleFormat, RenderTarget};
use frame_presenter::surface::{
    select_extent, select_image_count, select_present_mode, select_surface_format, Capabilities,
    ColorSpace, Extent, PixelFormat, PresentMode, SupportedPresentModes, SurfaceFormat,
    BGRA8_SRGB, SRGB_NONLINEAR,
};
use frame_presenter::swapchain::{
    negotiate, select_sharing_mode, NegotiationError, QueueFamilies, SharingMode,
};
use frame_presenter::sync::{FrameSync, SyncToken};

const RGBA8_UNORM: u32 = 37;
const BGRA8_UNORM: u32 = 44;
const DISPLAY_P3: u32 = 1000104001;

fn fmt(format: u32, color_space: u32) -> SurfaceFormat {
    SurfaceFormat { format: PixelFormat { code: format }, color_space: ColorSpace { code: color_space } }
}

fn modes(immediate: bool, mailbox: bool) -> SupportedPresentModes {
    SupportedPresentModes { immediate, mailbox, fifo: true, relaxed: false }
}

fn caps(formats: Vec<SurfaceFormat>, current: Option<Extent>) -> Capabilities {
    Capabilities {
        supported_formats: formats,
        present_modes: modes(false, false),
        min_image_count: 2,
        max_image_count: Some(3),
        current_extent: current,
        min_image_extent: Extent { width: 16, height: 16 },
        max_image_extent: Extent { width: 4096, height: 2160 },
    }
}

fn ext(width: u32, height: u32) -> Extent {
    Extent { width, height }
}

#[test]
fn format_prefers_bgra8_srgb_wherever_listed() {
    let formats = vec![fmt(RGBA8_UNORM, SRGB_NONLINEAR), fmt(BGRA8_SRGB, SRGB_NONLINEAR)];
    assert_eq!(select_surface_format(&formats), Some(fmt(BGRA8_SRGB, SRGB_NONLINEAR)));
}

#[test]
fn format_falls_back_to_first_offered() {
    let formats = vec![fmt(BGRA8_UNORM, SRGB_NONLINEAR), fmt(RGBA8_UNORM, SRGB_NONLINEAR)];
    assert_eq!(select_surface_format(&formats), Some(fmt(BGRA8_UNORM, SRGB_NONLINEAR)));
}

#[test]
fn format_needs_the_srgb_color_space_too() {
    let formats = vec![fmt(RGBA8_UNORM, SRGB_NONLINEAR), fmt(BGRA8_SRGB, DISPLAY_P3)];
    assert_eq!(select_surface_format(&formats), Some(fmt(RGBA8_UNORM, SRGB_NONLINEAR)));
}

#[test]
fn format_of_empty_list_is_none() {
    assert_eq!(select_surface_format(&Vec::new()), None);
}

#[test]
fn present_mode_order_is_mailbox_immediate_fifo() {
    assert_eq!(select_present_mode(modes(true, true)), PresentMode::Mailbox);
    assert_eq!(select_present_mode(modes(true, false)), PresentMode::Immediate);
    assert_eq!(select_present_mode(modes(false, false)), PresentMode::Fifo);
    let relaxed_only = SupportedPresentModes { immediate: false, mailbox: false, fifo: true, relaxed: true };
    assert_eq!(select_present_mode(relaxed_only), PresentMode::Fifo);
}

#[test]
fn selection_repeated_gives_same_result() {
    let c = caps(vec![fmt(BGRA8_UNORM, SRGB_NONLINEAR), fmt(BGRA8_SRGB, SRGB_NONLINEAR)], None);
    let first = select_surface_format(&c.supported_formats);
    let again = select_surface_format(&c.supported_formats);
    assert_eq!(first, again);
    assert_eq!(select_surface_format(&vec![first.unwrap()]), first);
    let m = modes(true, false);
    assert_eq!(select_present_mode(m), select_present_mode(m));
}

#[test]
fn image_count_is_min_plus_one_within_max() {
    assert_eq!(select_image_count(2, Some(3)), 3);
    assert_eq!(select_image_count(2, Some(8)), 3);
    assert_eq!(select_image_count(3, Some(3)), 3);
    assert_eq!(select_image_count(1, None), 2);
    assert_eq!(select_image_count(u32::MAX, None), u32::MAX);
}

#[test]
fn extent_uses_current_then_desired_and_clamps() {
    let c = caps(vec![], Some(ext(1024, 768)));
    assert_eq!(select_extent(&c, ext(640, 480)), ext(1024, 768));
    let c = caps(vec![], None);
    assert_eq!(select_extent(&c, ext(640, 480)), ext(640, 480));
    assert_eq!(select_extent(&c, ext(8, 9000)), ext(16, 2160));
}

#[test]
fn sharing_follows_queue_families() {
    assert_eq!(select_sharing_mode(QueueFamilies { graphics: 0, present: 0 }), SharingMode::Exclusive);
    assert_eq!(
        select_sharing_mode(QueueFamilies { graphics: 0, present: 2 }),
        SharingMode::Concurrent { graphics: 0, present: 2 }
    );
}

#[test]
fn negotiate_builds_whole_config() {
    let mut c = caps(vec![fmt(BGRA8_SRGB, SRGB_NONLINEAR)], None);
    c.present_modes = modes(true, true);
    let config = negotiate(&c, ext(800, 600), QueueFamilies { graphics: 1, present: 3 }).unwrap();
    assert_eq!(config.format, fmt(BGRA8_SRGB, SRGB_NONLINEAR));
    assert_eq!(config.present_mode, PresentMode::Mailbox);
    assert_eq!(config.image_count, 3);
    assert_eq!(config.extent, ext(800, 600));
    assert_eq!(config.sharing, SharingMode::Concurrent { graphics: 1, present: 3 });
}

#[test]
fn negotiate_without_formats_fails() {
    let c = caps(vec![], None);
    let q = QueueFamilies { graphics: 0, present: 0 };
    assert_eq!(negotiate(&c, ext(800, 600), q), Err(NegotiationError::NoSurfaceFormats));
}

#[test]
fn negotiate_degenerate_extent_is_unsupported() {
    let q = QueueFamilies { graphics: 0, present: 0 };
    let c = caps(vec![fmt(BGRA8_SRGB, SRGB_NONLINEAR)], None);
    assert_eq!(negotiate(&c, ext(0, 0), q), Err(NegotiationError::UnsupportedDimensions));
    assert_eq!(negotiate(&c, ext(300, 0), q), Err(NegotiationError::UnsupportedDimensions));
    let minimised = caps(vec![fmt(BGRA8_SRGB, SRGB_NONLINEAR)], Some(ext(0, 0)));
    assert_eq!(negotiate(&minimised, ext(800, 600), q), Err(NegotiationError::UnsupportedDimensions));
    let mut no_range = caps(vec![fmt(BGRA8_SRGB, SRGB_NONLINEAR)], None);
    no_range.min_image_extent = ext(0, 0);
    no_range.max_image_extent = ext(0, 0);
    assert_eq!(negotiate(&no_range, ext(800, 600), q), Err(NegotiationError::UnsupportedDimensions));
}

#[test]
fn framebuffers_one_per_image_in_order() {
    let f = PixelFormat { code: BGRA8_SRGB };
    let set = build_framebuffers(4, 3, f, f).unwrap();
    assert_eq!(
        set,
        vec![
            RenderTarget { generation: 4, image_index: 0 },
            RenderTarget { generation: 4, image_index: 1 },
            RenderTarget { generation: 4, image_index: 2 },
        ]
    );
}

#[test]
fn framebuffers_reject_mismatched_format() {
    let image = PixelFormat { code: BGRA8_UNORM };
    let pass = PixelFormat { code: BGRA8_SRGB };
    assert_eq!(
        build_framebuffers(0, 2, image, pass),
        Err(IncompatibleFormat { image_format: image, attachment_format: pass })
    );
}

#[test]
fn token_taken_twice_is_caught() {
    let mut sync = FrameSync::completed();
    assert!(sync.is_held());
    assert_eq!(sync.take(), Some(SyncToken::Completed));
    assert!(!sync.is_held());
    assert_eq!(sync.take(), None);
    sync.put(SyncToken::Pending { serial: 7 });
    assert_eq!(sync.take(), Some(SyncToken::Pending { serial: 7 }));
}
