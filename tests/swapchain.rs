use turtle::device::{PhysicalDevice, FORMAT_D32_SFLOAT};
use turtle::swapchain::{
    image_sharing, DepthBuffer, SharingMode,
    get_swapchain_extent, get_swapchain_present_mode, get_swapchain_surface_format, Extent2D, Offset2D,
    Rect2D, SurfaceCapabilities, SurfaceFormat, Swapchain, SwapchainError,
    COLOR_SPACE_SRGB_NONLINEAR, FORMAT_B8G8R8A8_SRGB, PRESENT_MODE_FIFO, PRESENT_MODE_MAILBOX,
};

fn caps(min: (u32, u32), max: (u32, u32)) -> SurfaceCapabilities {
    SurfaceCapabilities {
        min_image_extent: Extent2D { width: min.0, height: min.1 },
        max_image_extent: Extent2D { width: max.0, height: max.1 },
    }
}

const UNORM: SurfaceFormat = SurfaceFormat { format: 44, color_space: COLOR_SPACE_SRGB_NONLINEAR };
const SRGB_OTHER_SPACE: SurfaceFormat = SurfaceFormat { format: FORMAT_B8G8R8A8_SRGB, color_space: 1000104001 };
const PREFERRED: SurfaceFormat =
    SurfaceFormat { format: FORMAT_B8G8R8A8_SRGB, color_space: COLOR_SPACE_SRGB_NONLINEAR };

#[test]
fn prefers_bgra_srgb_nonlinear() {
    assert_eq!(get_swapchain_surface_format(&[UNORM, SRGB_OTHER_SPACE, PREFERRED]), PREFERRED);
}

#[test]
fn falls_back_to_first_format() {
    assert_eq!(get_swapchain_surface_format(&[SRGB_OTHER_SPACE, UNORM]), SRGB_OTHER_SPACE);
}

#[test]
fn mailbox_else_fifo() {
    assert_eq!(get_swapchain_present_mode(&[0, PRESENT_MODE_FIFO, PRESENT_MODE_MAILBOX]), PRESENT_MODE_MAILBOX);
    assert_eq!(get_swapchain_present_mode(&[0, PRESENT_MODE_FIFO]), PRESENT_MODE_FIFO);
    assert_eq!(get_swapchain_present_mode(&[]), PRESENT_MODE_FIFO);
}

#[test]
fn extent_is_clamped() {
    let c = caps((100, 50), (1920, 1080));
    assert_eq!(get_swapchain_extent(Extent2D { width: 800, height: 600 }, c), Extent2D { width: 800, height: 600 });
    assert_eq!(get_swapchain_extent(Extent2D { width: 10, height: 4000 }, c), Extent2D { width: 100, height: 1080 });
    assert_eq!(get_swapchain_extent(Extent2D { width: 5000, height: 0 }, c), Extent2D { width: 1920, height: 50 });
}

#[test]
fn new_swapchain_configuration() {
    let sc = Swapchain::new(
        &[UNORM, PREFERRED],
        &[PRESENT_MODE_MAILBOX],
        caps((1, 1), (1024, 1024)),
        Extent2D { width: 1280, height: 720 },
    )
    .unwrap();
    assert_eq!(sc.format, FORMAT_B8G8R8A8_SRGB);
    assert_eq!(sc.color_space, COLOR_SPACE_SRGB_NONLINEAR);
    assert_eq!(sc.present_mode, PRESENT_MODE_MAILBOX);
    assert_eq!(sc.extent, Extent2D { width: 1024, height: 720 });
    assert!(sc.images.is_empty());
    assert_eq!(
        sc.get_scissor(),
        Rect2D { offset: Offset2D { x: 0, y: 0 }, extent: Extent2D { width: 1024, height: 720 } }
    );
}

#[test]
fn new_swapchain_errors() {
    let window = Extent2D { width: 10, height: 10 };
    assert_eq!(
        Swapchain::new(&[], &[], caps((1, 1), (2, 2)), window).err(),
        Some(SwapchainError::NoSurfaceFormat)
    );
    assert_eq!(
        Swapchain::new(&[UNORM], &[], caps((5, 1), (2, 2)), window).err(),
        Some(SwapchainError::InvalidCapabilities)
    );
}

#[test]
fn recreate_keeps_format_and_present_mode() {
    let c = caps((1, 1), (2000, 2000));
    let mut sc = Swapchain::new(&[UNORM], &[PRESENT_MODE_FIFO], c, Extent2D { width: 800, height: 600 }).unwrap();
    sc.set_images(vec![11, 12, 13], vec![21, 22, 23]).unwrap();
    assert_eq!(sc.images.len(), 3);
    sc.recreate(c, Extent2D { width: 3000, height: 900 }).unwrap();
    assert_eq!(sc.format, UNORM.format);
    assert_eq!(sc.color_space, UNORM.color_space);
    assert_eq!(sc.present_mode, PRESENT_MODE_FIFO);
    assert_eq!(sc.extent, Extent2D { width: 2000, height: 900 });
    assert!(sc.images.is_empty());
    assert!(sc.image_views.is_empty());
}

#[test]
fn recreate_with_bad_capabilities_changes_nothing() {
    let mut sc = Swapchain::new(&[UNORM], &[], caps((1, 1), (100, 100)), Extent2D { width: 50, height: 50 }).unwrap();
    sc.set_images(vec![1], vec![2]).unwrap();
    assert_eq!(sc.recreate(caps((10, 10), (5, 5)), Extent2D { width: 7, height: 7 }), Err(SwapchainError::InvalidCapabilities));
    assert_eq!(sc.extent, Extent2D { width: 50, height: 50 });
    assert_eq!(sc.images, vec![1]);
}

#[test]
fn images_need_one_view_each() {
    let mut sc = Swapchain::new(&[UNORM], &[], caps((1, 1), (100, 100)), Extent2D { width: 50, height: 50 }).unwrap();
    assert_eq!(sc.set_images(vec![1, 2], vec![3]), Err(SwapchainError::ImageViewMismatch));
    assert!(sc.images.is_empty());
    sc.cleanup();
    assert!(sc.image_views.is_empty());
}

#[test]
fn depth_buffer_follows_device_and_swapchain() {
    let c = caps((1, 1), (640, 480));
    let sc = Swapchain::new(&[UNORM], &[], c, Extent2D { width: 800, height: 400 }).unwrap();
    let device = PhysicalDevice {
        queue_families: Vec::new(),
        surface_capabilities: c,
        formats: vec![UNORM],
        present_modes: vec![PRESENT_MODE_FIFO],
        depth_format: FORMAT_D32_SFLOAT,
    };
    let depth = DepthBuffer::new(&device, &sc);
    assert_eq!(depth.format, FORMAT_D32_SFLOAT);
    assert_eq!(depth.extent, Extent2D { width: 640, height: 400 });
}

#[test]
fn sharing_depends_on_families() {
    assert_eq!(image_sharing(0, 2), (SharingMode::Concurrent, vec![0, 2]));
    assert_eq!(image_sharing(1, 1), (SharingMode::Exclusive, vec![]));
}
