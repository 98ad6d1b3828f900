//! Swapchain configuration: surface format, present mode and extent, chosen
//! once from what the surface reports and kept across recreation.
use vstd::prelude::*;

use crate::device::PhysicalDevice;

verus! {

/// `VK_FORMAT_B8G8R8A8_SRGB`.
pub const FORMAT_B8G8R8A8_SRGB: i32 = 50;

/// `VK_COLOR_SPACE_SRGB_NONLINEAR_KHR`.
pub const COLOR_SPACE_SRGB_NONLINEAR: i32 = 0;

/// `VK_PRESENT_MODE_MAILBOX_KHR`.
pub const PRESENT_MODE_MAILBOX: i32 = 1;

/// `VK_PRESENT_MODE_FIFO_KHR`, which every surface supports.
pub const PRESENT_MODE_FIFO: i32 = 2;

/// A width and a height in pixels.
#[derive(Clone, Copy, Debug, PartialEq, Eq, Structural)]
pub struct Extent2D {
    pub width: u32,
    pub height: u32,
}

/// A signed pixel offset.
#[derive(Clone, Copy, Debug, PartialEq, Eq, Structural)]
pub struct Offset2D {
    pub x: i32,
    pub y: i32,
}

/// A rectangle of the framebuffer.
#[derive(Clone, Copy, Debug, PartialEq, Eq, Structural)]
pub struct Rect2D {
    pub offset: Offset2D,
    pub extent: Extent2D,
}

/// A pixel format and color space pair that a surface supports.
#[derive(Clone, Copy, Debug, PartialEq, Eq, Structural)]
pub struct SurfaceFormat {
    pub format: i32,
    pub color_space: i32,
}

/// The part of a surface's capabilities that sizing depends on.
#[derive(Clone, Copy, Debug, PartialEq, Eq, Structural)]
pub struct SurfaceCapabilities {
    pub min_image_extent: Extent2D,
    pub max_image_extent: Extent2D,
}

impl SurfaceCapabilities {
    /// Each minimum is at most its maximum.
    pub open spec fn wf(&self) -> bool {
        &&& self.min_image_extent.width <= self.max_image_extent.width
        &&& self.min_image_extent.height <= self.max_image_extent.height
    }

    /// Whether `e` lies within the bounds.
    pub open spec fn admits(&self, e: Extent2D) -> bool {
        &&& self.min_image_extent.width <= e.width <= self.max_image_extent.width
        &&& self.min_image_extent.height <= e.height <= self.max_image_extent.height
    }
}

/// Why no swapchain could be configured.
#[derive(Clone, Copy, Debug, PartialEq, Eq, Structural)]
pub enum SwapchainError {
    /// The surface reports no format at all.
    NoSurfaceFormat,
    /// The surface reports a minimum extent above its maximum.
    InvalidCapabilities,
    /// A different number of image views than images was handed over.
    ImageViewMismatch,
}

/// The format preferred above all others.
pub open spec fn is_preferred_format(f: SurfaceFormat) -> bool {
    f.format == FORMAT_B8G8R8A8_SRGB && f.color_space == COLOR_SPACE_SRGB_NONLINEAR
}

/// The first preferred format, else the first format.
pub open spec fn chosen_format(formats: Seq<SurfaceFormat>) -> SurfaceFormat
    recommends
        formats.len() > 0,
{
    if exists|i: int| 0 <= i < formats.len() && is_preferred_format(#[trigger] formats[i]) {
        SurfaceFormat { format: FORMAT_B8G8R8A8_SRGB, color_space: COLOR_SPACE_SRGB_NONLINEAR }
    } else {
        formats[0]
    }
}

/// Mailbox where the surface offers it, else FIFO.
pub open spec fn chosen_present_mode(modes: Seq<i32>) -> i32 {
    if modes.contains(PRESENT_MODE_MAILBOX) {
        PRESENT_MODE_MAILBOX
    } else {
        PRESENT_MODE_FIFO
    }
}

/// `v` clamped to `[lo, hi]`.
pub open spec fn clamp(v: u32, lo: u32, hi: u32) -> u32 {
    if v < lo {
        lo
    } else if v > hi {
        hi
    } else {
        v
    }
}

/// The window size clamped to the surface's bounds.
pub open spec fn clamped_extent(window: Extent2D, caps: SurfaceCapabilities) -> Extent2D {
    Extent2D {
        width: clamp(window.width, caps.min_image_extent.width, caps.max_image_extent.width),
        height: clamp(window.height, caps.min_image_extent.height, caps.max_image_extent.height),
    }
}

/// The first 8-bit BGRA sRGB format with the sRGB non-linear color space,
/// else the first format offered.
pub fn get_swapchain_surface_format(formats: &[SurfaceFormat]) -> (r: SurfaceFormat)
    requires
        formats@.len() > 0,
    ensures
        r == chosen_format(formats@),
{
    let mut i: usize = 0;
    while i < formats.len()
        invariant
            i <= formats@.len(),
            forall|k: int| 0 <= k < i ==> !is_preferred_format(#[trigger] formats@[k]),
        decreases formats@.len() - i,
    {
        let f = formats[i];
        if f.format == FORMAT_B8G8R8A8_SRGB && f.color_space == COLOR_SPACE_SRGB_NONLINEAR {
            return f;
        }
        i += 1;
    }
    formats[0]
}

/// Mailbox if offered, else FIFO.
pub fn get_swapchain_present_mode(present_modes: &[i32]) -> (r: i32)
    ensures
        r == chosen_present_mode(present_modes@),
{
    let mut i: usize = 0;
    while i < present_modes.len()
        invariant
            i <= present_modes@.len(),
            forall|k: int| 0 <= k < i ==> present_modes@[k] != PRESENT_MODE_MAILBOX,
        decreases present_modes@.len() - i,
    {
        if present_modes[i] == PRESENT_MODE_MAILBOX {
            proof {
                assert(present_modes@[i as int] == PRESENT_MODE_MAILBOX);
            }
            return PRESENT_MODE_MAILBOX;
        }
        i += 1;
    }
    PRESENT_MODE_FIFO
}

fn clamp_u32(v: u32, lo: u32, hi: u32) -> (r: u32)
    requires
        lo <= hi,
    ensures
        r == clamp(v, lo, hi),
        lo <= r <= hi,
{
    if v < lo {
        lo
    } else if v > hi {
        hi
    } else {
        v
    }
}

/// The window's pixel size clamped to the surface's bounds.
pub fn get_swapchain_extent(window: Extent2D, capabilities: SurfaceCapabilities) -> (r: Extent2D)
    requires
        capabilities.wf(),
    ensures
        r == clamped_extent(window, capabilities),
        capabilities.admits(r),
{
    Extent2D {
        width: clamp_u32(
            window.width,
            capabilities.min_image_extent.width,
            capabilities.max_image_extent.width,
        ),
        height: clamp_u32(
            window.height,
            capabilities.min_image_extent.height,
            capabilities.max_image_extent.height,
        ),
    }
}

/// How the swapchain images are shared between queue families.
#[derive(Clone, Copy, Debug, PartialEq, Eq, Structural)]
pub enum SharingMode {
    /// Owned by one queue family at a time.
    Exclusive,
    /// Used by several queue families at once.
    Concurrent,
}

/// Images drawn by the graphics family and presented by the present family:
/// shared concurrently between the two where they differ, else owned
/// exclusively. Also the family indices to list for concurrent sharing.
pub fn image_sharing(graphics_family: u32, present_family: u32) -> (r: (SharingMode, Vec<u32>))
    ensures
        graphics_family != present_family ==> r.0 == SharingMode::Concurrent && r.1@ == seq![
            graphics_family,
            present_family,
        ],
        graphics_family == present_family ==> r.0 == SharingMode::Exclusive && r.1@.len() == 0,
{
    if graphics_family != present_family {
        (SharingMode::Concurrent, vec![graphics_family, present_family])
    } else {
        (SharingMode::Exclusive, Vec::new())
    }
}

/// The depth attachment: its format, and the extent it shares with the
/// swapchain it was made for.
#[derive(Clone, Copy, Debug, PartialEq, Eq, Structural)]
pub struct DepthBuffer {
    pub format: i32,
    pub extent: Extent2D,
}

impl DepthBuffer {
    /// A depth attachment in the device's depth format, sized like `swapchain`.
    pub fn new(physical_device: &PhysicalDevice, swapchain: &Swapchain) -> (r: Self)
        ensures
            r.format == physical_device.depth_format,
            r.extent == swapchain.extent,
    {
        DepthBuffer { format: physical_device.depth_format, extent: swapchain.extent }
    }
}

/// The presentable images of a surface and their views, with the format,
/// present mode and extent they were made with. Images and views are native
/// handles owned by the caller's graphics device.
pub struct Swapchain {
    pub format: i32,
    pub color_space: i32,
    pub present_mode: i32,
    pub extent: Extent2D,
    pub images: Vec<u64>,
    pub image_views: Vec<u64>,
}

impl Swapchain {
    /// One view per image.
    pub open spec fn wf(&self) -> bool {
        self.images@.len() == self.image_views@.len()
    }

    /// Chooses format, present mode and extent for a surface; the images are
    /// handed over once the native swapchain exists.
    pub fn new(
        formats: &[SurfaceFormat],
        present_modes: &[i32],
        capabilities: SurfaceCapabilities,
        window: Extent2D,
    ) -> (r: Result<Swapchain, SwapchainError>)
        ensures
            r is Ok <==> formats@.len() > 0 && capabilities.wf(),
            r matches Ok(sc) ==> {
                &&& sc.wf()
                &&& sc.format == chosen_format(formats@).format
                &&& sc.color_space == chosen_format(formats@).color_space
                &&& sc.present_mode == chosen_present_mode(present_modes@)
                &&& sc.extent == clamped_extent(window, capabilities)
                &&& capabilities.admits(sc.extent)
                &&& sc.images@.len() == 0
            },
            r matches Err(e) ==> (e == SwapchainError::NoSurfaceFormat <==> formats@.len() == 0),
            r matches Err(e) ==> (e == SwapchainError::InvalidCapabilities <==> formats@.len() > 0),
    {
        if formats.len() == 0 {
            return Err(SwapchainError::NoSurfaceFormat);
        }
        if capabilities.min_image_extent.width > capabilities.max_image_extent.width
            || capabilities.min_image_extent.height > capabilities.max_image_extent.height {
            return Err(SwapchainError::InvalidCapabilities);
        }
        let format = get_swapchain_surface_format(formats);
        let present_mode = get_swapchain_present_mode(present_modes);
        let extent = get_swapchain_extent(window, capabilities);
        Ok(Swapchain {
            format: format.format,
            color_space: format.color_space,
            present_mode,
            extent,
            images: Vec::new(),
            image_views: Vec::new(),
        })
    }

    /// Takes over the images of the native swapchain and one view of each.
    pub fn set_images(&mut self, images: Vec<u64>, image_views: Vec<u64>) -> (r: Result<(), SwapchainError>)
        ensures
            r is Ok <==> images@.len() == image_views@.len(),
            r is Ok ==> final(self).images@ == images@ && final(self).image_views@ == image_views@,
            r is Err ==> r == Err::<(), SwapchainError>(SwapchainError::ImageViewMismatch),
            r is Err ==> *final(self) == *old(self),
            final(self).format == old(self).format,
            final(self).color_space == old(self).color_space,
            final(self).present_mode == old(self).present_mode,
            final(self).extent == old(self).extent,
    {
        if images.len() != image_views.len() {
            return Err(SwapchainError::ImageViewMismatch);
        }
        self.images = images;
        self.image_views = image_views;
        Ok(())
    }

    /// Drops every image and view.
    pub fn cleanup(&mut self)
        ensures
            final(self).wf(),
            final(self).images@.len() == 0,
            final(self).image_views@.len() == 0,
            final(self).format == old(self).format,
            final(self).color_space == old(self).color_space,
            final(self).present_mode == old(self).present_mode,
            final(self).extent == old(self).extent,
    {
        self.image_views.clear();
        self.images.clear();
    }

    /// Tears the images down and sizes the swapchain for the window anew,
    /// keeping its format and present mode. Call only once the device is idle.
    pub fn recreate(&mut self, capabilities: SurfaceCapabilities, window: Extent2D) -> (r: Result<(), SwapchainError>)
        ensures
            r is Ok <==> capabilities.wf(),
            r is Ok ==> {
                &&& final(self).wf()
                &&& final(self).extent == clamped_extent(window, capabilities)
                &&& capabilities.admits(final(self).extent)
                &&& final(self).images@.len() == 0
            },
            r is Err ==> r == Err::<(), SwapchainError>(SwapchainError::InvalidCapabilities),
            r is Err ==> *final(self) == *old(self),
            final(self).format == old(self).format,
            final(self).color_space == old(self).color_space,
            final(self).present_mode == old(self).present_mode,
    {
        if capabilities.min_image_extent.width > capabilities.max_image_extent.width
            || capabilities.min_image_extent.height > capabilities.max_image_extent.height {
            return Err(SwapchainError::InvalidCapabilities);
        }
        self.cleanup();
        self.extent = get_swapchain_extent(window, capabilities);
        Ok(())
    }

    /// The whole framebuffer, from the origin.
    pub fn get_scissor(&self) -> (r: Rect2D)
        ensures
            r == (Rect2D { offset: Offset2D { x: 0, y: 0 }, extent: self.extent }),
    {
        Rect2D { offset: Offset2D { x: 0, y: 0 }, extent: self.extent }
    }
}

} // verus!
