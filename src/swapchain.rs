use vstd::prelude::*;

use crate::queue_family::QueueFamilyIndices;
use crate::{clamp, clamp_spec};

verus! {

/// `VK_FORMAT_B8G8R8A8_SRGB`.
pub const FORMAT_B8G8R8A8_SRGB: i32 = 50;

/// `VK_COLOR_SPACE_SRGB_NONLINEAR_KHR`.
pub const COLOR_SPACE_SRGB_NONLINEAR: i32 = 0;

/// A supported pair of pixel format and color space, as the runtime's codes.
#[derive(Clone, Copy, Debug, PartialEq, Eq, Structural)]
pub struct SurfaceFormat {
    pub format: i32,
    pub color_space: i32,
}

#[derive(Clone, Copy, Debug, PartialEq, Eq, Structural)]
pub enum PresentMode {
    Immediate,
    Mailbox,
    Fifo,
    FifoRelaxed,
}

#[derive(Clone, Copy, Debug, PartialEq, Eq, Structural)]
pub enum SurfaceTransform {
    Identity,
    Rotate90,
    Rotate180,
    Rotate270,
    HorizontalMirror,
    HorizontalMirrorRotate90,
    HorizontalMirrorRotate180,
    HorizontalMirrorRotate270,
    Inherit,
}

#[derive(Clone, Copy, Debug, PartialEq, Eq, Structural)]
pub enum CompositeAlpha {
    Opaque,
    PreMultiplied,
    PostMultiplied,
    Inherit,
}

#[derive(Clone, Copy, Debug, PartialEq, Eq, Structural)]
pub struct Extent2D {
    pub width: u32,
    pub height: u32,
}

/// The limits that a surface reports for swapchains built on it.
#[derive(Clone, Debug)]
pub struct SurfaceCaps {
    pub min_image_count: u32,
    /// Zero where the surface sets no maximum.
    pub max_image_count: u32,
    pub min_image_extent: Extent2D,
    pub max_image_extent: Extent2D,
    pub current_transform: SurfaceTransform,
    /// The supported composite alpha modes, in the order the runtime lists them.
    pub supported_composite_alpha: Vec<CompositeAlpha>,
}

/// What a device supports for presenting to a surface.
#[derive(Clone, Debug)]
pub struct SwapchainSupport {
    pub capabilities: SurfaceCaps,
    pub formats: Vec<SurfaceFormat>,
    pub present_modes: Vec<PresentMode>,
}

/// How the swapchain's images are shared between queue families.
#[derive(Clone, Copy, Debug, PartialEq, Eq, Structural)]
pub enum SharingMode {
    Exclusive,
    /// Used by the graphics family and the presentation family, in that order.
    Concurrent(u32, u32),
}

/// The negotiated parameters of a swapchain.
#[derive(Clone, Copy, Debug, PartialEq, Eq, Structural)]
pub struct SurfaceConfiguration {
    pub format: SurfaceFormat,
    pub present_mode: PresentMode,
    pub extent: Extent2D,
    pub image_count: u32,
    pub sharing: SharingMode,
    pub pre_transform: SurfaceTransform,
    pub composite_alpha: CompositeAlpha,
}

pub open spec fn preferred_format() -> SurfaceFormat {
    SurfaceFormat { format: FORMAT_B8G8R8A8_SRGB, color_space: COLOR_SPACE_SRGB_NONLINEAR }
}

/// The preferred 8-bit BGRA sRGB pair where it is offered, else the first pair offered.
pub open spec fn format_choice(available: Seq<SurfaceFormat>) -> SurfaceFormat {
    if available.contains(preferred_format()) {
        preferred_format()
    } else {
        available[0]
    }
}

/// Mailbox where it is offered, else FIFO, which every surface supports.
pub open spec fn present_mode_choice(available: Seq<PresentMode>) -> PresentMode {
    if available.contains(PresentMode::Mailbox) {
        PresentMode::Mailbox
    } else {
        PresentMode::Fifo
    }
}

/// The window size with each dimension clamped into the surface's extent bounds.
pub open spec fn extent_choice(caps: SurfaceCaps, window_size: Extent2D) -> Extent2D {
    Extent2D {
        width: clamp_spec(
            window_size.width as int,
            caps.min_image_extent.width as int,
            caps.max_image_extent.width as int,
        ) as u32,
        height: clamp_spec(
            window_size.height as int,
            caps.min_image_extent.height as int,
            caps.max_image_extent.height as int,
        ) as u32,
    }
}

/// One more than the minimum, capped by the maximum where there is one.
pub open spec fn image_count_choice(caps: SurfaceCaps) -> u32 {
    if caps.max_image_count != 0 && caps.min_image_count + 1 > caps.max_image_count {
        caps.max_image_count
    } else {
        (caps.min_image_count + 1) as u32
    }
}

/// Exclusive where one family does both, else concurrent over the two families.
pub open spec fn sharing_choice(indices: QueueFamilyIndices) -> SharingMode {
    let g = indices.graphics_family_id.unwrap();
    let p = indices.presentation_family_id.unwrap();
    if g == p {
        SharingMode::Exclusive
    } else {
        SharingMode::Concurrent(g, p)
    }
}

/// Takes the preferred pair wherever it stands in the list, else the first pair.
pub fn choose_swap_surface_format(available_formats: &Vec<SurfaceFormat>) -> (r: SurfaceFormat)
    requires
        available_formats@.len() > 0,
    ensures
        r == format_choice(available_formats@),
{
    let mut i: usize = 0;
    while i < available_formats.len()
        invariant
            i <= available_formats@.len(),
            forall|j: int| 0 <= j < i ==> available_formats@[j] != preferred_format(),
        decreases available_formats@.len() - i,
    {
        let f = available_formats[i];
        if f.format == FORMAT_B8G8R8A8_SRGB && f.color_space == COLOR_SPACE_SRGB_NONLINEAR {
            assert(available_formats@[i as int] == preferred_format());
            return f;
        }
        i += 1;
    }
    available_formats[0]
}

/// Takes mailbox where the surface offers it, else FIFO.
pub fn choose_swap_present_modes(available_modes: &Vec<PresentMode>) -> (r: PresentMode)
    ensures
        r == present_mode_choice(available_modes@),
{
    let mut i: usize = 0;
    while i < available_modes.len()
        invariant
            i <= available_modes@.len(),
            forall|j: int| 0 <= j < i ==> available_modes@[j] != PresentMode::Mailbox,
        decreases available_modes@.len() - i,
    {
        if let PresentMode::Mailbox = available_modes[i] {
            assert(available_modes@[i as int] == PresentMode::Mailbox);
            return PresentMode::Mailbox;
        }
        i += 1;
    }
    PresentMode::Fifo
}

/// Clamps the window's pixel size into the surface's extent bounds.
pub fn choose_swap_extent(capabilities: &SurfaceCaps, window_size: Extent2D) -> (r: Extent2D)
    ensures
        r == extent_choice(*capabilities, window_size),
        capabilities.min_image_extent.width <= capabilities.max_image_extent.width ==> (
        capabilities.min_image_extent.width <= r.width <= capabilities.max_image_extent.width),
        capabilities.min_image_extent.height <= capabilities.max_image_extent.height ==> (
        capabilities.min_image_extent.height <= r.height
            <= capabilities.max_image_extent.height),
        capabilities.min_image_extent.width <= window_size.width
            <= capabilities.max_image_extent.width ==> r.width == window_size.width,
        capabilities.min_image_extent.height <= window_size.height
            <= capabilities.max_image_extent.height ==> r.height == window_size.height,
{
    let width = clamp(
        window_size.width,
        capabilities.min_image_extent.width,
        capabilities.max_image_extent.width,
    );
    let height = clamp(
        window_size.height,
        capabilities.min_image_extent.height,
        capabilities.max_image_extent.height,
    );
    Extent2D { width, height }
}

/// Asks for one image more than the minimum, within the maximum where one is set.
pub fn choose_image_count(capabilities: &SurfaceCaps) -> (r: u32)
    requires
        capabilities.min_image_count < u32::MAX,
    ensures
        r == image_count_choice(*capabilities),
        capabilities.max_image_count == 0 || capabilities.min_image_count
            < capabilities.max_image_count ==> r == capabilities.min_image_count + 1,
        capabilities.max_image_count != 0 ==> r <= capabilities.max_image_count,
        capabilities.min_image_count <= capabilities.max_image_count
            || capabilities.max_image_count == 0 ==> capabilities.min_image_count <= r,
{
    let count = capabilities.min_image_count + 1;
    if capabilities.max_image_count != 0 && count > capabilities.max_image_count {
        capabilities.max_image_count
    } else {
        count
    }
}

/// Exclusive to the one family where graphics and presentation share it,
/// else concurrent over the graphics family and the presentation family.
pub fn choose_sharing_mode(indices: &QueueFamilyIndices) -> (r: SharingMode)
    requires
        indices.complete(),
    ensures
        r == sharing_choice(*indices),
{
    let g = indices.graphics_family_id.unwrap();
    let p = indices.presentation_family_id.unwrap();
    if g == p {
        SharingMode::Exclusive
    } else {
        SharingMode::Concurrent(g, p)
    }
}

/// Chooses every parameter of a swapchain for the given support, window
/// size and resolved queue families. Each choice stands on its own.
pub fn negotiate_swapchain(
    support: &SwapchainSupport,
    window_size: Extent2D,
    indices: &QueueFamilyIndices,
) -> (r: SurfaceConfiguration)
    requires
        support.formats@.len() > 0,
        support.capabilities.supported_composite_alpha@.len() > 0,
        support.capabilities.min_image_count < u32::MAX,
        indices.complete(),
    ensures
        r.format == format_choice(support.formats@),
        r.present_mode == present_mode_choice(support.present_modes@),
        r.extent == extent_choice(support.capabilities, window_size),
        r.image_count == image_count_choice(support.capabilities),
        r.sharing == sharing_choice(*indices),
        r.pre_transform == support.capabilities.current_transform,
        r.composite_alpha == support.capabilities.supported_composite_alpha@[0],
{
    let caps = &support.capabilities;
    SurfaceConfiguration {
        format: choose_swap_surface_format(&support.formats),
        present_mode: choose_swap_present_modes(&support.present_modes),
        extent: choose_swap_extent(caps, window_size),
        image_count: choose_image_count(caps),
        sharing: choose_sharing_mode(indices),
        pre_transform: caps.current_transform,
        composite_alpha: caps.supported_composite_alpha[0],
    }
}

} // verus!
