//! Selection of swapchain parameters from what the driver reports.
//!
//! Construction of a swapchain is a single configuration step: pick an
//! image format, pick a presentation mode (preferring the low-latency
//! mailbox mode and falling back to the always-available fifo mode),
//! clamp the desired image count to the reported bounds, and derive the
//! presentation extent from the surface, or from the window when the
//! surface leaves its extent unspecified.

use vstd::prelude::*;

verus! {

/// The identity transform bit of a surface's transform bitmask.
pub const TRANSFORM_IDENTITY: u32 = 1;

/// A pixel extent, as the surface reports it or as the window measures it.
#[derive(Clone, Copy, PartialEq, Eq, Structural, Debug)]
pub struct Extent2d {
    pub width: u32,
    pub height: u32,
}

/// A surface format: a pixel format paired with a color space, both kept
/// as the driver's raw designators.
#[derive(Clone, Copy, PartialEq, Eq, Structural, Debug)]
pub struct SurfaceFormat {
    pub format: i32,
    pub color_space: i32,
}

/// A presentation mode offered by the driver. Modes that the selection
/// never prefers are folded into `Other`.
#[derive(Clone, Copy, PartialEq, Eq, Structural, Debug)]
pub enum PresentMode {
    Immediate,
    Mailbox,
    Fifo,
    FifoRelaxed,
    Other,
}

/// What the driver reports about a surface: the image-count bounds, the
/// supported and current transforms, and the current extent. A maximum
/// image count of zero means the surface sets no upper bound; a current
/// extent whose width is `u32::MAX` means the surface leaves the extent
/// to the window.
#[derive(Clone, Copy, PartialEq, Eq, Structural, Debug)]
pub struct SurfaceCapabilities {
    pub min_image_count: u32,
    pub max_image_count: u32,
    pub supported_transforms: u32,
    pub current_transform: u32,
    pub current_extent: Extent2d,
}

/// One more image than the reported minimum, clamped to the reported
/// maximum when the surface reports one (a maximum of zero means the
/// surface sets no upper bound) and the desired count exceeds it.
pub open spec fn spec_image_count(caps: SurfaceCapabilities) -> int {
    if caps.max_image_count > 0 && caps.min_image_count + 1 > caps.max_image_count {
        caps.max_image_count as int
    } else {
        caps.min_image_count + 1
    }
}

/// The identity transform when the surface supports it, otherwise the
/// surface's current transform.
pub open spec fn spec_pre_transform(caps: SurfaceCapabilities) -> u32 {
    if caps.supported_transforms & TRANSFORM_IDENTITY != 0 {
        TRANSFORM_IDENTITY
    } else {
        caps.current_transform
    }
}

/// The low-latency mailbox mode when offered, otherwise the fifo mode,
/// which every driver must offer.
pub open spec fn spec_present_mode(modes: Seq<PresentMode>) -> PresentMode {
    if modes.contains(PresentMode::Mailbox) {
        PresentMode::Mailbox
    } else {
        PresentMode::Fifo
    }
}

/// Whether the surface leaves the presentation extent to the window.
pub open spec fn extent_unspecified(caps: SurfaceCapabilities) -> bool {
    caps.current_extent.width == u32::MAX
}

/// The surface's current extent, or the window's extent when the surface
/// leaves its extent unspecified.
pub open spec fn spec_surface_extent(caps: SurfaceCapabilities, window_extent: Extent2d) -> Extent2d {
    if extent_unspecified(caps) {
        window_extent
    } else {
        caps.current_extent
    }
}

/// Picks the number of swapchain images: one more than the reported
/// minimum, clamped to the reported maximum when the surface reports one.
pub fn choose_image_count(caps: &SurfaceCapabilities) -> (count: u32)
    requires
        caps.min_image_count < u32::MAX,
    ensures
        count == spec_image_count(*caps),
{
    let mut desired: u32 = caps.min_image_count + 1;
    if caps.max_image_count > 0 && desired > caps.max_image_count {
        desired = caps.max_image_count;
    }
    desired
}

/// Picks the transform applied before presentation: identity when the
/// surface supports it, the current transform otherwise.
pub fn choose_pre_transform(caps: &SurfaceCapabilities) -> (transform: u32)
    ensures
        transform == spec_pre_transform(*caps),
{
    if caps.supported_transforms & TRANSFORM_IDENTITY != 0 {
        TRANSFORM_IDENTITY
    } else {
        caps.current_transform
    }
}

/// Picks the presentation mode from the driver's offering: mailbox when
/// offered, fifo otherwise.
pub fn choose_present_mode(modes: &Vec<PresentMode>) -> (mode: PresentMode)
    ensures
        mode == spec_present_mode(modes@),
{
    let mut i: usize = 0;
    while i < modes.len()
        invariant
            i <= modes.len(),
            forall|j: int| 0 <= j < i ==> modes@[j] != PresentMode::Mailbox,
        decreases modes.len() - i,
    {
        if modes[i] == PresentMode::Mailbox {
            assert(modes@.contains(PresentMode::Mailbox)) by {
                assert(modes@[i as int] == PresentMode::Mailbox);
            }
            return PresentMode::Mailbox;
        }
        i += 1;
    }
    PresentMode::Fifo
}

/// Picks the presentation extent: the surface's current extent, or the
/// window's extent when the surface leaves its extent unspecified.
pub fn choose_extent(caps: &SurfaceCapabilities, window_extent: Extent2d) -> (extent: Extent2d)
    ensures
        extent == spec_surface_extent(*caps, window_extent),
{
    if caps.current_extent.width == u32::MAX {
        window_extent
    } else {
        caps.current_extent
    }
}

/// Picks the surface format: the first one the driver enumerates.
pub fn choose_surface_format(formats: &Vec<SurfaceFormat>) -> (format: SurfaceFormat)
    requires
        formats@.len() > 0,
    ensures
        format == formats@[0],
{
    formats[0]
}

/// Everything negotiated for swapchain construction; the caller adds only
/// fixed settings that do not depend on what the driver reported.
#[derive(Clone, Copy, PartialEq, Eq, Structural, Debug)]
pub struct SwapchainConfig {
    pub format: i32,
    pub color_space: i32,
    pub min_image_count: u32,
    pub pre_transform: u32,
    pub present_mode: PresentMode,
    pub extent: Extent2d,
}

impl SwapchainConfig {
    /// Negotiates a full swapchain configuration from the driver's reports
    /// and the window's extent.
    pub fn plan(
        caps: &SurfaceCapabilities,
        formats: &Vec<SurfaceFormat>,
        modes: &Vec<PresentMode>,
        window_extent: Extent2d,
    ) -> (config: Self)
        requires
            formats@.len() > 0,
            caps.min_image_count < u32::MAX,
        ensures
            config.format == formats@[0].format,
            config.color_space == formats@[0].color_space,
            config.min_image_count == spec_image_count(*caps),
            config.pre_transform == spec_pre_transform(*caps),
            config.present_mode == spec_present_mode(modes@),
            config.extent == spec_surface_extent(*caps, window_extent),
    {
        let surface_format = choose_surface_format(formats);
        SwapchainConfig {
            format: surface_format.format,
            color_space: surface_format.color_space,
            min_image_count: choose_image_count(caps),
            pre_transform: choose_pre_transform(caps),
            present_mode: choose_present_mode(modes),
            extent: choose_extent(caps, window_extent),
        }
    }
}

/// When the driver's image-count bounds are consistent, the chosen count
/// honors them: it is at least the minimum, and at most the maximum
/// whenever the surface reports an upper bound at all.
pub proof fn lemma_image_count_within_bounds(caps: SurfaceCapabilities)
    requires
        caps.max_image_count > 0 ==> caps.min_image_count <= caps.max_image_count,
    ensures
        caps.min_image_count <= spec_image_count(caps),
        caps.max_image_count > 0 ==> spec_image_count(caps) <= caps.max_image_count,
{
}

/// The negotiated presentation mode is the low-latency mailbox mode
/// exactly when the driver offers it, and the guaranteed fifo mode in
/// every other case.
pub proof fn lemma_present_mode_choice(modes: Seq<PresentMode>)
    ensures
        spec_present_mode(modes) == PresentMode::Mailbox <==> modes.contains(PresentMode::Mailbox),
        spec_present_mode(modes) == PresentMode::Mailbox || spec_present_mode(modes) == PresentMode::Fifo,
{
}

/// When the surface reports a definite extent, the window's size has no
/// bearing on the presentation extent.
pub proof fn lemma_definite_extent_ignores_window(
    caps: SurfaceCapabilities,
    window_a: Extent2d,
    window_b: Extent2d,
)
    requires
        !extent_unspecified(caps),
    ensures
        spec_surface_extent(caps, window_a) == spec_surface_extent(caps, window_b),
{
}

} // verus!

