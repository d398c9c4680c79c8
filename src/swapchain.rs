use vstd::prelude::*;

verus! {

/// A width and height in pixels.
#[derive(Clone, Copy, Debug, PartialEq, Eq, Structural)]
pub struct Extent2D {
    pub width: u32,
    pub height: u32,
}

/// What the surface reports of the chains it accepts.
#[derive(Clone, Copy, Debug, PartialEq, Eq, Structural)]
pub struct SurfaceCapabilities {
    pub min_image_count: u32,
    /// Zero means that there is no upper bound.
    pub max_image_count: u32,
    /// Both dimensions at `u32::MAX` mean that the window decides the extent.
    pub current_extent: Extent2D,
    pub min_image_extent: Extent2D,
    pub max_image_extent: Extent2D,
}

/// A pixel format with its color space, as the graphics API numbers them.
#[derive(Clone, Copy, Debug, PartialEq, Eq, Structural)]
pub struct SurfaceFormat {
    pub format: i32,
    pub color_space: i32,
}

/// How presented images reach the display.
#[derive(Clone, Copy, Debug, PartialEq, Eq, Structural)]
pub enum PresentMode {
    Immediate,
    Mailbox,
    Fifo,
    FifoRelaxed,
    /// Any other mode, by the graphics API's number.
    Other(i32),
}

/// Everything a chain is built from.
#[derive(Clone, Copy, Debug, PartialEq, Eq, Structural)]
pub struct SwapchainConfig {
    pub format: SurfaceFormat,
    pub present_mode: PresentMode,
    pub extent: Extent2D,
    pub image_count: u32,
}

#[derive(Clone, Copy, Debug, PartialEq, Eq, Structural)]
pub enum SwapchainError {
    /// The surface reports no format.
    NoSurfaceFormat,
    /// The surface reports no presentation mode.
    NoPresentMode,
    /// The resolved extent has zero area: retry once the window has a usable size.
    UnsupportedDimensions,
}

/// Number of images to request: one more than the surface minimum, limited by
/// the surface maximum when that maximum is nonzero.
pub open spec fn image_count_spec(min_image_count: u32, max_image_count: u32) -> int {
    if max_image_count != 0 && max_image_count < min_image_count + 1 {
        max_image_count as int
    } else {
        min_image_count + 1
    }
}

/// The image count fits in a `u32`.
pub open spec fn image_count_fits(caps: SurfaceCapabilities) -> bool {
    caps.max_image_count != 0 || caps.min_image_count < u32::MAX
}

pub open spec fn clamp_spec(v: u32, lo: u32, hi: u32) -> u32 {
    if v < lo {
        lo
    } else if v > hi {
        hi
    } else {
        v
    }
}

pub open spec fn is_undefined_extent(e: Extent2D) -> bool {
    e.width == u32::MAX && e.height == u32::MAX
}

/// The extent of a chain: the window size clamped to the surface's bounds when
/// the surface leaves it open, else the surface's current extent.
pub open spec fn extent_spec(caps: SurfaceCapabilities, window: Extent2D) -> Extent2D {
    if is_undefined_extent(caps.current_extent) {
        Extent2D {
            width: clamp_spec(window.width, caps.min_image_extent.width, caps.max_image_extent.width),
            height: clamp_spec(
                window.height,
                caps.min_image_extent.height,
                caps.max_image_extent.height,
            ),
        }
    } else {
        caps.current_extent
    }
}

/// FIFO, then MAILBOX, then FIFO-RELAXED, then IMMEDIATE, else the first mode listed.
pub open spec fn present_mode_spec(modes: Seq<PresentMode>) -> Option<PresentMode> {
    if modes.contains(PresentMode::Fifo) {
        Some(PresentMode::Fifo)
    } else if modes.contains(PresentMode::Mailbox) {
        Some(PresentMode::Mailbox)
    } else if modes.contains(PresentMode::FifoRelaxed) {
        Some(PresentMode::FifoRelaxed)
    } else if modes.contains(PresentMode::Immediate) {
        Some(PresentMode::Immediate)
    } else if modes.len() > 0 {
        Some(modes[0])
    } else {
        None
    }
}

pub open spec fn zero_area(e: Extent2D) -> bool {
    e.width == 0 || e.height == 0
}

/// The outcome of configuring a chain for the given surface and window.
pub open spec fn configure_spec(
    caps: SurfaceCapabilities,
    formats: Seq<SurfaceFormat>,
    modes: Seq<PresentMode>,
    window: Extent2D,
) -> Result<SwapchainConfig, SwapchainError> {
    if formats.len() == 0 {
        Err(SwapchainError::NoSurfaceFormat)
    } else if modes.len() == 0 {
        Err(SwapchainError::NoPresentMode)
    } else if zero_area(extent_spec(caps, window)) {
        Err(SwapchainError::UnsupportedDimensions)
    } else {
        Ok(
            SwapchainConfig {
                format: formats[0],
                present_mode: present_mode_spec(modes).unwrap(),
                extent: extent_spec(caps, window),
                image_count: image_count_spec(caps.min_image_count, caps.max_image_count) as u32,
            },
        )
    }
}

pub fn choose_image_count(min_image_count: u32, max_image_count: u32) -> (r: u32)
    requires
        max_image_count != 0 || min_image_count < u32::MAX,
    ensures
        r == image_count_spec(min_image_count, max_image_count),
{
    if max_image_count != 0 && (max_image_count as u64) < (min_image_count as u64) + 1 {
        max_image_count
    } else {
        min_image_count + 1
    }
}

/// `v` limited to `[lo, hi]`; below `lo` gives `lo`, above `hi` gives `hi`.
pub fn clamp_dimension(v: u32, lo: u32, hi: u32) -> (r: u32)
    ensures
        r == clamp_spec(v, lo, hi),
{
    if v < lo {
        lo
    } else if v > hi {
        hi
    } else {
        v
    }
}

pub fn choose_extent(caps: &SurfaceCapabilities, window: Extent2D) -> (r: Extent2D)
    ensures
        r == extent_spec(*caps, window),
{
    if caps.current_extent.width == u32::MAX && caps.current_extent.height == u32::MAX {
        Extent2D {
            width: clamp_dimension(
                window.width,
                caps.min_image_extent.width,
                caps.max_image_extent.width,
            ),
            height: clamp_dimension(
                window.height,
                caps.min_image_extent.height,
                caps.max_image_extent.height,
            ),
        }
    } else {
        caps.current_extent
    }
}

/// Whether `modes` lists `mode`.
pub fn lists_mode(modes: &Vec<PresentMode>, mode: PresentMode) -> (r: bool)
    ensures
        r == modes@.contains(mode),
{
    let mut i: usize = 0;
    while i < modes.len()
        invariant
            0 <= i <= modes@.len(),
            forall|k: int| 0 <= k < i ==> modes@[k] != mode,
        decreases modes@.len() - i,
    {
        if modes[i] == mode {
            assert(modes@[i as int] == mode);
            return true;
        }
        i = i + 1;
    }
    false
}

pub fn choose_present_mode(modes: &Vec<PresentMode>) -> (r: Option<PresentMode>)
    ensures
        r == present_mode_spec(modes@),
{
    if lists_mode(modes, PresentMode::Fifo) {
        Some(PresentMode::Fifo)
    } else if lists_mode(modes, PresentMode::Mailbox) {
        Some(PresentMode::Mailbox)
    } else if lists_mode(modes, PresentMode::FifoRelaxed) {
        Some(PresentMode::FifoRelaxed)
    } else if lists_mode(modes, PresentMode::Immediate) {
        Some(PresentMode::Immediate)
    } else if modes.len() > 0 {
        Some(modes[0])
    } else {
        None
    }
}

/// The first format the surface reports, if any.
pub fn choose_surface_format(formats: &Vec<SurfaceFormat>) -> (r: Option<SurfaceFormat>)
    ensures
        formats@.len() == 0 ==> r is None,
        formats@.len() > 0 ==> r == Some(formats@[0]),
{
    if formats.len() > 0 {
        Some(formats[0])
    } else {
        None
    }
}

/// Applies the chain policy, identical on first creation and on recreation.
pub fn configure_swapchain(
    caps: &SurfaceCapabilities,
    formats: &Vec<SurfaceFormat>,
    modes: &Vec<PresentMode>,
    window: Extent2D,
) -> (r: Result<SwapchainConfig, SwapchainError>)
    requires
        image_count_fits(*caps),
    ensures
        r == configure_spec(*caps, formats@, modes@, window),
{
    let format = match choose_surface_format(formats) {
        Some(f) => f,
        None => return Err(SwapchainError::NoSurfaceFormat),
    };
    let present_mode = match choose_present_mode(modes) {
        Some(m) => m,
        None => return Err(SwapchainError::NoPresentMode),
    };
    let extent = choose_extent(caps, window);
    if extent.width == 0 || extent.height == 0 {
        return Err(SwapchainError::UnsupportedDimensions);
    }
    let image_count = choose_image_count(caps.min_image_count, caps.max_image_count);
    Ok(SwapchainConfig { format, present_mode, extent, image_count })
}

} // verus!
