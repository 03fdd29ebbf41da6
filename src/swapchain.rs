//! Deriving presentation-chain parameters from what the surface reports.
use vstd::prelude::*;

use crate::errors::SwapchainCreationError;

verus! {

/// How the compositor treats the alpha channel of presented images.
#[derive(Clone, Copy, Debug, PartialEq, Eq, Structural)]
pub enum CompositeAlpha {
    Opaque,
    PreMultiplied,
    PostMultiplied,
    Inherit,
}

/// A pixel format paired with a color space, each by its raw API code.
#[derive(Clone, Copy, Debug, PartialEq, Eq, Structural)]
pub struct SurfaceFormat {
    pub format: i32,
    pub color_space: i32,
}

/// A width and height in pixels.
#[derive(Clone, Copy, Debug, PartialEq, Eq, Structural)]
pub struct Extent {
    pub width: u32,
    pub height: u32,
}

/// What a surface reports it can do for a given physical device.
#[derive(Clone, Debug)]
pub struct SurfaceCapabilities {
    pub min_image_count: u32,
    /// `None` when the surface sets no upper bound.
    pub max_image_count: Option<u32>,
    /// In the order the surface reports them.
    pub supported_formats: Vec<SurfaceFormat>,
    /// In the order the surface reports them.
    pub supported_composite_alpha: Vec<CompositeAlpha>,
}

/// The parameters a presentation chain is built with. Its images are used
/// as color attachments only and are owned by a single queue.
#[derive(Clone, Copy, Debug, PartialEq, Eq, Structural)]
pub struct SwapchainConfig {
    pub image_count: u32,
    pub format: SurfaceFormat,
    pub extent: Extent,
    pub composite_alpha: CompositeAlpha,
}

/// `n` lies within the image-count bounds that `caps` reports.
pub open spec fn image_count_in_bounds(caps: SurfaceCapabilities, n: u32) -> bool {
    &&& caps.min_image_count <= n
    &&& caps.max_image_count matches Some(m) ==> n <= m
}

/// The bounds that `caps` reports admit some image count.
pub open spec fn image_count_range_nonempty(caps: SurfaceCapabilities) -> bool {
    caps.max_image_count matches Some(m) ==> caps.min_image_count <= m
}

/// Derives the chain's parameters: the minimum image count, the first
/// reported format, the first reported composite alpha mode, and the
/// drawable size of the window as extent.
pub fn derive_swapchain_config(caps: &SurfaceCapabilities, drawable_size: Extent) -> (r: Result<
    SwapchainConfig,
    SwapchainCreationError,
>)
    ensures
        caps.supported_formats@.len() == 0 ==> r == Err::<SwapchainConfig, _>(
            SwapchainCreationError::NoSupportedFormat,
        ),
        caps.supported_formats@.len() > 0 && caps.supported_composite_alpha@.len() == 0 ==> r
            == Err::<SwapchainConfig, _>(SwapchainCreationError::NoCompositeAlpha),
        caps.supported_formats@.len() > 0 && caps.supported_composite_alpha@.len() > 0
            && !image_count_range_nonempty(*caps) ==> r == Err::<SwapchainConfig, _>(
            SwapchainCreationError::ImageCountRangeEmpty,
        ),
        r is Ok <==> (caps.supported_formats@.len() > 0 && caps.supported_composite_alpha@.len()
            > 0 && image_count_range_nonempty(*caps)),
        r matches Ok(c) ==> {
            &&& c.image_count == caps.min_image_count
            &&& c.format == caps.supported_formats@[0]
            &&& c.composite_alpha == caps.supported_composite_alpha@[0]
            &&& c.extent == drawable_size
        },
        r matches Ok(c) ==> image_count_in_bounds(*caps, c.image_count),
        r matches Ok(c) ==> caps.supported_formats@.contains(c.format),
{
    if caps.supported_formats.len() == 0 {
        return Err(SwapchainCreationError::NoSupportedFormat);
    }
    if caps.supported_composite_alpha.len() == 0 {
        return Err(SwapchainCreationError::NoCompositeAlpha);
    }
    if let Some(m) = caps.max_image_count {
        if m < caps.min_image_count {
            return Err(SwapchainCreationError::ImageCountRangeEmpty);
        }
    }
    let format = caps.supported_formats[0];
    Ok(
        SwapchainConfig {
            image_count: caps.min_image_count,
            format,
            extent: drawable_size,
            composite_alpha: caps.supported_composite_alpha[0],
        },
    )
}

} // verus!
