//! Plain-value model of what the core reads from a presentation surface:
//! pixel formats, color spaces, present modes, extents, and the capability
//! set reported by a surface for a physical device.

use vstd::prelude::*;

verus! {

/// Pixel format of a presentable image, restricted to the formats the
/// selection logic distinguishes.
#[derive(Clone, Copy, Debug, PartialEq, Eq, Structural)]
pub enum Format {
    B8G8R8A8Unorm,
    B8G8R8A8Srgb,
    R8G8B8A8Unorm,
    R8G8B8A8Srgb,
}

/// Color space a surface format pair may be presented in.
#[derive(Clone, Copy, Debug, PartialEq, Eq, Structural)]
pub enum ColorSpace {
    SrgbNonLinear,
    ExtendedSrgbLinear,
    DisplayP3NonLinear,
}

/// One format/color-space pair reported as supported by a surface.
#[derive(Clone, Copy, Debug, PartialEq, Eq, Structural)]
pub struct SurfaceFormat {
    pub format: Format,
    pub color_space: ColorSpace,
}

/// A presentation mode the engine can ask for.
#[derive(Clone, Copy, Debug, PartialEq, Eq, Structural)]
pub enum PresentMode {
    Mailbox,
    Immediate,
    Fifo,
}

/// Which present modes a surface reports as supported. FIFO support is
/// reported like the others, though every conforming driver offers it.
#[derive(Clone, Copy, Debug, PartialEq, Eq, Structural)]
pub struct PresentModeSupport {
    pub mailbox: bool,
    pub immediate: bool,
    pub fifo: bool,
}

impl PresentModeSupport {
    /// True when the surface reports at least one present mode.
    pub open spec fn spec_any(self) -> bool {
        self.mailbox || self.immediate || self.fifo
    }

    /// Reports whether at least one present mode is supported.
    pub fn any(&self) -> (r: bool)
        ensures
            r == self.spec_any(),
    {
        self.mailbox || self.immediate || self.fifo
    }
}

/// A two-dimensional size in pixels.
#[derive(Clone, Copy, Debug, PartialEq, Eq, Structural)]
pub struct Extent {
    pub width: u32,
    pub height: u32,
}

/// The capability set a surface reports for one physical device: image-count
/// bounds, extent bounds, an optional fixed current extent, the supported
/// format pairs, and the supported present modes.
#[derive(Clone, Debug)]
pub struct SurfaceCaps {
    pub min_image_count: u32,
    /// `None` means the surface places no upper bound on the image count.
    pub max_image_count: Option<u32>,
    /// `Some` when the surface dictates the extent; `None` when the engine
    /// may pick any extent within the min/max bounds.
    pub current_extent: Option<Extent>,
    pub min_image_extent: Extent,
    pub max_image_extent: Extent,
    pub supported_formats: Vec<SurfaceFormat>,
    pub present_modes: PresentModeSupport,
}

impl SurfaceCaps {
    /// What every conforming driver guarantees of a reported capability set:
    /// a positive minimum image count no greater than any reported maximum,
    /// and per-axis ordered extent bounds.
    pub open spec fn wf(self) -> bool {
        &&& self.min_image_count >= 1
        &&& self.min_image_count < u32::MAX
        &&& (self.max_image_count matches Some(m) ==> m >= self.min_image_count)
        &&& self.min_image_extent.width <= self.max_image_extent.width
        &&& self.min_image_extent.height <= self.max_image_extent.height
    }

    /// Reports whether a capability set satisfies the driver guarantees the
    /// planner relies on; a host checks this before planning a swapchain.
    pub fn is_well_formed(&self) -> (r: bool)
        ensures
            r == self.wf(),
    {
        let max_ok = match self.max_image_count {
            Some(m) => m >= self.min_image_count,
            None => true,
        };
        self.min_image_count >= 1 && self.min_image_count < u32::MAX && max_ok
            && self.min_image_extent.width <= self.max_image_extent.width
            && self.min_image_extent.height <= self.max_image_extent.height
    }
}

} // verus!
