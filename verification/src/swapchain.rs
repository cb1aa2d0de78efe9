//! Swapchain parameter planning: deriving the format, present mode, extent,
//! image count and sharing mode of a new image chain from a surface's
//! capability set and the resolved queue families.

use vstd::prelude::*;
use crate::surface::{ColorSpace, Extent, Format, PresentMode, PresentModeSupport, SurfaceCaps,
    SurfaceFormat};
use crate::device::QueueFamilyIndices;
use crate::{HEIGHT, WIDTH};

verus! {

/// The format pair the engine prefers: 8-bit BGRA in non-linear sRGB.
pub open spec fn spec_preferred_format() -> SurfaceFormat {
    SurfaceFormat { format: Format::B8G8R8A8Unorm, color_space: ColorSpace::SrgbNonLinear }
}

/// The preferred pair occurs somewhere in the list.
pub open spec fn spec_has_preferred_format(formats: Seq<SurfaceFormat>) -> bool {
    exists|i: int| 0 <= i < formats.len() && formats[i] == spec_preferred_format()
}

/// The pair the engine chooses from a non-empty list of supported pairs:
/// the preferred pair when the list holds it, else the first listed pair.
pub open spec fn spec_chosen_format(formats: Seq<SurfaceFormat>) -> SurfaceFormat {
    if spec_has_preferred_format(formats) {
        spec_preferred_format()
    } else {
        formats[0]
    }
}

/// Picks the surface format: the preferred 8-bit BGRA non-linear-sRGB pair
/// when supported, otherwise the first supported pair.
pub fn choose_swap_surface_format(available_formats: &Vec<SurfaceFormat>) -> (r: SurfaceFormat)
    requires
        available_formats@.len() > 0,
    ensures
        r == spec_chosen_format(available_formats@),
{
    let mut i: usize = 0;
    while i < available_formats.len()
        invariant
            i <= available_formats@.len(),
            available_formats@.len() > 0,
            forall|j: int| 0 <= j < i ==> available_formats@[j] != spec_preferred_format(),
        decreases available_formats@.len() - i,
    {
        let candidate = available_formats[i];
        if candidate == (SurfaceFormat {
            format: Format::B8G8R8A8Unorm,
            color_space: ColorSpace::SrgbNonLinear,
        }) {
            return candidate;
        }
        i = i + 1;
    }
    available_formats[0]
}

/// The present mode the engine chooses: mailbox over immediate over FIFO.
pub open spec fn spec_chosen_present_mode(modes: PresentModeSupport) -> PresentMode {
    if modes.mailbox {
        PresentMode::Mailbox
    } else if modes.immediate {
        PresentMode::Immediate
    } else {
        PresentMode::Fifo
    }
}

/// Picks the present mode in priority order mailbox > immediate > FIFO,
/// FIFO being the guaranteed fallback.
pub fn choose_swap_present_mode(available_present_modes: PresentModeSupport) -> (r: PresentMode)
    ensures
        r == spec_chosen_present_mode(available_present_modes),
{
    if available_present_modes.mailbox {
        PresentMode::Mailbox
    } else if available_present_modes.immediate {
        PresentMode::Immediate
    } else {
        PresentMode::Fifo
    }
}

/// `x` clamped into `[lo, hi]`, the lower bound winning when the bounds
/// cross.
pub open spec fn spec_clamp(lo: u32, hi: u32, x: u32) -> u32 {
    if (if x < hi { x } else { hi }) < lo {
        lo
    } else {
        if x < hi { x } else { hi }
    }
}

/// The extent the engine chooses: the surface's fixed current extent when
/// it reports one, else the default window size clamped per axis into the
/// surface's extent bounds.
pub open spec fn spec_chosen_extent(caps: SurfaceCaps) -> Extent {
    match caps.current_extent {
        Some(current) => current,
        None => Extent {
            width: spec_clamp(caps.min_image_extent.width, caps.max_image_extent.width, WIDTH),
            height: spec_clamp(caps.min_image_extent.height, caps.max_image_extent.height, HEIGHT),
        },
    }
}

/// Picks the swapchain extent per the surface's capability set.
pub fn choose_swap_extent(caps: &SurfaceCaps) -> (r: Extent)
    ensures
        r == spec_chosen_extent(*caps),
{
    match caps.current_extent {
        Some(current_extent) => current_extent,
        None => {
            let mut width: u32 = WIDTH;
            let mut height: u32 = HEIGHT;
            if caps.max_image_extent.width < width {
                width = caps.max_image_extent.width;
            }
            if width < caps.min_image_extent.width {
                width = caps.min_image_extent.width;
            }
            if caps.max_image_extent.height < height {
                height = caps.max_image_extent.height;
            }
            if height < caps.min_image_extent.height {
                height = caps.min_image_extent.height;
            }
            Extent { width, height }
        },
    }
}

/// The image count the engine requests: one more than the surface's minimum,
/// capped at the surface's maximum when the surface reports one.
pub open spec fn spec_chosen_image_count(min: u32, max: Option<u32>) -> int {
    match max {
        Some(m) => if min + 1 > m { m as int } else { min + 1 },
        None => min + 1,
    }
}

/// Picks the image count from the surface's reported bounds. `max` of `None`
/// means the surface places no upper bound.
pub fn choose_image_count(min: u32, max: Option<u32>) -> (r: u32)
    requires
        min < u32::MAX,
    ensures
        r == spec_chosen_image_count(min, max),
{
    let mut image_count: u32 = min + 1;
    match max {
        Some(m) => {
            if image_count > m {
                image_count = m;
            }
        },
        None => {},
    }
    image_count
}

/// The chosen image count lies within the surface's reported bounds: at
/// least the minimum, at most the maximum when one is reported, and exactly
/// one above the minimum when the surface is unbounded.
pub proof fn lemma_image_count_within_bounds(min: u32, max: Option<u32>)
    requires
        min < u32::MAX,
        max matches Some(m) ==> m >= min,
    ensures
        spec_chosen_image_count(min, max) >= min,
        max matches Some(m) ==> spec_chosen_image_count(min, max) <= m,
        max is None ==> spec_chosen_image_count(min, max) == min + 1,
{
}

/// The preferred pair is chosen whenever the list holds it; the first pair
/// is chosen whenever the list lacks it.
pub proof fn lemma_format_choice(formats: Seq<SurfaceFormat>)
    requires
        formats.len() > 0,
    ensures
        spec_has_preferred_format(formats) ==> spec_chosen_format(formats)
            == spec_preferred_format(),
        !spec_has_preferred_format(formats) ==> spec_chosen_format(formats) == formats[0],
{
}

/// FIFO is chosen exactly when neither mailbox nor immediate is reported,
/// and mailbox is chosen whenever it is reported, regardless of immediate.
pub proof fn lemma_present_mode_choice(modes: PresentModeSupport)
    ensures
        !modes.mailbox && !modes.immediate ==> spec_chosen_present_mode(modes)
            == PresentMode::Fifo,
        modes.mailbox ==> spec_chosen_present_mode(modes) == PresentMode::Mailbox,
{
}

/// How the swapchain's images are shared between the graphics and present
/// queues: exclusive to one queue, or concurrent across both.
#[derive(Clone, Copy, Debug, PartialEq, Eq, Structural)]
pub enum SharingModeChoice {
    Exclusive,
    Concurrent,
}

/// The sharing mode the engine chooses: exclusive when graphics and present
/// resolve to the same family, concurrent otherwise.
pub open spec fn spec_chosen_sharing(indices: QueueFamilyIndices) -> SharingModeChoice {
    if indices.graphics_family == indices.present_family {
        SharingModeChoice::Exclusive
    } else {
        SharingModeChoice::Concurrent
    }
}

/// Picks the sharing mode from the resolved queue families.
pub fn choose_sharing_mode(indices: &QueueFamilyIndices) -> (r: SharingModeChoice)
    ensures
        r == spec_chosen_sharing(*indices),
{
    if indices.graphics_family != indices.present_family {
        SharingModeChoice::Concurrent
    } else {
        SharingModeChoice::Exclusive
    }
}

/// Everything the creation call needs of a new image chain: format pair,
/// present mode, extent, image count, and queue sharing mode. The chain is
/// always created with color-attachment usage, opaque composite alpha and
/// the surface's current transform, which need no planning.
#[derive(Clone, Copy, Debug, PartialEq, Eq, Structural)]
pub struct SwapchainPlan {
    pub format: SurfaceFormat,
    pub present_mode: PresentMode,
    pub extent: Extent,
    pub image_count: u32,
    pub sharing: SharingModeChoice,
}

/// Derives every parameter of a new image chain from the surface's
/// capability set and the resolved queue families.
pub fn plan_swapchain(caps: &SurfaceCaps, indices: &QueueFamilyIndices) -> (r: SwapchainPlan)
    requires
        caps.wf(),
        caps.supported_formats@.len() > 0,
        indices.spec_is_complete(),
    ensures
        r.format == spec_chosen_format(caps.supported_formats@),
        r.present_mode == spec_chosen_present_mode(caps.present_modes),
        r.extent == spec_chosen_extent(*caps),
        r.image_count == spec_chosen_image_count(caps.min_image_count, caps.max_image_count),
        r.sharing == spec_chosen_sharing(*indices),
        caps.min_image_count <= r.image_count,
        caps.max_image_count matches Some(m) ==> r.image_count <= m,
{
    let format = choose_swap_surface_format(&caps.supported_formats);
    let present_mode = choose_swap_present_mode(caps.present_modes);
    let extent = choose_swap_extent(caps);
    let image_count = choose_image_count(caps.min_image_count, caps.max_image_count);
    let sharing = choose_sharing_mode(indices);

    SwapchainPlan { format, present_mode, extent, image_count, sharing }
}

} // verus!
