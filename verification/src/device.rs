//! Physical-device selection and queue-family resolution: scanning a device's
//! queue families for graphics and presentation support, checking required
//! device extensions, scoring suitable devices, and picking the best one.

use vstd::prelude::*;
use crate::surface::SurfaceCaps;

verus! {

/// The device extensions the engine may require or a device may offer,
/// restricted to the extensions the selection logic reads.
#[derive(Clone, Copy, Debug, PartialEq, Eq, Structural)]
pub struct ExtensionSet {
    pub khr_swapchain: bool,
}

impl ExtensionSet {
    /// The extensions present in both sets.
    pub open spec fn spec_intersection(self, other: ExtensionSet) -> ExtensionSet {
        ExtensionSet { khr_swapchain: self.khr_swapchain && other.khr_swapchain }
    }

    /// A set supports a required set when intersecting with it changes nothing
    /// of the requirement.
    pub open spec fn spec_supports(self, required: ExtensionSet) -> bool {
        self.spec_intersection(required) == required
    }

    /// Computes the intersection of two extension sets.
    pub fn intersection(&self, other: &ExtensionSet) -> (r: ExtensionSet)
        ensures
            r == self.spec_intersection(*other),
    {
        ExtensionSet { khr_swapchain: self.khr_swapchain && other.khr_swapchain }
    }
}

/// The extensions the engine requires of every device: swapchain support.
pub open spec fn spec_device_extensions() -> ExtensionSet {
    ExtensionSet { khr_swapchain: true }
}

/// Returns the set of device extensions the engine requires.
pub fn device_extensions() -> (r: ExtensionSet)
    ensures
        r == spec_device_extensions(),
{
    ExtensionSet { khr_swapchain: true }
}

/// Reports whether a device's available extensions cover the required set.
pub fn check_device_extension_support(available: &ExtensionSet) -> (r: bool)
    ensures
        r == available.spec_supports(spec_device_extensions()),
{
    let required = device_extensions();
    let common = available.intersection(&required);
    common == required
}

/// What one queue family of a device offers: graphics capability, and
/// presentation support for the surface under consideration.
#[derive(Clone, Copy, Debug, PartialEq, Eq, Structural)]
pub struct QueueFamilyCaps {
    pub supports_graphics: bool,
    pub supports_present: bool,
}

/// The resolved queue family indices for a device: a graphics-capable family
/// and a presentation-capable family. An index of -1 means none was found;
/// the two indices may coincide.
#[derive(Clone, Copy, Debug, PartialEq, Eq, Structural)]
pub struct QueueFamilyIndices {
    pub graphics_family: i32,
    pub present_family: i32,
}

impl QueueFamilyIndices {
    /// Fresh indices with neither family found yet.
    pub fn new() -> (r: Self)
        ensures
            r.graphics_family == -1,
            r.present_family == -1,
    {
        Self { graphics_family: -1, present_family: -1 }
    }

    /// Both a graphics family and a present family have been found.
    pub open spec fn spec_is_complete(self) -> bool {
        self.graphics_family >= 0 && self.present_family >= 0
    }

    /// Reports whether both families have been found.
    pub fn is_complete(&self) -> (r: bool)
        ensures
            r == self.spec_is_complete(),
    {
        self.graphics_family >= 0 && self.present_family >= 0
    }
}

/// Some family of the list supports graphics.
pub open spec fn spec_has_graphics_family(families: Seq<QueueFamilyCaps>) -> bool {
    exists|i: int| 0 <= i < families.len() && families[i].supports_graphics
}

/// Some family of the list supports presentation.
pub open spec fn spec_has_present_family(families: Seq<QueueFamilyCaps>) -> bool {
    exists|i: int| 0 <= i < families.len() && families[i].supports_present
}

/// Scans a device's queue families in order, remembering the latest family
/// seen for each capability, and stops as soon as both are covered. The
/// result is complete exactly when the list holds a graphics-capable family
/// and a presentation-capable family, and each recorded index points at a
/// family with the claimed capability.
pub fn find_queue_families(families: &Vec<QueueFamilyCaps>) -> (r: QueueFamilyIndices)
    requires
        families@.len() <= i32::MAX as usize,
    ensures
        r.graphics_family >= 0 <==> spec_has_graphics_family(families@),
        r.present_family >= 0 <==> spec_has_present_family(families@),
        r.graphics_family >= 0 ==> r.graphics_family < families@.len()
            && families@[r.graphics_family as int].supports_graphics,
        r.present_family >= 0 ==> r.present_family < families@.len()
            && families@[r.present_family as int].supports_present,
        r.spec_is_complete() <==> spec_has_graphics_family(families@)
            && spec_has_present_family(families@),
{
    let mut indices = QueueFamilyIndices::new();
    let mut i: usize = 0;
    while i < families.len() && !indices.is_complete()
        invariant
            i <= families@.len(),
            families@.len() <= i32::MAX as usize,
            indices.graphics_family >= 0 ==> indices.graphics_family < families@.len()
                && families@[indices.graphics_family as int].supports_graphics,
            indices.graphics_family < 0 ==> indices.graphics_family == -1
                && (forall|j: int| 0 <= j < i ==> !families@[j].supports_graphics),
            indices.present_family >= 0 ==> indices.present_family < families@.len()
                && families@[indices.present_family as int].supports_present,
            indices.present_family < 0 ==> indices.present_family == -1
                && (forall|j: int| 0 <= j < i ==> !families@[j].supports_present),
        decreases families@.len() - i,
    {
        let family = families[i];
        if family.supports_graphics {
            indices.graphics_family = i as i32;
        }
        if family.supports_present {
            indices.present_family = i as i32;
        }
        i = i + 1;
    }
    indices
}

/// A physical device's reported type.
#[derive(Clone, Copy, Debug, PartialEq, Eq, Structural)]
pub enum PhysicalDeviceType {
    DiscreteGpu,
    IntegratedGpu,
    VirtualGpu,
    Cpu,
    Other,
}

/// The facts the selection logic reads of one enumerated physical device:
/// its type, its maximum 2D image dimension, its queue families, its
/// available device extensions, and the capability set the surface reports
/// for it.
#[derive(Clone, Debug)]
pub struct DeviceInfo {
    pub device_type: PhysicalDeviceType,
    pub max_image_dimension_2d: u32,
    pub queue_families: Vec<QueueFamilyCaps>,
    pub extensions: ExtensionSet,
    pub caps: SurfaceCaps,
}

/// The score bonus a discrete GPU receives over the image-dimension proxy.
pub const DISCRETE_GPU_BONUS: u32 = 1000;

/// A device is suitable when its queue families cover graphics and
/// presentation, it offers the required extensions, and the surface reports
/// at least one format and one present mode for it.
pub open spec fn spec_device_suitable(d: DeviceInfo) -> bool {
    &&& spec_has_graphics_family(d.queue_families@)
    &&& spec_has_present_family(d.queue_families@)
    &&& d.extensions.spec_supports(spec_device_extensions())
    &&& d.caps.supported_formats@.len() > 0
    &&& d.caps.present_modes.spec_any()
}

/// A device's score: a large fixed bonus for a discrete GPU, plus its
/// maximum 2D image dimension as a throughput proxy.
pub open spec fn spec_device_score(d: DeviceInfo) -> int {
    (if d.device_type is DiscreteGpu { DISCRETE_GPU_BONUS as int } else { 0int })
        + d.max_image_dimension_2d
}

/// Reports whether a device is suitable for the engine.
pub fn is_device_suitable(d: &DeviceInfo) -> (r: bool)
    requires
        d.queue_families@.len() <= i32::MAX as usize,
    ensures
        r == spec_device_suitable(*d),
{
    let indices = find_queue_families(&d.queue_families);
    let extensions_supported = check_device_extension_support(&d.extensions);

    let swap_chain_adequate = if extensions_supported {
        d.caps.supported_formats.len() > 0 && d.caps.present_modes.any()
    } else {
        false
    };

    indices.is_complete() && extensions_supported && swap_chain_adequate
}

/// Scores a device, or returns `None` when it is unsuitable.
pub fn rate_device_suitability(d: &DeviceInfo) -> (r: Option<u32>)
    requires
        d.queue_families@.len() <= i32::MAX as usize,
        d.max_image_dimension_2d <= u32::MAX - DISCRETE_GPU_BONUS,
    ensures
        r is Some <==> spec_device_suitable(*d),
        r matches Some(s) ==> s == spec_device_score(*d),
{
    let mut score: u32 = 0;

    match d.device_type {
        PhysicalDeviceType::DiscreteGpu => {
            score = score + DISCRETE_GPU_BONUS;
        },
        _ => {},
    }

    score = score + d.max_image_dimension_2d;

    if !is_device_suitable(d) {
        None
    } else {
        Some(score)
    }
}

/// Picks the highest-scoring suitable device, ties broken in favor of the
/// earliest enumerated one. Returns `None` exactly when no device is
/// suitable.
pub fn pick_physical_device(devices: &Vec<DeviceInfo>) -> (r: Option<usize>)
    requires
        forall|i: int| 0 <= i < devices@.len()
            ==> (#[trigger] devices@[i]).queue_families@.len() <= i32::MAX as usize,
        forall|i: int| 0 <= i < devices@.len()
            ==> (#[trigger] devices@[i]).max_image_dimension_2d <= u32::MAX - DISCRETE_GPU_BONUS,
    ensures
        r is None <==> (forall|i: int| 0 <= i < devices@.len()
            ==> !spec_device_suitable(#[trigger] devices@[i])),
        r matches Some(best) ==> {
            &&& best < devices@.len()
            &&& spec_device_suitable(devices@[best as int])
            &&& forall|j: int| 0 <= j < devices@.len()
                && spec_device_suitable(#[trigger] devices@[j])
                ==> spec_device_score(devices@[j]) <= spec_device_score(devices@[best as int])
            &&& forall|j: int| 0 <= j < best && spec_device_suitable(#[trigger] devices@[j])
                ==> spec_device_score(devices@[j]) < spec_device_score(devices@[best as int])
        },
{
    let mut best: Option<usize> = None;
    let mut best_score: u32 = 0;
    let mut i: usize = 0;

    while i < devices.len()
        invariant
            i <= devices@.len(),
            forall|k: int| 0 <= k < devices@.len()
                ==> (#[trigger] devices@[k]).queue_families@.len() <= i32::MAX as usize,
            forall|k: int| 0 <= k < devices@.len()
                ==> (#[trigger] devices@[k]).max_image_dimension_2d <= u32::MAX - DISCRETE_GPU_BONUS,
            best is None ==> (forall|j: int| 0 <= j < i
                ==> !spec_device_suitable(#[trigger] devices@[j])),
            best matches Some(b) ==> {
                &&& b < i
                &&& spec_device_suitable(devices@[b as int])
                &&& best_score == spec_device_score(devices@[b as int])
                &&& forall|j: int| 0 <= j < i && spec_device_suitable(#[trigger] devices@[j])
                    ==> spec_device_score(devices@[j]) <= spec_device_score(devices@[b as int])
                &&& forall|j: int| 0 <= j < b && spec_device_suitable(#[trigger] devices@[j])
                    ==> spec_device_score(devices@[j]) < spec_device_score(devices@[b as int])
            },
        decreases devices@.len() - i,
    {
        let rating = rate_device_suitability(&devices[i]);
        match rating {
            Some(score) => {
                match best {
                    None => {
                        best = Some(i);
                        best_score = score;
                    },
                    Some(_) => {
                        if score > best_score {
                            best = Some(i);
                            best_score = score;
                        }
                    },
                }
            },
            None => {},
        }
        i = i + 1;
    }

    best
}

/// The set of distinct queue family indices among graphics and present:
/// one entry when the two families coincide, two entries otherwise, the
/// graphics family first.
pub fn unique_queue_families(indices: &QueueFamilyIndices) -> (r: Vec<i32>)
    requires
        indices.spec_is_complete(),
    ensures
        indices.graphics_family == indices.present_family
            ==> r@ =~= seq![indices.graphics_family],
        indices.graphics_family != indices.present_family
            ==> r@ =~= seq![indices.graphics_family, indices.present_family],
{
    let mut families: Vec<i32> = Vec::new();
    families.push(indices.graphics_family);
    if indices.present_family != indices.graphics_family {
        families.push(indices.present_family);
    }
    families
}

/// The present queue aliases the graphics queue exactly when both roles
/// resolve to the same queue family, in which case only one queue handle is
/// created.
pub fn present_aliases_graphics(indices: &QueueFamilyIndices) -> (r: bool)
    ensures
        r == (indices.graphics_family == indices.present_family),
{
    indices.graphics_family == indices.present_family
}

} // verus!
