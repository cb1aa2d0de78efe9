//! Core logic of a GPU presentation pipeline: physical-device selection,
//! queue-family resolution, swapchain parameter planning, render-target and
//! command-buffer planning, and the per-frame acquire/submit/present state
//! machine with recovery from an out-of-date surface.

use vstd::prelude::*;

pub mod device;
pub mod frame;
pub mod surface;
pub mod swapchain;
pub mod targets;

verus! {

/// Window width requested at startup; also the fallback swapchain width when
/// the surface reports no fixed extent.
pub const WIDTH: u32 = 800;

/// Window height requested at startup; also the fallback swapchain height.
pub const HEIGHT: u32 = 600;

} // verus!
