//! Render-target and command planning: the single-subpass render pass
//! description, the fixed graphics-pipeline configuration, one framebuffer
//! per swapchain image, and one pre-recorded command buffer per framebuffer.

use vstd::prelude::*;
use crate::surface::{Extent, Format};

verus! {

/// What happens to an attachment's contents when a render pass begins.
#[derive(Clone, Copy, Debug, PartialEq, Eq, Structural)]
pub enum LoadOp {
    Clear,
    Load,
    DontCare,
}

/// What happens to an attachment's contents when a render pass ends.
#[derive(Clone, Copy, Debug, PartialEq, Eq, Structural)]
pub enum StoreOp {
    Store,
    DontCare,
}

/// The render pass the engine builds: a single subpass over a single color
/// attachment of the swapchain's format.
#[derive(Clone, Copy, Debug, PartialEq, Eq, Structural)]
pub struct RenderPassDesc {
    pub color_load: LoadOp,
    pub color_store: StoreOp,
    pub color_format: Format,
    pub samples: u32,
    pub subpass_count: u32,
}

/// Describes the engine's render pass for a swapchain format: one subpass,
/// one single-sampled color attachment cleared on load and stored on end.
pub fn plan_render_pass(color_format: Format) -> (r: RenderPassDesc)
    ensures
        r == (RenderPassDesc {
            color_load: LoadOp::Clear,
            color_store: StoreOp::Store,
            color_format,
            samples: 1u32,
            subpass_count: 1u32,
        }),
{
    RenderPassDesc {
        color_load: LoadOp::Clear,
        color_store: StoreOp::Store,
        color_format,
        samples: 1,
        subpass_count: 1,
    }
}

/// Primitive assembly topology of the fixed pipeline.
#[derive(Clone, Copy, Debug, PartialEq, Eq, Structural)]
pub enum Topology {
    TriangleList,
}

/// Rasterization fill mode of the fixed pipeline.
#[derive(Clone, Copy, Debug, PartialEq, Eq, Structural)]
pub enum PolygonMode {
    Fill,
}

/// Which faces the rasterizer culls.
#[derive(Clone, Copy, Debug, PartialEq, Eq, Structural)]
pub enum CullMode {
    Back,
}

/// Winding order the rasterizer treats as front-facing.
#[derive(Clone, Copy, Debug, PartialEq, Eq, Structural)]
pub enum FrontFace {
    Clockwise,
}

/// The fixed graphics-pipeline configuration, sized to the swapchain extent.
/// The pipeline reads no vertex buffers (the shaders synthesize the
/// vertices), covers the whole extent with one viewport at unit depth range,
/// and blends pass-through. It binds to the first subpass of the render
/// pass.
#[derive(Clone, Copy, Debug, PartialEq, Eq, Structural)]
pub struct PipelineConfig {
    pub vertex_input_bindings: u32,
    pub topology: Topology,
    pub primitive_restart: bool,
    pub viewport_extent: Extent,
    pub polygon_mode: PolygonMode,
    pub cull_mode: CullMode,
    pub front_face: FrontFace,
    pub depth_clamp: bool,
    pub blend_enabled: bool,
    pub subpass_index: u32,
}

/// Describes the engine's fixed pipeline for a swapchain extent: bufferless
/// triangle-list input without primitive restart, a single viewport covering
/// the extent, fill mode, back-face culling with clockwise front faces, no
/// depth clamp, and disabled (pass-through) blending on subpass 0.
pub fn plan_pipeline(swap_chain_extent: Extent) -> (r: PipelineConfig)
    ensures
        r == (PipelineConfig {
            vertex_input_bindings: 0u32,
            topology: Topology::TriangleList,
            primitive_restart: false,
            viewport_extent: swap_chain_extent,
            polygon_mode: PolygonMode::Fill,
            cull_mode: CullMode::Back,
            front_face: FrontFace::Clockwise,
            depth_clamp: false,
            blend_enabled: false,
            subpass_index: 0u32,
        }),
{
    PipelineConfig {
        vertex_input_bindings: 0,
        topology: Topology::TriangleList,
        primitive_restart: false,
        viewport_extent: swap_chain_extent,
        polygon_mode: PolygonMode::Fill,
        cull_mode: CullMode::Back,
        front_face: FrontFace::Clockwise,
        depth_clamp: false,
        blend_enabled: false,
        subpass_index: 0,
    }
}

/// Builds one framebuffer per swapchain image; entry `k` attaches exactly
/// image `k` as its sole color attachment.
pub fn build_framebuffers(image_count: usize) -> (r: Vec<usize>)
    ensures
        r@.len() == image_count,
        forall|k: int| 0 <= k < image_count ==> r@[k] == k,
{
    let mut framebuffers: Vec<usize> = Vec::new();
    let mut i: usize = 0;
    while i < image_count
        invariant
            i <= image_count,
            framebuffers@.len() == i,
            forall|k: int| 0 <= k < i ==> framebuffers@[k] == k,
        decreases image_count - i,
    {
        framebuffers.push(i);
        i = i + 1;
    }
    framebuffers
}

/// Number of vertices of the fixed draw call.
pub const DRAW_VERTEX_COUNT: u32 = 3;

/// Number of instances of the fixed draw call.
pub const DRAW_INSTANCE_COUNT: u32 = 1;

/// What one pre-recorded command buffer holds: which framebuffer its render
/// pass targets, and the vertex and instance counts of its single draw call,
/// issued with no bound vertex or index buffers.
#[derive(Clone, Copy, Debug, PartialEq, Eq, Structural)]
pub struct CommandBufferDesc {
    pub framebuffer_index: usize,
    pub vertex_count: u32,
    pub instance_count: u32,
}

/// Records one command buffer per framebuffer; buffer `k` begins the render
/// pass on framebuffer `k` and draws three vertices in one instance.
pub fn record_command_buffers(framebuffer_count: usize) -> (r: Vec<CommandBufferDesc>)
    ensures
        r@.len() == framebuffer_count,
        forall|k: int| 0 <= k < framebuffer_count ==> (#[trigger] r@[k]) == (CommandBufferDesc {
            framebuffer_index: k as usize,
            vertex_count: DRAW_VERTEX_COUNT,
            instance_count: DRAW_INSTANCE_COUNT,
        }),
{
    let mut buffers: Vec<CommandBufferDesc> = Vec::new();
    let mut i: usize = 0;
    while i < framebuffer_count
        invariant
            i <= framebuffer_count,
            buffers@.len() == i,
            forall|k: int| 0 <= k < i ==> (#[trigger] buffers@[k]) == (CommandBufferDesc {
                framebuffer_index: k as usize,
                vertex_count: DRAW_VERTEX_COUNT,
                instance_count: DRAW_INSTANCE_COUNT,
            }),
        decreases framebuffer_count - i,
    {
        buffers.push(CommandBufferDesc {
            framebuffer_index: i,
            vertex_count: DRAW_VERTEX_COUNT,
            instance_count: DRAW_INSTANCE_COUNT,
        });
        i = i + 1;
    }
    buffers
}

} // verus!
