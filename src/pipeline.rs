//! Fixed-function state of the render pipeline and of the offscreen target,
//! as plain values that the host side turns into GPU API descriptors.
use crate::uniform::UNIFORM_SIZE;
use vstd::prelude::*;

verus! {

/// Pixel format of a color target.
#[derive(Clone, Copy, Debug, PartialEq, Eq, Structural)]
pub enum ColorFormat {
    /// 8 bits per channel, RGBA order, normalized.
    Rgba8Unorm,
    /// 8 bits per channel, BGRA order, normalized.
    Bgra8Unorm,
}

/// How vertices are assembled into primitives.
#[derive(Clone, Copy, Debug, PartialEq, Eq, Structural)]
pub enum Topology {
    PointList,
    LineList,
    LineStrip,
    TriangleList,
    TriangleStrip,
}

/// Which faces are culled.
#[derive(Clone, Copy, Debug, PartialEq, Eq, Structural)]
pub enum Cull {
    Nothing,
    Front,
    Back,
}

/// How fragment output combines with the target.
#[derive(Clone, Copy, Debug, PartialEq, Eq, Structural)]
pub enum Blend {
    /// Output overwrites the target, color and alpha.
    Replace,
    /// Output is mixed with the target by its alpha.
    Alpha,
}

/// Shader stages that see a binding.
#[derive(Clone, Copy, Debug, PartialEq, Eq, Structural)]
pub enum Stages {
    Vertex,
    Fragment,
    VertexFragment,
}

/// The one binding of the pipeline layout: a uniform buffer.
#[derive(Clone, Copy, Debug, PartialEq, Eq, Structural)]
pub struct UniformBinding {
    pub slot: u32,
    pub visibility: Stages,
    /// Size in bytes of the bound block.
    pub size: u64,
}

/// Everything the pipeline is built from besides the shader module.
#[derive(Clone, Copy, Debug, PartialEq, Eq, Structural)]
pub struct PipelineDesc {
    pub binding: UniformBinding,
    /// Number of vertex buffers; vertices are derived from their index.
    pub vertex_buffers: u32,
    pub topology: Topology,
    pub cull: Cull,
    pub blend: Blend,
    pub format: ColorFormat,
    pub depth_stencil: bool,
    /// Samples per pixel.
    pub samples: u32,
}

/// Slot of the uniform binding, in group 0.
pub const UNIFORM_SLOT: u32 = 0;

/// Format of the offscreen image, and of what the host displays.
pub const TARGET_FORMAT: ColorFormat = ColorFormat::Rgba8Unorm;

/// The pipeline state for drawing the full-screen effect into `format`:
/// one uniform block seen by the fragment stage, no vertex buffers, a
/// triangle list with back faces culled, output replacing the target, no
/// depth or stencil, one sample.
pub open spec fn effect_pipeline(format: ColorFormat) -> PipelineDesc {
    PipelineDesc {
        binding: UniformBinding { slot: UNIFORM_SLOT, visibility: Stages::Fragment, size: UNIFORM_SIZE },
        vertex_buffers: 0,
        topology: Topology::TriangleList,
        cull: Cull::Back,
        blend: Blend::Replace,
        format,
        depth_stencil: false,
        samples: 1,
    }
}

pub fn pipeline_desc(format: ColorFormat) -> (r: PipelineDesc)
    ensures
        r == effect_pipeline(format),
{
    PipelineDesc {
        binding: UniformBinding { slot: UNIFORM_SLOT, visibility: Stages::Fragment, size: UNIFORM_SIZE },
        vertex_buffers: 0,
        topology: Topology::TriangleList,
        cull: Cull::Back,
        blend: Blend::Replace,
        format,
        depth_stencil: false,
        samples: 1,
    }
}

/// The offscreen image: its size, format and uses.
#[derive(Clone, Copy, Debug, PartialEq, Eq, Structural)]
pub struct TargetDesc {
    pub width: u32,
    pub height: u32,
    pub format: ColorFormat,
    /// Usable as a render-pass color attachment.
    pub render_attachment: bool,
    /// Usable as a sampled texture.
    pub sampled: bool,
    /// Usable as a copy source, for reading the image back.
    pub copy_source: bool,
}

/// The image for a `width` x `height` render area: that size, the target
/// format, usable for rendering, sampling and copying out.
pub open spec fn offscreen_target(width: u32, height: u32) -> TargetDesc {
    TargetDesc {
        width,
        height,
        format: TARGET_FORMAT,
        render_attachment: true,
        sampled: true,
        copy_source: true,
    }
}

pub fn target_desc(width: u32, height: u32) -> (r: TargetDesc)
    ensures
        r == offscreen_target(width, height),
{
    TargetDesc {
        width,
        height,
        format: TARGET_FORMAT,
        render_attachment: true,
        sampled: true,
        copy_source: true,
    }
}

} // verus!
