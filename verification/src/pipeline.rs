//! The render pipeline of the triangle, as plain descriptors.
//!
//! The pipeline has a vertex stage and a fragment stage from one shader
//! module, a layout without any binding, one vertex buffer of tightly packed
//! four-float positions, and one colour target in the surface's format.

use vstd::prelude::*;
use crate::vertex::VERTEX_STRIDE;

verus! {

/// How vertices are assembled into primitives.
#[derive(Clone, Copy, Debug, PartialEq, Eq, Structural)]
pub enum PrimitiveTopology {
    PointList,
    LineList,
    LineStrip,
    TriangleList,
    TriangleStrip,
}

/// The winding order that marks a triangle's front.
#[derive(Clone, Copy, Debug, PartialEq, Eq, Structural)]
pub enum FrontFace {
    Ccw,
    Cw,
}

/// One side of a triangle.
#[derive(Clone, Copy, Debug, PartialEq, Eq, Structural)]
pub enum Face {
    Front,
    Back,
}

/// How a polygon is rasterised.
#[derive(Clone, Copy, Debug, PartialEq, Eq, Structural)]
pub enum PolygonMode {
    Fill,
    Line,
    Point,
}

/// The width of the indices of a strip.
#[derive(Clone, Copy, Debug, PartialEq, Eq, Structural)]
pub enum IndexFormat {
    Uint16,
    Uint32,
}

/// Whether a vertex buffer advances per vertex or per instance.
#[derive(Clone, Copy, Debug, PartialEq, Eq, Structural)]
pub enum VertexStepMode {
    Vertex,
    Instance,
}

/// The single-precision vertex formats.
#[derive(Clone, Copy, Debug, PartialEq, Eq, Structural)]
pub enum VertexFormat {
    Float32,
    Float32x2,
    Float32x3,
    Float32x4,
}

/// How a fragment's colour is combined with the target's.
#[derive(Clone, Copy, Debug, PartialEq, Eq, Structural)]
pub enum BlendMode {
    /// The fragment replaces what the target held.
    Replace,
    /// Alpha blending with straight alpha.
    AlphaBlending,
    /// Alpha blending with premultiplied alpha.
    PremultipliedAlphaBlending,
}

/// Write-mask bit of the red channel.
pub const COLOR_WRITE_RED: u32 = 1;

/// Write-mask bit of the green channel.
pub const COLOR_WRITE_GREEN: u32 = 2;

/// Write-mask bit of the blue channel.
pub const COLOR_WRITE_BLUE: u32 = 4;

/// Write-mask bit of the alpha channel.
pub const COLOR_WRITE_ALPHA: u32 = 8;

/// Write mask of all four channels.
pub const COLOR_WRITE_ALL: u32 = 15;

/// Sample mask that enables every sample.
pub const ALL_SAMPLES: u64 = 0xFFFF_FFFF_FFFF_FFFF;

/// A shader module, named by the text resource that holds its source.
#[derive(Clone, Copy, Debug, PartialEq, Eq)]
pub struct ShaderModuleDescriptor {
    pub label: &'static str,
    pub resource: &'static str,
}

/// A pipeline layout, by the number of bindings of each kind.
#[derive(Clone, Copy, Debug, PartialEq, Eq)]
pub struct PipelineLayoutDescriptor {
    pub label: &'static str,
    pub bind_group_layouts: u32,
    pub push_constant_ranges: u32,
}

/// One input of the vertex stage.
#[derive(Clone, Copy, Debug, PartialEq, Eq, Structural)]
pub struct VertexAttribute {
    pub format: VertexFormat,
    pub offset: u64,
    pub shader_location: u32,
}

/// The layout of the one vertex buffer.
#[derive(Clone, Copy, Debug, PartialEq, Eq, Structural)]
pub struct VertexBufferLayout {
    pub array_stride: u64,
    pub step_mode: VertexStepMode,
    pub attribute: VertexAttribute,
}

/// The one colour target.
#[derive(Clone, Copy, Debug, PartialEq, Eq)]
pub struct ColorTargetState {
    pub format: wgpu::TextureFormat,
    pub blend: Option<BlendMode>,
    pub write_mask: u32,
}

/// Primitive assembly and rasterisation.
#[derive(Clone, Copy, Debug, PartialEq, Eq, Structural)]
pub struct PrimitiveState {
    pub topology: PrimitiveTopology,
    pub strip_index_format: Option<IndexFormat>,
    pub front_face: FrontFace,
    pub cull_mode: Option<Face>,
    pub polygon_mode: PolygonMode,
    pub clamp_depth: bool,
    pub conservative: bool,
}

/// Multisampling.
#[derive(Clone, Copy, Debug, PartialEq, Eq, Structural)]
pub struct MultisampleState {
    pub count: u32,
    pub mask: u64,
    pub alpha_to_coverage_enabled: bool,
}

/// The whole render pipeline.
#[derive(Clone, Copy, Debug, PartialEq, Eq)]
pub struct RenderPipelineDescriptor {
    pub label: &'static str,
    pub vertex_entry_point: &'static str,
    pub fragment_entry_point: &'static str,
    pub buffer: VertexBufferLayout,
    pub target: ColorTargetState,
    pub primitive: PrimitiveState,
    pub multisample: MultisampleState,
    pub depth_stencil: bool,
}

impl VertexFormat {
    /// Bytes that one value of the format takes.
    pub open spec fn size_spec(self) -> u64 {
        match self {
            VertexFormat::Float32 => 4,
            VertexFormat::Float32x2 => 8,
            VertexFormat::Float32x3 => 12,
            VertexFormat::Float32x4 => 16,
        }
    }

    /// Bytes that one value of the format takes.
    pub fn size(&self) -> (bytes: u64)
        ensures
            bytes == self.size_spec(),
    {
        match self {
            VertexFormat::Float32 => 4,
            VertexFormat::Float32x2 => 8,
            VertexFormat::Float32x3 => 12,
            VertexFormat::Float32x4 => 16,
        }
    }
}

impl VertexBufferLayout {
    /// The attribute lies inside one stride and fills it.
    pub open spec fn tightly_packed(self) -> bool {
        self.attribute.offset + self.attribute.format.size_spec() == self.array_stride
    }

    /// Positions of four floats at shader location 0, one per vertex.
    pub open spec fn positions() -> VertexBufferLayout {
        VertexBufferLayout {
            array_stride: VERTEX_STRIDE,
            step_mode: VertexStepMode::Vertex,
            attribute: VertexAttribute {
                format: VertexFormat::Float32x4,
                offset: 0,
                shader_location: 0,
            },
        }
    }

    /// Builds [`VertexBufferLayout::positions`]. The stride is what the one
    /// attribute takes.
    pub fn for_positions() -> (layout: VertexBufferLayout)
        ensures
            layout == VertexBufferLayout::positions(),
            layout.tightly_packed(),
    {
        let format = VertexFormat::Float32x4;
        VertexBufferLayout {
            array_stride: format.size(),
            step_mode: VertexStepMode::Vertex,
            attribute: VertexAttribute { format, offset: 0, shader_location: 0 },
        }
    }
}

impl ShaderModuleDescriptor {
    /// The shader module of the triangle.
    pub open spec fn triangle() -> ShaderModuleDescriptor {
        ShaderModuleDescriptor { label: "Ch1 Shader", resource: "ch1.wgsl" }
    }

    /// Builds [`ShaderModuleDescriptor::triangle`].
    pub fn for_triangle() -> (shader: ShaderModuleDescriptor)
        ensures
            shader == ShaderModuleDescriptor::triangle(),
    {
        ShaderModuleDescriptor { label: "Ch1 Shader", resource: "ch1.wgsl" }
    }
}

impl PipelineLayoutDescriptor {
    /// The layout of the triangle's pipeline: nothing is bound.
    pub open spec fn triangle() -> PipelineLayoutDescriptor {
        PipelineLayoutDescriptor {
            label: "Ch1 Layout",
            bind_group_layouts: 0,
            push_constant_ranges: 0,
        }
    }

    /// Builds [`PipelineLayoutDescriptor::triangle`].
    pub fn for_triangle() -> (layout: PipelineLayoutDescriptor)
        ensures
            layout == PipelineLayoutDescriptor::triangle(),
    {
        PipelineLayoutDescriptor {
            label: "Ch1 Layout",
            bind_group_layouts: 0,
            push_constant_ranges: 0,
        }
    }
}

impl RenderPipelineDescriptor {
    /// The pipeline that draws the triangle into a target of the given
    /// format: a list of filled triangles, clockwise fronts, backs culled, one
    /// sample, no depth or stencil, every channel written, nothing blended.
    pub open spec fn triangle(format: wgpu::TextureFormat) -> RenderPipelineDescriptor {
        RenderPipelineDescriptor {
            label: "Ch1 Pipeline",
            vertex_entry_point: "vs_main",
            fragment_entry_point: "fs_main",
            buffer: VertexBufferLayout::positions(),
            target: ColorTargetState {
                format,
                blend: Some(BlendMode::Replace),
                write_mask: COLOR_WRITE_ALL,
            },
            primitive: PrimitiveState {
                topology: PrimitiveTopology::TriangleList,
                strip_index_format: None,
                front_face: FrontFace::Cw,
                cull_mode: Some(Face::Back),
                polygon_mode: PolygonMode::Fill,
                clamp_depth: false,
                conservative: false,
            },
            multisample: MultisampleState {
                count: 1,
                mask: ALL_SAMPLES,
                alpha_to_coverage_enabled: false,
            },
            depth_stencil: false,
        }
    }

    /// Builds [`RenderPipelineDescriptor::triangle`] for a target format.
    pub fn build(format: wgpu::TextureFormat) -> (pipeline: RenderPipelineDescriptor)
        ensures
            pipeline == RenderPipelineDescriptor::triangle(format),
            pipeline.target.format == format,
    {
        let write_mask: u32 = COLOR_WRITE_RED | COLOR_WRITE_GREEN | COLOR_WRITE_BLUE
            | COLOR_WRITE_ALPHA;
        let sample_mask: u64 = !0u64;
        assert(1u32 | 2u32 | 4u32 | 8u32 == 15u32) by (bit_vector);
        assert(!0u64 == 0xFFFF_FFFF_FFFF_FFFFu64) by (bit_vector);
        RenderPipelineDescriptor {
            label: "Ch1 Pipeline",
            vertex_entry_point: "vs_main",
            fragment_entry_point: "fs_main",
            buffer: VertexBufferLayout::for_positions(),
            target: ColorTargetState { format, blend: Some(BlendMode::Replace), write_mask },
            primitive: PrimitiveState {
                topology: PrimitiveTopology::TriangleList,
                strip_index_format: None,
                front_face: FrontFace::Cw,
                cull_mode: Some(Face::Back),
                polygon_mode: PolygonMode::Fill,
                clamp_depth: false,
                conservative: false,
            },
            multisample: MultisampleState {
                count: 1,
                mask: sample_mask,
                alpha_to_coverage_enabled: false,
            },
            depth_stencil: false,
        }
    }
}

} // verus!
