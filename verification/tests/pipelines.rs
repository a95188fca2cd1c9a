use render_core::pipeline::{
    BlendMode, ColorTargetState, Face, FrontFace, MultisampleState, PipelineLayoutDescriptor,
    PolygonMode, PrimitiveState, PrimitiveTopology, RenderPipelineDescriptor,
    ShaderModuleDescriptor, VertexAttribute, VertexBufferLayout, VertexFormat, VertexStepMode,
    ALL_SAMPLES, COLOR_WRITE_ALL, COLOR_WRITE_ALPHA, COLOR_WRITE_BLUE, COLOR_WRITE_GREEN,
    COLOR_WRITE_RED,
};

#[test]
fn pipeline_is_the_triangle_pipeline() {
    let pipeline = RenderPipelineDescriptor::build(wgpu::TextureFormat::Bgra8UnormSrgb);
    assert_eq!(
        pipeline,
        RenderPipelineDescriptor {
            label: "Ch1 Pipeline",
            vertex_entry_point: "vs_main",
            fragment_entry_point: "fs_main",
            buffer: VertexBufferLayout {
                array_stride: 16,
                step_mode: VertexStepMode::Vertex,
                attribute: VertexAttribute {
                    format: VertexFormat::Float32x4,
                    offset: 0,
                    shader_location: 0,
                },
            },
            target: ColorTargetState {
                format: wgpu::TextureFormat::Bgra8UnormSrgb,
                blend: Some(BlendMode::Replace),
                write_mask: 15,
            },
            primitive: PrimitiveState {
                topology: PrimitiveTopology::TriangleList,
                strip_index_format: None,
                front_face: FrontFace::Cw,
                cull_mode: Some(Face::Back),
                polygon_mode: PolygonMode::Fill,
                clamp_depth: false,
                conservative: false,
            },
            multisample: MultisampleState {
                count: 1,
                mask: u64::MAX,
                alpha_to_coverage_enabled: false,
            },
            depth_stencil: false,
        }
    );
}

#[test]
fn pipeline_differs_only_in_the_target_format() {
    let a = RenderPipelineDescriptor::build(wgpu::TextureFormat::Bgra8Unorm);
    let b = RenderPipelineDescriptor::build(wgpu::TextureFormat::Rgba8UnormSrgb);
    assert_eq!(a.target.format, wgpu::TextureFormat::Bgra8Unorm);
    assert_eq!(b.target.format, wgpu::TextureFormat::Rgba8UnormSrgb);
    assert_ne!(a, b);
    let mut c = b;
    c.target.format = wgpu::TextureFormat::Bgra8Unorm;
    assert_eq!(a, c);
}

#[test]
fn masks_are_those_of_the_device() {
    assert_eq!(COLOR_WRITE_RED, wgpu::ColorWrites::RED.bits());
    assert_eq!(COLOR_WRITE_GREEN, wgpu::ColorWrites::GREEN.bits());
    assert_eq!(COLOR_WRITE_BLUE, wgpu::ColorWrites::BLUE.bits());
    assert_eq!(COLOR_WRITE_ALPHA, wgpu::ColorWrites::ALPHA.bits());
    assert_eq!(COLOR_WRITE_ALL, wgpu::ColorWrites::ALL.bits());
    assert_eq!(ALL_SAMPLES, !0u64);
}

#[test]
fn format_sizes_are_those_of_the_device() {
    assert_eq!(VertexFormat::Float32.size(), wgpu::VertexFormat::Float32.size());
    assert_eq!(VertexFormat::Float32x2.size(), wgpu::VertexFormat::Float32x2.size());
    assert_eq!(VertexFormat::Float32x3.size(), wgpu::VertexFormat::Float32x3.size());
    assert_eq!(VertexFormat::Float32x4.size(), wgpu::VertexFormat::Float32x4.size());
    assert_eq!(VertexFormat::Float32x4.size(), 16);
}

#[test]
fn positions_fill_their_stride() {
    let layout = VertexBufferLayout::for_positions();
    assert_eq!(layout.attribute.offset + layout.attribute.format.size(), layout.array_stride);
    assert_eq!(layout.array_stride, render_core::vertex::VERTEX_STRIDE);
    assert_eq!(layout.step_mode, VertexStepMode::Vertex);
    assert_eq!(layout.attribute.shader_location, 0);
}

#[test]
fn shader_and_layout_of_the_triangle() {
    assert_eq!(
        ShaderModuleDescriptor::for_triangle(),
        ShaderModuleDescriptor { label: "Ch1 Shader", resource: "ch1.wgsl" }
    );
    assert_eq!(
        PipelineLayoutDescriptor::for_triangle(),
        PipelineLayoutDescriptor {
            label: "Ch1 Layout",
            bind_group_layouts: 0,
            push_constant_ranges: 0,
        }
    );
}
