//! The commands that the host performs for the renderer.
//!
//! A frame is a list of commands. The host owns the device objects and the
//! acquired frame texture; each command says which call it makes on them
//! next, with every argument that the call takes.

use vstd::prelude::*;
use crate::color::Color;
use crate::pipeline::{PipelineLayoutDescriptor, RenderPipelineDescriptor, ShaderModuleDescriptor};
use crate::vertex::{Triangle, TRIANGLE_VERTEX_COUNT};

verus! {

/// What a buffer may be used for.
#[derive(Clone, Copy, Debug, PartialEq, Eq, Structural)]
pub enum BufferUsage {
    MapRead,
    MapWrite,
    CopySrc,
    CopyDst,
    Index,
    Vertex,
    Uniform,
    Storage,
    Indirect,
}

/// A vertex buffer that is created with its contents. The contents are the
/// vertices of one triangle; [`crate::vertex::vertex_bytes`] gives their
/// bytes.
#[derive(Clone, Copy, Debug, PartialEq, Eq)]
pub struct VertexBufferDescriptor {
    pub label: &'static str,
    pub usage: BufferUsage,
    pub vertices: Triangle,
}

/// What a render pass does to its colour attachment before it draws.
#[derive(Clone, Copy, Debug, PartialEq, Eq, Structural)]
pub enum LoadOp {
    /// Fill it with a colour.
    Clear(Color),
    /// Keep what it held.
    Load,
}

/// A render pass with one colour attachment, a fresh view of the acquired
/// frame texture, without a resolve target and without depth or stencil.
#[derive(Clone, Copy, Debug, PartialEq, Eq)]
pub struct RenderPassDescriptor {
    pub label: &'static str,
    pub load: LoadOp,
    pub store: bool,
}

/// One call that the host makes.
#[derive(Clone, Copy, Debug, PartialEq, Eq)]
pub enum Command {
    /// Compile the shader module.
    CreateShaderModule(ShaderModuleDescriptor),
    /// Create the pipeline layout.
    CreatePipelineLayout(PipelineLayoutDescriptor),
    /// Create the render pipeline from the module and the layout.
    CreateRenderPipeline(RenderPipelineDescriptor),
    /// Create the vertex buffer and fill it.
    CreateVertexBuffer(VertexBufferDescriptor),
    /// Open a command encoder.
    CreateCommandEncoder { label: &'static str },
    /// Create the default view of the acquired frame texture.
    CreateView,
    /// Begin the render pass on that view.
    BeginRenderPass(RenderPassDescriptor),
    /// Bind the render pipeline.
    SetPipeline,
    /// Bind the whole vertex buffer at a slot.
    SetVertexBuffer { slot: u32 },
    /// Draw a range of vertices for a range of instances.
    Draw { first_vertex: u32, vertex_count: u32, first_instance: u32, instance_count: u32 },
    /// End the render pass.
    EndRenderPass,
    /// Finish the encoder into a command buffer.
    Finish,
    /// Submit the command buffer to the queue.
    Submit,
    /// Present the frame texture.
    Present,
}

/// What one frame shows.
#[derive(Clone, Copy, Debug, PartialEq, Eq, Structural)]
pub enum FrameMode {
    /// Nothing but the given colour.
    Clear(Color),
    /// The triangle on opaque black.
    ClearAndDraw,
}

impl VertexBufferDescriptor {
    /// The vertex buffer of the fixed triangle.
    pub open spec fn triangle() -> VertexBufferDescriptor {
        VertexBufferDescriptor {
            label: "Ch1 Vertex Buffer",
            usage: BufferUsage::Vertex,
            vertices: Triangle::fixed(),
        }
    }

    /// Builds [`VertexBufferDescriptor::triangle`].
    pub fn for_triangle() -> (buffer: VertexBufferDescriptor)
        ensures
            buffer == VertexBufferDescriptor::triangle(),
    {
        VertexBufferDescriptor {
            label: "Ch1 Vertex Buffer",
            usage: BufferUsage::Vertex,
            vertices: Triangle::new(),
        }
    }
}

impl FrameMode {
    /// The colour that the frame is cleared to.
    pub open spec fn clear_color(self) -> Color {
        match self {
            FrameMode::Clear(color) => color,
            FrameMode::ClearAndDraw => Color::black(),
        }
    }

    /// The label of the frame's command encoder.
    pub open spec fn encoder_label(self) -> &'static str {
        match self {
            FrameMode::Clear(_) => "clear_immediate",
            FrameMode::ClearAndDraw => "Ch1 Encoder",
        }
    }

    /// The label of the frame's render pass.
    pub open spec fn pass_label(self) -> &'static str {
        match self {
            FrameMode::Clear(_) => "clear_immediate",
            FrameMode::ClearAndDraw => "Ch1 Render Pass",
        }
    }

    /// The render pass: always a clear, always stored.
    pub open spec fn pass(self) -> RenderPassDescriptor {
        RenderPassDescriptor {
            label: self.pass_label(),
            load: LoadOp::Clear(self.clear_color()),
            store: true,
        }
    }

    /// What is recorded inside the pass: nothing for a clear; for the
    /// triangle the pipeline, the vertex buffer at slot 0, and one draw of all
    /// three vertices, once.
    pub open spec fn pass_commands(self) -> Seq<Command> {
        match self {
            FrameMode::Clear(_) => Seq::empty(),
            FrameMode::ClearAndDraw => seq![
                Command::SetPipeline,
                Command::SetVertexBuffer { slot: 0 },
                Command::Draw {
                    first_vertex: 0,
                    vertex_count: TRIANGLE_VERTEX_COUNT,
                    first_instance: 0,
                    instance_count: 1,
                },
            ],
        }
    }

    /// Whether the frame needs the pipeline and the vertex buffer.
    pub open spec fn draws(self) -> bool {
        self is ClearAndDraw
    }
}

/// The four commands that create what the triangle is drawn with, for a
/// target of the given format.
pub open spec fn resource_commands(format: wgpu::TextureFormat) -> Seq<Command> {
    seq![
        Command::CreateShaderModule(ShaderModuleDescriptor::triangle()),
        Command::CreatePipelineLayout(PipelineLayoutDescriptor::triangle()),
        Command::CreateRenderPipeline(RenderPipelineDescriptor::triangle(format)),
        Command::CreateVertexBuffer(VertexBufferDescriptor::triangle()),
    ]
}

/// The commands that record, submit and present one frame on a texture that
/// has been acquired.
pub open spec fn recording_commands(mode: FrameMode) -> Seq<Command> {
    seq![
        Command::CreateCommandEncoder { label: mode.encoder_label() },
        Command::CreateView,
        Command::BeginRenderPass(mode.pass()),
    ] + mode.pass_commands() + seq![
        Command::EndRenderPass,
        Command::Finish,
        Command::Submit,
        Command::Present,
    ]
}

/// Appends [`resource_commands`] to a list.
pub fn push_resource_commands(commands: &mut Vec<Command>, format: wgpu::TextureFormat)
    ensures
        final(commands)@ == old(commands)@ + resource_commands(format),
{
    commands.push(Command::CreateShaderModule(ShaderModuleDescriptor::for_triangle()));
    commands.push(Command::CreatePipelineLayout(PipelineLayoutDescriptor::for_triangle()));
    commands.push(Command::CreateRenderPipeline(RenderPipelineDescriptor::build(format)));
    commands.push(Command::CreateVertexBuffer(VertexBufferDescriptor::for_triangle()));
    assert(commands@ =~= old(commands)@ + resource_commands(format));
}

/// Appends [`recording_commands`] to a list.
pub fn push_recording_commands(commands: &mut Vec<Command>, mode: FrameMode)
    ensures
        final(commands)@ == old(commands)@ + recording_commands(mode),
{
    match mode {
        FrameMode::Clear(color) => {
            commands.push(Command::CreateCommandEncoder { label: "clear_immediate" });
            commands.push(Command::CreateView);
            commands.push(
                Command::BeginRenderPass(
                    RenderPassDescriptor {
                        label: "clear_immediate",
                        load: LoadOp::Clear(color),
                        store: true,
                    },
                ),
            );
        },
        FrameMode::ClearAndDraw => {
            commands.push(Command::CreateCommandEncoder { label: "Ch1 Encoder" });
            commands.push(Command::CreateView);
            commands.push(
                Command::BeginRenderPass(
                    RenderPassDescriptor {
                        label: "Ch1 Render Pass",
                        load: LoadOp::Clear(Color::opaque_black()),
                        store: true,
                    },
                ),
            );
            commands.push(Command::SetPipeline);
            commands.push(Command::SetVertexBuffer { slot: 0 });
            commands.push(
                Command::Draw {
                    first_vertex: 0,
                    vertex_count: TRIANGLE_VERTEX_COUNT,
                    first_instance: 0,
                    instance_count: 1,
                },
            );
        },
    }
    commands.push(Command::EndRenderPass);
    commands.push(Command::Finish);
    commands.push(Command::Submit);
    commands.push(Command::Present);
    assert(commands@ =~= old(commands)@ + recording_commands(mode));
}

} // verus!
