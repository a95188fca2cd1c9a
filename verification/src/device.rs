//! The frame protocol of a device, and a stand-in device that follows it.
//!
//! [`DeviceState`] says which command a device accepts in which state and
//! what the command does to it. The order that it enforces is the one that
//! presenting a frame takes: acquire the frame texture, record a render pass
//! on a view of it, finish and submit the recording, present the texture.
//! [`Device`] is the same thing as a value that can be run: it accepts or
//! refuses commands one by one and keeps what was submitted and presented.
//!
//! The surface borrows its window. The protocol therefore also has an end:
//! the surface is released, once, and only then may the window be closed.
//! What a real device does outside the protocol is undefined; here it is
//! refused.

use vstd::prelude::*;
use crate::color::Color;
use crate::command::{BufferUsage, Command, LoadOp, VertexBufferDescriptor};
use crate::pipeline::RenderPipelineDescriptor;
use crate::surface::Acquisition;
use crate::vertex::{Triangle, TRIANGLE_VERTEX_COUNT};

verus! {

/// What a frame texture shows: a background colour and, if it was drawn,
/// the triangle in front of it.
#[derive(Clone, Copy, Debug, PartialEq, Eq, Structural)]
pub struct Image {
    pub background: Color,
    pub triangle: Option<Triangle>,
}

/// The life of the surface and of the window that it is bound to.
#[derive(Clone, Copy, Debug, PartialEq, Eq, Structural)]
pub enum Life {
    /// The window is open and the surface is bound to it.
    Bound,
    /// The surface has been released; the window is still open.
    Released,
    /// The window has been closed.
    Closed,
}

/// How far the frame in flight has come.
#[derive(Clone, Copy, Debug, PartialEq, Eq, Structural)]
pub enum Stage {
    /// No frame is in flight.
    Idle,
    /// The frame texture is held; `view` tells whether it has a view.
    Acquired { view: bool },
    /// A command encoder is open as well.
    Recording { view: bool },
    /// The render pass is open; `image` is what it has put on the texture.
    InPass { image: Image, pipeline_set: bool, buffer_bound: bool },
    /// The render pass has ended.
    Recorded { image: Image },
    /// The encoder has been finished into a command buffer.
    Finished { image: Image },
    /// The command buffer has been submitted.
    Submitted { image: Image },
}

/// A device with its surface, to the protocol.
pub struct DeviceState {
    /// Whether surface and window are still there.
    pub life: Life,
    /// The format that the surface is configured with.
    pub format: wgpu::TextureFormat,
    /// Whether the shader module exists.
    pub shader_module: bool,
    /// Whether the pipeline layout exists.
    pub pipeline_layout: bool,
    /// The render pipeline, once created.
    pub pipeline: Option<RenderPipelineDescriptor>,
    /// The vertex buffer, once created.
    pub vertex_buffer: Option<VertexBufferDescriptor>,
    /// The frame in flight.
    pub stage: Stage,
    /// The image of every command buffer submitted so far, oldest first.
    pub submitted: Seq<Image>,
    /// Every frame presented so far, oldest first.
    pub presented: Seq<Image>,
}

impl DeviceState {
    /// A device whose surface has just been configured.
    pub open spec fn configured(format: wgpu::TextureFormat) -> DeviceState {
        DeviceState {
            life: Life::Bound,
            format,
            shader_module: false,
            pipeline_layout: false,
            pipeline: None,
            vertex_buffer: None,
            stage: Stage::Idle,
            submitted: Seq::empty(),
            presented: Seq::empty(),
        }
    }

    /// This device at another stage of the frame.
    pub open spec fn at(self, stage: Stage) -> DeviceState {
        DeviceState { stage, ..self }
    }

    /// The device after its surface was released, or `None` if that was not
    /// allowed: a surface is released once, and not while a frame is in
    /// flight.
    pub open spec fn release(self) -> Option<DeviceState> {
        if self.life is Bound && self.stage is Idle {
            Some(DeviceState { life: Life::Released, ..self })
        } else {
            None
        }
    }

    /// The device after its window was closed, or `None` if that was not
    /// allowed: the window outlives the surface.
    pub open spec fn close_window(self) -> Option<DeviceState> {
        if self.life is Released {
            Some(DeviceState { life: Life::Closed, ..self })
        } else {
            None
        }
    }

    /// The device after the surface was asked for its next frame texture, or
    /// `None` if that was not allowed: a texture may only be asked for while
    /// the surface is bound and no frame is in flight. A failed acquisition
    /// leaves no frame in flight.
    pub open spec fn acquire(self, acquisition: Acquisition) -> Option<DeviceState> {
        if self.life is Bound && self.stage is Idle {
            match acquisition {
                Acquisition::Ready => Some(self.at(Stage::Acquired { view: false })),
                Acquisition::Failed(_) => Some(self),
            }
        } else {
            None
        }
    }

    /// What a draw leaves on an image: all three vertices, at least once,
    /// make the triangle; anything less makes nothing.
    pub open spec fn drawn(
        image: Image,
        vertices: Triangle,
        vertex_count: u32,
        instance_count: u32,
    ) -> Image {
        if vertex_count == TRIANGLE_VERTEX_COUNT && instance_count > 0 {
            Image { background: image.background, triangle: Some(vertices) }
        } else {
            image
        }
    }

    /// The device after one command, or `None` if the device refuses it.
    /// Nothing is accepted once the surface has been released.
    pub open spec fn step(self, command: Command) -> Option<DeviceState> {
        if self.life is Bound {
            self.perform(command)
        } else {
            None
        }
    }

    /// The device after one command on a bound surface, or `None` if the
    /// command is out of order.
    pub open spec fn perform(self, command: Command) -> Option<DeviceState> {
        match command {
            Command::CreateShaderModule(_) => Some(DeviceState { shader_module: true, ..self }),
            Command::CreatePipelineLayout(_) => Some(DeviceState { pipeline_layout: true, ..self }),
            Command::CreateRenderPipeline(pipeline) => {
                if self.shader_module && self.pipeline_layout {
                    Some(DeviceState { pipeline: Some(pipeline), ..self })
                } else {
                    None
                }
            },
            Command::CreateVertexBuffer(buffer) => Some(
                DeviceState { vertex_buffer: Some(buffer), ..self },
            ),
            Command::CreateCommandEncoder { label } => match self.stage {
                Stage::Acquired { view } => Some(self.at(Stage::Recording { view })),
                _ => None,
            },
            Command::CreateView => match self.stage {
                Stage::Acquired { view: false } => Some(self.at(Stage::Acquired { view: true })),
                Stage::Recording { view: false } => Some(self.at(Stage::Recording { view: true })),
                _ => None,
            },
            Command::BeginRenderPass(pass) => match (self.stage, pass.load) {
                (Stage::Recording { view: true }, LoadOp::Clear(color)) => if pass.store {
                    Some(
                        self.at(
                            Stage::InPass {
                                image: Image { background: color, triangle: None },
                                pipeline_set: false,
                                buffer_bound: false,
                            },
                        ),
                    )
                } else {
                    None
                },
                _ => None,
            },
            Command::SetPipeline => match (self.stage, self.pipeline) {
                (Stage::InPass { image, pipeline_set, buffer_bound }, Some(pipeline)) => if pipeline.target.format
                    == self.format {
                    Some(self.at(Stage::InPass { image, pipeline_set: true, buffer_bound }))
                } else {
                    None
                },
                _ => None,
            },
            Command::SetVertexBuffer { slot } => match (self.stage, self.vertex_buffer) {
                (Stage::InPass { image, pipeline_set, buffer_bound }, Some(buffer)) => if slot == 0
                    && buffer.usage == BufferUsage::Vertex {
                    Some(self.at(Stage::InPass { image, pipeline_set, buffer_bound: true }))
                } else {
                    None
                },
                _ => None,
            },
            Command::Draw { first_vertex, vertex_count, first_instance, instance_count } => match (
                self.stage,
                self.vertex_buffer,
            ) {
                (
                    Stage::InPass { image, pipeline_set: true, buffer_bound: true },
                    Some(buffer),
                ) => if image.triangle is None && first_vertex + vertex_count
                    <= TRIANGLE_VERTEX_COUNT {
                    Some(
                        self.at(
                            Stage::InPass {
                                image: Self::drawn(
                                    image,
                                    buffer.vertices,
                                    vertex_count,
                                    instance_count,
                                ),
                                pipeline_set: true,
                                buffer_bound: true,
                            },
                        ),
                    )
                } else {
                    None
                },
                _ => None,
            },
            Command::EndRenderPass => match self.stage {
                Stage::InPass { image, pipeline_set, buffer_bound } => Some(
                    self.at(Stage::Recorded { image }),
                ),
                _ => None,
            },
            Command::Finish => match self.stage {
                Stage::Recorded { image } => Some(self.at(Stage::Finished { image })),
                _ => None,
            },
            Command::Submit => match self.stage {
                Stage::Finished { image } => Some(
                    DeviceState {
                        stage: Stage::Submitted { image },
                        submitted: self.submitted.push(image),
                        ..self
                    },
                ),
                _ => None,
            },
            Command::Present => match self.stage {
                Stage::Submitted { image } => Some(
                    DeviceState {
                        stage: Stage::Idle,
                        presented: self.presented.push(image),
                        ..self
                    },
                ),
                _ => None,
            },
        }
    }

    /// The device after the first `n` of the commands, or `None` if it
    /// refuses one of them.
    pub open spec fn after(self, commands: Seq<Command>, n: nat) -> Option<DeviceState>
        decreases n,
    {
        if n == 0 {
            Some(self)
        } else {
            match self.after(commands, (n - 1) as nat) {
                Some(device) => device.step(commands[n - 1]),
                None => None,
            }
        }
    }

    /// The device after all of the commands, or `None` if it refuses one.
    pub open spec fn run(self, commands: Seq<Command>) -> Option<DeviceState> {
        self.after(commands, commands.len())
    }
}

/// Trusted: `==` on `wgpu::TextureFormat`, an enum without fields whose
/// `PartialEq` is derived: two formats are equal exactly when they are the
/// same variant.
#[verifier::external_body]
fn same_format(a: &wgpu::TextureFormat, b: &wgpu::TextureFormat) -> (same: bool)
    ensures
        same == (*a == *b),
{
    a == b
}

/// A stand-in device: it follows the protocol and records what it was told
/// to submit and present.
pub struct Device {
    life: Life,
    format: wgpu::TextureFormat,
    shader_module: bool,
    pipeline_layout: bool,
    pipeline: Option<RenderPipelineDescriptor>,
    vertex_buffer: Option<VertexBufferDescriptor>,
    stage: Stage,
    submitted: Vec<Image>,
    presented: Vec<Image>,
}

impl View for Device {
    type V = DeviceState;

    closed spec fn view(&self) -> DeviceState {
        DeviceState {
            life: self.life,
            format: self.format,
            shader_module: self.shader_module,
            pipeline_layout: self.pipeline_layout,
            pipeline: self.pipeline,
            vertex_buffer: self.vertex_buffer,
            stage: self.stage,
            submitted: self.submitted@,
            presented: self.presented@,
        }
    }
}

impl Device {
    /// A device whose surface has just been configured with `format`.
    pub fn new(format: wgpu::TextureFormat) -> (device: Device)
        ensures
            device@ == DeviceState::configured(format),
    {
        Device {
            life: Life::Bound,
            format,
            shader_module: false,
            pipeline_layout: false,
            pipeline: None,
            vertex_buffer: None,
            stage: Stage::Idle,
            submitted: Vec::new(),
            presented: Vec::new(),
        }
    }

    /// Whether surface and window are still there.
    pub fn life(&self) -> (life: Life)
        ensures
            life == self@.life,
    {
        self.life
    }

    /// The stage of the frame in flight.
    pub fn stage(&self) -> (stage: Stage)
        ensures
            stage == self@.stage,
    {
        self.stage
    }

    /// How many command buffers have been submitted.
    pub fn submission_count(&self) -> (count: usize)
        ensures
            count == self@.submitted.len(),
    {
        self.submitted.len()
    }

    /// How many frames have been presented.
    pub fn presented_count(&self) -> (count: usize)
        ensures
            count == self@.presented.len(),
    {
        self.presented.len()
    }

    /// The `index`-th presented frame, oldest first, if there is one.
    pub fn presented_frame(&self, index: usize) -> (frame: Option<Image>)
        ensures
            frame == if index < self@.presented.len() {
                Some(self@.presented[index as int])
            } else {
                None
            },
    {
        if index < self.presented.len() {
            Some(self.presented[index])
        } else {
            None
        }
    }

    /// Asks the surface for its next frame texture, with the given outcome.
    /// Refused, with nothing changed, while a frame is in flight.
    pub fn acquire(&mut self, acquisition: Acquisition) -> (accepted: bool)
        ensures
            accepted == old(self)@.acquire(acquisition).is_some(),
            final(self)@ == match old(self)@.acquire(acquisition) {
                Some(device) => device,
                None => old(self)@,
            },
    {
        match (self.life, self.stage) {
            (Life::Bound, Stage::Idle) => {
                match acquisition {
                    Acquisition::Ready => {
                        self.stage = Stage::Acquired { view: false };
                    },
                    Acquisition::Failed(_) => {},
                }
                true
            },
            _ => false,
        }
    }

    /// Releases the surface. Refused, with nothing changed, if it has been
    /// released before or a frame is in flight.
    pub fn release(&mut self) -> (accepted: bool)
        ensures
            accepted == old(self)@.release().is_some(),
            final(self)@ == match old(self)@.release() {
                Some(device) => device,
                None => old(self)@,
            },
    {
        match (self.life, self.stage) {
            (Life::Bound, Stage::Idle) => {
                self.life = Life::Released;
                true
            },
            _ => false,
        }
    }

    /// Closes the window. Refused, with nothing changed, unless the surface
    /// has been released and the window is still open.
    pub fn close_window(&mut self) -> (accepted: bool)
        ensures
            accepted == old(self)@.close_window().is_some(),
            final(self)@ == match old(self)@.close_window() {
                Some(device) => device,
                None => old(self)@,
            },
    {
        match self.life {
            Life::Released => {
                self.life = Life::Closed;
                true
            },
            _ => false,
        }
    }

    /// Performs one command. Refused, with nothing changed, where the
    /// protocol does not allow it.
    pub fn execute(&mut self, command: &Command) -> (accepted: bool)
        ensures
            accepted == old(self)@.step(*command).is_some(),
            final(self)@ == match old(self)@.step(*command) {
                Some(device) => device,
                None => old(self)@,
            },
    {
        match self.life {
            Life::Bound => {},
            _ => {
                return false;
            },
        }
        match *command {
            Command::CreateShaderModule(_) => {
                self.shader_module = true;
                true
            },
            Command::CreatePipelineLayout(_) => {
                self.pipeline_layout = true;
                true
            },
            Command::CreateRenderPipeline(pipeline) => {
                if self.shader_module && self.pipeline_layout {
                    self.pipeline = Some(pipeline);
                    true
                } else {
                    false
                }
            },
            Command::CreateVertexBuffer(buffer) => {
                self.vertex_buffer = Some(buffer);
                true
            },
            Command::CreateCommandEncoder { label } => match self.stage {
                Stage::Acquired { view } => {
                    self.stage = Stage::Recording { view };
                    true
                },
                _ => false,
            },
            Command::CreateView => match self.stage {
                Stage::Acquired { view: false } => {
                    self.stage = Stage::Acquired { view: true };
                    true
                },
                Stage::Recording { view: false } => {
                    self.stage = Stage::Recording { view: true };
                    true
                },
                _ => false,
            },
            Command::BeginRenderPass(pass) => match (self.stage, pass.load) {
                (Stage::Recording { view: true }, LoadOp::Clear(color)) => {
                    if pass.store {
                        self.stage = Stage::InPass {
                            image: Image { background: color, triangle: None },
                            pipeline_set: false,
                            buffer_bound: false,
                        };
                        true
                    } else {
                        false
                    }
                },
                _ => false,
            },
            Command::SetPipeline => match (self.stage, self.pipeline) {
                (Stage::InPass { image, pipeline_set, buffer_bound }, Some(pipeline)) => {
                    if same_format(&pipeline.target.format, &self.format) {
                        self.stage = Stage::InPass { image, pipeline_set: true, buffer_bound };
                        true
                    } else {
                        false
                    }
                },
                _ => false,
            },
            Command::SetVertexBuffer { slot } => match (self.stage, self.vertex_buffer) {
                (Stage::InPass { image, pipeline_set, buffer_bound }, Some(buffer)) => {
                    if slot == 0 && buffer.usage == BufferUsage::Vertex {
                        self.stage = Stage::InPass { image, pipeline_set, buffer_bound: true };
                        true
                    } else {
                        false
                    }
                },
                _ => false,
            },
            Command::Draw { first_vertex, vertex_count, first_instance, instance_count } => match (
                self.stage,
                self.vertex_buffer,
            ) {
                (
                    Stage::InPass { image, pipeline_set: true, buffer_bound: true },
                    Some(buffer),
                ) => {
                    if image.triangle.is_none() && first_vertex <= TRIANGLE_VERTEX_COUNT
                        && vertex_count <= TRIANGLE_VERTEX_COUNT - first_vertex {
                        let triangle = if vertex_count == TRIANGLE_VERTEX_COUNT && instance_count
                            > 0 {
                            Some(buffer.vertices)
                        } else {
                            image.triangle
                        };
                        self.stage = Stage::InPass {
                            image: Image { background: image.background, triangle },
                            pipeline_set: true,
                            buffer_bound: true,
                        };
                        true
                    } else {
                        false
                    }
                },
                _ => false,
            },
            Command::EndRenderPass => match self.stage {
                Stage::InPass { image, pipeline_set, buffer_bound } => {
                    self.stage = Stage::Recorded { image };
                    true
                },
                _ => false,
            },
            Command::Finish => match self.stage {
                Stage::Recorded { image } => {
                    self.stage = Stage::Finished { image };
                    true
                },
                _ => false,
            },
            Command::Submit => match self.stage {
                Stage::Finished { image } => {
                    self.stage = Stage::Submitted { image };
                    self.submitted.push(image);
                    true
                },
                _ => false,
            },
            Command::Present => match self.stage {
                Stage::Submitted { image } => {
                    self.stage = Stage::Idle;
                    self.presented.push(image);
                    true
                },
                _ => false,
            },
        }
    }

    /// Performs the commands in order and stops at the first that the
    /// protocol refuses. `Ok` when all were performed; else the index of the
    /// refused command, with the commands before it performed.
    pub fn run(&mut self, commands: &Vec<Command>) -> (result: Result<(), usize>)
        ensures
            match result {
                Ok(()) => old(self)@.run(commands@) == Some(final(self)@),
                Err(refused) => {
                    &&& refused < commands@.len()
                    &&& old(self)@.after(commands@, refused as nat) == Some(final(self)@)
                    &&& final(self)@.step(commands@[refused as int]) is None
                    &&& old(self)@.run(commands@) is None
                },
            },
    {
        let mut i: usize = 0;
        while i < commands.len()
            invariant
                i <= commands@.len(),
                old(self)@.after(commands@, i as nat) == Some(self@),
            decreases commands@.len() - i,
        {
            let accepted = self.execute(&commands[i]);
            if !accepted {
                proof {
                    refused_stays_refused(old(self)@, commands@, (i + 1) as nat, commands@.len());
                }
                return Err(i);
            }
            i = i + 1;
        }
        Ok(())
    }
}

/// Once a command has been refused, the rest is never reached.
pub proof fn refused_stays_refused(device: DeviceState, commands: Seq<Command>, n: nat, m: nat)
    requires
        n <= m,
        device.after(commands, n) is None,
    ensures
        device.after(commands, m) is None,
    decreases m,
{
    if n < m {
        refused_stays_refused(device, commands, n, (m - 1) as nat);
    }
}

} // verus!
