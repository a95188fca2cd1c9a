//! The renderer: what it remembers between frames, and what it asks of the
//! host for each frame.

use vstd::prelude::*;
use crate::color::Color;
use crate::command::{
    push_recording_commands, push_resource_commands, recording_commands, resource_commands,
    Command, FrameMode,
};
use crate::surface::{AcquireError, Acquisition, SurfaceConfiguration};

verus! {

/// What a renderer is, to its contracts.
pub struct RendererState {
    /// The configuration that the surface was given.
    pub config: SurfaceConfiguration,
    /// Whether the pipeline and the vertex buffer have been created.
    pub resources_created: bool,
}

/// The renderer of one surface.
pub struct Renderer {
    config: SurfaceConfiguration,
    resources_created: bool,
}

/// What the host does about one frame.
#[derive(Debug, PartialEq, Eq)]
pub enum FrameOutcome {
    /// Nothing: no texture was acquired in time, and the next tick tries
    /// again.
    Skipped,
    /// Stop the program: the surface failed for good.
    Fatal(AcquireError),
    /// Perform these commands in order.
    Render(Vec<Command>),
}

impl View for Renderer {
    type V = RendererState;

    closed spec fn view(&self) -> RendererState {
        RendererState { config: self.config, resources_created: self.resources_created }
    }
}

impl RendererState {
    /// A renderer that has rendered nothing yet, on a surface that presents
    /// frames of the given format and size.
    pub open spec fn fresh(format: wgpu::TextureFormat, width: u32, height: u32) -> RendererState {
        RendererState {
            config: SurfaceConfiguration::presenting(format, width, height),
            resources_created: false,
        }
    }

    /// Whether a frame of this mode has to create the pipeline and the
    /// vertex buffer first: only the first frame that draws does.
    pub open spec fn creates_resources(self, mode: FrameMode) -> bool {
        mode.draws() && !self.resources_created
    }

    /// The commands of a frame whose texture was acquired.
    pub open spec fn frame_commands(self, mode: FrameMode) -> Seq<Command> {
        if self.creates_resources(mode) {
            resource_commands(self.config.format) + recording_commands(mode)
        } else {
            recording_commands(mode)
        }
    }

    /// The renderer after a frame. Only a frame that was rendered and drew
    /// changes it: from then on the resources exist.
    pub open spec fn after_frame(self, mode: FrameMode, acquisition: Acquisition) -> RendererState {
        if acquisition is Ready && mode.draws() {
            RendererState { config: self.config, resources_created: true }
        } else {
            self
        }
    }
}

/// The outcome of a frame is the one that its acquisition calls for: a
/// timeout skips the frame, any other failure is fatal, and on success the
/// frame's commands are handed out.
pub open spec fn outcome_matches(
    outcome: FrameOutcome,
    state: RendererState,
    mode: FrameMode,
    acquisition: Acquisition,
) -> bool {
    match outcome {
        FrameOutcome::Skipped => acquisition == Acquisition::Failed(AcquireError::Timeout),
        FrameOutcome::Fatal(error) => acquisition == Acquisition::Failed(error)
            && !error.is_transient(),
        FrameOutcome::Render(commands) => acquisition is Ready && commands@
            == state.frame_commands(mode),
    }
}

impl Renderer {
    /// The renderer for a surface that has just been given the
    /// configuration for presenting frames of this format and size.
    pub fn new(format: wgpu::TextureFormat, width: u32, height: u32) -> (renderer: Renderer)
        ensures
            renderer@ == RendererState::fresh(format, width, height),
    {
        Renderer {
            config: SurfaceConfiguration::for_presentation(format, width, height),
            resources_created: false,
        }
    }

    /// The configuration of the surface.
    pub fn config(&self) -> (config: SurfaceConfiguration)
        ensures
            config == self@.config,
    {
        self.config
    }

    /// Whether the pipeline and the vertex buffer have been created.
    pub fn resources_created(&self) -> (created: bool)
        ensures
            created == self@.resources_created,
    {
        self.resources_created
    }

    /// Decides one frame, given how the acquisition of its texture ended.
    pub fn render_frame(&mut self, mode: FrameMode, acquisition: Acquisition) -> (outcome:
        FrameOutcome)
        ensures
            outcome_matches(outcome, old(self)@, mode, acquisition),
            final(self)@ == old(self)@.after_frame(mode, acquisition),
    {
        match acquisition {
            Acquisition::Failed(error) => {
                if error.transient() {
                    FrameOutcome::Skipped
                } else {
                    FrameOutcome::Fatal(error)
                }
            },
            Acquisition::Ready => {
                let mut commands: Vec<Command> = Vec::new();
                let draws = match mode {
                    FrameMode::Clear(_) => false,
                    FrameMode::ClearAndDraw => true,
                };
                if draws && !self.resources_created {
                    push_resource_commands(&mut commands, self.config.format);
                    self.resources_created = true;
                }
                push_recording_commands(&mut commands, mode);
                assert(commands@ =~= old(self)@.frame_commands(mode));
                FrameOutcome::Render(commands)
            },
        }
    }

    /// A frame that shows nothing but `color`.
    pub fn clear_immediate(&mut self, color: Color, acquisition: Acquisition) -> (outcome:
        FrameOutcome)
        ensures
            outcome_matches(outcome, old(self)@, FrameMode::Clear(color), acquisition),
            final(self)@ == old(self)@,
    {
        self.render_frame(FrameMode::Clear(color), acquisition)
    }

    /// A frame that shows the triangle on opaque black.
    pub fn ch1_draw(&mut self, acquisition: Acquisition) -> (outcome: FrameOutcome)
        ensures
            outcome_matches(outcome, old(self)@, FrameMode::ClearAndDraw, acquisition),
            final(self)@ == old(self)@.after_frame(FrameMode::ClearAndDraw, acquisition),
    {
        self.render_frame(FrameMode::ClearAndDraw, acquisition)
    }
}

} // verus!
