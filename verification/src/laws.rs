//! What holds of every frame and of every run of frames.
//!
//! A [`World`] is a renderer together with the device that its host drives.
//! The laws say what the device has submitted and presented after the host
//! has performed what the renderer asked for.

use vstd::prelude::*;
use crate::color::Color;
use crate::command::{
    recording_commands, resource_commands, Command, FrameMode, VertexBufferDescriptor,
};
use crate::device::{DeviceState, Image, Life, Stage};
use crate::pipeline::RenderPipelineDescriptor;
use crate::renderer::{outcome_matches, FrameOutcome, RendererState};
use crate::surface::{AcquireError, Acquisition};
use crate::vertex::{
    Triangle, Vertex, F32_MINUS_THREE_QUARTERS, F32_ONE, F32_THREE_QUARTERS, F32_ZERO,
};

verus! {

/// A renderer and the device of its host.
pub struct World {
    pub renderer: RendererState,
    pub device: DeviceState,
}

/// One call for a frame: what it is to show, and how the acquisition of its
/// texture ended.
pub struct Tick {
    pub mode: FrameMode,
    pub acquisition: Acquisition,
}

/// What a frame of the given mode shows.
pub open spec fn frame_image(mode: FrameMode) -> Image {
    Image {
        background: mode.clear_color(),
        triangle: if mode.draws() {
            Some(Triangle::fixed())
        } else {
            None
        },
    }
}

/// The device holds what the triangle is drawn with, made for its own
/// surface format.
pub open spec fn holds_resources(device: DeviceState) -> bool {
    &&& device.shader_module
    &&& device.pipeline_layout
    &&& device.pipeline == Some(RenderPipelineDescriptor::triangle(device.format))
    &&& device.vertex_buffer == Some(VertexBufferDescriptor::triangle())
}

impl Tick {
    /// The acquisition failed for good, which ends the program.
    pub open spec fn is_fatal(self) -> bool {
        self.acquisition matches Acquisition::Failed(error) && !error.is_transient()
    }

    /// The frame is rendered.
    pub open spec fn is_rendered(self) -> bool {
        self.acquisition is Ready
    }
}

impl World {
    /// A renderer that has rendered nothing, and a device whose surface has
    /// just been configured for it.
    pub open spec fn fresh(format: wgpu::TextureFormat, width: u32, height: u32) -> World {
        World {
            renderer: RendererState::fresh(format, width, height),
            device: DeviceState::configured(format),
        }
    }

    /// Between two frames: the surface is bound, no frame is in flight, the
    /// surface has the renderer's format, what the renderer takes as created
    /// exists, and a pipeline that exists is made for the surface's format.
    pub open spec fn in_step(self) -> bool {
        &&& self.device.life is Bound
        &&& self.device.stage is Idle
        &&& self.device.format == self.renderer.config.format
        &&& self.renderer.resources_created ==> holds_resources(self.device)
        &&& self.device.pipeline matches Some(pipeline) ==> pipeline.target.format
            == self.device.format
    }

    /// The world after one call for a frame, the host having performed every
    /// command of it; `None` if the device refused something, or if the
    /// acquisition failed for good.
    pub open spec fn tick(self, tick: Tick) -> Option<World> {
        match self.device.acquire(tick.acquisition) {
            None => None,
            Some(acquired) => if tick.is_rendered() {
                match acquired.run(self.renderer.frame_commands(tick.mode)) {
                    Some(device) => Some(
                        World {
                            renderer: self.renderer.after_frame(tick.mode, tick.acquisition),
                            device,
                        },
                    ),
                    None => None,
                }
            } else if tick.is_fatal() {
                None
            } else {
                Some(
                    World {
                        renderer: self.renderer.after_frame(tick.mode, tick.acquisition),
                        device: acquired,
                    },
                )
            },
        }
    }

    /// The world after a run of calls, oldest first.
    pub open spec fn play(self, ticks: Seq<Tick>) -> Option<World>
        decreases ticks.len(),
    {
        if ticks.len() == 0 {
            Some(self)
        } else {
            match self.play(ticks.drop_last()) {
                Some(world) => world.tick(ticks.last()),
                None => None,
            }
        }
    }
}

/// The frames that a run of calls shows, oldest first: one for each call
/// whose texture was acquired.
pub open spec fn images(ticks: Seq<Tick>) -> Seq<Image>
    decreases ticks.len(),
{
    if ticks.len() == 0 {
        Seq::empty()
    } else if ticks.last().is_rendered() {
        images(ticks.drop_last()).push(frame_image(ticks.last().mode))
    } else {
        images(ticks.drop_last())
    }
}

/// The first commands of a list are performed as if the list ended there.
pub proof fn after_prefix(device: DeviceState, first: Seq<Command>, rest: Seq<Command>, n: nat)
    requires
        n <= first.len(),
    ensures
        device.after(first + rest, n) == device.after(first, n),
    decreases n,
{
    if n > 0 {
        after_prefix(device, first, rest, (n - 1) as nat);
        assert((first + rest)[n - 1] == first[n - 1]);
    }
}

/// The commands of a second list are performed on what the first left.
pub proof fn after_suffix(
    device: DeviceState,
    first: Seq<Command>,
    rest: Seq<Command>,
    n: nat,
)
    requires
        n <= rest.len(),
        device.run(first) is Some,
    ensures
        device.after(first + rest, first.len() + n) == device.run(first).unwrap().after(rest, n),
    decreases n,
{
    if n == 0 {
        after_prefix(device, first, rest, first.len());
    } else {
        after_suffix(device, first, rest, (n - 1) as nat);
        assert((first + rest)[first.len() + n - 1] == rest[n - 1]);
    }
}

/// The device after the commands that create the triangle's resources.
pub open spec fn with_resources(device: DeviceState) -> DeviceState {
    DeviceState {
        shader_module: true,
        pipeline_layout: true,
        pipeline: Some(RenderPipelineDescriptor::triangle(device.format)),
        vertex_buffer: Some(VertexBufferDescriptor::triangle()),
        ..device
    }
}

/// Creating the resources is accepted at any stage and leaves the stage as
/// it was, also part of the way.
pub proof fn resources_are_created(device: DeviceState, n: nat)
    requires
        device.life is Bound,
        n <= resource_commands(device.format).len(),
    ensures
        device.after(resource_commands(device.format), n) is Some,
        device.after(resource_commands(device.format), n).unwrap().stage == device.stage,
        device.after(resource_commands(device.format), n).unwrap().life == device.life,
        device.after(resource_commands(device.format), n).unwrap().submitted == device.submitted,
        device.after(resource_commands(device.format), n).unwrap().presented == device.presented,
        device.after(resource_commands(device.format), n).unwrap().format == device.format,
        n == resource_commands(device.format).len() ==> device.after(
            resource_commands(device.format),
            n,
        ) == Some(with_resources(device)),
{
    reveal_with_fuel(DeviceState::after, 5);
}

/// The device after a frame has been recorded, submitted and presented.
pub open spec fn with_frame(device: DeviceState, image: Image) -> DeviceState {
    DeviceState {
        stage: Stage::Idle,
        submitted: device.submitted.push(image),
        presented: device.presented.push(image),
        ..device
    }
}

/// A clearing frame on a device that holds the frame texture, step by step.
proof fn clear_recording_runs(device: DeviceState, color: Color, n: nat)
    requires
        device.life is Bound,
        device.stage == (Stage::Acquired { view: false }),
        n <= 7,
    ensures
        device.after(recording_commands(FrameMode::Clear(color)), n) is Some,
        n < 7 ==> !(device.after(recording_commands(FrameMode::Clear(color)), n).unwrap().stage
            is Idle),
        n == 7 ==> device.after(recording_commands(FrameMode::Clear(color)), n) == Some(
            with_frame(device, frame_image(FrameMode::Clear(color))),
        ),
{
    let mode = FrameMode::Clear(color);
    let commands = recording_commands(mode);
    let image = frame_image(mode);
    assert(commands.len() == 7);
    let encoding = device.at(Stage::Recording { view: false });
    let viewed = device.at(Stage::Recording { view: true });
    let in_pass = device.at(Stage::InPass { image, pipeline_set: false, buffer_bound: false });
    let recorded = device.at(Stage::Recorded { image });
    let finished = device.at(Stage::Finished { image });
    let submitted = DeviceState {
        stage: Stage::Submitted { image },
        submitted: device.submitted.push(image),
        ..device
    };
    assert(device.after(commands, 0) == Some(device));
    assert(commands[0] == Command::CreateCommandEncoder { label: mode.encoder_label() });
    assert(device.after(commands, 1) == Some(encoding));
    assert(commands[1] == Command::CreateView);
    assert(device.after(commands, 2) == Some(viewed));
    assert(commands[2] == Command::BeginRenderPass(mode.pass()));
    assert(device.after(commands, 3) == Some(in_pass));
    assert(commands[3] == Command::EndRenderPass);
    assert(device.after(commands, 4) == Some(recorded));
    assert(commands[4] == Command::Finish);
    assert(device.after(commands, 5) == Some(finished));
    assert(commands[5] == Command::Submit);
    assert(device.after(commands, 6) == Some(submitted));
    assert(commands[6] == Command::Present);
    assert(device.after(commands, 7) == Some(with_frame(device, image)));
}

/// A drawing frame on a device that holds the frame texture and the
/// resources, step by step.
proof fn draw_recording_runs(device: DeviceState, n: nat)
    requires
        device.life is Bound,
        device.stage == (Stage::Acquired { view: false }),
        holds_resources(device),
        n <= 10,
    ensures
        device.after(recording_commands(FrameMode::ClearAndDraw), n) is Some,
        n < 10 ==> !(device.after(recording_commands(FrameMode::ClearAndDraw), n).unwrap().stage
            is Idle),
        n == 10 ==> device.after(recording_commands(FrameMode::ClearAndDraw), n) == Some(
            with_frame(device, frame_image(FrameMode::ClearAndDraw)),
        ),
{
    let mode = FrameMode::ClearAndDraw;
    let commands = recording_commands(mode);
    let image = frame_image(mode);
    let cleared = Image { background: Color::black(), triangle: None };
    assert(commands.len() == 10);
    let encoding = device.at(Stage::Recording { view: false });
    let viewed = device.at(Stage::Recording { view: true });
    let in_pass = device.at(
        Stage::InPass { image: cleared, pipeline_set: false, buffer_bound: false },
    );
    let with_pipeline = device.at(
        Stage::InPass { image: cleared, pipeline_set: true, buffer_bound: false },
    );
    let with_buffer = device.at(
        Stage::InPass { image: cleared, pipeline_set: true, buffer_bound: true },
    );
    let drawn = device.at(Stage::InPass { image, pipeline_set: true, buffer_bound: true });
    let recorded = device.at(Stage::Recorded { image });
    let finished = device.at(Stage::Finished { image });
    let submitted = DeviceState {
        stage: Stage::Submitted { image },
        submitted: device.submitted.push(image),
        ..device
    };
    assert(device.after(commands, 0) == Some(device));
    assert(commands[0] == Command::CreateCommandEncoder { label: mode.encoder_label() });
    assert(device.after(commands, 1) == Some(encoding));
    assert(commands[1] == Command::CreateView);
    assert(device.after(commands, 2) == Some(viewed));
    assert(commands[2] == Command::BeginRenderPass(mode.pass()));
    assert(device.after(commands, 3) == Some(in_pass));
    assert(commands[3] == Command::SetPipeline);
    assert(device.after(commands, 4) == Some(with_pipeline));
    assert(commands[4] == Command::SetVertexBuffer { slot: 0 });
    assert(device.after(commands, 5) == Some(with_buffer));
    assert(commands[5] == Command::Draw {
        first_vertex: 0,
        vertex_count: 3,
        first_instance: 0,
        instance_count: 1,
    });
    assert(device.after(commands, 6) == Some(drawn));
    assert(commands[6] == Command::EndRenderPass);
    assert(device.after(commands, 7) == Some(recorded));
    assert(commands[7] == Command::Finish);
    assert(device.after(commands, 8) == Some(finished));
    assert(commands[8] == Command::Submit);
    assert(device.after(commands, 9) == Some(submitted));
    assert(commands[9] == Command::Present);
    assert(device.after(commands, 10) == Some(with_frame(device, image)));
}

/// On a device that holds the frame texture, and the resources if the frame
/// draws, every command of the recording is accepted; the frame stays in
/// flight until the last of them, which presents it.
pub proof fn recording_runs(device: DeviceState, mode: FrameMode, n: nat)
    requires
        device.life is Bound,
        device.stage == (Stage::Acquired { view: false }),
        mode.draws() ==> holds_resources(device),
        n <= recording_commands(mode).len(),
    ensures
        device.after(recording_commands(mode), n) is Some,
        n < recording_commands(mode).len() ==> !(device.after(
            recording_commands(mode),
            n,
        ).unwrap().stage is Idle),
        n == recording_commands(mode).len() ==> device.after(recording_commands(mode), n) == Some(
            with_frame(device, frame_image(mode)),
        ),
{
    match mode {
        FrameMode::Clear(color) => {
            clear_recording_runs(device, color, n);
        },
        FrameMode::ClearAndDraw => {
            draw_recording_runs(device, n);
        },
    }
}

/// A frame whose texture was acquired goes through: the device accepts
/// every command, submits once, presents once what the mode calls for, and is
/// between two frames again.
pub proof fn frame_is_presented(world: World, mode: FrameMode)
    requires
        world.in_step(),
    ensures
        world.tick(Tick { mode, acquisition: Acquisition::Ready }) is Some,
        world.tick(Tick { mode, acquisition: Acquisition::Ready }).unwrap().in_step(),
        world.tick(Tick { mode, acquisition: Acquisition::Ready }).unwrap().device.submitted
            == world.device.submitted.push(frame_image(mode)),
        world.tick(Tick { mode, acquisition: Acquisition::Ready }).unwrap().device.presented
            == world.device.presented.push(frame_image(mode)),
{
    let acquired = world.device.at(Stage::Acquired { view: false });
    let recording = recording_commands(mode);
    if world.renderer.creates_resources(mode) {
        let resources = resource_commands(acquired.format);
        resources_are_created(acquired, resources.len());
        let made = with_resources(acquired);
        recording_runs(made, mode, recording.len());
        after_suffix(acquired, resources, recording, recording.len());
    } else {
        recording_runs(acquired, mode, recording.len());
    }
}

/// While a frame is in flight no other can begin: after the texture has been
/// acquired, and after any number of the frame's commands short of all, the
/// device refuses another acquisition, whatever its outcome would be.
pub proof fn frame_in_flight_refuses_acquisition(
    world: World,
    mode: FrameMode,
    n: nat,
    next: Acquisition,
)
    requires
        world.in_step(),
        n < world.renderer.frame_commands(mode).len(),
    ensures
        world.device.acquire(Acquisition::Ready) is Some,
        world.device.acquire(Acquisition::Ready).unwrap().after(
            world.renderer.frame_commands(mode),
            n,
        ) is Some,
        world.device.acquire(Acquisition::Ready).unwrap().after(
            world.renderer.frame_commands(mode),
            n,
        ).unwrap().acquire(next) is None,
{
    let acquired = world.device.at(Stage::Acquired { view: false });
    let recording = recording_commands(mode);
    if world.renderer.creates_resources(mode) {
        let resources = resource_commands(acquired.format);
        if n <= resources.len() {
            resources_are_created(acquired, n);
            after_prefix(acquired, resources, recording, n);
        } else {
            resources_are_created(acquired, resources.len());
            let made = with_resources(acquired);
            let m = (n - resources.len()) as nat;
            recording_runs(made, mode, m);
            after_suffix(acquired, resources, recording, m);
        }
    } else {
        recording_runs(acquired, mode, n);
    }
}

/// A timeout costs the frame and nothing else: the renderer hands out no
/// command, so nothing is submitted and nothing is presented, and renderer and
/// device are as they were.
pub proof fn timeout_skips_the_frame(world: World, mode: FrameMode, outcome: FrameOutcome)
    requires
        world.in_step(),
        outcome_matches(
            outcome,
            world.renderer,
            mode,
            Acquisition::Failed(AcquireError::Timeout),
        ),
    ensures
        outcome == FrameOutcome::Skipped,
        world.tick(Tick { mode, acquisition: Acquisition::Failed(AcquireError::Timeout) })
            == Some(world),
{
}

/// A new renderer and a device whose surface has just been configured for
/// it are in step.
pub proof fn fresh_world_is_in_step(format: wgpu::TextureFormat, width: u32, height: u32)
    ensures
        World::fresh(format, width, height).in_step(),
{
}

/// The surface is released once and the window is closed after it: a bound
/// surface keeps the window from closing; a released surface is not released
/// again, gives no frame texture and takes no command; and releasing between
/// two frames, then closing the window, is in order.
pub proof fn surface_is_released_once_before_its_window(
    device: DeviceState,
    command: Command,
    acquisition: Acquisition,
)
    ensures
        device.life is Bound ==> device.close_window() is None,
        device.release() matches Some(released) ==> {
            &&& released.release() is None
            &&& released.acquire(acquisition) is None
            &&& released.step(command) is None
            &&& released.close_window() matches Some(closed) && closed.release() is None
                && closed.close_window() is None && closed.acquire(acquisition) is None
                && closed.step(command) is None
        },
        (device.life is Bound && device.stage is Idle) ==> device.release() is Some,
{
}

/// The pipeline that a drawing frame creates is made for the format that
/// the surface is configured with at that moment, and a pipeline made for
/// another format is refused by the render pass.
pub proof fn pipeline_has_the_surface_format(renderer: RendererState, device: DeviceState)
    requires
        !renderer.resources_created,
    ensures
        renderer.frame_commands(FrameMode::ClearAndDraw)[2] == Command::CreateRenderPipeline(
            RenderPipelineDescriptor::triangle(renderer.config.format),
        ),
        RenderPipelineDescriptor::triangle(renderer.config.format).target.format
            == renderer.config.format,
        (device.pipeline matches Some(pipeline) && pipeline.target.format != device.format)
            ==> device.step(Command::SetPipeline) is None,
{
}

/// Every run of calls without a fatal failure goes through, and the device
/// has then submitted and presented exactly the frames of the calls whose
/// texture was acquired, in order, each as its own mode calls for.
pub proof fn history(world: World, ticks: Seq<Tick>)
    requires
        world.in_step(),
        forall|i: int| 0 <= i < ticks.len() ==> !(#[trigger] ticks[i]).is_fatal(),
    ensures
        world.play(ticks) is Some,
        world.play(ticks).unwrap().in_step(),
        world.play(ticks).unwrap().device.submitted == world.device.submitted + images(ticks),
        world.play(ticks).unwrap().device.presented == world.device.presented + images(ticks),
    decreases ticks.len(),
{
    if ticks.len() == 0 {
        assert(world.device.submitted + images(ticks) =~= world.device.submitted);
        assert(world.device.presented + images(ticks) =~= world.device.presented);
    } else {
        let before = ticks.drop_last();
        let last = ticks.last();
        assert forall|i: int| 0 <= i < before.len() implies !(#[trigger] before[i]).is_fatal() by {
            assert(before[i] == ticks[i]);
        }
        history(world, before);
        let then = world.play(before).unwrap();
        assert(!ticks[ticks.len() - 1].is_fatal());
        if last.is_rendered() {
            assert(last == Tick { mode: last.mode, acquisition: Acquisition::Ready });
            frame_is_presented(then, last.mode);
            let image = frame_image(last.mode);
            assert((world.device.submitted + images(before)).push(image)
                =~= world.device.submitted + images(ticks));
            assert((world.device.presented + images(before)).push(image)
                =~= world.device.presented + images(ticks));
        }
    }
}

/// The frames of `n` clears with one colour.
pub open spec fn clears(color: Color, n: nat) -> Seq<Tick> {
    Seq::new(n, |i: int| Tick { mode: FrameMode::Clear(color), acquisition: Acquisition::Ready })
}

/// Clearing `n` times with one colour presents `n` frames that show that
/// colour and nothing else, whatever was presented before.
pub proof fn repeated_clear_shows_only_its_color(world: World, color: Color, n: nat)
    requires
        world.in_step(),
    ensures
        world.play(clears(color, n)) is Some,
        world.play(clears(color, n)).unwrap().device.presented == world.device.presented
            + Seq::new(n, |i: int| Image { background: color, triangle: None }),
        world.play(clears(color, n)).unwrap().device.submitted.len()
            == world.device.submitted.len() + n,
{
    history(world, clears(color, n));
    images_of_clears(color, n);
}

/// The frames that `n` clears with one colour show.
pub proof fn images_of_clears(color: Color, n: nat)
    ensures
        images(clears(color, n)) == Seq::new(
            n,
            |i: int| Image { background: color, triangle: None },
        ),
    decreases n,
{
    let flat = |i: int| Image { background: color, triangle: None };
    if n > 0 {
        images_of_clears(color, (n - 1) as nat);
        assert(clears(color, n).drop_last() =~= clears(color, (n - 1) as nat));
        assert(Seq::new((n - 1) as nat, flat).push(frame_image(FrameMode::Clear(color)))
            =~= Seq::new(n, flat));
    } else {
        assert(images(clears(color, n)) =~= Seq::new(n, flat));
    }
}

/// The triangle is the same in every frame that draws: after any run of
/// calls, a drawing frame presents the three vertices `(0.75, 0.75)`,
/// `(0.75, -0.75)`, `(-0.75, -0.75)`, at depth `0.0` with weight `1.0`, on
/// opaque black.
pub proof fn triangle_is_the_same_after_any_history(world: World, ticks: Seq<Tick>)
    requires
        world.in_step(),
        forall|i: int| 0 <= i < ticks.len() ==> !(#[trigger] ticks[i]).is_fatal(),
    ensures
        world.play(ticks) is Some,
        world.play(ticks).unwrap().tick(
            Tick { mode: FrameMode::ClearAndDraw, acquisition: Acquisition::Ready },
        ) is Some,
        world.play(ticks).unwrap().tick(
            Tick { mode: FrameMode::ClearAndDraw, acquisition: Acquisition::Ready },
        ).unwrap().device.presented.last() == (Image {
            background: Color::black(),
            triangle: Some(Triangle::fixed()),
        }),
        Triangle::fixed().vertices() == seq![
            Vertex { x: F32_THREE_QUARTERS, y: F32_THREE_QUARTERS, z: F32_ZERO, w: F32_ONE },
            Vertex { x: F32_THREE_QUARTERS, y: F32_MINUS_THREE_QUARTERS, z: F32_ZERO, w: F32_ONE },
            Vertex {
                x: F32_MINUS_THREE_QUARTERS,
                y: F32_MINUS_THREE_QUARTERS,
                z: F32_ZERO,
                w: F32_ONE,
            },
        ],
{
    history(world, ticks);
    frame_is_presented(world.play(ticks).unwrap(), FrameMode::ClearAndDraw);
}

} // verus!
