use render_core::color::Color;
use render_core::command::{
    BufferUsage, Command, LoadOp, RenderPassDescriptor, VertexBufferDescriptor,
};
use render_core::device::{Device, Image, Life, Stage};
use render_core::pipeline::RenderPipelineDescriptor;
use render_core::renderer::{FrameOutcome, Renderer};
use render_core::surface::{AcquireError, Acquisition};
use render_core::vertex::Triangle;

const FORMAT: wgpu::TextureFormat = wgpu::TextureFormat::Bgra8UnormSrgb;

fn perform(device: &mut Device, acquisition: Acquisition, outcome: FrameOutcome) {
    assert!(device.acquire(acquisition));
    match outcome {
        FrameOutcome::Render(commands) => assert_eq!(device.run(&commands), Ok(())),
        FrameOutcome::Skipped => {}
        FrameOutcome::Fatal(error) => panic!("fatal: {}", error.message()),
    }
}

fn flat(color: Color) -> Image {
    Image { background: color, triangle: None }
}

fn pass(load: LoadOp, store: bool) -> Command {
    Command::BeginRenderPass(RenderPassDescriptor { label: "pass", load, store })
}

#[test]
fn new_device_is_idle_and_empty() {
    let device = Device::new(FORMAT);
    assert_eq!(device.life(), Life::Bound);
    assert_eq!(device.stage(), Stage::Idle);
    assert_eq!(device.submission_count(), 0);
    assert_eq!(device.presented_count(), 0);
    assert_eq!(device.presented_frame(0), None);
}

#[test]
fn repeated_clear_presents_only_that_color() {
    let mut renderer = Renderer::new(FORMAT, 640, 480);
    let mut device = Device::new(FORMAT);
    let color = Color::from_bits(
        0.1f64.to_bits(),
        0.2f64.to_bits(),
        0.3f64.to_bits(),
        1.0f64.to_bits(),
    );
    for n in 1..=10 {
        let outcome = renderer.clear_immediate(color, Acquisition::Ready);
        perform(&mut device, Acquisition::Ready, outcome);
        assert_eq!(device.presented_count(), n);
        assert_eq!(device.submission_count(), n);
        assert_eq!(device.stage(), Stage::Idle);
    }
    for i in 0..10 {
        assert_eq!(device.presented_frame(i), Some(flat(color)));
    }
    assert_eq!(device.presented_frame(10), None);
}

#[test]
fn clear_shows_no_residue_of_the_frame_before() {
    let mut renderer = Renderer::new(FORMAT, 640, 480);
    let mut device = Device::new(FORMAT);
    let red = Color::from_bits(1.0f64.to_bits(), 0, 0, 1.0f64.to_bits());
    let green = Color::from_bits(0, 1.0f64.to_bits(), 0, 1.0f64.to_bits());
    let first = renderer.ch1_draw(Acquisition::Ready);
    perform(&mut device, Acquisition::Ready, first);
    let second = renderer.clear_immediate(red, Acquisition::Ready);
    perform(&mut device, Acquisition::Ready, second);
    let third = renderer.clear_immediate(green, Acquisition::Ready);
    perform(&mut device, Acquisition::Ready, third);
    assert_eq!(
        device.presented_frame(0),
        Some(Image { background: Color::opaque_black(), triangle: Some(Triangle::new()) })
    );
    assert_eq!(device.presented_frame(1), Some(flat(red)));
    assert_eq!(device.presented_frame(2), Some(flat(green)));
}

#[test]
fn triangle_is_the_same_in_every_frame() {
    let mut renderer = Renderer::new(FORMAT, 640, 480);
    let mut device = Device::new(FORMAT);
    for n in 1..=6 {
        let outcome = renderer.ch1_draw(Acquisition::Ready);
        perform(&mut device, Acquisition::Ready, outcome);
        let frame = device.presented_frame(n - 1).expect("the frame was presented");
        assert_eq!(frame.background, Color::opaque_black());
        let triangle = frame.triangle.expect("the triangle was drawn");
        let corners: Vec<(f32, f32)> = triangle
            .to_vertices()
            .iter()
            .map(|v| (f32::from_bits(v.x), f32::from_bits(v.y)))
            .collect();
        assert_eq!(corners, vec![(0.75, 0.75), (0.75, -0.75), (-0.75, -0.75)]);
    }
}

#[test]
fn timeout_leaves_the_device_untouched() {
    let mut renderer = Renderer::new(FORMAT, 640, 480);
    let mut device = Device::new(FORMAT);
    let timeout = Acquisition::Failed(AcquireError::Timeout);
    let outcome = renderer.ch1_draw(timeout);
    assert_eq!(outcome, FrameOutcome::Skipped);
    perform(&mut device, timeout, outcome);
    assert_eq!(device.submission_count(), 0);
    assert_eq!(device.presented_count(), 0);
    assert_eq!(device.stage(), Stage::Idle);
    let next = renderer.ch1_draw(Acquisition::Ready);
    perform(&mut device, Acquisition::Ready, next);
    assert_eq!(device.submission_count(), 1);
    assert_eq!(device.presented_count(), 1);
}

#[test]
fn timeouts_between_frames_cost_only_their_own_frame() {
    let mut renderer = Renderer::new(FORMAT, 640, 480);
    let mut device = Device::new(FORMAT);
    let color = Color::from_bits(7, 7, 7, 7);
    let outcomes = [
        Acquisition::Ready,
        Acquisition::Failed(AcquireError::Timeout),
        Acquisition::Ready,
        Acquisition::Failed(AcquireError::Timeout),
        Acquisition::Failed(AcquireError::Timeout),
        Acquisition::Ready,
    ];
    for acquisition in outcomes {
        let outcome = renderer.clear_immediate(color, acquisition);
        perform(&mut device, acquisition, outcome);
    }
    assert_eq!(device.submission_count(), 3);
    assert_eq!(device.presented_count(), 3);
}

#[test]
fn second_frame_cannot_begin_while_one_is_in_flight() {
    let mut renderer = Renderer::new(FORMAT, 640, 480);
    let mut device = Device::new(FORMAT);
    let commands = match renderer.ch1_draw(Acquisition::Ready) {
        FrameOutcome::Render(commands) => commands,
        _ => panic!("an acquired frame is rendered"),
    };
    assert!(device.acquire(Acquisition::Ready));
    for command in &commands {
        assert_ne!(device.stage(), Stage::Idle);
        assert!(!device.acquire(Acquisition::Ready));
        assert!(!device.acquire(Acquisition::Failed(AcquireError::Timeout)));
        assert!(device.execute(command));
    }
    assert_eq!(device.stage(), Stage::Idle);
    assert!(device.acquire(Acquisition::Ready));
}

#[test]
fn frame_goes_through_its_stages_in_order() {
    let mut renderer = Renderer::new(FORMAT, 640, 480);
    let mut device = Device::new(FORMAT);
    let color = Color::from_bits(1, 1, 1, 1);
    let commands = match renderer.clear_immediate(color, Acquisition::Ready) {
        FrameOutcome::Render(commands) => commands,
        _ => panic!("an acquired frame is rendered"),
    };
    assert!(device.acquire(Acquisition::Ready));
    let mut stages = vec![device.stage()];
    for command in &commands {
        assert!(device.execute(command));
        stages.push(device.stage());
    }
    let image = flat(color);
    assert_eq!(
        stages,
        vec![
            Stage::Acquired { view: false },
            Stage::Recording { view: false },
            Stage::Recording { view: true },
            Stage::InPass { image, pipeline_set: false, buffer_bound: false },
            Stage::Recorded { image },
            Stage::Finished { image },
            Stage::Submitted { image },
            Stage::Idle,
        ]
    );
}

#[test]
fn commands_out_of_order_are_refused() {
    let mut device = Device::new(FORMAT);
    for command in [
        Command::CreateView,
        Command::CreateCommandEncoder { label: "e" },
        pass(LoadOp::Clear(Color::opaque_black()), true),
        Command::SetPipeline,
        Command::SetVertexBuffer { slot: 0 },
        Command::Draw { first_vertex: 0, vertex_count: 3, first_instance: 0, instance_count: 1 },
        Command::EndRenderPass,
        Command::Finish,
        Command::Submit,
        Command::Present,
    ] {
        assert!(!device.execute(&command));
        assert_eq!(device.stage(), Stage::Idle);
    }
    assert!(device.acquire(Acquisition::Ready));
    assert!(!device.execute(&Command::Present));
    assert!(!device.execute(&Command::Submit));
    assert!(!device.execute(&pass(LoadOp::Clear(Color::opaque_black()), true)));
    assert!(device.execute(&Command::CreateView));
    assert!(!device.execute(&Command::CreateView));
    assert!(device.execute(&Command::CreateCommandEncoder { label: "e" }));
    assert!(!device.execute(&Command::Finish));
}

#[test]
fn run_stops_at_the_refused_command() {
    let mut device = Device::new(FORMAT);
    assert!(device.acquire(Acquisition::Ready));
    let commands = vec![
        Command::CreateCommandEncoder { label: "e" },
        Command::CreateView,
        Command::Submit,
        Command::Present,
    ];
    assert_eq!(device.run(&commands), Err(2));
    assert_eq!(device.stage(), Stage::Recording { view: true });
    assert_eq!(device.submission_count(), 0);
    assert_eq!(device.run(&Vec::new()), Ok(()));
}

#[test]
fn pass_must_clear_and_store() {
    let mut device = Device::new(FORMAT);
    assert!(device.acquire(Acquisition::Ready));
    assert!(device.execute(&Command::CreateCommandEncoder { label: "e" }));
    assert!(device.execute(&Command::CreateView));
    assert!(!device.execute(&pass(LoadOp::Load, true)));
    assert!(!device.execute(&pass(LoadOp::Clear(Color::opaque_black()), false)));
    assert!(device.execute(&pass(LoadOp::Clear(Color::opaque_black()), true)));
}

#[test]
fn pipeline_needs_shader_and_layout() {
    let mut device = Device::new(FORMAT);
    let pipeline = Command::CreateRenderPipeline(RenderPipelineDescriptor::build(FORMAT));
    assert!(!device.execute(&pipeline));
    assert!(device.execute(&Command::CreateShaderModule(
        render_core::pipeline::ShaderModuleDescriptor::for_triangle()
    )));
    assert!(!device.execute(&pipeline));
    assert!(device.execute(&Command::CreatePipelineLayout(
        render_core::pipeline::PipelineLayoutDescriptor::for_triangle()
    )));
    assert!(device.execute(&pipeline));
}

fn device_in_pass(pipeline_format: wgpu::TextureFormat, usage: BufferUsage) -> Device {
    let mut device = Device::new(FORMAT);
    let mut buffer = VertexBufferDescriptor::for_triangle();
    buffer.usage = usage;
    let commands = vec![
        Command::CreateShaderModule(render_core::pipeline::ShaderModuleDescriptor::for_triangle()),
        Command::CreatePipelineLayout(
            render_core::pipeline::PipelineLayoutDescriptor::for_triangle(),
        ),
        Command::CreateRenderPipeline(RenderPipelineDescriptor::build(pipeline_format)),
        Command::CreateVertexBuffer(buffer),
        Command::CreateCommandEncoder { label: "e" },
        Command::CreateView,
        pass(LoadOp::Clear(Color::opaque_black()), true),
    ];
    assert!(device.acquire(Acquisition::Ready));
    assert_eq!(device.run(&commands), Ok(()));
    device
}

#[test]
fn pipeline_of_another_format_is_refused() {
    let mut stale = device_in_pass(wgpu::TextureFormat::Rgba8Unorm, BufferUsage::Vertex);
    assert!(!stale.execute(&Command::SetPipeline));
    let mut current = device_in_pass(FORMAT, BufferUsage::Vertex);
    assert!(current.execute(&Command::SetPipeline));
}

#[test]
fn vertex_buffer_needs_its_usage_and_slot() {
    let mut wrong = device_in_pass(FORMAT, BufferUsage::Index);
    assert!(!wrong.execute(&Command::SetVertexBuffer { slot: 0 }));
    let mut right = device_in_pass(FORMAT, BufferUsage::Vertex);
    assert!(!right.execute(&Command::SetVertexBuffer { slot: 1 }));
    assert!(right.execute(&Command::SetVertexBuffer { slot: 0 }));
}

#[test]
fn draw_needs_pipeline_and_buffer_and_stays_in_the_buffer() {
    let draw = |first_vertex, vertex_count, instance_count| Command::Draw {
        first_vertex,
        vertex_count,
        first_instance: 0,
        instance_count,
    };
    let mut device = device_in_pass(FORMAT, BufferUsage::Vertex);
    assert!(!device.execute(&draw(0, 3, 1)));
    assert!(device.execute(&Command::SetPipeline));
    assert!(!device.execute(&draw(0, 3, 1)));
    assert!(device.execute(&Command::SetVertexBuffer { slot: 0 }));
    assert!(!device.execute(&draw(0, 4, 1)));
    assert!(!device.execute(&draw(1, 3, 1)));
    assert!(!device.execute(&draw(4, 0, 1)));
    assert!(!device.execute(&draw(u32::MAX, u32::MAX, 1)));
    assert!(device.execute(&draw(0, 2, 1)));
    assert_eq!(
        device.stage(),
        Stage::InPass {
            image: flat(Color::opaque_black()),
            pipeline_set: true,
            buffer_bound: true
        }
    );
    assert!(device.execute(&draw(0, 3, 0)));
    assert!(device.execute(&draw(0, 3, 1)));
    assert_eq!(
        device.stage(),
        Stage::InPass {
            image: Image { background: Color::opaque_black(), triangle: Some(Triangle::new()) },
            pipeline_set: true,
            buffer_bound: true
        }
    );
    assert!(!device.execute(&draw(0, 3, 1)));
}

#[test]
fn failed_acquisition_keeps_the_device_idle() {
    let mut device = Device::new(FORMAT);
    for error in [
        AcquireError::Timeout,
        AcquireError::Outdated,
        AcquireError::Lost,
        AcquireError::OutOfMemory,
    ] {
        assert!(device.acquire(Acquisition::Failed(error)));
        assert_eq!(device.stage(), Stage::Idle);
    }
}

#[test]
fn renderer_goes_before_its_window() {
    let mut renderer = Renderer::new(FORMAT, 640, 480);
    let mut device = Device::new(FORMAT);
    let outcome = renderer.ch1_draw(Acquisition::Ready);
    perform(&mut device, Acquisition::Ready, outcome);
    drop(renderer);
    assert!(device.release());
    assert_eq!(device.life(), Life::Released);
    assert!(device.close_window());
    assert_eq!(device.life(), Life::Closed);
    assert_eq!(device.presented_count(), 1);
}

#[test]
fn window_cannot_close_under_a_bound_surface() {
    let mut renderer = Renderer::new(FORMAT, 640, 480);
    let mut device = Device::new(FORMAT);
    assert!(!device.close_window());
    assert_eq!(device.life(), Life::Bound);
    let outcome = renderer.clear_immediate(Color::opaque_black(), Acquisition::Ready);
    perform(&mut device, Acquisition::Ready, outcome);
    assert!(!device.close_window());
    assert_eq!(device.life(), Life::Bound);
}

#[test]
fn surface_is_released_only_once() {
    let mut device = Device::new(FORMAT);
    assert!(device.release());
    assert!(!device.release());
    assert_eq!(device.life(), Life::Released);
    assert!(device.close_window());
    assert!(!device.release());
    assert!(!device.close_window());
    assert_eq!(device.life(), Life::Closed);
}

#[test]
fn released_surface_takes_nothing() {
    let mut renderer = Renderer::new(FORMAT, 640, 480);
    let mut device = Device::new(FORMAT);
    assert!(device.release());
    assert!(!device.acquire(Acquisition::Ready));
    assert!(!device.acquire(Acquisition::Failed(AcquireError::Timeout)));
    let commands = match renderer.ch1_draw(Acquisition::Ready) {
        FrameOutcome::Render(commands) => commands,
        _ => panic!("an acquired frame is rendered"),
    };
    for command in &commands {
        assert!(!device.execute(command));
    }
    assert_eq!(device.run(&commands), Err(0));
    assert_eq!(device.submission_count(), 0);
    assert_eq!(device.presented_count(), 0);
}

#[test]
fn surface_is_not_released_with_a_frame_in_flight() {
    let mut device = Device::new(FORMAT);
    assert!(device.acquire(Acquisition::Ready));
    assert!(!device.release());
    assert_eq!(device.life(), Life::Bound);
    assert_eq!(device.stage(), Stage::Acquired { view: false });
}
