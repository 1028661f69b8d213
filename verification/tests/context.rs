use struggle::adapter::Adapter;
use struggle::adapter::AdapterKind;
use struggle::color::hsla_to_rgba;
use struggle::color::DEGREE;
use struggle::color::FULL_TURN;
use struggle::context::hue;
use struggle::context::Context;
use struggle::context::ContextError;
use struggle::context::Fault;
use struggle::context::Handler;
use struggle::context::Phase;
use struggle::context::ALPHA;
use struggle::context::HUE_RATE;
use struggle::context::LIGHTNESS;
use struggle::context::SATURATION;
use struggle::gpu::Command;
use struggle::gpu::Extent;
use struggle::gpu::Reply;
use struggle::pipeline::rasterizer;
use struggle::shader::ShaderKind;
use struggle::shared::BufferKind;
use struggle::swapchain::BackBufferView;
use struggle::swapchain::Format;
use struggle::swapchain::SwapChain;

const WINDOW: usize = 0x5eed;

/// Carries out every command with success and returns them in order.
fn drain(context: &mut Context) -> Vec<Command> {
    let mut issued = Vec::new();
    let mut next = context.command();
    while let Some(command) = next {
        issued.push(command);
        next = context.advance(Reply::Done).expect("a success halts nothing");
    }
    issued
}

/// A context that has started up.
fn started() -> Context {
    let mut context = Context::new(false);
    drain(&mut context);
    context
}

/// A context with the swap chain of a window of 800 x 600.
fn ready() -> Context {
    let mut context = started();
    context.set_swap_chain(WINDOW, 800, 600).expect("the surface is accepted");
    drain(&mut context);
    context
}

fn position(issued: &[Command], wanted: fn(&Command) -> bool) -> usize {
    issued.iter().position(wanted).expect("the command was issued")
}

#[test]
fn start_up_creates_device_and_pipeline_in_order() {
    let mut context = Context::new(true);
    assert_eq!(context.state().handler, Some(Handler::Startup { debug: true }));
    assert_eq!(context.state().time, 0);
    let issued = drain(&mut context);
    assert_eq!(
        issued,
        vec![
            Command::CreateFactory { debug: true },
            Command::SelectAdapter { prefer: AdapterKind::HighPerformance },
            Command::CreateDevice { debug: true, feature_level: 0xb000 },
            Command::CompileShader { kind: ShaderKind::Vertex },
            Command::CompileShader { kind: ShaderKind::Pixel },
            Command::CreateShader { kind: ShaderKind::Vertex },
            Command::CreateShader { kind: ShaderKind::Pixel },
            Command::CreateInputLayout,
            Command::CreateRasterizerState { desc: rasterizer() },
            Command::CreateBuffer { kind: BufferKind::Vertex },
            Command::CreateBuffer { kind: BufferKind::Index },
        ]
    );
    let state = context.state();
    assert_eq!(context.phase(), Phase::Idle);
    assert_eq!(state.handler, None);
    assert_eq!(state.fault, None);
    assert!(state.gpu.factory && state.gpu.adapter);
    assert_eq!(state.gpu.device, Some(Adapter { debug_layer: true }));
    assert!(state.gpu.pipeline.vertex_shader && state.gpu.pipeline.pixel_shader);
    assert!(state.gpu.pipeline.input_layout && state.gpu.pipeline.rasterizer_state);
    assert!(state.gpu.pipeline.vertex_buffer && state.gpu.pipeline.index_buffer);
    assert_eq!(state.gpu.swap_chain, None);
    assert_eq!(state.gpu.view, None);
}

#[test]
fn release_build_asks_for_no_debug_layer() {
    let mut context = Context::new(false);
    let issued = drain(&mut context);
    assert_eq!(issued[0], Command::CreateFactory { debug: false });
    assert_eq!(issued[2], Command::CreateDevice { debug: false, feature_level: 0xb000 });
    assert_eq!(context.state().gpu.device, Some(Adapter { debug_layer: false }));
}

#[test]
fn one_command_is_in_flight_until_the_reply() {
    let mut context = Context::new(false);
    assert_eq!(context.command(), Some(Command::CreateFactory { debug: false }));
    assert_eq!(context.command(), Some(Command::CreateFactory { debug: false }));
    assert!(!context.state().gpu.factory);
    let next = context.advance(Reply::Done);
    assert_eq!(next, Ok(Some(Command::SelectAdapter { prefer: AdapterKind::HighPerformance })));
    assert!(context.state().gpu.factory);
    assert!(!context.state().gpu.adapter);
    assert_eq!(context.phase(), Phase::Busy);
}

#[test]
fn surface_gets_swap_chain_and_one_view() {
    let mut context = started();
    assert_eq!(context.set_swap_chain(WINDOW, 800, 600), Ok(()));
    let issued = drain(&mut context);
    assert_eq!(
        issued,
        vec![
            Command::CreateSwapChain { window: WINDOW, desc: SwapChain::new(WINDOW, 800, 600).desc() },
            Command::DisableAltEnter { window: WINDOW },
            Command::BuildView { buffer: 0 },
            Command::SetViewport { width: 800, height: 600 },
            Command::SetScissor { width: 800, height: 600 },
        ]
    );
    let gpu = context.state().gpu;
    assert_eq!(
        gpu.swap_chain,
        Some(SwapChain { window: WINDOW, width: 800, height: 600, generation: 0 })
    );
    assert_eq!(
        gpu.view,
        Some(BackBufferView { format: Format::Rgba8Unorm, width: 800, height: 600, generation: 0 })
    );
    assert_eq!(gpu.viewport, Some(Extent { width: 800, height: 600 }));
    assert_eq!(gpu.scissor, Some(Extent { width: 800, height: 600 }));
    assert_eq!(context.phase(), Phase::Idle);
}

#[test]
fn second_swap_chain_is_refused() {
    let mut context = ready();
    let before = context.state();
    assert_eq!(context.set_swap_chain(WINDOW, 640, 480), Err(ContextError::SwapChainExists));
    assert_eq!(context.set_swap_chain(WINDOW + 1, 800, 600), Err(ContextError::SwapChainExists));
    assert_eq!(context.state(), before);
    assert_eq!(context.command(), None);
}

#[test]
fn resize_releases_the_view_before_it_resizes_and_rebuilds_after() {
    let mut context = ready();
    assert_eq!(context.resize_buffers(1024, 768), Ok(()));
    let issued = drain(&mut context);
    assert_eq!(
        issued,
        vec![
            Command::Flush,
            Command::ReleaseView,
            Command::ResizeBuffers { buffer_count: 0, width: 1024, height: 768, format: Format::Unknown },
            Command::BuildView { buffer: 0 },
            Command::SetViewport { width: 1024, height: 768 },
            Command::SetScissor { width: 1024, height: 768 },
            Command::RequestRedraw,
        ]
    );
    let release = position(&issued, |c| *c == Command::ReleaseView);
    let resize = position(&issued, |c| matches!(c, Command::ResizeBuffers { .. }));
    let build = position(&issued, |c| *c == Command::BuildView { buffer: 0 });
    assert!(release < resize && resize < build);
}

#[test]
fn resize_walks_through_its_phases() {
    let mut context = ready();
    let view = context.state().gpu.view;
    assert_eq!(context.phase(), Phase::Idle);
    context.resize_buffers(1024, 768).unwrap();
    assert_eq!(context.phase(), Phase::Flushing);
    assert_eq!(context.command(), Some(Command::Flush));
    assert_eq!(context.advance(Reply::Done), Ok(Some(Command::ReleaseView)));
    assert_eq!(context.phase(), Phase::ViewReleased);
    assert_eq!(context.state().gpu.view, view);
    assert_eq!(
        context.advance(Reply::Done),
        Ok(Some(Command::ResizeBuffers { buffer_count: 0, width: 1024, height: 768, format: Format::Unknown }))
    );
    assert_eq!(context.phase(), Phase::BuffersResized);
    assert_eq!(context.state().gpu.view, None);
    assert_eq!(context.state().gpu.swap_chain.unwrap().width, 800);
    assert_eq!(context.advance(Reply::Done), Ok(Some(Command::BuildView { buffer: 0 })));
    assert_eq!(context.phase(), Phase::ViewRebuilt);
    assert_eq!(context.state().gpu.view, None);
    assert_eq!(
        context.state().gpu.swap_chain,
        Some(SwapChain { window: WINDOW, width: 1024, height: 768, generation: 1 })
    );
    assert_eq!(
        context.advance(Reply::Done),
        Ok(Some(Command::SetViewport { width: 1024, height: 768 }))
    );
    assert_eq!(
        context.state().gpu.view,
        Some(BackBufferView { format: Format::Rgba8Unorm, width: 1024, height: 768, generation: 1 })
    );
    assert_eq!(
        context.advance(Reply::Done),
        Ok(Some(Command::SetScissor { width: 1024, height: 768 }))
    );
    assert_eq!(context.advance(Reply::Done), Ok(Some(Command::RequestRedraw)));
    assert_eq!(context.phase(), Phase::ViewRebuilt);
    assert_eq!(context.advance(Reply::Done), Ok(None));
    assert_eq!(context.phase(), Phase::Idle);
}

#[test]
fn resize_without_area_does_nothing() {
    for (width, height) in [(0, 0), (0, 600), (800, 0)] {
        let mut context = ready();
        let before = context.state();
        assert_eq!(context.resize_buffers(width, height), Ok(()));
        assert_eq!(context.command(), None);
        assert_eq!(context.phase(), Phase::Idle);
        assert_eq!(context.state(), before);
        assert!(drain(&mut context).is_empty());
    }
}

#[test]
fn resize_without_area_is_accepted_before_the_swap_chain_exists() {
    let mut context = started();
    assert_eq!(context.resize_buffers(0, 0), Ok(()));
    assert_eq!(context.command(), None);
}

#[test]
fn resize_sequence_leaves_one_view_of_the_last_size() {
    let mut context = ready();
    let mut issued = Vec::new();
    for (width, height) in [(800, 600), (0, 0), (1024, 768)] {
        context.resize_buffers(width, height).unwrap();
        issued.extend(drain(&mut context));
    }
    let gpu = context.state().gpu;
    assert_eq!(
        gpu.view,
        Some(BackBufferView { format: Format::Rgba8Unorm, width: 1024, height: 768, generation: 2 })
    );
    assert_eq!(
        gpu.swap_chain,
        Some(SwapChain { window: WINDOW, width: 1024, height: 768, generation: 2 })
    );
    assert_eq!(gpu.viewport, Some(Extent { width: 1024, height: 768 }));
    // Every view that was built, but the last, was released again.
    let mut live = 1;
    for command in &issued {
        match command {
            Command::BuildView { .. } => {
                assert_eq!(live, 0);
                live += 1;
            }
            Command::ReleaseView => {
                assert_eq!(live, 1);
                live -= 1;
            }
            Command::ResizeBuffers { .. } => assert_eq!(live, 0),
            _ => {}
        }
    }
    assert_eq!(live, 1);
    assert_eq!(issued.iter().filter(|c| matches!(c, Command::ResizeBuffers { .. })).count(), 2);
    assert_eq!(context.phase(), Phase::Idle);
}

#[test]
fn failed_resize_rebuilds_nothing_and_halts() {
    let mut context = ready();
    context.resize_buffers(1024, 768).unwrap();
    context.advance(Reply::Done).unwrap();
    context.advance(Reply::Done).unwrap();
    let command = Command::ResizeBuffers { buffer_count: 0, width: 1024, height: 768, format: Format::Unknown };
    assert_eq!(context.command(), Some(command));
    let fault = Fault { command, code: -2005270523 };
    assert_eq!(
        context.advance(Reply::Failed { code: -2005270523 }),
        Err(ContextError::Halted { fault })
    );
    assert_eq!(context.command(), None);
    assert_eq!(context.phase(), Phase::Halted);
    let state = context.state();
    assert_eq!(state.fault, Some(fault));
    assert_eq!(state.gpu.view, None);
    assert_eq!(state.gpu.swap_chain.unwrap().generation, 0);
    assert_eq!(state.gpu.swap_chain.unwrap().width, 800);
}

#[test]
fn halted_context_refuses_everything() {
    let mut context = Context::new(false);
    context.advance(Reply::Done).unwrap();
    let failed = Command::SelectAdapter { prefer: AdapterKind::HighPerformance };
    let halted = ContextError::Halted { fault: Fault { command: failed, code: -1 } };
    assert_eq!(context.advance(Reply::Failed { code: -1 }), Err(halted));
    let state = context.state();
    assert_eq!(context.advance(Reply::Done), Err(halted));
    assert_eq!(context.advance(Reply::Failed { code: -2 }), Err(halted));
    assert_eq!(context.set_swap_chain(WINDOW, 800, 600), Err(halted));
    assert_eq!(context.resize_buffers(800, 600), Err(halted));
    assert_eq!(context.resize_buffers(0, 0), Err(halted));
    assert_eq!(context.frame(1), Err(halted));
    assert_eq!(context.present(), Err(halted));
    assert_eq!(context.state(), state);
    assert_eq!(context.command(), None);
}

#[test]
fn busy_context_refuses_events() {
    let mut context = Context::new(false);
    let state = context.state();
    assert_eq!(context.set_swap_chain(WINDOW, 800, 600), Err(ContextError::Busy));
    assert_eq!(context.resize_buffers(800, 600), Err(ContextError::Busy));
    assert_eq!(context.resize_buffers(0, 0), Err(ContextError::Busy));
    assert_eq!(context.frame(0), Err(ContextError::Busy));
    assert_eq!(context.present(), Err(ContextError::Busy));
    assert_eq!(context.state(), state);

    let mut context = ready();
    context.resize_buffers(640, 480).unwrap();
    assert_eq!(context.frame(0), Err(ContextError::Busy));
    assert_eq!(context.phase(), Phase::Flushing);
}

#[test]
fn events_without_swap_chain_are_refused() {
    let mut context = started();
    let state = context.state();
    assert_eq!(context.resize_buffers(800, 600), Err(ContextError::SwapChainMissing));
    assert_eq!(context.frame(16_000_000), Err(ContextError::SwapChainMissing));
    assert_eq!(context.present(), Err(ContextError::SwapChainMissing));
    assert_eq!(context.state(), state);
}

#[test]
fn reply_without_command_changes_nothing() {
    let mut context = ready();
    let state = context.state();
    assert_eq!(context.advance(Reply::Done), Ok(None));
    assert_eq!(context.advance(Reply::Failed { code: -1 }), Ok(None));
    assert_eq!(context.state(), state);
}

#[test]
fn frame_sets_up_clears_draws_and_presents_in_order() {
    let mut context = ready();
    let gpu = context.state().gpu;
    assert_eq!(context.frame(0), Ok(()));
    let issued = drain(&mut context);
    assert_eq!(
        issued,
        vec![
            Command::SetViewport { width: 800, height: 600 },
            Command::SetScissor { width: 800, height: 600 },
            Command::BindRenderTarget,
            Command::Clear { color: hsla_to_rgba(0, 400, 800, 1000) },
            Command::BindGeometry,
            Command::BindShaders,
            Command::DrawIndexed { indices: 3 },
            Command::Present { sync_interval: 1, flags: 0 },
            Command::RequestRedraw,
        ]
    );
    assert_eq!(context.state().gpu.swap_chain, gpu.swap_chain);
    assert_eq!(context.state().gpu.view, gpu.view);
    assert!(!context.state().gpu.target_bound);
    assert_eq!(context.phase(), Phase::Idle);
}

#[test]
fn frame_uses_the_size_of_the_resized_buffers() {
    let mut context = ready();
    context.resize_buffers(320, 200).unwrap();
    drain(&mut context);
    context.frame(0).unwrap();
    let issued = drain(&mut context);
    assert_eq!(issued[0], Command::SetViewport { width: 320, height: 200 });
    assert_eq!(issued[1], Command::SetScissor { width: 320, height: 200 });
}

#[test]
fn first_present_has_no_delta() {
    let mut context = ready();
    assert_eq!(context.present(), Ok(()));
    assert_eq!(context.state().time, 0);
    let issued = drain(&mut context);
    assert_eq!(issued[3], Command::Clear { color: hsla_to_rgba(0, SATURATION, LIGHTNESS, ALPHA) });
    assert_eq!(context.present(), Ok(()));
    drain(&mut context);
    assert_eq!(context.present(), Ok(()));
}

#[test]
fn presents_accumulate_the_time_of_the_clock() {
    let mut context = ready();
    let mut last = 0;
    for _ in 0..5 {
        context.present().unwrap();
        let time = context.state().time;
        assert!(time >= last);
        last = time;
        let issued = drain(&mut context);
        assert_eq!(
            issued[3],
            Command::Clear { color: hsla_to_rgba(hue(time), SATURATION, LIGHTNESS, ALPHA) }
        );
    }
}

#[test]
fn present_moves_the_animation_by_the_delta_of_the_clock() {
    let mut context = ready();
    assert!(!context.timer().ticked);
    context.present().unwrap();
    assert!(context.timer().ticked);
    assert_eq!(context.timer().delta, 0);
    drain(&mut context);
    let mut time = 0;
    for _ in 0..3 {
        context.present().unwrap();
        time += context.timer().delta;
        assert_eq!(context.state().time, time);
        drain(&mut context);
    }
}

#[test]
fn refused_present_does_not_read_the_clock() {
    let mut context = started();
    assert_eq!(context.present(), Err(ContextError::SwapChainMissing));
    assert!(!context.timer().ticked);
    let mut context = Context::new(false);
    assert_eq!(context.present(), Err(ContextError::Busy));
    assert!(!context.timer().ticked);
    let mut context = ready();
    context.present().unwrap();
    let timer = context.timer();
    assert_eq!(context.present(), Err(ContextError::Busy));
    assert_eq!(context.timer().last_frame, timer.last_frame);
    assert_eq!(context.timer().delta, timer.delta);
}

#[test]
fn errors_have_a_code_and_a_message() {
    let fault = Fault { command: Command::Flush, code: -2005270523 };
    let halted = ContextError::Halted { fault };
    assert_eq!(halted.code(), -2005270523);
    assert_eq!(halted.message(), "a call of the graphics interface failed");
    assert_eq!(ContextError::Busy.code(), -1);
    assert_eq!(ContextError::Busy.message(), "an earlier event is still being handled");
    assert_eq!(ContextError::SwapChainMissing.code(), -1);
    assert_eq!(ContextError::SwapChainMissing.message(), "swap chain wasn't created");
    assert_eq!(ContextError::SwapChainExists.code(), -1);
    assert_eq!(ContextError::SwapChainExists.message(), "swap chain was created before");
}

#[test]
fn half_a_second_moves_the_hue_across_a_sector() {
    let mut context = ready();
    context.frame(0).unwrap();
    let first = drain(&mut context);
    context.frame(500_000_000).unwrap();
    let second = drain(&mut context);
    assert_eq!(context.state().time, 500_000_000);
    // 0.5 s at 40 pi degrees a second: 62.831853 degrees.
    let advanced = 62_831_853 * (DEGREE / 1_000_000);
    assert_eq!(hue(0), 0);
    assert_eq!(hue(500_000_000), advanced);
    assert_eq!(hue(500_000_000), 500_000_000 * HUE_RATE as i128);
    assert_eq!(first[3], Command::Clear { color: hsla_to_rgba(0, 400, 800, 1000) });
    assert_eq!(second[3], Command::Clear { color: hsla_to_rgba(advanced, 400, 800, 1000) });
    // In sector 1 green carries the chroma: c = 0.16, m = 0.72.
    match second[3] {
        Command::Clear { color } => {
            assert_eq!(color.green, struggle::color::CHANNEL_ONE / 100 * 88);
            assert_eq!(color.blue, struggle::color::CHANNEL_ONE / 100 * 72);
            assert!(color.red > color.blue && color.red < color.green);
        }
        _ => unreachable!(),
    }
}

#[test]
fn hue_rate_is_forty_pi_degrees_a_second() {
    let degrees_a_second = HUE_RATE as f64 * 1e9 / DEGREE as f64;
    assert!((degrees_a_second - 40.0 * std::f64::consts::PI).abs() < 1e-6);
    assert_eq!(hue(1_000_000_000), 125_663_706 * (DEGREE / 1_000_000));
}

#[test]
fn hue_wraps_at_the_full_wheel() {
    // One turn takes 360 / (40 pi) seconds, a little under 2 864 788 979 ns.
    let period = 2_864_788_979;
    assert_eq!(hue(period - 1), FULL_TURN - 116_567_532);
    assert_eq!(hue(period), 9_096_174);
    for time in [0u64, 1, 999, 1_000_000_000, 2_864_788_978, u32::MAX as u64, u64::MAX] {
        let expected = (time as i128 * HUE_RATE as i128).rem_euclid(FULL_TURN);
        assert_eq!(hue(time), expected);
        assert!(hue(time) >= 0 && hue(time) < FULL_TURN);
    }
    let step = 250_000_000u64;
    for frames in 0..40u64 {
        let time = frames * step;
        assert_eq!(hue(time + step), (hue(time) + step as i128 * HUE_RATE as i128) % FULL_TURN);
    }
}

#[test]
fn animation_time_stops_at_the_largest_value() {
    let mut context = ready();
    context.frame(u64::MAX - 5).unwrap();
    drain(&mut context);
    assert_eq!(context.state().time, u64::MAX - 5);
    context.frame(5).unwrap();
    drain(&mut context);
    assert_eq!(context.state().time, u64::MAX);
    context.frame(u64::MAX).unwrap();
    drain(&mut context);
    assert_eq!(context.state().time, u64::MAX);
}

#[test]
fn failed_present_halts() {
    let mut context = ready();
    context.frame(0).unwrap();
    for _ in 0..7 {
        context.advance(Reply::Done).unwrap();
    }
    let command = Command::Present { sync_interval: 1, flags: 0 };
    assert_eq!(context.command(), Some(command));
    let fault = Fault { command, code: -2005270521 };
    assert_eq!(
        context.advance(Reply::Failed { code: -2005270521 }),
        Err(ContextError::Halted { fault })
    );
    assert_eq!(context.frame(0), Err(ContextError::Halted { fault }));
}

#[test]
fn every_command_in_flight_is_permitted_by_what_exists() {
    // Replays the whole life of a context against a simple account of what
    // exists.
    let mut context = Context::new(false);
    let mut views = 0;
    let mut swap_chains = 0;
    let mut devices = 0;
    let mut run = |context: &mut Context| {
        let mut next = context.command();
        while let Some(command) = next {
            match command {
                Command::CreateDevice { .. } => devices += 1,
                Command::CreateSwapChain { .. } => {
                    assert_eq!(devices, 1);
                    swap_chains += 1;
                }
                Command::BuildView { .. } => {
                    assert_eq!((swap_chains, views), (1, 0));
                    views += 1;
                }
                Command::ReleaseView => views -= 1,
                Command::ResizeBuffers { width, height, .. } => {
                    assert_eq!((swap_chains, views), (1, 0));
                    assert!(width > 0 && height > 0);
                }
                Command::Clear { .. } | Command::BindRenderTarget => assert_eq!(views, 1),
                Command::Present { .. } => assert_eq!(swap_chains, 1),
                _ => {}
            }
            next = context.advance(Reply::Done).unwrap();
        }
    };
    run(&mut context);
    context.set_swap_chain(WINDOW, 800, 600).unwrap();
    run(&mut context);
    for round in 0..4u32 {
        context.frame(16_666_667).unwrap();
        run(&mut context);
        context.resize_buffers(640 + round, 480 * (round % 2)).unwrap();
        run(&mut context);
    }
    assert_eq!((devices, swap_chains, views), (1, 1, 1));
}
