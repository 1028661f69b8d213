use struggle::gpu::Command;
use struggle::gpu::Extent;
use struggle::gpu::Gpu;
use struggle::pipeline::input_layout;
use struggle::pipeline::rasterizer;
use struggle::pipeline::CullMode;
use struggle::pipeline::ElementFormat;
use struggle::pipeline::FillMode;
use struggle::pipeline::Semantic;
use struggle::pipeline::COLOR_OFFSET;
use struggle::pipeline::POSITION_OFFSET;
use struggle::pipeline::VERTEX_COUNT;
use struggle::pipeline::VERTEX_STRIDE;
use struggle::shader::compile;
use struggle::shader::ShaderKind;
use struggle::shared::buffer;
use struggle::shared::BufferDesc;
use struggle::shared::BufferError;
use struggle::shared::BufferKind;
use struggle::shared::BIND_INDEX_BUFFER;
use struggle::shared::BIND_VERTEX_BUFFER;
use struggle::swapchain::framebuffer_rtv;
use struggle::swapchain::BackBufferView;
use struggle::swapchain::Format;
use struggle::swapchain::SwapChain;
use struggle::swapchain::SwapEffect;
use struggle::swapchain::BACK_BUFFER;
use struggle::swapchain::BUFFER_COUNT;

#[test]
fn swap_chain_is_flip_discard_and_triple_buffered() {
    let swap_chain = SwapChain::new(7, 800, 600);
    assert_eq!(swap_chain, SwapChain { window: 7, width: 800, height: 600, generation: 0 });
    let desc = swap_chain.desc();
    assert_eq!((desc.width, desc.height), (800, 600));
    assert_eq!(desc.format, Format::Rgba8Unorm);
    assert_eq!(desc.buffer_count, 3);
    assert_eq!(BUFFER_COUNT, 3);
    assert_eq!(desc.swap_effect, SwapEffect::FlipDiscard);
    assert!(!desc.stereo);
    assert!(desc.windowed);
    assert_eq!((desc.sample_count, desc.sample_quality, desc.flags), (1, 0, 0));
}

#[test]
fn swap_chain_of_no_size_asks_for_the_client_area() {
    let desc = SwapChain::new(7, 0, 0).desc();
    assert_eq!((desc.width, desc.height), (0, 0));
}

#[test]
fn resize_keeps_the_window_and_starts_a_generation() {
    let mut swap_chain = SwapChain::new(7, 800, 600);
    swap_chain.resize(1024, 768);
    assert_eq!(swap_chain, SwapChain { window: 7, width: 1024, height: 768, generation: 1 });
    swap_chain.resize(1024, 768);
    assert_eq!(swap_chain.generation, 2);
}

#[test]
fn generation_wraps_around() {
    let mut swap_chain = SwapChain { window: 7, width: 1, height: 1, generation: u64::MAX };
    swap_chain.resize(2, 2);
    assert_eq!(swap_chain.generation, 0);
}

#[test]
fn view_wraps_the_back_buffer_in_the_format_of_the_swap_chain() {
    assert_eq!(BACK_BUFFER, 0);
    let mut swap_chain = SwapChain::new(7, 800, 600);
    let view = framebuffer_rtv(&swap_chain);
    assert_eq!(
        view,
        BackBufferView { format: Format::Rgba8Unorm, width: 800, height: 600, generation: 0 }
    );
    assert_eq!(view.format, swap_chain.desc().format);
    swap_chain.resize(640, 480);
    let rebuilt = framebuffer_rtv(&swap_chain);
    assert_ne!(rebuilt, view);
    assert_eq!(rebuilt.generation, 1);
    assert_eq!((rebuilt.width, rebuilt.height), (640, 480));
}

#[test]
fn shaders_have_fixed_entry_points_and_targets() {
    let pixel = compile(&ShaderKind::Pixel, false);
    assert_eq!(pixel.entry_point, "ps_main");
    assert_eq!(pixel.target, "ps_5_0");
    assert!(!pixel.debug && !pixel.skip_optimization);
    let vertex = compile(&ShaderKind::Vertex, true);
    assert_eq!(vertex.entry_point, "vs_main");
    assert_eq!(vertex.target, "vs_5_0");
    assert!(vertex.debug && vertex.skip_optimization);
}

#[test]
fn buffer_has_the_size_of_its_data() {
    let indices: [u32; 3] = [0, 1, 2];
    assert_eq!(
        buffer(&indices, BIND_INDEX_BUFFER),
        Ok(BufferDesc { byte_width: 12, bind_flags: 2, stride: 4 })
    );
    let vertices = [[0u8; 28]; 3];
    assert_eq!(
        buffer(&vertices, BIND_VERTEX_BUFFER),
        Ok(BufferDesc { byte_width: 84, bind_flags: 1, stride: 28 })
    );
    assert_eq!(VERTEX_STRIDE * VERTEX_COUNT, 84);
    let nothing: [u64; 0] = [];
    assert_eq!(buffer(&nothing, 1), Ok(BufferDesc { byte_width: 0, bind_flags: 1, stride: 8 }));
    let units = [(); 9];
    assert_eq!(buffer(&units, 1), Ok(BufferDesc { byte_width: 0, bind_flags: 1, stride: 0 }));
}

#[test]
fn buffer_of_the_largest_size_is_accepted_and_one_byte_more_is_not() {
    let data = vec![0u8; u32::MAX as usize + 1];
    assert_eq!(
        buffer(&data[1..], 1),
        Ok(BufferDesc { byte_width: u32::MAX, bind_flags: 1, stride: 1 })
    );
    assert_eq!(buffer(&data, 1), Err(BufferError::TooLarge));
}

#[test]
fn buffer_kinds_have_their_bind_flags() {
    assert_eq!(BufferKind::Vertex.bind_flags(), 1);
    assert_eq!(BufferKind::Index.bind_flags(), 2);
}

#[test]
fn input_layout_matches_the_vertex() {
    let elements = input_layout();
    assert_eq!(elements.len(), 2);
    assert_eq!(elements[0].semantic, Semantic::Position);
    assert_eq!(elements[0].semantic.name(), "POSITION");
    assert_eq!(elements[0].format, ElementFormat::Float2);
    assert_eq!(elements[0].offset, 0);
    assert_eq!(elements[1].semantic, Semantic::Color);
    assert_eq!(elements[1].semantic.name(), "COLOR");
    assert_eq!(elements[1].format, ElementFormat::Float4);
    assert_eq!(elements[1].offset, 12);
    assert_eq!((POSITION_OFFSET, COLOR_OFFSET), (0, 12));
    assert_eq!(ElementFormat::Float2.size(), 8);
    assert_eq!(ElementFormat::Float4.size(), 16);
    assert_eq!(elements[1].offset + elements[1].format.size(), VERTEX_STRIDE);
    assert!(elements[0].offset + elements[0].format.size() <= elements[1].offset);
}

#[test]
fn rasterizer_is_solid_uncalled_and_scissored() {
    let desc = rasterizer();
    assert_eq!(desc.fill_mode, FillMode::Solid);
    assert_eq!(desc.cull_mode, CullMode::Neither);
    assert!(desc.scissor);
    assert!(!desc.depth_clip);
    assert!(!desc.front_counter_clockwise);
    assert!(!desc.multisample && !desc.antialiased_line && !desc.conservative);
    assert_eq!(desc.forced_sample_count, 1);
}

#[test]
fn applied_commands_change_what_exists() {
    let mut gpu = Gpu::new();
    assert!(!gpu.factory);
    gpu.apply(Command::CreateFactory { debug: false });
    assert!(gpu.factory);
    gpu.apply(Command::CreateSwapChain { window: 3, desc: SwapChain::new(3, 10, 20).desc() });
    assert_eq!(gpu.swap_chain, Some(SwapChain::new(3, 10, 20)));
    gpu.apply(Command::BuildView { buffer: 0 });
    assert_eq!(gpu.view, Some(framebuffer_rtv(&SwapChain::new(3, 10, 20))));
    gpu.apply(Command::BindRenderTarget);
    assert!(gpu.target_bound);
    gpu.apply(Command::ReleaseView);
    assert_eq!(gpu.view, None);
    assert!(!gpu.target_bound);
    gpu.apply(Command::ResizeBuffers { buffer_count: 0, width: 30, height: 40, format: Format::Unknown });
    assert_eq!(gpu.swap_chain.unwrap().generation, 1);
    gpu.apply(Command::SetViewport { width: 30, height: 40 });
    assert_eq!(gpu.viewport, Some(Extent { width: 30, height: 40 }));
    let before = gpu;
    gpu.apply(Command::Flush);
    gpu.apply(Command::RequestRedraw);
    assert_eq!(gpu, before);
}

#[test]
fn view_is_not_built_without_a_swap_chain() {
    let mut gpu = Gpu::new();
    gpu.apply(Command::BuildView { buffer: 0 });
    assert_eq!(gpu.view, None);
    gpu.apply(Command::ResizeBuffers { buffer_count: 0, width: 1, height: 1, format: Format::Unknown });
    assert_eq!(gpu.swap_chain, None);
}
