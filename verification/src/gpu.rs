//! The GPU objects as the harness tracks them, the commands that the shell
//! carries out on them, and the rule that says in which state a command may
//! be issued.

use vstd::prelude::*;
use crate::adapter::Adapter;
use crate::adapter::AdapterKind;
use crate::color::Rgba;
use crate::pipeline::RasterizerDesc;
use crate::shader::ShaderKind;
use crate::shared::BufferKind;
use crate::swapchain::framebuffer_rtv;
use crate::swapchain::BackBufferView;
use crate::swapchain::Format;
use crate::swapchain::SwapChain;
use crate::swapchain::SwapChainDesc;

verus! {

/// Number of indices in the draw of the triangle.
pub const TRIANGLE_INDICES: u32 = 3;

/// Presents wait for one vertical blank.
pub const SYNC_INTERVAL: u32 = 1;

/// A width and a height in pixels.
#[derive(Clone, Copy, Debug, PartialEq, Eq, Structural)]
pub struct Extent {
    pub width: u32,
    pub height: u32,
}

/// One call that the shell makes on behalf of the harness.
#[derive(Clone, Copy, Debug, PartialEq, Eq, Structural)]
#[allow(inconsistent_fields)]
pub enum Command {
    /// Create the factory that enumerates adapters and makes swap chains.
    CreateFactory { debug: bool },
    /// Pick the adapter, hardware before software.
    SelectAdapter { prefer: AdapterKind },
    /// Create the device and its immediate context on the selected adapter,
    /// for one feature level, with the validation layer if `debug`.
    CreateDevice { debug: bool, feature_level: u32 },
    /// Compile the source of one shader stage.
    CompileShader { kind: ShaderKind },
    /// Create the shader object of one stage from its compiled code.
    CreateShader { kind: ShaderKind },
    /// Create the input layout of the triangle's vertices.
    CreateInputLayout,
    /// Create the rasterizer state.
    CreateRasterizerState { desc: RasterizerDesc },
    /// Create the vertex or the index buffer of the triangle.
    CreateBuffer { kind: BufferKind },
    /// Create the swap chain of the window.
    CreateSwapChain { window: usize, desc: SwapChainDesc },
    /// Tell the factory not to go full screen on Alt+Enter in this window.
    DisableAltEnter { window: usize },
    /// Wrap the buffer at index `buffer` of the swap chain in a
    /// render-target view.
    BuildView { buffer: u32 },
    /// Send the recorded commands to the GPU.
    Flush,
    /// Drop the back-buffer view.
    ReleaseView,
    /// Give the swap chain's buffers a new size. A count of 0 keeps the
    /// number of buffers, the unknown format keeps their format.
    ResizeBuffers { buffer_count: u32, width: u32, height: u32, format: Format },
    /// Set the viewport to the whole of the given extent.
    SetViewport { width: u32, height: u32 },
    /// Set the scissor rectangle to the whole of the given extent.
    SetScissor { width: u32, height: u32 },
    /// Bind the back-buffer view as the only render target.
    BindRenderTarget,
    /// Clear the back-buffer view to a colour.
    Clear { color: Rgba },
    /// Bind topology, input layout, vertex buffer and index buffer.
    BindGeometry,
    /// Bind the vertex shader, the rasterizer state and the pixel shader.
    BindShaders,
    /// Draw indexed geometry.
    DrawIndexed { indices: u32 },
    /// Present the back buffer.
    Present { sync_interval: u32, flags: u32 },
    /// Ask the window for another redraw.
    RequestRedraw,
}

/// What the shell reports of a command it was given.
#[derive(Clone, Copy, Debug, PartialEq, Eq, Structural)]
pub enum Reply {
    /// The call was made and succeeded.
    Done,
    /// The call failed with this result code.
    Failed { code: i32 },
}

/// The pipeline objects. They are created once and never change.
#[derive(Clone, Copy, Debug, PartialEq, Eq, Structural)]
pub struct Pipeline {
    pub vertex_code: bool,
    pub pixel_code: bool,
    pub vertex_shader: bool,
    pub pixel_shader: bool,
    pub input_layout: bool,
    pub rasterizer_state: bool,
    pub vertex_buffer: bool,
    pub index_buffer: bool,
}

/// The GPU objects that exist and what is bound.
#[derive(Clone, Copy, Debug, PartialEq, Eq, Structural)]
pub struct Gpu {
    pub factory: bool,
    pub adapter: bool,
    pub device: Option<Adapter>,
    pub pipeline: Pipeline,
    pub swap_chain: Option<SwapChain>,
    pub view: Option<BackBufferView>,
    pub viewport: Option<Extent>,
    pub scissor: Option<Extent>,
    pub target_bound: bool,
    pub geometry_bound: bool,
    pub shaders_bound: bool,
}

impl Pipeline {
    /// No pipeline object exists.
    pub open spec fn none() -> Pipeline {
        Pipeline {
            vertex_code: false,
            pixel_code: false,
            vertex_shader: false,
            pixel_shader: false,
            input_layout: false,
            rasterizer_state: false,
            vertex_buffer: false,
            index_buffer: false,
        }
    }

    /// Every object that a draw needs exists.
    pub open spec fn complete(self) -> bool {
        &&& self.vertex_shader
        &&& self.pixel_shader
        &&& self.input_layout
        &&& self.rasterizer_state
        &&& self.vertex_buffer
        &&& self.index_buffer
    }

    /// Some object that only a device can make exists.
    pub open spec fn any_object(self) -> bool {
        ||| self.vertex_shader
        ||| self.pixel_shader
        ||| self.input_layout
        ||| self.rasterizer_state
        ||| self.vertex_buffer
        ||| self.index_buffer
    }

    pub open spec fn code(self, kind: ShaderKind) -> bool {
        match kind {
            ShaderKind::Vertex => self.vertex_code,
            ShaderKind::Pixel => self.pixel_code,
        }
    }

    pub open spec fn shader(self, kind: ShaderKind) -> bool {
        match kind {
            ShaderKind::Vertex => self.vertex_shader,
            ShaderKind::Pixel => self.pixel_shader,
        }
    }

    pub open spec fn buffer(self, kind: BufferKind) -> bool {
        match kind {
            BufferKind::Vertex => self.vertex_buffer,
            BufferKind::Index => self.index_buffer,
        }
    }

    pub open spec fn with_code(self, kind: ShaderKind) -> Pipeline {
        match kind {
            ShaderKind::Vertex => Pipeline { vertex_code: true, ..self },
            ShaderKind::Pixel => Pipeline { pixel_code: true, ..self },
        }
    }

    pub open spec fn with_shader(self, kind: ShaderKind) -> Pipeline {
        match kind {
            ShaderKind::Vertex => Pipeline { vertex_shader: true, ..self },
            ShaderKind::Pixel => Pipeline { pixel_shader: true, ..self },
        }
    }

    pub open spec fn with_buffer(self, kind: BufferKind) -> Pipeline {
        match kind {
            BufferKind::Vertex => Pipeline { vertex_buffer: true, ..self },
            BufferKind::Index => Pipeline { index_buffer: true, ..self },
        }
    }
}

impl Gpu {
    /// Nothing exists yet.
    pub open spec fn empty() -> Gpu {
        Gpu {
            factory: false,
            adapter: false,
            device: None,
            pipeline: Pipeline::none(),
            swap_chain: None,
            view: None,
            viewport: None,
            scissor: None,
            target_bound: false,
            geometry_bound: false,
            shaders_bound: false,
        }
    }

    /// The size of the swap chain's buffers.
    pub open spec fn extent(self) -> Extent
        recommends
            self.swap_chain is Some,
    {
        Extent { width: self.swap_chain->0.width, height: self.swap_chain->0.height }
    }

    /// What the lifetimes of the objects demand at all times: the device
    /// comes from an adapter of the factory and is there before anything made
    /// with it; a view exists only of the buffers that its swap chain has
    /// now; and only an existing view is bound.
    pub open spec fn consistent(self) -> bool {
        &&& self.adapter ==> self.factory
        &&& self.device is Some ==> self.adapter
        &&& self.pipeline.any_object() ==> self.device is Some
        &&& self.swap_chain is Some ==> self.device is Some
        &&& self.view is Some ==> self.swap_chain is Some && self.view->0.current(
            self.swap_chain->0,
        )
        &&& self.target_bound ==> self.view is Some
        &&& self.geometry_bound ==> self.pipeline.input_layout && self.pipeline.vertex_buffer
            && self.pipeline.index_buffer
        &&& self.shaders_bound ==> self.pipeline.vertex_shader && self.pipeline.pixel_shader
            && self.pipeline.rasterizer_state
    }

    /// Whether `command` may be issued in this state.
    ///
    /// The buffers are resized only while no view of them exists, a view is
    /// built only while none exists, and nothing is drawn or cleared without
    /// a view of the current buffers.
    pub open spec fn permits(self, command: Command) -> bool {
        match command {
            Command::CreateFactory { debug } => !self.factory,
            Command::SelectAdapter { prefer } => self.factory && !self.adapter,
            Command::CreateDevice { debug, feature_level } => self.adapter && self.device is None,
            Command::CompileShader { kind } => !self.pipeline.code(kind),
            Command::CreateShader { kind } => self.device is Some && self.pipeline.code(kind)
                && !self.pipeline.shader(kind),
            Command::CreateInputLayout => self.device is Some && self.pipeline.vertex_code
                && !self.pipeline.input_layout,
            Command::CreateRasterizerState { desc } => self.device is Some
                && !self.pipeline.rasterizer_state,
            Command::CreateBuffer { kind } => self.device is Some && !self.pipeline.buffer(kind),
            Command::CreateSwapChain { window, desc } => self.device is Some
                && self.swap_chain is None,
            Command::DisableAltEnter { window } => self.swap_chain is Some
                && self.swap_chain->0.window == window,
            Command::BuildView { buffer } => self.swap_chain is Some && self.view is None,
            Command::Flush => self.device is Some,
            Command::ReleaseView => true,
            Command::ResizeBuffers { buffer_count, width, height, format } => self.swap_chain
                is Some && self.view is None && width > 0 && height > 0,
            Command::SetViewport { width, height } => self.device is Some,
            Command::SetScissor { width, height } => self.device is Some,
            Command::BindRenderTarget => self.view is Some,
            Command::Clear { color } => self.view is Some,
            Command::BindGeometry => self.pipeline.input_layout && self.pipeline.vertex_buffer
                && self.pipeline.index_buffer,
            Command::BindShaders => self.pipeline.vertex_shader && self.pipeline.pixel_shader
                && self.pipeline.rasterizer_state,
            Command::DrawIndexed { indices } => self.target_bound && self.geometry_bound
                && self.shaders_bound && self.viewport == Some(self.extent()) && self.scissor
                == Some(self.extent()),
            Command::Present { sync_interval, flags } => self.swap_chain is Some,
            Command::RequestRedraw => true,
        }
    }

    /// The state after `command` has succeeded.
    pub open spec fn after(self, command: Command) -> Gpu {
        match command {
            Command::CreateFactory { debug } => Gpu { factory: true, ..self },
            Command::SelectAdapter { prefer } => Gpu { adapter: true, ..self },
            Command::CreateDevice { debug, feature_level } => Gpu {
                device: Some(Adapter { debug_layer: debug }),
                ..self
            },
            Command::CompileShader { kind } => Gpu {
                pipeline: self.pipeline.with_code(kind),
                ..self
            },
            Command::CreateShader { kind } => Gpu {
                pipeline: self.pipeline.with_shader(kind),
                ..self
            },
            Command::CreateInputLayout => Gpu {
                pipeline: Pipeline { input_layout: true, ..self.pipeline },
                ..self
            },
            Command::CreateRasterizerState { desc } => Gpu {
                pipeline: Pipeline { rasterizer_state: true, ..self.pipeline },
                ..self
            },
            Command::CreateBuffer { kind } => Gpu {
                pipeline: self.pipeline.with_buffer(kind),
                ..self
            },
            Command::CreateSwapChain { window, desc } => Gpu {
                swap_chain: Some(SwapChain::created(window, desc.width, desc.height)),
                ..self
            },
            Command::DisableAltEnter { window } => self,
            Command::BuildView { buffer } => match self.swap_chain {
                Some(swap_chain) => Gpu { view: Some(BackBufferView::of(swap_chain)), ..self },
                None => self,
            },
            Command::Flush => self,
            Command::ReleaseView => Gpu { view: None, target_bound: false, ..self },
            Command::ResizeBuffers { buffer_count, width, height, format } => match self.swap_chain {
                Some(swap_chain) => Gpu {
                    swap_chain: Some(swap_chain.resized(width, height)),
                    ..self
                },
                None => self,
            },
            Command::SetViewport { width, height } => Gpu {
                viewport: Some(Extent { width, height }),
                ..self
            },
            Command::SetScissor { width, height } => Gpu {
                scissor: Some(Extent { width, height }),
                ..self
            },
            Command::BindRenderTarget => Gpu { target_bound: true, ..self },
            Command::Clear { color } => self,
            Command::BindGeometry => Gpu { geometry_bound: true, ..self },
            Command::BindShaders => Gpu { shaders_bound: true, ..self },
            Command::DrawIndexed { indices } => self,
            Command::Present { sync_interval, flags } => Gpu { target_bound: false, ..self },
            Command::RequestRedraw => self,
        }
    }

    /// The state in which nothing exists.
    pub fn new() -> (gpu: Gpu)
        ensures
            gpu == Gpu::empty(),
    {
        Gpu {
            factory: false,
            adapter: false,
            device: None,
            pipeline: Pipeline {
                vertex_code: false,
                pixel_code: false,
                vertex_shader: false,
                pixel_shader: false,
                input_layout: false,
                rasterizer_state: false,
                vertex_buffer: false,
                index_buffer: false,
            },
            swap_chain: None,
            view: None,
            viewport: None,
            scissor: None,
            target_bound: false,
            geometry_bound: false,
            shaders_bound: false,
        }
    }

    /// Records that `command` has succeeded.
    pub fn apply(&mut self, command: Command)
        ensures
            *final(self) == old(self).after(command),
    {
        let gpu: Gpu = *self;
        let pipeline: Pipeline = gpu.pipeline;
        *self = match command {
            Command::CreateFactory { debug } => Gpu { factory: true, ..gpu },
            Command::SelectAdapter { prefer } => Gpu { adapter: true, ..gpu },
            Command::CreateDevice { debug, feature_level } => Gpu {
                device: Some(Adapter::new(debug)),
                ..gpu
            },
            Command::CompileShader { kind } => match kind {
                ShaderKind::Vertex => Gpu {
                    pipeline: Pipeline { vertex_code: true, ..pipeline },
                    ..gpu
                },
                ShaderKind::Pixel => Gpu {
                    pipeline: Pipeline { pixel_code: true, ..pipeline },
                    ..gpu
                },
            },
            Command::CreateShader { kind } => match kind {
                ShaderKind::Vertex => Gpu {
                    pipeline: Pipeline { vertex_shader: true, ..pipeline },
                    ..gpu
                },
                ShaderKind::Pixel => Gpu {
                    pipeline: Pipeline { pixel_shader: true, ..pipeline },
                    ..gpu
                },
            },
            Command::CreateInputLayout => Gpu {
                pipeline: Pipeline { input_layout: true, ..pipeline },
                ..gpu
            },
            Command::CreateRasterizerState { desc } => Gpu {
                pipeline: Pipeline { rasterizer_state: true, ..pipeline },
                ..gpu
            },
            Command::CreateBuffer { kind } => match kind {
                BufferKind::Vertex => Gpu {
                    pipeline: Pipeline { vertex_buffer: true, ..pipeline },
                    ..gpu
                },
                BufferKind::Index => Gpu {
                    pipeline: Pipeline { index_buffer: true, ..pipeline },
                    ..gpu
                },
            },
            Command::CreateSwapChain { window, desc } => Gpu {
                swap_chain: Some(SwapChain::new(window, desc.width, desc.height)),
                ..gpu
            },
            Command::BuildView { buffer } => match gpu.swap_chain {
                Some(swap_chain) => Gpu { view: Some(framebuffer_rtv(&swap_chain)), ..gpu },
                None => gpu,
            },
            Command::ReleaseView => Gpu { view: None, target_bound: false, ..gpu },
            Command::ResizeBuffers { buffer_count, width, height, format } => match gpu.swap_chain {
                Some(swap_chain) => {
                    let mut resized: SwapChain = swap_chain;
                    resized.resize(width, height);
                    Gpu { swap_chain: Some(resized), ..gpu }
                },
                None => gpu,
            },
            Command::SetViewport { width, height } => Gpu {
                viewport: Some(Extent { width, height }),
                ..gpu
            },
            Command::SetScissor { width, height } => Gpu {
                scissor: Some(Extent { width, height }),
                ..gpu
            },
            Command::BindRenderTarget => Gpu { target_bound: true, ..gpu },
            Command::BindGeometry => Gpu { geometry_bound: true, ..gpu },
            Command::BindShaders => Gpu { shaders_bound: true, ..gpu },
            Command::Present { sync_interval, flags } => Gpu { target_bound: false, ..gpu },
            Command::DisableAltEnter { window } => gpu,
            Command::Flush => gpu,
            Command::Clear { color } => gpu,
            Command::DrawIndexed { indices } => gpu,
            Command::RequestRedraw => gpu,
        };
    }
}

/// A command that is permitted in a consistent state leaves a consistent
/// state behind.
pub proof fn lemma_after_is_consistent(gpu: Gpu, command: Command)
    requires
        gpu.consistent(),
        gpu.permits(command),
    ensures
        gpu.after(command).consistent(),
{
}

} // verus!
