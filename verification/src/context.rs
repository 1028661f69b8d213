//! The device, swap-chain and back-buffer lifecycle and the present cycle.
//!
//! The context decides; the shell acts. Each event starts a handler, a fixed
//! script of commands. The context hands the shell one command at a time,
//! and the next one only after the shell has reported that the one before
//! succeeded. A failure halts the context for good.

use vstd::prelude::*;
use vstd::arithmetic::div_mod::lemma_fundamental_div_mod;
use vstd::arithmetic::div_mod::lemma_mod_multiples_vanish;
use crate::adapter::Adapter;
use crate::adapter::AdapterKind;
use crate::adapter::FEATURE_LEVEL;
use crate::color::hsla_to_rgba;
use crate::color::rgba;
use crate::color::Rgba;
use crate::color::FULL_TURN;
use crate::gpu::Command;
use crate::gpu::Extent;
use crate::gpu::Gpu;
use crate::gpu::Reply;
use crate::gpu::SYNC_INTERVAL;
use crate::gpu::TRIANGLE_INDICES;
use crate::pipeline::rasterizer;
use crate::pipeline::triangle_rasterizer;
use crate::shader::ShaderKind;
use crate::shared::BufferKind;
use crate::swapchain::next_generation;
use crate::swapchain::BackBufferView;
use crate::swapchain::BACK_BUFFER;
use crate::swapchain::Format;
use crate::swapchain::SwapChain;
use crate::swapchain::SwapChainDesc;
use crate::swapchain::SwapEffect;
use crate::timer::Timer;

verus! {

/// Saturation of the clear colour: 0.4.
pub const SATURATION: i64 = 400;

/// Lightness of the clear colour: 0.8.
pub const LIGHTNESS: i64 = 800;

/// Opacity of the clear colour: 1.0.
pub const ALPHA: i64 = 1000;

/// Hue units that the clear colour advances in one nanosecond: 40 pi degrees
/// in a second, with pi taken as 3.14159265.
pub const HUE_RATE: u64 = 125_663_706;

/// What an event has set in motion.
#[derive(Clone, Copy, Debug, PartialEq, Eq, Structural)]
pub enum Handler {
    /// Device and pipeline are being created.
    Startup { debug: bool },
    /// The swap chain of the window and its first view are being created.
    Surface { window: usize, width: u32, height: u32 },
    /// The buffers are being resized.
    Resize { width: u32, height: u32 },
    /// A frame is being drawn and presented.
    Frame { color: Rgba, width: u32, height: u32 },
}

/// The command that failed, and the result code it failed with.
#[derive(Clone, Copy, Debug, PartialEq, Eq, Structural)]
pub struct Fault {
    pub command: Command,
    pub code: i32,
}

/// Why the context refuses an event or a reply.
#[derive(Clone, Copy, Debug, PartialEq, Eq, Structural)]
pub enum ContextError {
    /// A command has failed; the context does nothing any more.
    Halted { fault: Fault },
    /// The handler of an earlier event has not run to its end.
    Busy,
    /// The swap chain was not created.
    SwapChainMissing,
    /// The window has its swap chain already; there is one per window.
    SwapChainExists,
}

impl ContextError {
    /// The result code that stands for the error: that of the command that
    /// failed, and -1 for an event that came at the wrong time.
    pub open spec fn result_code(self) -> i32 {
        match self {
            ContextError::Halted { fault } => fault.code,
            _ => -1i32,
        }
    }

    /// What went wrong, in words.
    pub open spec fn text(self) -> Seq<char> {
        match self {
            ContextError::Halted { fault } => "a call of the graphics interface failed"@,
            ContextError::Busy => "an earlier event is still being handled"@,
            ContextError::SwapChainMissing => "swap chain wasn't created"@,
            ContextError::SwapChainExists => "swap chain was created before"@,
        }
    }

    pub fn code(&self) -> (code: i32)
        ensures
            code == self.result_code(),
    {
        match self {
            ContextError::Halted { fault } => fault.code,
            _ => -1,
        }
    }

    pub fn message(&self) -> (message: &'static str)
        ensures
            message@ == self.text(),
    {
        match self {
            ContextError::Halted { fault } => "a call of the graphics interface failed",
            ContextError::Busy => "an earlier event is still being handled",
            ContextError::SwapChainMissing => "swap chain wasn't created",
            ContextError::SwapChainExists => "swap chain was created before",
        }
    }
}

/// Where the resize handler stands.
#[derive(Clone, Copy, Debug, PartialEq, Eq, Structural)]
pub enum Phase {
    /// No handler is running.
    Idle,
    /// Recorded work is being flushed.
    Flushing,
    /// The back-buffer view is being dropped.
    ViewReleased,
    /// The buffers are being resized.
    BuffersResized,
    /// The view, the viewport and the scissor rectangle are being rebuilt.
    ViewRebuilt,
    /// A handler other than the resize handler is running.
    Busy,
    /// A command has failed.
    Halted,
}

/// All that the context knows.
#[derive(Clone, Copy, Debug, PartialEq, Eq, Structural)]
pub struct State {
    /// The GPU objects that exist.
    pub gpu: Gpu,
    /// The handler that is running, if one is.
    pub handler: Option<Handler>,
    /// Index in the handler's script of the command that the shell has been
    /// given and has not replied to.
    pub cursor: usize,
    /// The failure that halted the context, if one did.
    pub fault: Option<Fault>,
    /// Nanoseconds of animation: the sum of the frames' deltas.
    pub time: u64,
}

/// The hue of the clear colour after `time` nanoseconds of animation, in
/// `[0, FULL_TURN)`.
pub open spec fn hue_at(time: u64) -> int {
    (time * HUE_RATE) % (FULL_TURN as int)
}

/// The clear colour after `time` nanoseconds of animation.
pub open spec fn clear_color(time: u64) -> Rgba {
    Rgba::exact(rgba(hue_at(time), SATURATION as int, LIGHTNESS as int, ALPHA as int))
}

/// The animation time after a frame that came `delta` nanoseconds after the
/// previous one. The sum stops at the largest `u64`.
pub open spec fn time_after(time: u64, delta: u64) -> u64 {
    if time + delta > u64::MAX {
        u64::MAX
    } else {
        (time + delta) as u64
    }
}

impl Handler {
    /// The commands of the handler, in the order in which they are issued.
    ///
    /// Viewport and scissor rectangle are set whenever the buffers get a
    /// size, and again at the start of every frame. A resize keeps the
    /// number and the format of the buffers. The view has the format of the
    /// swap chain.
    pub open spec fn script(self) -> Seq<Command> {
        match self {
            Handler::Startup { debug } => seq![
                Command::CreateFactory { debug },
                Command::SelectAdapter { prefer: AdapterKind::HighPerformance },
                Command::CreateDevice { debug, feature_level: FEATURE_LEVEL },
                Command::CompileShader { kind: ShaderKind::Vertex },
                Command::CompileShader { kind: ShaderKind::Pixel },
                Command::CreateShader { kind: ShaderKind::Vertex },
                Command::CreateShader { kind: ShaderKind::Pixel },
                Command::CreateInputLayout,
                Command::CreateRasterizerState { desc: triangle_rasterizer() },
                Command::CreateBuffer { kind: BufferKind::Vertex },
                Command::CreateBuffer { kind: BufferKind::Index },
            ],
            Handler::Surface { window, width, height } => seq![
                Command::CreateSwapChain {
                    window,
                    desc: SwapChain::created(window, width, height).request(),
                },
                Command::DisableAltEnter { window },
                Command::BuildView { buffer: BACK_BUFFER },
                Command::SetViewport { width, height },
                Command::SetScissor { width, height },
            ],
            Handler::Resize { width, height } => seq![
                Command::Flush,
                Command::ReleaseView,
                Command::ResizeBuffers { buffer_count: 0, width, height, format: Format::Unknown },
                Command::BuildView { buffer: BACK_BUFFER },
                Command::SetViewport { width, height },
                Command::SetScissor { width, height },
                Command::RequestRedraw,
            ],
            Handler::Frame { color, width, height } => seq![
                Command::SetViewport { width, height },
                Command::SetScissor { width, height },
                Command::BindRenderTarget,
                Command::Clear { color },
                Command::BindGeometry,
                Command::BindShaders,
                Command::DrawIndexed { indices: TRIANGLE_INDICES },
                Command::Present { sync_interval: SYNC_INTERVAL, flags: 0 },
                Command::RequestRedraw,
            ],
        }
    }

    /// The command at `index` of the script, if the script is that long.
    pub fn command(&self, index: usize) -> (command: Option<Command>)
        ensures
            command == if index < self.script().len() {
                Some(self.script()[index as int])
            } else {
                None
            },
    {
        match *self {
            Handler::Startup { debug } => {
                if index == 0 {
                    Some(Command::CreateFactory { debug })
                } else if index == 1 {
                    Some(Command::SelectAdapter { prefer: AdapterKind::HighPerformance })
                } else if index == 2 {
                    Some(Command::CreateDevice { debug, feature_level: FEATURE_LEVEL })
                } else if index == 3 {
                    Some(Command::CompileShader { kind: ShaderKind::Vertex })
                } else if index == 4 {
                    Some(Command::CompileShader { kind: ShaderKind::Pixel })
                } else if index == 5 {
                    Some(Command::CreateShader { kind: ShaderKind::Vertex })
                } else if index == 6 {
                    Some(Command::CreateShader { kind: ShaderKind::Pixel })
                } else if index == 7 {
                    Some(Command::CreateInputLayout)
                } else if index == 8 {
                    Some(Command::CreateRasterizerState { desc: rasterizer() })
                } else if index == 9 {
                    Some(Command::CreateBuffer { kind: BufferKind::Vertex })
                } else if index == 10 {
                    Some(Command::CreateBuffer { kind: BufferKind::Index })
                } else {
                    None
                }
            },
            Handler::Surface { window, width, height } => {
                if index == 0 {
                    Some(
                        Command::CreateSwapChain {
                            window,
                            desc: SwapChain::new(window, width, height).desc(),
                        },
                    )
                } else if index == 1 {
                    Some(Command::DisableAltEnter { window })
                } else if index == 2 {
                    Some(Command::BuildView { buffer: BACK_BUFFER })
                } else if index == 3 {
                    Some(Command::SetViewport { width, height })
                } else if index == 4 {
                    Some(Command::SetScissor { width, height })
                } else {
                    None
                }
            },
            Handler::Resize { width, height } => {
                if index == 0 {
                    Some(Command::Flush)
                } else if index == 1 {
                    Some(Command::ReleaseView)
                } else if index == 2 {
                    Some(
                        Command::ResizeBuffers {
                            buffer_count: 0,
                            width,
                            height,
                            format: Format::Unknown,
                        },
                    )
                } else if index == 3 {
                    Some(Command::BuildView { buffer: BACK_BUFFER })
                } else if index == 4 {
                    Some(Command::SetViewport { width, height })
                } else if index == 5 {
                    Some(Command::SetScissor { width, height })
                } else if index == 6 {
                    Some(Command::RequestRedraw)
                } else {
                    None
                }
            },
            Handler::Frame { color, width, height } => {
                if index == 0 {
                    Some(Command::SetViewport { width, height })
                } else if index == 1 {
                    Some(Command::SetScissor { width, height })
                } else if index == 2 {
                    Some(Command::BindRenderTarget)
                } else if index == 3 {
                    Some(Command::Clear { color })
                } else if index == 4 {
                    Some(Command::BindGeometry)
                } else if index == 5 {
                    Some(Command::BindShaders)
                } else if index == 6 {
                    Some(Command::DrawIndexed { indices: TRIANGLE_INDICES })
                } else if index == 7 {
                    Some(Command::Present { sync_interval: SYNC_INTERVAL, flags: 0 })
                } else if index == 8 {
                    Some(Command::RequestRedraw)
                } else {
                    None
                }
            },
        }
    }
}

/// What holds of the GPU objects whenever no handler is running: device and
/// pipeline exist, and a swap chain has a view, a viewport and a scissor
/// rectangle of the size of its buffers.
pub open spec fn settled(gpu: Gpu) -> bool {
    &&& gpu.device is Some
    &&& gpu.pipeline.complete()
    &&& gpu.swap_chain is Some ==> {
        &&& gpu.view is Some
        &&& gpu.viewport == Some(gpu.extent())
        &&& gpu.scissor == Some(gpu.extent())
    }
}

/// Whether the rest of `script`, from index `from` on, can run in `gpu`:
/// each command is permitted in the state that the ones before it leave
/// behind, and the last one leaves a settled state.
pub open spec fn sound(gpu: Gpu, script: Seq<Command>, from: int) -> bool
    decreases script.len() - from,
{
    if from >= script.len() {
        settled(gpu)
    } else {
        gpu.permits(script[from]) && sound(gpu.after(script[from]), script, from + 1)
    }
}

impl State {
    /// The state of a new context: nothing exists, start-up has begun.
    pub open spec fn initial(debug: bool) -> State {
        State {
            gpu: Gpu::empty(),
            handler: Some(Handler::Startup { debug }),
            cursor: 0,
            fault: None,
            time: 0,
        }
    }

    /// The command that the shell has been given and has not replied to.
    pub open spec fn command(self) -> Option<Command> {
        match self.handler {
            Some(handler) => if self.fault is None && self.cursor < handler.script().len() {
                Some(handler.script()[self.cursor as int])
            } else {
                None
            },
            None => None,
        }
    }

    /// No handler is running and nothing has failed.
    pub open spec fn idle(self) -> bool {
        self.handler is None && self.fault is None
    }

    /// The state in which `handler` has just begun.
    pub open spec fn started(self, handler: Handler) -> State {
        State { handler: Some(handler), cursor: 0, ..self }
    }

    /// The state after the shell's reply to the command in flight. A failure
    /// halts; a success is recorded and moves on to the next command, or
    /// ends the handler after the last one. Without a command in flight a
    /// reply changes nothing.
    pub open spec fn advanced(self, reply: Reply) -> State {
        match self.command() {
            None => self,
            Some(command) => match reply {
                Reply::Failed { code } => State {
                    handler: None,
                    cursor: 0,
                    fault: Some(Fault { command, code }),
                    ..self
                },
                Reply::Done => if self.cursor + 1 < self.handler->0.script().len() {
                    State { gpu: self.gpu.after(command), cursor: (self.cursor + 1) as usize, ..self }
                } else {
                    State { gpu: self.gpu.after(command), handler: None, cursor: 0, ..self }
                },
            },
        }
    }

    /// The state after a run of replies.
    pub open spec fn run(self, replies: Seq<Reply>) -> State
        decreases replies.len(),
    {
        if replies.len() == 0 {
            self
        } else {
            self.advanced(replies[0]).run(replies.skip(1))
        }
    }

    /// Where the resize handler stands.
    pub open spec fn phase(self) -> Phase {
        if self.fault is Some {
            Phase::Halted
        } else {
            match self.handler {
                None => Phase::Idle,
                Some(Handler::Resize { width, height }) => if self.cursor == 0 {
                    Phase::Flushing
                } else if self.cursor == 1 {
                    Phase::ViewReleased
                } else if self.cursor == 2 {
                    Phase::BuffersResized
                } else {
                    Phase::ViewRebuilt
                },
                Some(_) => Phase::Busy,
            }
        }
    }

    /// The error with which an event is refused while the context is halted
    /// or busy.
    pub open spec fn refusal(self) -> Option<ContextError> {
        match self.fault {
            Some(fault) => Some(ContextError::Halted { fault }),
            None => if self.handler is Some {
                Some(ContextError::Busy)
            } else {
                None
            },
        }
    }

    /// What the creation of the window's swap chain answers and leaves.
    pub open spec fn surface_ready(self, window: usize, width: u32, height: u32) -> (
        State,
        Result<(), ContextError>,
    ) {
        match self.refusal() {
            Some(error) => (self, Err(error)),
            None => if self.gpu.swap_chain is Some {
                (self, Err(ContextError::SwapChainExists))
            } else {
                (self.started(Handler::Surface { window, width, height }), Ok(()))
            },
        }
    }

    /// What a resize event answers and leaves. A resize to no area is
    /// accepted and changes nothing.
    pub open spec fn resize(self, width: u32, height: u32) -> (State, Result<(), ContextError>) {
        match self.refusal() {
            Some(error) => (self, Err(error)),
            None => if width == 0 || height == 0 {
                (self, Ok(()))
            } else if self.gpu.swap_chain is None {
                (self, Err(ContextError::SwapChainMissing))
            } else {
                (self.started(Handler::Resize { width, height }), Ok(()))
            },
        }
    }

    /// What a redraw answers and leaves when `delta` nanoseconds have passed
    /// since the previous one: the animation time moves on by `delta`, and
    /// the frame is cleared to the colour of that time.
    pub open spec fn frame(self, delta: u64) -> (State, Result<(), ContextError>) {
        match self.refusal() {
            Some(error) => (self, Err(error)),
            None => if self.gpu.swap_chain is None {
                (self, Err(ContextError::SwapChainMissing))
            } else {
                (
                    State { time: time_after(self.time, delta), ..self }.started(
                        Handler::Frame {
                            color: clear_color(time_after(self.time, delta)),
                            width: self.gpu.swap_chain->0.width,
                            height: self.gpu.swap_chain->0.height,
                        },
                    ),
                    Ok(()),
                )
            },
        }
    }

    /// The states that a context can be in.
    pub open spec fn wf(self) -> bool {
        &&& self.gpu.consistent()
        &&& match self.fault {
            Some(_) => self.handler is None && self.cursor == 0,
            None => match self.handler {
                None => self.cursor == 0 && settled(self.gpu),
                Some(handler) => self.cursor < handler.script().len() && sound(
                    self.gpu,
                    handler.script(),
                    self.cursor as int,
                ),
            },
        }
    }
}

/// A script that is sound from some index on is sound from the next index
/// on in the state that its command leaves, and that state is consistent.
proof fn lemma_sound_step(gpu: Gpu, script: Seq<Command>, from: int)
    requires
        gpu.consistent(),
        0 <= from < script.len(),
        sound(gpu, script, from),
    ensures
        gpu.permits(script[from]),
        gpu.after(script[from]).consistent(),
        sound(gpu.after(script[from]), script, from + 1),
        from + 1 == script.len() ==> settled(gpu.after(script[from])),
{
    crate::gpu::lemma_after_is_consistent(gpu, script[from]);
    reveal_with_fuel(sound, 2);
}

proof fn lemma_startup_is_sound(debug: bool)
    ensures
        sound(Gpu::empty(), (Handler::Startup { debug }).script(), 0),
{
    reveal_with_fuel(sound, 12);
}

proof fn lemma_surface_is_sound(gpu: Gpu, window: usize, width: u32, height: u32)
    requires
        gpu.consistent(),
        settled(gpu),
        gpu.swap_chain is None,
    ensures
        sound(gpu, (Handler::Surface { window, width, height }).script(), 0),
{
    reveal_with_fuel(sound, 6);
}

proof fn lemma_resize_is_sound(gpu: Gpu, width: u32, height: u32)
    requires
        gpu.consistent(),
        settled(gpu),
        gpu.swap_chain is Some,
        width > 0,
        height > 0,
    ensures
        sound(gpu, (Handler::Resize { width, height }).script(), 0),
{
    reveal_with_fuel(sound, 8);
}

proof fn lemma_frame_is_sound(gpu: Gpu, color: Rgba)
    requires
        gpu.consistent(),
        settled(gpu),
        gpu.swap_chain is Some,
    ensures
        sound(
            gpu,
            (Handler::Frame {
                color,
                width: gpu.swap_chain->0.width,
                height: gpu.swap_chain->0.height,
            }).script(),
            0,
        ),
{
    reveal_with_fuel(sound, 10);
}

/// The lifecycle of the device, the swap chain and the back-buffer view, and
/// the frame clock.
#[derive(Debug)]
pub struct Context {
    state: State,
    timer: Timer,
}

impl View for Context {
    type V = State;

    closed spec fn view(&self) -> State {
        self.state
    }
}

impl Context {
    #[verifier::type_invariant]
    spec fn well_formed(self) -> bool {
        self.state.wf()
    }

    /// The frame clock.
    pub closed spec fn clock(&self) -> Timer {
        self.timer
    }

    /// Nanoseconds between the last two redraws.
    pub open spec fn delta(&self) -> u64 {
        self.clock().delta
    }

    /// Whether a frame has been drawn before.
    pub open spec fn ticked(&self) -> bool {
        self.clock().ticked
    }

    /// A context in which nothing exists yet. Start-up has begun: the first
    /// command is waiting for the shell.
    pub fn new(debug: bool) -> (context: Context)
        ensures
            context@ == State::initial(debug),
            context@.wf(),
            !context.ticked(),
            context.delta() == 0,
    {
        proof {
            lemma_startup_is_sound(debug);
        }
        Context {
            state: State {
                gpu: Gpu::new(),
                handler: Some(Handler::Startup { debug }),
                cursor: 0,
                fault: None,
                time: 0,
            },
            timer: Timer::new(),
        }
    }

    /// The frame clock as the last redraw left it.
    pub fn timer(&self) -> (timer: Timer)
        ensures
            timer == self.clock(),
    {
        self.timer
    }

    /// All that the context knows.
    pub fn state(&self) -> (state: State)
        ensures
            state == self@,
            state.wf(),
    {
        proof {
            use_type_invariant(self);
        }
        self.state
    }

    /// The command that the shell is to carry out now, if there is one.
    pub fn command(&self) -> (command: Option<Command>)
        ensures
            command == self@.command(),
            command matches Some(c) ==> self@.gpu.permits(c),
    {
        proof {
            use_type_invariant(self);
            reveal_with_fuel(sound, 2);
        }
        match self.state.fault {
            Some(_) => None,
            None => match &self.state.handler {
                Some(handler) => handler.command(self.state.cursor),
                None => None,
            },
        }
    }

    /// Takes the shell's reply to the command in flight. Answers with the
    /// next command, with nothing when the handler has run to its end, or
    /// with the failure that has halted the context.
    pub fn advance(&mut self, reply: Reply) -> (next: Result<Option<Command>, ContextError>)
        ensures
            final(self)@ == old(self)@.advanced(reply),
            final(self)@.wf(),
            final(self).clock() == old(self).clock(),
            next == match final(self)@.fault {
                Some(fault) => Err::<Option<Command>, ContextError>(ContextError::Halted { fault }),
                None => Ok(final(self)@.command()),
            },
    {
        proof {
            use_type_invariant(&*self);
        }
        let state: State = self.state;
        match self.command() {
            None => {},
            Some(command) => {
                proof {
                    lemma_sound_step(state.gpu, state.handler->0.script(), state.cursor as int);
                }
                match reply {
                    Reply::Failed { code } => {
                        self.state = State {
                            handler: None,
                            cursor: 0,
                            fault: Some(Fault { command, code }),
                            ..state
                        };
                    },
                    Reply::Done => {
                        let mut gpu: Gpu = state.gpu;
                        gpu.apply(command);
                        let last: bool = match &state.handler {
                            Some(handler) => handler.command(state.cursor + 1).is_none(),
                            None => true,
                        };
                        if last {
                            self.state = State { gpu, handler: None, cursor: 0, ..state };
                        } else {
                            self.state = State { gpu, cursor: state.cursor + 1, ..state };
                        }
                    },
                }
            },
        }
        match self.state.fault {
            Some(fault) => Err(ContextError::Halted { fault }),
            None => Ok(self.command()),
        }
    }

    /// Where the resize handler stands.
    pub fn phase(&self) -> (phase: Phase)
        ensures
            phase == self@.phase(),
    {
        match self.state.fault {
            Some(_) => Phase::Halted,
            None => match self.state.handler {
                None => Phase::Idle,
                Some(Handler::Resize { width, height }) => if self.state.cursor == 0 {
                    Phase::Flushing
                } else if self.state.cursor == 1 {
                    Phase::ViewReleased
                } else if self.state.cursor == 2 {
                    Phase::BuffersResized
                } else {
                    Phase::ViewRebuilt
                },
                Some(_) => Phase::Busy,
            },
        }
    }

    fn refusal(&self) -> (refusal: Option<ContextError>)
        ensures
            refusal == self@.refusal(),
    {
        match self.state.fault {
            Some(fault) => Some(ContextError::Halted { fault }),
            None => if self.state.handler.is_some() {
                Some(ContextError::Busy)
            } else {
                None
            },
        }
    }

    /// The window's surface is ready: creates the swap chain of `window`
    /// with buffers of `width` x `height`, switches off the full-screen
    /// shortcut, and builds the first view. Refused while the context is
    /// halted or busy, and when the swap chain exists already.
    pub fn set_swap_chain(&mut self, window: usize, width: u32, height: u32) -> (result: Result<
        (),
        ContextError,
    >)
        ensures
            (final(self)@, result) == old(self)@.surface_ready(window, width, height),
            final(self)@.wf(),
            final(self).clock() == old(self).clock(),
    {
        proof {
            use_type_invariant(&*self);
        }
        let state: State = self.state;
        match self.refusal() {
            Some(error) => Err(error),
            None => {
                if state.gpu.swap_chain.is_some() {
                    Err(ContextError::SwapChainExists)
                } else {
                    proof {
                        lemma_surface_is_sound(state.gpu, window, width, height);
                    }
                    self.state = State {
                        handler: Some(Handler::Surface { window, width, height }),
                        cursor: 0,
                        ..state
                    };
                    Ok(())
                }
            },
        }
    }

    /// The window has a new size: flushes, drops the view, resizes the
    /// buffers, and rebuilds view, viewport and scissor rectangle, in that
    /// order. A size without area is that of a minimized window: it is
    /// accepted and nothing is done. Refused while the context is halted or
    /// busy, and when there is no swap chain.
    pub fn resize_buffers(&mut self, width: u32, height: u32) -> (result: Result<(), ContextError>)
        ensures
            (final(self)@, result) == old(self)@.resize(width, height),
            final(self)@.wf(),
            final(self).clock() == old(self).clock(),
    {
        proof {
            use_type_invariant(&*self);
        }
        let state: State = self.state;
        match self.refusal() {
            Some(error) => Err(error),
            None => {
                if width == 0 || height == 0 {
                    Ok(())
                } else if state.gpu.swap_chain.is_none() {
                    Err(ContextError::SwapChainMissing)
                } else {
                    proof {
                        lemma_resize_is_sound(state.gpu, width, height);
                    }
                    self.state = State {
                        handler: Some(Handler::Resize { width, height }),
                        cursor: 0,
                        ..state
                    };
                    Ok(())
                }
            },
        }
    }

    /// Draws the frame that comes `delta` nanoseconds after the previous
    /// one: moves the animation on by `delta`, sets viewport and scissor
    /// rectangle to the size of the buffers, binds the view, clears it to
    /// the colour of the new time, draws the triangle and presents. Refused
    /// while the context is halted or busy, and when there is no swap chain.
    pub fn frame(&mut self, delta: u64) -> (result: Result<(), ContextError>)
        ensures
            (final(self)@, result) == old(self)@.frame(delta),
            final(self)@.wf(),
            final(self).clock() == old(self).clock(),
    {
        proof {
            use_type_invariant(&*self);
        }
        let state: State = self.state;
        match self.refusal() {
            Some(error) => Err(error),
            None => match state.gpu.swap_chain {
                None => Err(ContextError::SwapChainMissing),
                Some(swap_chain) => {
                    let time: u64 = state.time.saturating_add(delta);
                    let color: Rgba = hsla_to_rgba(hue(time), SATURATION, LIGHTNESS, ALPHA);
                    proof {
                        lemma_frame_is_sound(state.gpu, color);
                    }
                    self.state = State {
                        handler: Some(
                            Handler::Frame {
                                color,
                                width: swap_chain.width,
                                height: swap_chain.height,
                            },
                        ),
                        cursor: 0,
                        time,
                        ..state
                    };
                    Ok(())
                },
            },
        }
    }

    /// A redraw was requested: reads the clock and draws the frame of the
    /// time that has passed since the previous redraw. For the first redraw
    /// no time has passed. The time that was used is `delta()` afterwards.
    /// A redraw that is refused does not read the clock.
    pub fn present(&mut self) -> (result: Result<(), ContextError>)
        ensures
            (final(self)@, result) == old(self)@.frame(final(self).delta()),
            final(self)@.wf(),
            result is Ok ==> final(self).ticked(),
            result is Ok && !old(self).ticked() ==> final(self).delta() == 0,
            result is Err ==> final(self).clock() == old(self).clock(),
    {
        proof {
            use_type_invariant(&*self);
        }
        match self.refusal() {
            Some(error) => Err(error),
            None => {
                if self.state.gpu.swap_chain.is_none() {
                    Err(ContextError::SwapChainMissing)
                } else {
                    let mut timer: Timer = self.timer;
                    timer.update();
                    self.timer = timer;
                    self.frame(timer.delta)
                }
            },
        }
    }
}

/// The hue of the clear colour after `time` nanoseconds of animation.
pub fn hue(time: u64) -> (hue: i128)
    ensures
        hue == hue_at(time),
        0 <= hue < FULL_TURN,
{
    let travelled: u128 = (time as u128) * (HUE_RATE as u128);
    (travelled % (FULL_TURN as u128)) as i128
}

/// A run of `count` successes.
pub open spec fn successes(count: nat) -> Seq<Reply> {
    Seq::new(count, |i: int| Reply::Done)
}

/// The command in flight is always one that the state of the GPU objects
/// permits: the buffers are never resized while a view of them exists, no
/// view is built while one exists, and nothing is cleared, drawn or
/// presented without what it needs.
pub proof fn law_issued_commands_are_permitted(state: State)
    requires
        state.wf(),
    ensures
        state.command() matches Some(command) ==> state.gpu.permits(command),
{
    reveal_with_fuel(sound, 2);
}

/// Whatever the shell replies, the context stays in one of its states.
pub proof fn law_replies_keep_the_state_valid(state: State, reply: Reply)
    requires
        state.wf(),
    ensures
        state.advanced(reply).wf(),
{
    if state.command() is Some {
        lemma_sound_step(state.gpu, state.handler->0.script(), state.cursor as int);
    }
}

/// Events keep the context in one of its states too.
pub proof fn law_events_keep_the_state_valid(
    state: State,
    window: usize,
    width: u32,
    height: u32,
    delta: u64,
)
    requires
        state.wf(),
    ensures
        state.surface_ready(window, width, height).0.wf(),
        state.resize(width, height).0.wf(),
        state.frame(delta).0.wf(),
{
    if state.refusal() is None {
        if state.gpu.swap_chain is None {
            lemma_surface_is_sound(state.gpu, window, width, height);
        } else {
            if width > 0 && height > 0 {
                lemma_resize_is_sound(state.gpu, width, height);
            }
            lemma_frame_is_sound(state.gpu, clear_color(time_after(state.time, delta)));
        }
    }
}

/// A failed command halts the context: the failure is kept, no command
/// follows, and the objects are as they were before the command.
pub proof fn law_a_failure_halts(state: State, code: i32)
    requires
        state.wf(),
        state.command() is Some,
    ensures
        ({
            let halted = state.advanced(Reply::Failed { code });
            &&& halted.fault == Some(Fault { command: state.command()->0, code })
            &&& halted.command() is None
            &&& halted.gpu == state.gpu
            &&& halted.phase() == Phase::Halted
        }),
{
}

/// A halted context stays halted: replies change nothing, and every event
/// is refused with the failure that halted it.
pub proof fn law_halted_is_final(
    state: State,
    reply: Reply,
    window: usize,
    width: u32,
    height: u32,
    delta: u64,
)
    requires
        state.wf(),
        state.fault is Some,
    ensures
        ({
            let refused = (state, Err::<(), ContextError>(ContextError::Halted { fault: state.fault->0 }));
            &&& state.advanced(reply) == state
            &&& state.surface_ready(window, width, height) == refused
            &&& state.resize(width, height) == refused
            &&& state.frame(delta) == refused
        }),
{
}

/// While a handler runs and the shell reports success, the commands of its
/// script are issued one after the other in the order of the script, and
/// after the last one the context is idle and the objects are settled.
pub proof fn law_a_handler_runs_its_script_in_order(state: State, count: nat)
    requires
        state.wf(),
        state.fault is None,
        state.handler is Some,
        state.cursor + count <= state.handler->0.script().len(),
    ensures
        ({
            let script = state.handler->0.script();
            let reached = state.run(successes(count));
            &&& reached.wf()
            &&& reached.time == state.time
            &&& state.cursor + count < script.len() ==> {
                &&& reached.handler == state.handler
                &&& reached.cursor == state.cursor + count
                &&& reached.command() == Some(script[state.cursor + count])
            }
            &&& state.cursor + count == script.len() ==> reached.idle() && settled(reached.gpu)
        }),
    decreases count,
{
    if count > 0 {
        let next = state.advanced(Reply::Done);
        lemma_sound_step(state.gpu, state.handler->0.script(), state.cursor as int);
        assert(successes(count)[0] == Reply::Done);
        assert(successes(count).skip(1) == successes((count - 1) as nat));
        if state.cursor + 1 < state.handler->0.script().len() {
            law_a_handler_runs_its_script_in_order(next, (count - 1) as nat);
        } else {
            assert(count == 1);
            assert(successes(0).len() == 0);
        }
    } else {
        assert(successes(0).len() == 0);
    }
}

/// A resize to a size with area flushes first, then drops the view, then
/// resizes the buffers, and only when that has succeeded builds the new
/// view. While the buffers are resized no view exists. When the resize
/// call fails nothing is rebuilt.
pub proof fn law_resize_releases_then_resizes_then_rebuilds(
    state: State,
    width: u32,
    height: u32,
    code: i32,
)
    requires
        state.wf(),
        state.idle(),
        state.gpu.swap_chain is Some,
        width > 0,
        height > 0,
    ensures
        ({
            let before = state.gpu.swap_chain->0;
            let begun = state.resize(width, height).0;
            let flushed = begun.advanced(Reply::Done);
            let released = flushed.advanced(Reply::Done);
            let resized = released.advanced(Reply::Done);
            let rebuilt = resized.advanced(Reply::Done);
            let failed = released.advanced(Reply::Failed { code });
            &&& state.resize(width, height).1 is Ok
            &&& begun.command() == Some(Command::Flush)
            &&& begun.phase() == Phase::Flushing
            &&& flushed.command() == Some(Command::ReleaseView)
            &&& flushed.phase() == Phase::ViewReleased
            &&& flushed.gpu.view == state.gpu.view
            &&& flushed.gpu.view is Some
            &&& released.command() == Some(
                Command::ResizeBuffers { buffer_count: 0, width, height, format: Format::Unknown },
            )
            &&& released.phase() == Phase::BuffersResized
            &&& released.gpu.view is None
            &&& released.gpu.swap_chain == Some(before)
            &&& failed.command() is None
            &&& failed.fault == Some(
                Fault {
                    command: Command::ResizeBuffers {
                        buffer_count: 0,
                        width,
                        height,
                        format: Format::Unknown,
                    },
                    code,
                },
            )
            &&& failed.gpu.view is None
            &&& failed.gpu.swap_chain == Some(before)
            &&& resized.command() == Some(Command::BuildView { buffer: 0 })
            &&& resized.phase() == Phase::ViewRebuilt
            &&& resized.gpu.view is None
            &&& resized.gpu.swap_chain == Some(before.resized(width, height))
            &&& rebuilt.gpu.view == Some(BackBufferView::of(before.resized(width, height)))
        }),
{
    lemma_resize_is_sound(state.gpu, width, height);
}

/// A resize to a size without area does nothing at all: the state is the
/// same and no command is issued.
pub proof fn law_resize_without_area_is_ignored(state: State, width: u32, height: u32)
    requires
        state.wf(),
        state.idle(),
        width == 0 || height == 0,
    ensures
        state.resize(width, height) == (state, Ok::<(), ContextError>(())),
        state.resize(width, height).0.command() is None,
        state.resize(width, height).0.phase() == Phase::Idle,
{
}

/// After a resize that ran to its end there is exactly the view of the new
/// buffers: it has their size and their generation, which is not the
/// generation of the view that was dropped. Viewport and scissor rectangle
/// have the new size, and the context is idle again.
pub proof fn law_resize_leaves_the_view_of_the_new_buffers(state: State, width: u32, height: u32)
    requires
        state.wf(),
        state.idle(),
        state.gpu.swap_chain is Some,
        width > 0,
        height > 0,
    ensures
        ({
            let before = state.gpu.swap_chain->0;
            let done = state.resize(width, height).0.run(successes(7));
            &&& done.idle()
            &&& done.wf()
            &&& done.time == state.time
            &&& done.gpu.swap_chain == Some(before.resized(width, height))
            &&& done.gpu.view == Some(
                BackBufferView {
                    format: Format::Rgba8Unorm,
                    width,
                    height,
                    generation: next_generation(before.generation),
                },
            )
            &&& done.gpu.view->0.generation != state.gpu.view->0.generation
            &&& done.gpu.viewport == Some(Extent { width, height })
            &&& done.gpu.scissor == Some(Extent { width, height })
            &&& done.gpu.device == state.gpu.device
            &&& done.gpu.pipeline == state.gpu.pipeline
        }),
{
    let begun = state.resize(width, height).0;
    lemma_resize_is_sound(state.gpu, width, height);
    law_a_handler_runs_its_script_in_order(begun, 7);
    lemma_resize_outcome(state, width, height);
}

proof fn lemma_resize_outcome(state: State, width: u32, height: u32)
    requires
        state.gpu.consistent(),
        state.idle(),
        state.gpu.swap_chain is Some,
        state.gpu.view is Some,
        width > 0,
        height > 0,
    ensures
        ({
            let before = state.gpu.swap_chain->0;
            let done = state.resize(width, height).0.run(successes(7));
            &&& done.gpu.swap_chain == Some(before.resized(width, height))
            &&& done.gpu.view == Some(BackBufferView::of(before.resized(width, height)))
            &&& done.gpu.viewport == Some(Extent { width, height })
            &&& done.gpu.scissor == Some(Extent { width, height })
            &&& done.gpu.device == state.gpu.device
            &&& done.gpu.pipeline == state.gpu.pipeline
        }),
{
    let begun = state.resize(width, height).0;
    let script = (Handler::Resize { width, height }).script();
    assert(begun == state.started(Handler::Resize { width, height }));
    assert(script.len() == 7);
    let s1 = begun.advanced(Reply::Done);
    assert(s1.gpu.device == state.gpu.device && s1.gpu.pipeline == state.gpu.pipeline);
    assert(s1.handler == begun.handler && s1.cursor == 1 && s1.fault is None);
    let s2 = s1.advanced(Reply::Done);
    assert(s2.gpu.device == state.gpu.device && s2.gpu.pipeline == state.gpu.pipeline);
    assert(s2.handler == begun.handler && s2.cursor == 2 && s2.fault is None);
    assert(s2.gpu.view is None && s2.gpu.swap_chain == state.gpu.swap_chain);
    let s3 = s2.advanced(Reply::Done);
    assert(s3.gpu.device == state.gpu.device && s3.gpu.pipeline == state.gpu.pipeline);
    assert(s3.handler == begun.handler && s3.cursor == 3 && s3.fault is None);
    assert(s3.gpu.view is None);
    assert(s3.gpu.swap_chain == Some(state.gpu.swap_chain->0.resized(width, height)));
    let s4 = s3.advanced(Reply::Done);
    assert(s4.gpu.device == state.gpu.device && s4.gpu.pipeline == state.gpu.pipeline);
    assert(s4.handler == begun.handler && s4.cursor == 4 && s4.fault is None);
    assert(s4.gpu.view == Some(BackBufferView::of(state.gpu.swap_chain->0.resized(width, height))));
    assert(s4.gpu.swap_chain == s3.gpu.swap_chain);
    let s5 = s4.advanced(Reply::Done);
    assert(s5.gpu.device == state.gpu.device && s5.gpu.pipeline == state.gpu.pipeline);
    assert(s5.handler == begun.handler && s5.cursor == 5 && s5.fault is None);
    assert(s5.gpu.viewport == Some(Extent { width, height }));
    assert(s5.gpu.view == s4.gpu.view && s5.gpu.swap_chain == s3.gpu.swap_chain);
    let s6 = s5.advanced(Reply::Done);
    assert(s6.gpu.device == state.gpu.device && s6.gpu.pipeline == state.gpu.pipeline);
    assert(s6.handler == begun.handler && s6.cursor == 6 && s6.fault is None);
    assert(s6.gpu.scissor == Some(Extent { width, height }));
    assert(s6.gpu.viewport == s5.gpu.viewport);
    assert(s6.gpu.view == s4.gpu.view && s6.gpu.swap_chain == s3.gpu.swap_chain);
    let s7 = s6.advanced(Reply::Done);
    assert(s7.gpu.device == state.gpu.device && s7.gpu.pipeline == state.gpu.pipeline);
    assert(s7.gpu == s6.gpu);
    lemma_run_of_successes(begun, 7);
    lemma_run_of_successes(s1, 6);
    lemma_run_of_successes(s2, 5);
    lemma_run_of_successes(s3, 4);
    lemma_run_of_successes(s4, 3);
    lemma_run_of_successes(s5, 2);
    lemma_run_of_successes(s6, 1);
    lemma_run_of_successes(s7, 0);
}

/// Start-up creates the factory, selects the adapter, creates the device for
/// the one feature level, with the validation layer in a debug build and
/// without it otherwise, and creates the pipeline objects. It creates no
/// swap chain and no view: they wait for the window.
pub proof fn law_start_up_creates_device_and_pipeline(debug: bool)
    ensures
        ({
            let begun = State::initial(debug);
            let done = begun.run(successes(11));
            &&& begun.wf()
            &&& begun.run(successes(2)).command() == Some(
                Command::CreateDevice { debug, feature_level: 0xb000 },
            )
            &&& done.idle()
            &&& done.wf()
            &&& done.time == 0
            &&& done.gpu.device == Some(Adapter { debug_layer: debug })
            &&& done.gpu.pipeline.complete()
            &&& done.gpu.swap_chain is None
            &&& done.gpu.view is None
        }),
{
    let begun = State::initial(debug);
    lemma_startup_is_sound(debug);
    law_a_handler_runs_its_script_in_order(begun, 2);
    law_a_handler_runs_its_script_in_order(begun, 11);
    lemma_startup_outcome(debug);
}

proof fn lemma_startup_outcome(debug: bool)
    ensures
        ({
            let done = State::initial(debug).run(successes(11));
            &&& done.gpu.device == Some(Adapter { debug_layer: debug })
            &&& done.gpu.swap_chain is None
            &&& done.gpu.view is None
        }),
{
    let begun = State::initial(debug);
    let script = (Handler::Startup { debug }).script();
    assert(script.len() == 11);
    let s1 = begun.advanced(Reply::Done);
    assert(s1.handler == begun.handler && s1.cursor == 1 && s1.fault is None);
    assert(s1.gpu.swap_chain is None && s1.gpu.view is None && s1.gpu.device is None);
    let s2 = s1.advanced(Reply::Done);
    assert(s2.handler == begun.handler && s2.cursor == 2 && s2.fault is None);
    assert(s2.gpu.swap_chain is None && s2.gpu.view is None && s2.gpu.device is None);
    let s3 = s2.advanced(Reply::Done);
    assert(s3.handler == begun.handler && s3.cursor == 3 && s3.fault is None);
    assert(s3.gpu.swap_chain is None && s3.gpu.view is None);
    assert(s3.gpu.device == Some(Adapter { debug_layer: debug }));
    let s4 = s3.advanced(Reply::Done);
    assert(s4.handler == begun.handler && s4.cursor == 4 && s4.fault is None);
    assert(s4.gpu.swap_chain is None && s4.gpu.view is None && s4.gpu.device == s3.gpu.device);
    let s5 = s4.advanced(Reply::Done);
    assert(s5.handler == begun.handler && s5.cursor == 5 && s5.fault is None);
    assert(s5.gpu.swap_chain is None && s5.gpu.view is None && s5.gpu.device == s3.gpu.device);
    let s6 = s5.advanced(Reply::Done);
    assert(s6.handler == begun.handler && s6.cursor == 6 && s6.fault is None);
    assert(s6.gpu.swap_chain is None && s6.gpu.view is None && s6.gpu.device == s3.gpu.device);
    let s7 = s6.advanced(Reply::Done);
    assert(s7.handler == begun.handler && s7.cursor == 7 && s7.fault is None);
    assert(s7.gpu.swap_chain is None && s7.gpu.view is None && s7.gpu.device == s3.gpu.device);
    let s8 = s7.advanced(Reply::Done);
    assert(s8.handler == begun.handler && s8.cursor == 8 && s8.fault is None);
    assert(s8.gpu.swap_chain is None && s8.gpu.view is None && s8.gpu.device == s3.gpu.device);
    let s9 = s8.advanced(Reply::Done);
    assert(s9.handler == begun.handler && s9.cursor == 9 && s9.fault is None);
    assert(s9.gpu.swap_chain is None && s9.gpu.view is None && s9.gpu.device == s3.gpu.device);
    let s10 = s9.advanced(Reply::Done);
    assert(s10.handler == begun.handler && s10.cursor == 10 && s10.fault is None);
    assert(s10.gpu.swap_chain is None && s10.gpu.view is None && s10.gpu.device == s3.gpu.device);
    let s11 = s10.advanced(Reply::Done);
    assert(s11.gpu.swap_chain is None && s11.gpu.view is None && s11.gpu.device == s3.gpu.device);
    lemma_run_of_successes(begun, 11);
    lemma_run_of_successes(s1, 10);
    lemma_run_of_successes(s2, 9);
    lemma_run_of_successes(s3, 8);
    lemma_run_of_successes(s4, 7);
    lemma_run_of_successes(s5, 6);
    lemma_run_of_successes(s6, 5);
    lemma_run_of_successes(s7, 4);
    lemma_run_of_successes(s8, 3);
    lemma_run_of_successes(s9, 2);
    lemma_run_of_successes(s10, 1);
    lemma_run_of_successes(s11, 0);
}

/// When the surface is ready the swap chain is created for the window with
/// the size that was given: flip-discard, triple buffered, not stereo, in
/// 8-bit RGBA. The full-screen shortcut is switched off right after, and
/// one view of the swap chain is built.
pub proof fn law_surface_gets_a_swap_chain_and_one_view(
    state: State,
    window: usize,
    width: u32,
    height: u32,
)
    requires
        state.wf(),
        state.idle(),
        state.gpu.swap_chain is None,
    ensures
        ({
            let begun = state.surface_ready(window, width, height).0;
            let done = begun.run(successes(5));
            &&& state.surface_ready(window, width, height).1 is Ok
            &&& begun.command() == Some(
                Command::CreateSwapChain {
                    window,
                    desc: SwapChainDesc {
                        width,
                        height,
                        format: Format::Rgba8Unorm,
                        stereo: false,
                        sample_count: 1,
                        sample_quality: 0,
                        buffer_count: 3,
                        swap_effect: SwapEffect::FlipDiscard,
                        flags: 0,
                        windowed: true,
                    },
                },
            )
            &&& begun.advanced(Reply::Done).command() == Some(Command::DisableAltEnter { window })
            &&& done.idle()
            &&& done.wf()
            &&& done.gpu.swap_chain == Some(SwapChain::created(window, width, height))
            &&& done.gpu.view == Some(BackBufferView::of(SwapChain::created(window, width, height)))
            &&& done.gpu.viewport == Some(Extent { width, height })
            &&& done.gpu.device == state.gpu.device
            &&& done.gpu.pipeline == state.gpu.pipeline
            &&& done.time == state.time
        }),
{
    let begun = state.surface_ready(window, width, height).0;
    lemma_surface_is_sound(state.gpu, window, width, height);
    law_a_handler_runs_its_script_in_order(begun, 5);
    lemma_surface_outcome(state, window, width, height);
}

proof fn lemma_surface_outcome(state: State, window: usize, width: u32, height: u32)
    requires
        state.idle(),
        state.gpu.swap_chain is None,
    ensures
        ({
            let begun = state.surface_ready(window, width, height).0;
            let done = begun.run(successes(5));
            &&& begun.command() == Some(
                Command::CreateSwapChain {
                    window,
                    desc: SwapChain::created(window, width, height).request(),
                },
            )
            &&& begun.advanced(Reply::Done).command() == Some(Command::DisableAltEnter { window })
            &&& done.gpu.swap_chain == Some(SwapChain::created(window, width, height))
            &&& done.gpu.view == Some(BackBufferView::of(SwapChain::created(window, width, height)))
            &&& done.gpu.viewport == Some(Extent { width, height })
            &&& done.gpu.device == state.gpu.device
            &&& done.gpu.pipeline == state.gpu.pipeline
        }),
{
    let begun = state.surface_ready(window, width, height).0;
    let script = (Handler::Surface { window, width, height }).script();
    assert(begun == state.started(Handler::Surface { window, width, height }));
    assert(script.len() == 5);
    let s1 = begun.advanced(Reply::Done);
    assert(s1.gpu.device == state.gpu.device && s1.gpu.pipeline == state.gpu.pipeline);
    assert(s1.handler == begun.handler && s1.cursor == 1 && s1.fault is None);
    assert(s1.gpu.swap_chain == Some(SwapChain::created(window, width, height)));
    let s2 = s1.advanced(Reply::Done);
    assert(s2.gpu.device == state.gpu.device && s2.gpu.pipeline == state.gpu.pipeline);
    assert(s2.handler == begun.handler && s2.cursor == 2 && s2.fault is None);
    assert(s2.gpu == s1.gpu);
    let s3 = s2.advanced(Reply::Done);
    assert(s3.gpu.device == state.gpu.device && s3.gpu.pipeline == state.gpu.pipeline);
    assert(s3.handler == begun.handler && s3.cursor == 3 && s3.fault is None);
    assert(s3.gpu.view == Some(BackBufferView::of(SwapChain::created(window, width, height))));
    assert(s3.gpu.swap_chain == s1.gpu.swap_chain);
    let s4 = s3.advanced(Reply::Done);
    assert(s4.gpu.device == state.gpu.device && s4.gpu.pipeline == state.gpu.pipeline);
    assert(s4.handler == begun.handler && s4.cursor == 4 && s4.fault is None);
    assert(s4.gpu.viewport == Some(Extent { width, height }));
    assert(s4.gpu.view == s3.gpu.view && s4.gpu.swap_chain == s1.gpu.swap_chain);
    let s5 = s4.advanced(Reply::Done);
    assert(s5.gpu.device == state.gpu.device && s5.gpu.pipeline == state.gpu.pipeline);
    assert(s5.gpu.viewport == s4.gpu.viewport);
    assert(s5.gpu.view == s3.gpu.view && s5.gpu.swap_chain == s1.gpu.swap_chain);
    lemma_run_of_successes(begun, 5);
    lemma_run_of_successes(s1, 4);
    lemma_run_of_successes(s2, 3);
    lemma_run_of_successes(s3, 2);
    lemma_run_of_successes(s4, 1);
    lemma_run_of_successes(s5, 0);
}

/// A frame clears the view to the colour of the animation time that the
/// frame has reached, after viewport and render target are set and before
/// the present; and it changes no object.
pub proof fn law_frame_clears_to_the_colour_of_its_time(state: State, delta: u64)
    requires
        state.wf(),
        state.idle(),
        state.gpu.swap_chain is Some,
    ensures
        ({
            let begun = state.frame(delta).0;
            let size = state.gpu.extent();
            let script = begun.handler->0.script();
            &&& state.frame(delta).1 is Ok
            &&& begun.time == time_after(state.time, delta)
            &&& begun.gpu == state.gpu
            &&& script.len() == 9
            &&& script[0] == Command::SetViewport { width: size.width, height: size.height }
            &&& script[2] == Command::BindRenderTarget
            &&& script[3] == Command::Clear { color: clear_color(begun.time) }
            &&& script[6] == Command::DrawIndexed { indices: 3 }
            &&& script[7] == Command::Present { sync_interval: 1, flags: 0 }
            &&& script[8] == Command::RequestRedraw
        }),
{
}

/// The hue of the clear colour advances with the animation time at the
/// fixed rate and wraps at the full wheel: `delta` nanoseconds later it is
/// `delta * HUE_RATE` units further round.
pub proof fn law_hue_advances_at_the_fixed_rate(time: u64, delta: u64)
    requires
        time + delta <= u64::MAX,
    ensures
        hue_at(time_after(time, delta)) == (hue_at(time) + delta * HUE_RATE) % (FULL_TURN as int),
        hue_at(0) == 0,
{
    let full = FULL_TURN as int;
    let travelled = time * HUE_RATE;
    assert((time + delta) * HUE_RATE == travelled + delta * HUE_RATE) by (nonlinear_arith)
        requires
            travelled == time * HUE_RATE,
    ;
    lemma_fundamental_div_mod(travelled, full);
    lemma_mod_multiples_vanish(travelled / full, travelled % full + delta * HUE_RATE, full);
}

/// A run of successes is its first reply followed by the rest.
pub proof fn lemma_run_of_successes(state: State, count: nat)
    ensures
        state.run(successes(count)) == if count == 0 {
            state
        } else {
            state.advanced(Reply::Done).run(successes((count - 1) as nat))
        },
{
    if count > 0 {
        assert(successes(count)[0] == Reply::Done);
        assert(successes(count).skip(1) == successes((count - 1) as nat));
    } else {
        assert(successes(0).len() == 0);
    }
}

} // verus!
