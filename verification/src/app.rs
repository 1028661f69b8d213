//! The application: one window, one context, and what each window event
//! sets in motion.

use vstd::prelude::*;
use crate::adapter::Adapter;
use crate::color::rgba;
use crate::color::Rgba;
use crate::context::law_a_handler_runs_its_script_in_order;
use crate::context::law_events_keep_the_state_valid;
use crate::context::law_hue_advances_at_the_fixed_rate;
use crate::context::law_replies_keep_the_state_valid;
use crate::context::law_start_up_creates_device_and_pipeline;
use crate::context::law_surface_gets_a_swap_chain_and_one_view;
use crate::context::lemma_run_of_successes;
use crate::context::successes;
use crate::context::Context;
use crate::context::ContextError;
use crate::context::Handler;
use crate::context::State;
use crate::context::ALPHA;
use crate::context::LIGHTNESS;
use crate::context::SATURATION;
use crate::gpu::Command;
use crate::gpu::Extent;
use crate::gpu::Gpu;
use crate::gpu::Reply;
use crate::swapchain::BackBufferView;
use crate::swapchain::SwapChain;
use crate::timer::Timer;

verus! {

/// The events of the window that the application hears of.
#[derive(Clone, Copy, Debug, PartialEq, Eq, Structural)]
pub enum WindowEvent {
    /// The user asked to close the window.
    CloseRequested,
    /// The window wants to be drawn.
    RedrawRequested,
    /// The client area has a new size, in pixels.
    Resized { width: u32, height: u32 },
    /// Any other event.
    Other,
}

/// The surface of the window as it was when the application resumed.
#[derive(Clone, Copy, Debug, PartialEq, Eq, Structural)]
pub struct Surface {
    /// The native handle of the window.
    pub window: usize,
    /// Width of the client area in pixels.
    pub width: u32,
    /// Height of the client area in pixels.
    pub height: u32,
}

/// A place on the monitor, in logical pixels from its top left corner.
#[derive(Clone, Copy, Debug, PartialEq, Eq, Structural)]
pub struct Position {
    pub x: u32,
    pub y: u32,
}

/// Where the top left corner of a window goes for the window to sit in the
/// middle of the monitor. The window must fit on the monitor.
pub fn centered(monitor: Extent, window: Extent) -> (position: Position)
    requires
        window.width <= monitor.width,
        window.height <= monitor.height,
    ensures
        position.x == (monitor.width - window.width) / 2,
        position.y == (monitor.height - window.height) / 2,
{
    Position { x: (monitor.width - window.width) / 2, y: (monitor.height - window.height) / 2 }
}

/// What the shell is to do about an event.
#[derive(Clone, Copy, Debug, PartialEq, Eq, Structural)]
pub enum Response {
    /// Nothing.
    Ignore,
    /// Leave the event loop.
    Exit,
    /// Show the window and ask it for a redraw.
    Show,
    /// Carry out the commands of the context until none is left.
    Run,
}

/// All that the application knows.
#[derive(Clone, Copy, Debug, PartialEq, Eq, Structural)]
pub struct AppState {
    /// The state of the context, once the application has resumed.
    pub context: Option<State>,
    /// The surface that the swap chain is made for.
    pub surface: Option<Surface>,
    /// Whether the window has been shown.
    pub visible: bool,
}

impl AppState {
    /// Before the application has resumed.
    pub open spec fn dormant() -> AppState {
        AppState { context: None, surface: None, visible: false }
    }

    /// The command that the shell is to carry out now.
    pub open spec fn command(self) -> Option<Command> {
        match self.context {
            Some(context) => context.command(),
            None => None,
        }
    }

    /// The application resumes with a window that is not shown yet. Device
    /// and pipeline are created now, the swap chain of the window after
    /// them. Without a monitor nothing is done, and a second resume changes
    /// nothing.
    pub open spec fn resumed(self, surface: Surface, monitor: bool, debug: bool) -> (AppState, Response) {
        if !monitor || self.context is Some {
            (self, Response::Ignore)
        } else {
            (
                AppState { context: Some(State::initial(debug)), surface: Some(surface), visible: false },
                Response::Run,
            )
        }
    }

    /// The state of the context after a reply, with the creation of the swap
    /// chain begun as soon as start-up has run to its end.
    pub open spec fn continued(context: State, surface: Option<Surface>) -> State {
        match surface {
            Some(surface) => if context.idle() && context.gpu.swap_chain is None {
                context.surface_ready(surface.window, surface.width, surface.height).0
            } else {
                context
            },
            None => context,
        }
    }

    /// The shell's reply to the command in flight.
    pub open spec fn advanced(self, reply: Reply) -> AppState {
        match self.context {
            Some(context) => AppState {
                context: Some(AppState::continued(context.advanced(reply), self.surface)),
                ..self
            },
            None => self,
        }
    }

    /// What a window event answers and leaves, when a redraw comes `delta`
    /// nanoseconds after the previous one.
    ///
    /// A close request ends the loop. A redraw request draws a frame. The
    /// first resize shows the window; every later one resizes the buffers.
    /// Before the application has resumed every event is ignored.
    pub open spec fn window_event(self, event: WindowEvent, delta: u64) -> (
        AppState,
        Result<Response, ContextError>,
    ) {
        match self.context {
            None => (self, Ok(Response::Ignore)),
            Some(context) => match event {
                WindowEvent::CloseRequested => (self, Ok(Response::Exit)),
                WindowEvent::RedrawRequested => match context.frame(delta).1 {
                    Ok(_) => (AppState { context: Some(context.frame(delta).0), ..self }, Ok(Response::Run)),
                    Err(error) => (self, Err(error)),
                },
                WindowEvent::Resized { width, height } => if !self.visible {
                    (AppState { visible: true, ..self }, Ok(Response::Show))
                } else {
                    match context.resize(width, height).1 {
                        Ok(_) => (
                            AppState { context: Some(context.resize(width, height).0), ..self },
                            Ok(Response::Run),
                        ),
                        Err(error) => (self, Err(error)),
                    }
                },
                WindowEvent::Other => (self, Ok(Response::Ignore)),
            },
        }
    }
}

impl AppState {
    /// The state after a run of replies.
    pub open spec fn run(self, replies: Seq<Reply>) -> AppState
        decreases replies.len(),
    {
        if replies.len() == 0 {
            self
        } else {
            self.advanced(replies[0]).run(replies.skip(1))
        }
    }

    /// Whether the swap chain is there when the context needs it: not
    /// before start-up has ended, from its creation on while the surface is
    /// set up, and ever after, always for the window of the surface.
    pub open spec fn in_step(context: State, surface: Surface) -> bool {
        let made = context.gpu.swap_chain matches Some(swap_chain) && swap_chain.window
            == surface.window;
        match context.handler {
            Some(Handler::Startup { debug }) => context.gpu.swap_chain is None,
            Some(Handler::Surface { window, width, height }) => {
                &&& window == surface.window
                &&& width == surface.width
                &&& height == surface.height
                &&& if context.cursor == 0 {
                    context.gpu.swap_chain is None
                } else {
                    made
                }
            },
            Some(_) => made,
            None => context.fault is None ==> made,
        }
    }

    /// The states that an application can be in.
    pub open spec fn wf(self) -> bool {
        match self.context {
            None => self.surface is None && !self.visible,
            Some(context) => {
                &&& context.wf()
                &&& self.surface is Some
                &&& AppState::in_step(context, self.surface->0)
            },
        }
    }
}

/// Replies and events keep the application in one of its states.
pub proof fn law_the_application_stays_valid(
    app: AppState,
    reply: Reply,
    event: WindowEvent,
    delta: u64,
    surface: Surface,
    monitor: bool,
    debug: bool,
)
    requires
        app.wf(),
    ensures
        AppState::dormant().wf(),
        app.resumed(surface, monitor, debug).0.wf(),
        app.advanced(reply).wf(),
        app.window_event(event, delta).0.wf(),
{
    law_start_up_creates_device_and_pipeline(debug);
    if app.context is Some {
        let context = app.context->0;
        let kept = app.surface->0;
        law_replies_keep_the_state_valid(context, reply);
        law_events_keep_the_state_valid(context, kept.window, kept.width, kept.height, delta);
        match event {
            WindowEvent::Resized { width, height } => {
                law_events_keep_the_state_valid(context, kept.window, width, height, delta);
            },
            _ => {},
        }
        lemma_reply_keeps_in_step(context, kept, reply);
        let next = context.advanced(reply);
        law_events_keep_the_state_valid(next, kept.window, kept.width, kept.height, delta);
    }
}

/// Once the application has resumed, no event is refused for want of a swap
/// chain: when the context is ready for an event, the swap chain is there.
pub proof fn law_the_swap_chain_is_there_when_it_is_needed(
    app: AppState,
    event: WindowEvent,
    delta: u64,
)
    requires
        app.wf(),
    ensures
        app.window_event(event, delta).1 != Err::<Response, ContextError>(
            ContextError::SwapChainMissing,
        ),
        app.window_event(event, delta).1 != Err::<Response, ContextError>(
            ContextError::SwapChainExists,
        ),
{
}

/// From a resume with a monitor to the first frame: when every call
/// succeeds, sixteen of them bring up the device, the pipeline, the swap
/// chain of the window in the size of its client area, and one view of it;
/// the window is not shown yet; and the first redraw, for which no time has
/// passed, clears to the colour of hue zero.
pub proof fn law_resume_brings_up_the_window(surface: Surface, debug: bool)
    ensures
        ({
            let begun = AppState::dormant().resumed(surface, true, debug);
            let done = begun.0.run(successes(16));
            let swap_chain = SwapChain::created(surface.window, surface.width, surface.height);
            let redrawn = done.window_event(WindowEvent::RedrawRequested, 0);
            &&& begun.1 == Response::Run
            &&& done.wf()
            &&& done.surface == Some(surface)
            &&& !done.visible
            &&& done.context is Some
            &&& done.context->0.idle()
            &&& done.context->0.time == 0
            &&& done.context->0.gpu.device == Some(Adapter { debug_layer: debug })
            &&& done.context->0.gpu.swap_chain == Some(swap_chain)
            &&& done.context->0.gpu.view == Some(BackBufferView::of(swap_chain))
            &&& redrawn.1 == Ok::<Response, ContextError>(Response::Run)
            &&& redrawn.0.context->0.time == 0
            &&& redrawn.0.context->0.handler == Some(
                Handler::Frame {
                    color: Rgba::exact(rgba(0, SATURATION as int, LIGHTNESS as int, ALPHA as int)),
                    width: surface.width,
                    height: surface.height,
                },
            )
        }),
{
    let begun = AppState::dormant().resumed(surface, true, debug).0;
    let initial = State::initial(debug);
    law_start_up_creates_device_and_pipeline(debug);
    // Ten successes leave the last command of start-up in flight.
    law_a_handler_runs_its_script_in_order(initial, 10);
    lemma_application_follows_the_context(begun, 10);
    let tenth = begun.run(successes(10));
    assert(tenth.context == Some(initial.run(successes(10))));
    // The eleventh ends start-up and begins the surface.
    lemma_run_joins(initial, 10, 1);
    lemma_run_of_successes(initial.run(successes(10)), 1);
    lemma_run_of_successes(initial.run(successes(10)).advanced(Reply::Done), 0);
    let started = initial.run(successes(11));
    assert(started == initial.run(successes(10)).advanced(Reply::Done));
    let eleventh = tenth.advanced(Reply::Done);
    let ready = started.surface_ready(surface.window, surface.width, surface.height).0;
    assert(eleventh.context == Some(ready));
    law_events_keep_the_state_valid(started, surface.window, surface.width, surface.height, 0);
    // Four more leave the last command of the surface in flight.
    law_a_handler_runs_its_script_in_order(ready, 4);
    lemma_application_follows_the_context(eleventh, 4);
    let fifteenth = eleventh.run(successes(4));
    assert(fifteenth.context == Some(ready.run(successes(4))));
    // The sixteenth ends the surface.
    law_surface_gets_a_swap_chain_and_one_view(
        started,
        surface.window,
        surface.width,
        surface.height,
    );
    lemma_run_joins(ready, 4, 1);
    lemma_run_of_successes(ready.run(successes(4)), 1);
    lemma_run_of_successes(ready.run(successes(4)).advanced(Reply::Done), 0);
    let sixteenth = fifteenth.advanced(Reply::Done);
    assert(sixteenth.context == Some(ready.run(successes(5))));
    // The runs join.
    lemma_application_run_joins(begun, 10, 6);
    lemma_application_run_of_successes(tenth, 6);
    lemma_application_run_joins(eleventh, 4, 1);
    lemma_application_run_of_successes(fifteenth, 1);
    lemma_application_run_of_successes(sixteenth, 0);
    assert(eleventh.run(successes(5)) == sixteenth);
    assert(begun.run(successes(16)) == sixteenth);
    law_hue_advances_at_the_fixed_rate(0, 0);
}

/// A reply keeps the swap chain in step with the handlers.
proof fn lemma_reply_keeps_in_step(context: State, surface: Surface, reply: Reply)
    requires
        context.fault is Some ==> context.handler is None,
        AppState::in_step(context, surface),
    ensures
        AppState::in_step(AppState::continued(context.advanced(reply), Some(surface)), surface),
{
    let next = context.advanced(reply);
    match context.command() {
        None => {
            assert(next == context);
        },
        Some(command) => {
            let handler = context.handler->0;
            let cursor = context.cursor as int;
            lemma_script_command(handler, cursor);
            match reply {
                Reply::Failed { code } => {
                    assert(next.fault is Some);
                },
                Reply::Done => {
                    assert(next.gpu == context.gpu.after(command));
                    assert(next.fault is None);
                    if handler is Surface && cursor == 0 {
                        assert(next.gpu.swap_chain is Some);
                        assert(next.gpu.swap_chain->0.window == surface.window);
                    } else {
                        lemma_after_keeps_the_window(context.gpu, command);
                    }
                },
            }
        },
    }
}

/// No command but the creation of the swap chain changes whether there is a
/// swap chain and which window it belongs to.
proof fn lemma_after_keeps_the_window(gpu: Gpu, command: Command)
    requires
        !(command is CreateSwapChain),
    ensures
        gpu.after(command).swap_chain is Some <==> gpu.swap_chain is Some,
        gpu.swap_chain is Some ==> gpu.after(command).swap_chain->0.window
            == gpu.swap_chain->0.window,
{
}

/// Only the first command of the surface creates the swap chain, for the
/// window and in the size of the surface.
proof fn lemma_script_command(handler: Handler, cursor: int)
    requires
        0 <= cursor < handler.script().len(),
    ensures
        ({
            let command = handler.script()[cursor];
            match handler {
                Handler::Surface { window, width, height } => if cursor == 0 {
                    command == (Command::CreateSwapChain {
                        window,
                        desc: SwapChain::created(window, width, height).request(),
                    })
                } else {
                    !(command is CreateSwapChain)
                },
                _ => !(command is CreateSwapChain),
            }
        }),
{
    let script = handler.script();
    match handler {
        Handler::Startup { debug } => {
            assert(script.len() == 11);
        },
        Handler::Surface { window, width, height } => {
            assert(script.len() == 5);
        },
        Handler::Resize { width, height } => {
            assert(script.len() == 7);
        },
        Handler::Frame { color, width, height } => {
            assert(script.len() == 9);
        },
    }
}

/// While a handler is far from its end the application does what its
/// context does.
proof fn lemma_application_follows_the_context(app: AppState, count: nat)
    requires
        app.context is Some,
        app.context->0.wf(),
        app.context->0.fault is None,
        app.context->0.handler is Some,
        app.context->0.cursor + count < app.context->0.handler->0.script().len(),
    ensures
        app.run(successes(count)) == (AppState {
            context: Some(app.context->0.run(successes(count))),
            ..app
        }),
    decreases count,
{
    let context = app.context->0;
    lemma_application_run_of_successes(app, count);
    lemma_run_of_successes(context, count);
    if count > 0 {
        law_a_handler_runs_its_script_in_order(context, 1);
        lemma_run_of_successes(context, 1);
        lemma_run_of_successes(context.advanced(Reply::Done), 0);
        let next = context.advanced(Reply::Done);
        assert(next.handler is Some);
        assert(AppState::continued(next, app.surface) == next);
        lemma_application_follows_the_context(app.advanced(Reply::Done), (count - 1) as nat);
    }
}

proof fn lemma_application_run_of_successes(app: AppState, count: nat)
    ensures
        app.run(successes(count)) == if count == 0 {
            app
        } else {
            app.advanced(Reply::Done).run(successes((count - 1) as nat))
        },
{
    if count > 0 {
        assert(successes(count)[0] == Reply::Done);
        assert(successes(count).skip(1) == successes((count - 1) as nat));
    } else {
        assert(successes(0).len() == 0);
    }
}

proof fn lemma_application_run_joins(app: AppState, first: nat, second: nat)
    ensures
        app.run(successes(first)).run(successes(second)) == app.run(successes(first + second)),
    decreases first,
{
    lemma_application_run_of_successes(app, first);
    lemma_application_run_of_successes(app, first + second);
    if first > 0 {
        lemma_application_run_joins(app.advanced(Reply::Done), (first - 1) as nat, second);
    }
}

proof fn lemma_run_joins(state: State, first: nat, second: nat)
    ensures
        state.run(successes(first)).run(successes(second)) == state.run(successes(first + second)),
    decreases first,
{
    lemma_run_of_successes(state, first);
    lemma_run_of_successes(state, first + second);
    if first > 0 {
        lemma_run_joins(state.advanced(Reply::Done), (first - 1) as nat, second);
    }
}

/// The application state that the event loop calls into.
#[derive(Debug)]
pub struct Struggle {
    context: Option<Context>,
    surface: Option<Surface>,
    visible: bool,
}

impl View for Struggle {
    type V = AppState;

    closed spec fn view(&self) -> AppState {
        AppState {
            context: match self.context {
                Some(context) => Some(context@),
                None => None,
            },
            surface: self.surface,
            visible: self.visible,
        }
    }
}

impl Default for Struggle {
    /// An application that has not resumed yet.
    fn default() -> (app: Struggle)
        ensures
            app@ == AppState::dormant(),
            app@.wf(),
            app.clock() is None,
    {
        Struggle::new()
    }
}

impl Struggle {
    /// The frame clock of the context, once the application has resumed.
    pub closed spec fn clock(&self) -> Option<Timer> {
        match self.context {
            Some(context) => Some(context.clock()),
            None => None,
        }
    }

    /// Nanoseconds between the last two redraws.
    pub open spec fn delta(&self) -> u64 {
        match self.clock() {
            Some(clock) => clock.delta,
            None => 0,
        }
    }

    /// Whether a frame has been drawn before.
    pub open spec fn ticked(&self) -> bool {
        match self.clock() {
            Some(clock) => clock.ticked,
            None => false,
        }
    }

    /// An application that has not resumed yet.
    pub fn new() -> (app: Struggle)
        ensures
            app@ == AppState::dormant(),
            app@.wf(),
            app.clock() is None,
    {
        Struggle { context: None, surface: None, visible: false }
    }

    /// All that the application knows.
    pub fn state(&self) -> (state: AppState)
        ensures
            state == self@,
    {
        AppState {
            context: match &self.context {
                Some(context) => Some(context.state()),
                None => None,
            },
            surface: self.surface,
            visible: self.visible,
        }
    }

    /// The command that the shell is to carry out now, if there is one.
    pub fn command(&self) -> (command: Option<Command>)
        ensures
            command == self@.command(),
    {
        match &self.context {
            Some(context) => context.command(),
            None => None,
        }
    }

    /// The application resumes: `surface` is the window that was created,
    /// `monitor` says whether it is on a monitor.
    pub fn resumed(&mut self, surface: Surface, monitor: bool, debug: bool) -> (response: Response)
        ensures
            (final(self)@, response) == old(self)@.resumed(surface, monitor, debug),
            old(self)@.wf() ==> final(self)@.wf(),
            response == Response::Run ==> final(self).delta() == 0 && !final(self).ticked(),
            response != Response::Run ==> final(self).clock() == old(self).clock(),
    {
        proof {
            if self@.wf() {
                law_the_application_stays_valid(
                    self@,
                    Reply::Done,
                    WindowEvent::Other,
                    0,
                    surface,
                    monitor,
                    debug,
                );
            }
        }
        if !monitor || self.context.is_some() {
            Response::Ignore
        } else {
            self.context = Some(Context::new(debug));
            self.surface = Some(surface);
            self.visible = false;
            Response::Run
        }
    }

    /// Takes the shell's reply to the command in flight. Answers with the
    /// next command, with nothing when nothing is left to do, or with the
    /// failure that has halted the context.
    pub fn advance(&mut self, reply: Reply) -> (next: Result<Option<Command>, ContextError>)
        ensures
            final(self)@ == old(self)@.advanced(reply),
            next == match final(self)@.context {
                Some(context) => match context.fault {
                    Some(fault) => Err::<Option<Command>, ContextError>(
                        ContextError::Halted { fault },
                    ),
                    None => Ok(context.command()),
                },
                None => Ok(None),
            },
            old(self)@.wf() ==> final(self)@.wf(),
            final(self).clock() == old(self).clock(),
    {
        proof {
            if self@.wf() {
                law_the_application_stays_valid(
                    self@,
                    reply,
                    WindowEvent::Other,
                    0,
                    Surface { window: 0, width: 0, height: 0 },
                    false,
                    false,
                );
            }
        }
        let surface: Option<Surface> = self.surface;
        match &mut self.context {
            None => Ok(None),
            Some(context) => {
                let next = context.advance(reply);
                match surface {
                    Some(surface) => {
                        let state: State = context.state();
                        if state.fault.is_none() && state.handler.is_none()
                            && state.gpu.swap_chain.is_none() {
                            let _ = context.set_swap_chain(
                                surface.window,
                                surface.width,
                                surface.height,
                            );
                            Ok(context.command())
                        } else {
                            next
                        }
                    },
                    None => next,
                }
            },
        }
    }

    /// Handles an event of the window. A redraw reads the clock; the time
    /// that it used is `delta()` afterwards.
    pub fn window_event(&mut self, event: WindowEvent) -> (result: Result<Response, ContextError>)
        ensures
            (final(self)@, result) == old(self)@.window_event(event, final(self).delta()),
            old(self)@.wf() ==> final(self)@.wf(),
            old(self)@.wf() ==> result != Err::<Response, ContextError>(
                ContextError::SwapChainMissing,
            ),
            event != WindowEvent::RedrawRequested || result != Ok::<Response, ContextError>(
                Response::Run,
            ) ==> final(self).clock() == old(self).clock(),
            event == WindowEvent::RedrawRequested && result == Ok::<Response, ContextError>(
                Response::Run,
            ) ==> final(self).ticked() && (!old(self).ticked() ==> final(self).delta() == 0),
    {
        let ghost before = self@;
        let visible: bool = self.visible;
        let result = match &mut self.context {
            None => Ok(Response::Ignore),
            Some(context) => match event {
                WindowEvent::CloseRequested => Ok(Response::Exit),
                WindowEvent::RedrawRequested => match context.present() {
                    Ok(_) => Ok(Response::Run),
                    Err(error) => Err(error),
                },
                WindowEvent::Resized { width, height } => if !visible {
                    self.visible = true;
                    Ok(Response::Show)
                } else {
                    match context.resize_buffers(width, height) {
                        Ok(_) => Ok(Response::Run),
                        Err(error) => Err(error),
                    }
                },
                WindowEvent::Other => Ok(Response::Ignore),
            },
        };
        proof {
            if before.wf() {
                law_the_application_stays_valid(
                    before,
                    Reply::Done,
                    event,
                    self.delta(),
                    Surface { window: 0, width: 0, height: 0 },
                    false,
                    false,
                );
                law_the_swap_chain_is_there_when_it_is_needed(before, event, self.delta());
            }
        }
        result
    }
}

} // verus!
