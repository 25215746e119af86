//! The render loop's state: the surface configuration, what was built for
//! rendering, the frame counters and the frame driver, and how each event of
//! the loop changes them.

use crate::context::GraphicsContext;
use crate::error::{FatalError, SurfaceError};
use crate::frame::{decide, spec_decide, FrameAction, FrameState, Phase};
use crate::input::{Event, ExitKey, Signal, WindowId};
use crate::pipeline::{Geometry, RenderResources};
use crate::surface::{SurfaceCapabilities, SurfaceConfig, SurfaceConfigView};
use vstd::prelude::*;

verus! {

/// What the event loop has to do after an event.
#[derive(Clone, Copy, Debug, PartialEq, Eq, Structural)]
pub enum Command {
    /// Nothing.
    Nothing,
    /// Ask the platform to redraw the window.
    RequestRedraw,
    /// Acquire an image from the surface and call `draw` with the outcome.
    Draw,
    /// Configure the surface with the stored configuration.
    Configure,
    /// Leave the loop; the process ends normally.
    Exit,
}

/// The state of the render loop as plain data.
pub struct StateView {
    pub window: WindowId,
    pub context: GraphicsContext,
    pub config: SurfaceConfigView,
    pub resources: RenderResources,
    pub frame: FrameState,
    pub phase: Phase,
    pub exit_key: ExitKey,
}

impl StateView {
    /// The surface covers at least one pixel, and the pipeline writes the
    /// format that the surface presents.
    pub open spec fn wf(self) -> bool {
        self.config.wf() && self.resources.target_format == self.config.format
    }

    /// The state a render loop starts in: it owns the context it was given.
    pub open spec fn initial(
        context: GraphicsContext,
        window: WindowId,
        config: SurfaceConfigView,
        geometry: Geometry,
        instances: Option<u32>,
        model_transform: bool,
        now_nanos: u64,
    ) -> StateView {
        StateView {
            window,
            context,
            config,
            resources: RenderResources {
                target_format: config.format,
                geometry,
                instances,
                model_transform,
            },
            frame: FrameState { last_frame_nanos: now_nanos, frame_nanos: 0 },
            phase: Phase::Idle,
            exit_key: ExitKey { down: false },
        }
    }

    /// The state after a resize request.
    pub open spec fn resized(self, width: u32, height: u32) -> StateView {
        StateView { config: self.config.resized(width, height), ..self }
    }

    /// The state after a draw that began at `now_nanos` and got `acquired`
    /// from the surface, and what the caller has to do. The counters move on
    /// whatever the surface answered; the configuration and the resources
    /// stay as they are.
    pub open spec fn drawn(self, now_nanos: u64, acquired: Result<(), SurfaceError>) -> (
        StateView,
        FrameAction,
    ) {
        let next = spec_decide(self.phase, acquired, self.resources.spec_render_pass());
        (StateView { frame: self.frame.spec_tick(now_nanos), phase: next.0, ..self }, next.1)
    }

    /// The state after the frame in flight, if any, was presented.
    pub open spec fn presented(self) -> StateView {
        StateView { phase: Phase::Idle, ..self }
    }

    /// The state after `event`, and what the event loop has to do.
    pub open spec fn handled(self, event: Event) -> (StateView, Command) {
        match event.spec_signal(self.window) {
            Signal::Ignore => (self, Command::Nothing),
            Signal::RequestRedraw => (self, Command::RequestRedraw),
            Signal::Redraw => (self, Command::Draw),
            Signal::Resize(width, height) => (
                self.resized(width, height),
                if width != 0 && height != 0 {
                    Command::Configure
                } else {
                    Command::Nothing
                },
            ),
            Signal::Key(input) => (
                StateView { exit_key: self.exit_key.spec_after(input), ..self },
                if self.exit_key.spec_signals(input) {
                    Command::Exit
                } else {
                    Command::Nothing
                },
            ),
            Signal::Close => (self, Command::Exit),
        }
    }
}

/// The render loop's state. The pipeline always writes the format that the
/// surface presents.
#[derive(Debug)]
pub struct State {
    window: WindowId,
    context: GraphicsContext,
    config: SurfaceConfig,
    resources: RenderResources,
    frame: FrameState,
    phase: Phase,
    exit_key: ExitKey,
}

impl View for State {
    type V = StateView;

    closed spec fn view(&self) -> StateView {
        StateView {
            window: self.window,
            context: self.context,
            config: self.config@,
            resources: self.resources,
            frame: self.frame,
            phase: self.phase,
            exit_key: self.exit_key,
        }
    }
}

impl State {
    #[verifier::type_invariant]
    spec fn inv(self) -> bool {
        self.resources.target_format == self.config@.format
    }

    /// Sets up the render loop for the window `window` of `width` by `height`
    /// pixels, at time `now_nanos`: chooses the surface configuration from
    /// `caps` and describes the resources of a pipeline that draws `geometry`
    /// to the chosen format. Fails only where the surface offers no format.
    pub fn new(
        context: GraphicsContext,
        window: WindowId,
        caps: &SurfaceCapabilities,
        width: u32,
        height: u32,
        geometry: Geometry,
        instances: Option<u32>,
        model_transform: bool,
        now_nanos: u64,
    ) -> (state: Result<State, FatalError>)
        requires
            width > 0,
            height > 0,
        ensures
            caps.formats@.len() == 0 ==> state is Err && state->Err_0
                == FatalError::NoSurfaceFormat,
            caps.formats@.len() > 0 ==> state is Ok && state->Ok_0@ == StateView::initial(
                context,
                window,
                SurfaceConfigView::chosen(
                    caps.formats@,
                    caps.present_modes@,
                    caps.alpha_modes@,
                    width,
                    height,
                ),
                geometry,
                instances,
                model_transform,
                now_nanos,
            ) && state->Ok_0@.wf(),
    {
        let config = match SurfaceConfig::configure(caps, width, height) {
            Ok(config) => config,
            Err(error) => {
                return Err(error);
            },
        };
        let resources = RenderResources::build(
            config.format(),
            geometry,
            instances,
            model_transform,
        );
        Ok(
            State {
                window,
                context,
                config,
                resources,
                frame: FrameState::new(now_nanos),
                phase: Phase::Idle,
                exit_key: ExitKey::new(),
            },
        )
    }

    /// Takes a new window size. A size with a zero dimension is ignored and
    /// leaves the state as it is; any other replaces the stored size. Returns
    /// whether the size was taken: the surface then has to be configured with
    /// the stored configuration.
    pub fn reconfigure(&mut self, width: u32, height: u32) -> (accepted: bool)
        ensures
            final(self)@ == old(self)@.resized(width, height),
            accepted == (width != 0 && height != 0),
            accepted ==> final(self)@.config.width == width && final(self)@.config.height
                == height,
            !accepted ==> final(self)@ == old(self)@,
            final(self)@.wf(),
    {
        proof {
            use_type_invariant(&*self);
        }
        let mut config = self.config;
        let accepted = config.reconfigure(width, height);
        self.config = config;
        proof {
            use_type_invariant(&self.config);
        }
        accepted
    }

    /// Draws one frame, as far as that is decided here: `now_nanos` is the
    /// time the draw begins at and `acquired` what the surface answered when
    /// asked for its next image. The frame counters are updated in every
    /// case. The result says what is left to do; at most one pass is handed
    /// out, and only for an image that was acquired while no frame was in
    /// flight. An outdated or lost surface keeps its last known size.
    pub fn draw(&mut self, now_nanos: u64, acquired: Result<(), SurfaceError>) -> (action:
        FrameAction)
        ensures
            (final(self)@, action) == old(self)@.drawn(now_nanos, acquired),
            final(self)@.frame.last_frame_nanos == now_nanos,
            final(self)@.config == old(self)@.config,
            action.submissions() <= 1,
            action.submissions() == 1 <==> old(self)@.phase == Phase::Idle && acquired is Ok,
            final(self)@.wf(),
    {
        proof {
            use_type_invariant(&*self);
            use_type_invariant(&self.config);
        }
        let mut frame = self.frame;
        frame.tick(now_nanos);
        self.frame = frame;
        let next = decide(self.phase, acquired, self.resources.render_pass());
        self.phase = next.0;
        match next.1 {
            FrameAction::Reconfigure => {
                let width = self.config.width();
                let height = self.config.height();
                self.reconfigure(width, height);
            },
            _ => {},
        }
        next.1
    }

    /// Notes that the frame in flight was submitted and presented: the driver
    /// is idle again.
    pub fn frame_presented(&mut self)
        ensures
            final(self)@ == old(self)@.presented(),
            final(self)@.phase == Phase::Idle,
    {
        proof {
            use_type_invariant(&*self);
        }
        self.phase = Phase::Idle;
    }

    /// Handles one event of the platform's event loop. Events about another
    /// window and events that mean nothing here change nothing. The exit is
    /// asked for when the window is closed, and once each time the exit key
    /// goes down; a resize is taken as by `reconfigure`.
    pub fn handle_event(&mut self, event: Event) -> (command: Command)
        ensures
            (final(self)@, command) == old(self)@.handled(event),
            event.window() is Some && event.window() != Some(old(self)@.window) ==> command
                == Command::Nothing && final(self)@ == old(self)@,
            final(self)@.wf(),
    {
        proof {
            use_type_invariant(&*self);
            use_type_invariant(&self.config);
        }
        match event.signal(self.window) {
            Signal::Ignore => Command::Nothing,
            Signal::RequestRedraw => Command::RequestRedraw,
            Signal::Redraw => Command::Draw,
            Signal::Resize(width, height) => {
                if self.reconfigure(width, height) {
                    Command::Configure
                } else {
                    Command::Nothing
                }
            },
            Signal::Key(input) => {
                let mut exit_key = self.exit_key;
                let exit = exit_key.observe(input);
                self.exit_key = exit_key;
                if exit {
                    Command::Exit
                } else {
                    Command::Nothing
                }
            },
            Signal::Close => Command::Exit,
        }
    }

    /// The window the loop draws to.
    pub fn window(&self) -> (window: WindowId)
        ensures
            window == self@.window,
    {
        self.window
    }

    /// The graphics context the loop owns: the one it was set up with.
    pub fn context(&self) -> (context: &GraphicsContext)
        ensures
            *context == self@.context,
    {
        &self.context
    }

    /// The configuration the surface has, or is to be given.
    pub fn config(&self) -> (config: SurfaceConfig)
        ensures
            config@ == self@.config,
            config@.wf(),
            config@.format == self@.resources.target_format,
    {
        proof {
            use_type_invariant(self);
            use_type_invariant(&self.config);
        }
        self.config
    }

    /// What was built for rendering.
    pub fn resources(&self) -> (resources: RenderResources)
        ensures
            resources == self@.resources,
    {
        self.resources
    }

    /// The frame counters.
    pub fn frame(&self) -> (frame: FrameState)
        ensures
            frame == self@.frame,
    {
        self.frame
    }

    /// Where the frame driver stands.
    pub fn phase(&self) -> (phase: Phase)
        ensures
            phase == self@.phase,
    {
        self.phase
    }
}

} // verus!
