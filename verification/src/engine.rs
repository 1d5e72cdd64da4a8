//! The main loop, as a machine that the host steps.
//!
//! The driver decides and the host acts. Each step of the driver covers one
//! phase of a frame and returns, in order, what the host has to ask of the
//! engine, the interface and the application for that phase.
use crate::camera::{Camera, CameraType};
use crate::collector::{drain_model, push_model, RenderObjectCollector};
use crate::corange::{camera, render_object, vec3, Scalar};
use crate::error::Error;
use crate::renderer::Renderer;
use crate::staged::{apply_model, cell_ok, is_due, set_model, StagedConfig, StagedState, StagedView};
use crate::viewport::Viewport;
use vstd::prelude::*;

verus! {

/// One thing that the host has to do for the driver.
#[derive(Clone, Debug, PartialEq)]
pub enum EngineCall {
    /// Give the window this title.
    ViewportSetTitle(String),
    /// Give the window this width and this height.
    ViewportSetSize(i32, i32),
    /// Set the level of antialiasing.
    SetAntialiasing(i32),
    /// Set the number of samples per pixel.
    SetMultisamples(i32),
    /// Enter full screen (1) or leave it (0).
    SetFullscreen(u8),
    /// Make the renderer from the options file at this path.
    RendererNew(String),
    /// Set the amount of texture noise.
    RendererSetGlitch(Scalar),
    /// Show the sky (1) or hide it (0).
    RendererSetSkydomeEnabled(u8),
    /// Show the sea (1) or hide it (0).
    RendererSetSeaEnabled(u8),
    /// Set the time of day, and the seed of the sky.
    RendererSetTod(Scalar, i32),
    /// Load the colour correction texture at this path.
    RendererSetColorCorrection(String),
    /// Load the vignetting texture at this path.
    RendererSetVignetting(String),
    /// Make the camera that the renderer looks through.
    CameraNew,
    /// Give the camera these parameters.
    CameraAssign(camera),
    /// Tell the clock that a frame begins.
    FrameBegin,
    /// Let the orbit controller of the camera see the event in hand.
    CameraControlOrbit,
    /// Let the free controller of the camera move by the time elapsed.
    CameraControlFreecam,
    /// Let the interface see the event in hand.
    UiEvent,
    /// Let the application's event hook see the event in hand.
    UserEvent,
    /// Run the application's update hook.
    UserUpdate,
    /// Hand this drawable to the renderer.
    RendererAdd(render_object),
    /// Point the renderer at the camera.
    RendererSetCamera,
    /// Draw the scene.
    RendererRender,
    /// Let the interface update itself.
    UiUpdate,
    /// Draw the interface.
    UiRender,
    /// Show the frame.
    GraphicsSwap,
    /// Tell the clock that the frame ends.
    FrameEnd,
}

/// The number that SDL gives to the event that asks the application to quit.
pub const SDL_QUIT: u32 = 0x100;

/// The number that SDL gives to the event of a key going down.
pub const SDL_KEYDOWN: u32 = 0x300;

/// The number that SDL gives to the event of a key coming up.
pub const SDL_KEYUP: u32 = 0x301;

/// The code that SDL gives to the escape key.
pub const SDLK_ESCAPE: i32 = 27;

/// What the driver reads of an input event. The host keeps the event itself
/// in hand while the driver decides who shall see it.
#[derive(Clone, Copy, Debug, PartialEq, Eq, Structural)]
pub enum Event {
    /// The application is asked to quit.
    Quit,
    /// The key with this code went down.
    KeyDown { key: i32 },
    /// The key with this code came up.
    KeyUp { key: i32 },
    /// Anything else: the pointer, a joystick, the window.
    Other,
}

impl Event {
    /// What the driver reads of the event that SDL numbers `kind`, where
    /// `key` is the code of its key if it is an event of the keyboard.
    pub open spec fn classify(kind: u32, key: i32) -> Event {
        if kind == SDL_QUIT {
            Event::Quit
        } else if kind == SDL_KEYDOWN {
            Event::KeyDown { key }
        } else if kind == SDL_KEYUP {
            Event::KeyUp { key }
        } else {
            Event::Other
        }
    }

    /// What the driver reads of the event that SDL numbers `kind`, where
    /// `key` is the code of its key if it is an event of the keyboard.
    pub fn from_raw(kind: u32, key: i32) -> (event: Event)
        ensures
            event == Event::classify(kind, key),
    {
        if kind == SDL_QUIT {
            Event::Quit
        } else if kind == SDL_KEYDOWN {
            Event::KeyDown { key }
        } else if kind == SDL_KEYUP {
            Event::KeyUp { key }
        } else {
            Event::Other
        }
    }

    /// Whether the event ends the loop: it asks to quit, or it is the escape
    /// key coming up.
    pub open spec fn asks_to_quit(self) -> bool {
        self == Event::Quit || self == (Event::KeyUp { key: SDLK_ESCAPE })
    }

    /// Whether the event ends the loop: it asks to quit, or it is the escape
    /// key coming up.
    pub fn requests_quit(&self) -> (quit: bool)
        ensures
            quit == self.asks_to_quit(),
    {
        match self {
            Event::Quit => true,
            Event::KeyUp { key } => *key == SDLK_ESCAPE,
            _ => false,
        }
    }
}

/// The number of frames completed since the loop began.
pub struct FrameCounter {
    frame: u64,
}

impl View for FrameCounter {
    type V = u64;

    closed spec fn view(&self) -> u64 {
        self.frame
    }
}

impl FrameCounter {
    /// A counter at frame 0.
    pub fn new() -> (counter: Self)
        ensures
            counter@ == 0,
    {
        FrameCounter { frame: 0 }
    }

    /// The frame that is running.
    pub fn current(&self) -> (frame: u64)
        ensures
            frame == self@,
    {
        self.frame
    }

    /// Counts the running frame as completed.
    pub fn advance(&mut self)
        requires
            old(self)@ < u64::MAX,
        ensures
            final(self)@ == old(self)@ + 1,
    {
        self.frame = self.frame + 1;
    }
}

/// Where in a frame the loop stands: the phase that the next step carries
/// out.
#[derive(Clone, Copy, Debug, PartialEq, Eq, Structural)]
pub enum Phase {
    Init,
    FrameBegin,
    EventPump,
    ConfigApply,
    UserUpdate,
    Collect,
    Draw,
    Present,
    FrameEnd,
    Shutdown,
}

/// The driver as contracts see it.
pub struct DriverView {
    /// The phase that the next step carries out.
    pub phase: Phase,
    /// The frame that is running.
    pub frame: u64,
    /// Whether an event has asked to quit.
    pub quit: bool,
    /// Whether the application has an event hook.
    pub event_hook: bool,
    /// Whether the application has an update hook.
    pub update_hook: bool,
    pub viewport: StagedView<Viewport>,
    pub renderer: StagedView<Renderer>,
    pub camera: StagedView<Camera>,
    /// The drawables pushed and not yet collected.
    pub collected: Seq<render_object>,
    /// The drawables collected and not yet drawn.
    pub submission: Seq<render_object>,
}

/// The loop driver.
pub struct LoopDriver {
    phase: Phase,
    frame: FrameCounter,
    quit: bool,
    event_hook: bool,
    update_hook: bool,
    viewport: StagedConfig<Viewport>,
    renderer: StagedConfig<Renderer>,
    camera: StagedConfig<Camera>,
    collector: RenderObjectCollector,
    submission: Vec<render_object>,
}

/// The drivers that can exist: the three cells are valid, drawables wait
/// for the renderer only between their collection and their drawing, and
/// the loop has ended only if an event has asked to quit.
pub open spec fn driver_ok(d: DriverView) -> bool {
    &&& cell_ok(d.viewport)
    &&& cell_ok(d.renderer)
    &&& cell_ok(d.camera)
    &&& !(d.phase is Draw) ==> d.submission.len() == 0
    &&& d.phase is Shutdown ==> d.quit
}

/// Whether the driver can take a step: the frame counter has room for the
/// frame that the step may complete.
pub open spec fn can_step(d: DriverView) -> bool {
    d.phase is FrameEnd ==> d.frame < u64::MAX
}

/// The phase that follows `phase`, where `more` says whether the event pump
/// was handed an event and `quit` whether an event has asked to quit.
pub open spec fn next_phase(phase: Phase, more: bool, quit: bool) -> Phase {
    match phase {
        Phase::Init => Phase::FrameBegin,
        Phase::FrameBegin => Phase::EventPump,
        Phase::EventPump => if more {
            Phase::EventPump
        } else {
            Phase::ConfigApply
        },
        Phase::ConfigApply => Phase::UserUpdate,
        Phase::UserUpdate => Phase::Collect,
        Phase::Collect => Phase::Draw,
        Phase::Draw => Phase::Present,
        Phase::Present => Phase::FrameEnd,
        Phase::FrameEnd => if quit {
            Phase::Shutdown
        } else {
            Phase::FrameBegin
        },
        Phase::Shutdown => Phase::Shutdown,
    }
}

/// The call that hands the engine's camera the parameters of `config`.
pub open spec fn camera_call(config: Camera) -> EngineCall {
    EngineCall::CameraAssign(config.applied_to_engine())
}

/// What the host does once, before the first frame: it puts the viewport in
/// force, makes and configures the renderer, and makes and places the
/// camera.
pub open spec fn init_calls(d: DriverView) -> Seq<EngineCall> {
    d.viewport.applied.apply_calls() + d.renderer.applied.initialize_calls() + seq![
        EngineCall::CameraNew,
        camera_call(d.camera.applied),
    ]
}

/// Who sees an event, in this order: the controller of the camera that
/// `movement` selects, if it selects one; the interface; the application's
/// event hook, if there is one.
pub open spec fn dispatch_calls(movement: CameraType, event_hook: bool) -> Seq<EngineCall> {
    (match movement {
        CameraType::Manual => Seq::empty(),
        CameraType::Orbit => seq![EngineCall::CameraControlOrbit],
        CameraType::Free => seq![EngineCall::CameraControlFreecam],
    }) + seq![EngineCall::UiEvent] + (if event_hook {
        seq![EngineCall::UserEvent]
    } else {
        Seq::empty()
    })
}

/// The calls that put the viewport in force, if it is due in the running
/// frame, and none if it is not.
pub open spec fn viewport_calls_due(d: DriverView) -> Seq<EngineCall> {
    if is_due(d.viewport, d.frame) {
        d.viewport.state->value.apply_calls()
    } else {
        Seq::empty()
    }
}

/// The calls that put the renderer in force, if it is due in the running
/// frame, and none if it is not.
pub open spec fn renderer_calls_due(d: DriverView) -> Seq<EngineCall> {
    if is_due(d.renderer, d.frame) {
        d.renderer.state->value.apply_calls()
    } else {
        Seq::empty()
    }
}

/// The call that puts the camera in force, if it is due in the running
/// frame, and none if it is not.
pub open spec fn camera_calls_due(d: DriverView) -> Seq<EngineCall> {
    if is_due(d.camera, d.frame) {
        seq![camera_call(d.camera.state->value)]
    } else {
        Seq::empty()
    }
}

/// The calls of the configuration phase: those of the viewport, then those
/// of the renderer, then that of the camera, since the renderer and the
/// camera may read the size of the viewport.
pub open spec fn config_calls(d: DriverView) -> Seq<EngineCall> {
    viewport_calls_due(d) + renderer_calls_due(d) + camera_calls_due(d)
}

/// One call per drawable, in the order of the drawables.
pub open spec fn add_calls(objects: Seq<render_object>) -> Seq<EngineCall> {
    Seq::new(objects.len(), |i: int| EngineCall::RendererAdd(objects[i]))
}

/// The calls of the drawing phase: the drawables are handed over, the scene
/// is drawn through the camera, and the interface is updated and drawn.
pub open spec fn draw_calls(objects: Seq<render_object>) -> Seq<EngineCall> {
    add_calls(objects) + seq![
        EngineCall::RendererSetCamera,
        EngineCall::RendererRender,
        EngineCall::UiUpdate,
        EngineCall::UiRender,
    ]
}

/// What one step does: the driver that it leaves, and the calls that it
/// hands to the host, in order.
///
/// `polled` is what the host found when it asked for an input event. It is
/// read in the event pump and nowhere else.
///
/// A frame begins without drawables: what was pushed after the collection
/// of the frame before belongs to no frame, and is dropped.
pub open spec fn step_model(d: DriverView, polled: Option<Event>) -> (DriverView, Seq<EngineCall>) {
    let more = d.phase is EventPump && polled is Some;
    let moved = DriverView { phase: next_phase(d.phase, more, d.quit), ..d };
    match d.phase {
        Phase::Init => (moved, init_calls(d)),
        Phase::FrameBegin => (
            DriverView { collected: Seq::empty(), ..moved },
            seq![EngineCall::FrameBegin],
        ),
        Phase::EventPump => match polled {
            Some(event) => (
                DriverView { quit: d.quit || event.asks_to_quit(), ..moved },
                dispatch_calls(d.camera.applied.movement, d.event_hook),
            ),
            None => (moved, Seq::empty()),
        },
        Phase::ConfigApply => (
            DriverView {
                viewport: apply_model(d.viewport, d.frame).0,
                renderer: apply_model(d.renderer, d.frame).0,
                camera: apply_model(d.camera, d.frame).0,
                ..moved
            },
            config_calls(d),
        ),
        Phase::UserUpdate => (
            moved,
            if d.update_hook {
                seq![EngineCall::UserUpdate]
            } else {
                Seq::empty()
            },
        ),
        Phase::Collect => (
            DriverView {
                collected: drain_model(d.collected).0,
                submission: drain_model(d.collected).1,
                ..moved
            },
            Seq::empty(),
        ),
        Phase::Draw => (DriverView { submission: Seq::empty(), ..moved }, draw_calls(d.submission)),
        Phase::Present => (moved, seq![EngineCall::GraphicsSwap]),
        Phase::FrameEnd => (
            DriverView { frame: (d.frame + 1) as u64, ..moved },
            seq![EngineCall::FrameEnd],
        ),
        Phase::Shutdown => (d, Seq::empty()),
    }
}

impl View for LoopDriver {
    type V = DriverView;

    closed spec fn view(&self) -> DriverView {
        DriverView {
            phase: self.phase,
            frame: self.frame@,
            quit: self.quit,
            event_hook: self.event_hook,
            update_hook: self.update_hook,
            viewport: self.viewport@,
            renderer: self.renderer@,
            camera: self.camera@,
            collected: self.collector@,
            submission: self.submission@,
        }
    }
}

/// The driver before its first step: at frame 0, before the first phase,
/// with nothing collected and no wish to quit.
pub open spec fn initial_view(
    viewport: StagedView<Viewport>,
    renderer: StagedView<Renderer>,
    camera: StagedView<Camera>,
    event_hook: bool,
    update_hook: bool,
) -> DriverView {
    DriverView {
        phase: Phase::Init,
        frame: 0,
        quit: false,
        event_hook,
        update_hook,
        viewport,
        renderer,
        camera,
        collected: Seq::empty(),
        submission: Seq::empty(),
    }
}

impl LoopDriver {
    /// The invariant of a driver.
    pub open spec fn wf(&self) -> bool {
        driver_ok(self@)
    }

    /// A driver around the three cells, at frame 0 and before its first
    /// phase. The two flags say which hooks the application has.
    pub fn new(
        viewport: StagedConfig<Viewport>,
        renderer: StagedConfig<Renderer>,
        camera: StagedConfig<Camera>,
        event_hook: bool,
        update_hook: bool,
    ) -> (driver: Self)
        requires
            viewport.wf(),
            renderer.wf(),
            camera.wf(),
        ensures
            driver.wf(),
            driver@ == initial_view(viewport@, renderer@, camera@, event_hook, update_hook),
    {
        LoopDriver {
            phase: Phase::Init,
            frame: FrameCounter::new(),
            quit: false,
            event_hook,
            update_hook,
            viewport,
            renderer,
            camera,
            collector: RenderObjectCollector::new(),
            submission: Vec::new(),
        }
    }

    /// A driver around three cells that hold the default viewport, renderer
    /// and camera, with nothing staged.
    pub fn with_defaults(event_hook: bool, update_hook: bool) -> (driver: Self)
        ensures
            driver.wf(),
            driver@.viewport.applied.is_default(),
            driver@.renderer.applied.is_default(),
            driver@.camera.applied.is_default(),
            driver@ == initial_view(
                StagedView { applied: driver@.viewport.applied, state: StagedState::Idle },
                StagedView { applied: driver@.renderer.applied, state: StagedState::Idle },
                StagedView { applied: driver@.camera.applied, state: StagedState::Idle },
                event_hook,
                update_hook,
            ),
    {
        let viewport = match StagedConfig::new(Viewport::default()) {
            Ok(cell) => cell,
            Err(_) => vstd::pervasive::unreached(),
        };
        let renderer = match StagedConfig::new(Renderer::default()) {
            Ok(cell) => cell,
            Err(_) => vstd::pervasive::unreached(),
        };
        let camera = match StagedConfig::new(Camera::default()) {
            Ok(cell) => cell,
            Err(_) => vstd::pervasive::unreached(),
        };
        Self::new(viewport, renderer, camera, event_hook, update_hook)
    }

    /// Says which hooks the application has, from now on.
    pub fn set_hooks(&mut self, event_hook: bool, update_hook: bool)
        ensures
            final(self)@ == (DriverView { event_hook, update_hook, ..old(self)@ }),
    {
        self.event_hook = event_hook;
        self.update_hook = update_hook;
    }

    /// The phase that the next step carries out.
    pub fn phase(&self) -> (phase: Phase)
        ensures
            phase == self@.phase,
    {
        self.phase
    }

    /// The frame that is running.
    pub fn frame(&self) -> (frame: u64)
        ensures
            frame == self@.frame,
    {
        self.frame.current()
    }

    /// Whether an event has asked to quit.
    pub fn quit_requested(&self) -> (quit: bool)
        ensures
            quit == self@.quit,
    {
        self.quit
    }

    /// Whether the loop has ended.
    pub fn is_shut_down(&self) -> (ended: bool)
        ensures
            ended == (self@.phase is Shutdown),
    {
        match self.phase {
            Phase::Shutdown => true,
            _ => false,
        }
    }

    /// Whether the next step reads an input event, so that the host has to
    /// ask for one first.
    pub fn wants_event(&self) -> (wanted: bool)
        ensures
            wanted == (self@.phase is EventPump),
    {
        match self.phase {
            Phase::EventPump => true,
            _ => false,
        }
    }

    /// The cell of the viewport.
    pub fn viewport(&self) -> (cell: &StagedConfig<Viewport>)
        ensures
            cell@ == self@.viewport,
    {
        &self.viewport
    }

    /// The cell of the renderer.
    pub fn renderer(&self) -> (cell: &StagedConfig<Renderer>)
        ensures
            cell@ == self@.renderer,
    {
        &self.renderer
    }

    /// The cell of the camera.
    pub fn camera(&self) -> (cell: &StagedConfig<Camera>)
        ensures
            cell@ == self@.camera,
    {
        &self.camera
    }

    /// The number of drawables pushed and not yet collected.
    pub fn collected(&self) -> (n: usize)
        ensures
            n == self@.collected.len(),
    {
        self.collector.len()
    }

    /// Appends `object` to the drawables of the current frame.
    pub fn push(&mut self, object: render_object)
        ensures
            final(self)@ == (DriverView {
                collected: push_model(old(self)@.collected, object),
                ..old(self)@
            }),
    {
        self.collector.push(object);
    }

    /// The call that hands the engine's camera the parameters of `config`.
    fn camera_assign(config: Camera) -> (call: EngineCall)
        ensures
            call == camera_call(config),
    {
        let mut target = camera::default();
        config.apply(&mut target);
        EngineCall::CameraAssign(target)
    }

    /// Puts the viewport in force if it is due, and adds the calls for it.
    fn update_viewport(&mut self, calls: &mut Vec<EngineCall>)
        requires
            old(self).wf(),
        ensures
            final(self).wf(),
            final(self)@ == (DriverView {
                viewport: apply_model(old(self)@.viewport, old(self)@.frame).0,
                ..old(self)@
            }),
            final(calls)@ == old(calls)@ + viewport_calls_due(old(self)@),
    {
        if self.viewport.apply_if_due(self.frame.current()) {
            let mut due = self.viewport.applied().apply();
            calls.append(&mut due);
        }
    }

    /// Puts the renderer in force if it is due, and adds the calls for it.
    fn update_renderer(&mut self, calls: &mut Vec<EngineCall>)
        requires
            old(self).wf(),
        ensures
            final(self).wf(),
            final(self)@ == (DriverView {
                renderer: apply_model(old(self)@.renderer, old(self)@.frame).0,
                ..old(self)@
            }),
            final(calls)@ == old(calls)@ + renderer_calls_due(old(self)@),
    {
        if self.renderer.apply_if_due(self.frame.current()) {
            let mut due = self.renderer.applied().apply();
            calls.append(&mut due);
        }
    }

    /// Puts the camera in force if it is due, and adds the call for it.
    fn update_camera(&mut self, calls: &mut Vec<EngineCall>)
        requires
            old(self).wf(),
        ensures
            final(self).wf(),
            final(self)@ == (DriverView {
                camera: apply_model(old(self)@.camera, old(self)@.frame).0,
                ..old(self)@
            }),
            final(calls)@ == old(calls)@ + camera_calls_due(old(self)@),
    {
        if self.camera.apply_if_due(self.frame.current()) {
            calls.push(Self::camera_assign(*self.camera.applied()));
        }
    }

    /// Adds the calls that let an event be seen.
    fn dispatch(&self, calls: &mut Vec<EngineCall>)
        requires
            old(calls)@.len() == 0,
        ensures
            final(calls)@ == dispatch_calls(self@.camera.applied.movement, self@.event_hook),
    {
        match self.camera.applied().movement {
            CameraType::Manual => {},
            CameraType::Orbit => {
                calls.push(EngineCall::CameraControlOrbit);
            },
            CameraType::Free => {
                calls.push(EngineCall::CameraControlFreecam);
            },
        }
        calls.push(EngineCall::UiEvent);
        if self.event_hook {
            calls.push(EngineCall::UserEvent);
        }
    }

    /// Adds the calls of the drawing phase, and forgets the drawables.
    fn draw(&mut self, calls: &mut Vec<EngineCall>)
        requires
            old(calls)@.len() == 0,
        ensures
            final(self)@ == (DriverView { submission: Seq::empty(), ..old(self)@ }),
            final(calls)@ == draw_calls(old(self)@.submission),
    {
        let mut i: usize = 0;
        while i < self.submission.len()
            invariant
                i <= self.submission@.len(),
                *self == *old(self),
                calls@ == add_calls(self.submission@.take(i as int)),
            decreases self.submission@.len() - i,
        {
            calls.push(EngineCall::RendererAdd(self.submission[i]));
            i += 1;
        }
        calls.push(EngineCall::RendererSetCamera);
        calls.push(EngineCall::RendererRender);
        calls.push(EngineCall::UiUpdate);
        calls.push(EngineCall::UiRender);
        self.submission.clear();
    }

    /// Carries out the phase in which the loop stands, and returns the calls
    /// that the host has to make for it, in order.
    ///
    /// Before a step of the event pump the host asks for an input event and
    /// passes what it found: the event is shown to the camera, the interface
    /// and the application, and the pump goes on; when nothing is found the
    /// pump ends. An event that asks to quit is remembered; the frame is
    /// carried to its end all the same, and the loop ends after it. Once the
    /// loop has ended, a step does nothing.
    pub fn step(&mut self, polled: Option<Event>) -> (calls: Vec<EngineCall>)
        requires
            old(self).wf(),
            can_step(old(self)@),
        ensures
            final(self).wf(),
            (final(self)@, calls@) == step_model(old(self)@, polled),
    {
        let mut calls: Vec<EngineCall> = Vec::new();
        match self.phase {
            Phase::Init => {
                let mut viewport_calls = self.viewport.applied().apply();
                calls.append(&mut viewport_calls);
                let mut renderer_calls = self.renderer.applied().initialize();
                calls.append(&mut renderer_calls);
                calls.push(EngineCall::CameraNew);
                calls.push(Self::camera_assign(*self.camera.applied()));
                self.phase = Phase::FrameBegin;
            },
            Phase::FrameBegin => {
                self.collector.clear();
                calls.push(EngineCall::FrameBegin);
                self.phase = Phase::EventPump;
            },
            Phase::EventPump => {
                match polled {
                    Some(event) => {
                        if event.requests_quit() {
                            self.quit = true;
                        }
                        self.dispatch(&mut calls);
                    },
                    None => {
                        self.phase = Phase::ConfigApply;
                    },
                }
            },
            Phase::ConfigApply => {
                self.update_viewport(&mut calls);
                self.update_renderer(&mut calls);
                self.update_camera(&mut calls);
                self.phase = Phase::UserUpdate;
            },
            Phase::UserUpdate => {
                if self.update_hook {
                    calls.push(EngineCall::UserUpdate);
                }
                self.phase = Phase::Collect;
            },
            Phase::Collect => {
                self.submission = self.collector.drain();
                self.phase = Phase::Draw;
            },
            Phase::Draw => {
                self.draw(&mut calls);
                self.phase = Phase::Present;
            },
            Phase::Present => {
                calls.push(EngineCall::GraphicsSwap);
                self.phase = Phase::FrameEnd;
            },
            Phase::FrameEnd => {
                calls.push(EngineCall::FrameEnd);
                self.frame.advance();
                if self.quit {
                    self.phase = Phase::Shutdown;
                } else {
                    self.phase = Phase::FrameBegin;
                }
            },
            Phase::Shutdown => {},
        }
        calls
    }
}

/// What writing the viewport `value` answers and leaves: the write goes to
/// the cell of the viewport, during the frame that is running, and touches
/// nothing else.
pub open spec fn set_viewport_model(d: DriverView, value: Viewport) -> (
    DriverView,
    Result<(), Error>,
) {
    let written = set_model(d.viewport, value, d.frame);
    (DriverView { viewport: written.0, ..d }, written.1)
}

/// What writing the renderer `value` answers and leaves.
pub open spec fn set_renderer_model(d: DriverView, value: Renderer) -> (
    DriverView,
    Result<(), Error>,
) {
    let written = set_model(d.renderer, value, d.frame);
    (DriverView { renderer: written.0, ..d }, written.1)
}

/// What writing the camera `value` answers and leaves.
pub open spec fn set_camera_model(d: DriverView, value: Camera) -> (DriverView, Result<(), Error>) {
    let written = set_model(d.camera, value, d.frame);
    (DriverView { camera: written.0, ..d }, written.1)
}

/// Asks for another viewport. It is put in force during the configuration
/// phase of the next frame, unless a later request replaces it before.
///
/// Fails with [`Error::InvalidConfig`], and changes nothing, if the
/// viewport is malformed: see [`Viewport::well_formed`].
pub fn set_viewport(
    driver: &mut LoopDriver,
    title: String,
    width: usize,
    height: usize,
    fullscreen: bool,
    antialiasing: usize,
    multisampling: usize,
) -> (result: Result<(), Error>)
    requires
        old(driver).wf(),
    ensures
        final(driver).wf(),
        (final(driver)@, result) == set_viewport_model(
            old(driver)@,
            Viewport { title, width, height, fullscreen, antialiasing, multisampling },
        ),
{
    let value = Viewport { title, width, height, fullscreen, antialiasing, multisampling };
    driver.viewport.set(value, driver.frame.current())
}

/// Asks for another configuration of the renderer. It is put in force
/// during the configuration phase of the next frame, unless a later request
/// replaces it before.
///
/// Fails with [`Error::InvalidConfig`], and changes nothing, if the
/// configuration is malformed: see [`Renderer::well_formed`].
pub fn set_renderer(
    driver: &mut LoopDriver,
    configuration: String,
    color_correction_texture: Option<String>,
    vignetting_texture: Option<String>,
    texture_noise: Scalar,
    sea_enabled: bool,
    sky_enabled: bool,
    sky_time: Scalar,
) -> (result: Result<(), Error>)
    requires
        old(driver).wf(),
    ensures
        final(driver).wf(),
        (final(driver)@, result) == set_renderer_model(
            old(driver)@,
            Renderer {
                configuration,
                color_correction_texture,
                vignetting_texture,
                texture_noise,
                sea_enabled,
                sky_enabled,
                sky_time,
            },
        ),
{
    let value = Renderer {
        configuration,
        color_correction_texture,
        vignetting_texture,
        texture_noise,
        sea_enabled,
        sky_enabled,
        sky_time,
    };
    driver.renderer.set(value, driver.frame.current())
}

/// Asks for another configuration of the camera. It is put in force during
/// the configuration phase of the next frame, unless a later request
/// replaces it before.
///
/// Fails with [`Error::InvalidConfig`], and changes nothing, if the
/// configuration is malformed: see [`Camera::well_formed`].
pub fn set_camera(
    driver: &mut LoopDriver,
    position: vec3,
    target: vec3,
    fov: Scalar,
    near_clip: Scalar,
    far_clip: Scalar,
    movement: CameraType,
) -> (result: Result<(), Error>)
    requires
        old(driver).wf(),
    ensures
        final(driver).wf(),
        (final(driver)@, result) == set_camera_model(
            old(driver)@,
            Camera { position, target, fov, near_clip, far_clip, movement },
        ),
{
    let value = Camera { position, target, fov, near_clip, far_clip, movement };
    driver.camera.set(value, driver.frame.current())
}

/// The driver after `n` steps in which the host found no input event.
pub open spec fn quiet_steps(d: DriverView, n: nat) -> DriverView
    decreases n,
{
    if n == 0 {
        d
    } else {
        step_model(quiet_steps(d, (n - 1) as nat), None).0
    }
}

/// The driver after one step for each entry of `polled`, where an entry is
/// what the host found when it asked for an input event before that step.
pub open spec fn run_model(d: DriverView, polled: Seq<Option<Event>>) -> DriverView
    decreases polled.len(),
{
    if polled.len() == 0 {
        d
    } else {
        step_model(run_model(d, polled.drop_last()), polled.last()).0
    }
}

/// Whatever the host finds, and for as long as the frame counter has room:
/// the driver stays valid, the frame counter never goes back and moves by
/// one step at most per step, what is in force is well formed, and the loop
/// ends only after an event has asked to quit.
pub proof fn law_run_keeps_driver_ok(d: DriverView, polled: Seq<Option<Event>>)
    requires
        driver_ok(d),
        d.frame + polled.len() <= u64::MAX,
    ensures
        ({
            let after = run_model(d, polled);
            &&& driver_ok(after)
            &&& d.frame <= after.frame <= d.frame + polled.len()
            &&& after.viewport.applied.well_formed()
            &&& after.renderer.applied.well_formed()
            &&& after.camera.applied.well_formed()
            &&& after.phase is Shutdown ==> after.quit
            &&& d.quit ==> after.quit
        }),
    decreases polled.len(),
{
    if polled.len() > 0 {
        law_run_keeps_driver_ok(d, polled.drop_last());
    }
}

/// A step leaves a valid driver valid.
pub proof fn law_step_keeps_driver_ok(d: DriverView, polled: Option<Event>)
    requires
        driver_ok(d),
        can_step(d),
    ensures
        driver_ok(step_model(d, polled).0),
{
}

/// The frame counter moves at the end of a frame and nowhere else, and then
/// by one.
pub proof fn law_frame_counted_once(d: DriverView, polled: Option<Event>)
    requires
        can_step(d),
    ensures
        step_model(d, polled).0.frame == (if d.phase is FrameEnd {
            d.frame + 1
        } else {
            d.frame as int
        }),
{
}

/// A frame without input: from its beginning the loop goes through the
/// event pump, the configuration, the update, the collection, the drawing,
/// the presentation and the end of the frame, in this order, and stands at
/// the beginning of the next frame after eight steps.
pub proof fn law_frame_runs_in_order(d: DriverView)
    requires
        d.phase is FrameBegin,
        !d.quit,
        d.frame < u64::MAX,
    ensures
        quiet_steps(d, 1).phase is EventPump,
        quiet_steps(d, 2).phase is ConfigApply,
        quiet_steps(d, 3).phase is UserUpdate,
        quiet_steps(d, 4).phase is Collect,
        quiet_steps(d, 5).phase is Draw,
        quiet_steps(d, 6).phase is Present,
        quiet_steps(d, 7).phase is FrameEnd,
        quiet_steps(d, 7).frame == d.frame,
        quiet_steps(d, 8).phase is FrameBegin,
        quiet_steps(d, 8).frame == d.frame + 1,
{
    reveal_with_fuel(quiet_steps, 9);
}

/// A wish to quit is granted at the end of the frame, not before: when an
/// event of the pump asks to quit, the pump goes on, the frame is carried
/// through its configuration, update, collection, drawing and presentation
/// to its end and counted, and only then the loop ends, before another
/// frame begins. After that a step changes nothing and asks for nothing.
pub proof fn law_quit_completes_the_frame(d: DriverView, event: Event, polled: Option<Event>)
    requires
        d.phase is EventPump,
        d.frame < u64::MAX,
        event.asks_to_quit(),
    ensures
        ({
            let heard = step_model(d, Some(event)).0;
            let ended = quiet_steps(heard, 7);
            &&& heard.quit
            &&& heard.phase is EventPump
            &&& heard.frame == d.frame
            &&& quiet_steps(heard, 1).phase is ConfigApply
            &&& quiet_steps(heard, 2).phase is UserUpdate
            &&& quiet_steps(heard, 3).phase is Collect
            &&& quiet_steps(heard, 4).phase is Draw
            &&& quiet_steps(heard, 5).phase is Present
            &&& quiet_steps(heard, 6).phase is FrameEnd
            &&& step_model(quiet_steps(heard, 6), None).1 == seq![EngineCall::FrameEnd]
            &&& ended.phase is Shutdown
            &&& ended.frame == d.frame + 1
            &&& step_model(ended, polled) == (ended, Seq::<EngineCall>::empty())
        }),
{
    reveal_with_fuel(quiet_steps, 8);
}

/// A wish to quit, once heard, is never forgotten, and no later event takes
/// it back.
pub proof fn law_quit_is_kept(d: DriverView, polled: Option<Event>)
    requires
        d.quit,
    ensures
        step_model(d, polled).0.quit,
{
}

/// What is in force changes in the configuration phase only, and only for a
/// cell whose value is due in the running frame. Every other step leaves
/// the three cells as they are.
pub proof fn law_config_changes_at_config_phase_only(d: DriverView, polled: Option<Event>)
    ensures
        ({
            let after = step_model(d, polled).0;
            &&& !(d.phase is ConfigApply) ==> after.viewport == d.viewport && after.renderer
                == d.renderer && after.camera == d.camera
            &&& !is_due(d.viewport, d.frame) ==> after.viewport == d.viewport
            &&& !is_due(d.renderer, d.frame) ==> after.renderer == d.renderer
            &&& !is_due(d.camera, d.frame) ==> after.camera == d.camera
        }),
{
}

/// A viewport asked for during the frame `n` is in force from the
/// configuration phase of the frame `n + 1`, not earlier and not later.
///
/// No step taken during the frame `n` puts it in force, whatever the phase.
/// In the configuration phase of the frame `n + 1` it is put in force, its
/// calls come first among the calls of that step, and the update of that
/// frame follows.
pub proof fn law_viewport_waits_one_frame(
    d: DriverView,
    value: Viewport,
    polled: Option<Event>,
    next: DriverView,
)
    requires
        value.well_formed(),
        d.frame < u64::MAX,
        next.viewport == set_viewport_model(d, value).0.viewport,
        next.frame == d.frame + 1,
        next.phase is ConfigApply,
    ensures
        ({
            let asked = set_viewport_model(d, value).0;
            let now = step_model(asked, polled);
            let then = step_model(next, polled);
            &&& asked.viewport.applied == d.viewport.applied
            &&& now.0.viewport == asked.viewport
            &&& now.0.viewport.applied == d.viewport.applied
            &&& then.0.viewport.applied == value
            &&& then.0.viewport.state is Idle
            &&& then.0.phase is UserUpdate
            &&& value.apply_calls().is_prefix_of(then.1)
        }),
{
}

/// A configuration of the renderer asked for during the frame `n` is in
/// force from the configuration phase of the frame `n + 1`, not earlier and
/// not later. Its calls come after those of the viewport and before that of
/// the camera.
pub proof fn law_renderer_waits_one_frame(
    d: DriverView,
    value: Renderer,
    polled: Option<Event>,
    next: DriverView,
)
    requires
        value.well_formed(),
        d.frame < u64::MAX,
        next.renderer == set_renderer_model(d, value).0.renderer,
        next.frame == d.frame + 1,
        next.phase is ConfigApply,
    ensures
        ({
            let asked = set_renderer_model(d, value).0;
            let now = step_model(asked, polled);
            let then = step_model(next, polled);
            &&& asked.renderer.applied == d.renderer.applied
            &&& now.0.renderer == asked.renderer
            &&& then.0.renderer.applied == value
            &&& then.0.renderer.state is Idle
            &&& then.0.phase is UserUpdate
            &&& then.1 == viewport_calls_due(next) + value.apply_calls() + camera_calls_due(next)
        }),
{
}

/// A configuration of the camera asked for during the frame `n` is in force
/// from the configuration phase of the frame `n + 1`, not earlier and not
/// later. Its call is the last of that phase, and from the event pump of
/// the frame after, events go to the controller that it selects.
pub proof fn law_camera_waits_one_frame(
    d: DriverView,
    value: Camera,
    polled: Option<Event>,
    next: DriverView,
)
    requires
        value.well_formed(),
        d.frame < u64::MAX,
        next.camera == set_camera_model(d, value).0.camera,
        next.frame == d.frame + 1,
        next.phase is ConfigApply,
    ensures
        ({
            let asked = set_camera_model(d, value).0;
            let now = step_model(asked, polled);
            let then = step_model(next, polled);
            &&& asked.camera.applied == d.camera.applied
            &&& now.0.camera == asked.camera
            &&& then.0.camera.applied == value
            &&& then.0.camera.state is Idle
            &&& then.0.phase is UserUpdate
            &&& then.1 == viewport_calls_due(next) + renderer_calls_due(next) + seq![
                camera_call(value),
            ]
        }),
{
}

/// A drawable is drawn in the frame in which it was pushed, or never: when a
/// frame begins nothing waits, neither to be collected nor to be drawn.
pub proof fn law_frame_begins_empty(d: DriverView, polled: Option<Event>)
    requires
        driver_ok(d),
        d.phase is FrameBegin,
    ensures
        step_model(d, polled).0.collected.len() == 0,
        step_model(d, polled).0.submission.len() == 0,
{
}

/// What is pushed during a frame is handed to the renderer once, in the
/// order of the pushes, in the drawing phase of that frame; and if nothing
/// is pushed until the next drawing phase, nothing is handed over then.
pub proof fn law_collected_drawn_once(d: DriverView, polled: Option<Event>)
    requires
        d.phase is Collect,
    ensures
        ({
            let collected = step_model(d, polled).0;
            let drawn = step_model(collected, polled);
            &&& collected.phase is Draw
            &&& collected.collected.len() == 0
            &&& collected.submission == d.collected
            &&& drawn.1 == draw_calls(d.collected)
            &&& add_calls(d.collected).is_prefix_of(drawn.1)
            &&& add_calls(d.collected).len() == d.collected.len()
            &&& forall|i: int|
                0 <= i < d.collected.len() ==> drawn.1[i] == EngineCall::RendererAdd(d.collected[i])
            &&& drawn.0.submission.len() == 0
            &&& drawn.0.collected.len() == 0
            &&& draw_calls(drawn.0.collected).len() == 4
        }),
{
}

} // verus!
