use corange_rs::camera::{Camera, CameraType};
use corange_rs::corange::{
    camera, render_object_light, render_object_static, vec3, vec3_zero, Scalar,
};
use corange_rs::engine::{
    set_camera, set_renderer, set_viewport, EngineCall, Event, FrameCounter, LoopDriver, Phase,
    SDLK_ESCAPE, SDL_KEYDOWN, SDL_KEYUP, SDL_QUIT,
};
use corange_rs::entity::EntityHandle;
use corange_rs::error::Error;
use corange_rs::renderer::Renderer;
use corange_rs::staged::StagedConfig;
use corange_rs::viewport::Viewport;

fn scalar(value: f32) -> Scalar {
    Scalar::from_bits(value.to_bits())
}

/// Steps the driver, with no input, until it stands before `phase`, and
/// returns the calls of those steps.
fn run_to(driver: &mut LoopDriver, phase: Phase) -> Vec<EngineCall> {
    let mut calls = Vec::new();
    let mut steps = 0;
    while driver.phase() != phase {
        calls.extend(driver.step(None));
        steps += 1;
        assert!(steps < 100);
    }
    calls
}

fn default_camera_call() -> EngineCall {
    EngineCall::CameraAssign(camera {
        position: vec3 { x: scalar(10.0), y: scalar(10.0), z: scalar(10.0) },
        target: vec3_zero(),
        fov: scalar(0.78),
        near_clip: scalar(0.10),
        far_clip: scalar(512.0),
    })
}

fn driver_with_camera(movement: CameraType, event_hook: bool) -> LoopDriver {
    let mut configured = Camera::default();
    configured.movement = movement;
    LoopDriver::new(
        StagedConfig::new(Viewport::default()).ok().unwrap(),
        StagedConfig::new(Renderer::default()).ok().unwrap(),
        StagedConfig::new(configured).ok().unwrap(),
        event_hook,
        true,
    )
}

#[test]
fn a_new_driver_stands_before_init_at_frame_zero() {
    let driver = LoopDriver::with_defaults(true, true);
    assert_eq!(driver.phase(), Phase::Init);
    assert_eq!(driver.frame(), 0);
    assert!(!driver.quit_requested());
    assert!(!driver.is_shut_down());
    assert!(!driver.wants_event());
    assert_eq!(driver.collected(), 0);
    assert_eq!(driver.viewport().applied(), &Viewport::default());
    assert_eq!(driver.renderer().applied(), &Renderer::default());
    assert_eq!(driver.camera().applied(), &Camera::default());
    assert!(!driver.viewport().is_pending());
}

#[test]
fn init_puts_the_defaults_in_force() {
    let mut driver = LoopDriver::with_defaults(false, false);
    let calls = driver.step(None);
    assert_eq!(
        calls,
        vec![
            EngineCall::ViewportSetTitle(String::from("Output")),
            EngineCall::ViewportSetSize(1280, 720),
            EngineCall::SetAntialiasing(0),
            EngineCall::SetMultisamples(0),
            EngineCall::SetFullscreen(0),
            EngineCall::RendererNew(String::from("renderer.cfg")),
            EngineCall::RendererSetGlitch(scalar(0.0)),
            EngineCall::RendererSetSkydomeEnabled(0),
            EngineCall::RendererSetSeaEnabled(0),
            EngineCall::RendererSetTod(scalar(0.15), 0),
            EngineCall::CameraNew,
            default_camera_call(),
        ]
    );
    assert_eq!(driver.phase(), Phase::FrameBegin);
    assert_eq!(driver.frame(), 0);
}

#[test]
fn a_frame_runs_its_phases_in_order() {
    let mut driver = LoopDriver::with_defaults(true, true);
    let mut seen = vec![driver.phase()];
    for _ in 0..10 {
        driver.step(None);
        seen.push(driver.phase());
    }
    assert_eq!(
        seen,
        vec![
            Phase::Init,
            Phase::FrameBegin,
            Phase::EventPump,
            Phase::ConfigApply,
            Phase::UserUpdate,
            Phase::Collect,
            Phase::Draw,
            Phase::Present,
            Phase::FrameEnd,
            Phase::FrameBegin,
            Phase::EventPump,
        ]
    );
    assert_eq!(driver.frame(), 1);
}

#[test]
fn a_quiet_frame_makes_these_calls() {
    let mut driver = LoopDriver::with_defaults(true, true);
    run_to(&mut driver, Phase::FrameBegin);
    driver.step(None);
    let calls = run_to(&mut driver, Phase::FrameBegin);
    assert_eq!(
        calls,
        vec![
            EngineCall::UserUpdate,
            EngineCall::RendererSetCamera,
            EngineCall::RendererRender,
            EngineCall::UiUpdate,
            EngineCall::UiRender,
            EngineCall::GraphicsSwap,
            EngineCall::FrameEnd,
        ]
    );
}

#[test]
fn frame_begin_tells_the_clock() {
    let mut driver = LoopDriver::with_defaults(true, true);
    run_to(&mut driver, Phase::FrameBegin);
    assert_eq!(driver.step(None), vec![EngineCall::FrameBegin]);
    assert!(driver.wants_event());
}

#[test]
fn the_frame_counter_moves_once_per_frame() {
    let mut driver = LoopDriver::with_defaults(false, false);
    run_to(&mut driver, Phase::FrameEnd);
    assert_eq!(driver.frame(), 0);
    assert_eq!(driver.step(None), vec![EngineCall::FrameEnd]);
    assert_eq!(driver.frame(), 1);
    for frame in 1..4 {
        while driver.phase() != Phase::FrameEnd {
            driver.step(None);
            assert_eq!(driver.frame(), frame);
        }
        driver.step(None);
        assert_eq!(driver.frame(), frame + 1);
    }
}

#[test]
fn without_an_update_hook_nothing_is_run() {
    let mut driver = LoopDriver::with_defaults(true, false);
    run_to(&mut driver, Phase::UserUpdate);
    assert_eq!(driver.step(None), Vec::<EngineCall>::new());
    assert_eq!(driver.phase(), Phase::Collect);
}

#[test]
fn an_event_is_shown_to_the_free_camera_the_interface_and_the_hook() {
    let mut driver = driver_with_camera(CameraType::Free, true);
    run_to(&mut driver, Phase::EventPump);
    assert_eq!(
        driver.step(Some(Event::Other)),
        vec![EngineCall::CameraControlFreecam, EngineCall::UiEvent, EngineCall::UserEvent]
    );
    assert_eq!(driver.phase(), Phase::EventPump);
}

#[test]
fn an_event_is_shown_to_the_orbit_camera_first() {
    let mut driver = driver_with_camera(CameraType::Orbit, true);
    run_to(&mut driver, Phase::EventPump);
    assert_eq!(
        driver.step(Some(Event::KeyDown { key: 97 })),
        vec![EngineCall::CameraControlOrbit, EngineCall::UiEvent, EngineCall::UserEvent]
    );
}

#[test]
fn a_manual_camera_sees_no_event() {
    let mut driver = driver_with_camera(CameraType::Manual, true);
    run_to(&mut driver, Phase::EventPump);
    assert_eq!(
        driver.step(Some(Event::Other)),
        vec![EngineCall::UiEvent, EngineCall::UserEvent]
    );
}

#[test]
fn without_an_event_hook_the_interface_is_the_last_to_see_an_event() {
    let mut manual = driver_with_camera(CameraType::Manual, false);
    run_to(&mut manual, Phase::EventPump);
    assert_eq!(manual.step(Some(Event::Other)), vec![EngineCall::UiEvent]);
    let mut orbit = driver_with_camera(CameraType::Orbit, false);
    run_to(&mut orbit, Phase::EventPump);
    assert_eq!(
        orbit.step(Some(Event::Other)),
        vec![EngineCall::CameraControlOrbit, EngineCall::UiEvent]
    );
}

#[test]
fn every_event_is_dispatched_before_the_next_is_read() {
    let mut driver = driver_with_camera(CameraType::Orbit, true);
    run_to(&mut driver, Phase::EventPump);
    let each = vec![EngineCall::CameraControlOrbit, EngineCall::UiEvent, EngineCall::UserEvent];
    for event in [Event::Other, Event::KeyDown { key: 32 }, Event::KeyUp { key: 32 }] {
        assert_eq!(driver.step(Some(event)), each);
        assert_eq!(driver.phase(), Phase::EventPump);
        assert!(!driver.quit_requested());
    }
    assert_eq!(driver.step(None), Vec::<EngineCall>::new());
    assert_eq!(driver.phase(), Phase::ConfigApply);
}

#[test]
fn an_event_outside_the_pump_is_not_read() {
    let mut driver = LoopDriver::with_defaults(true, true);
    assert_eq!(driver.step(Some(Event::Quit)).len(), 12);
    assert_eq!(driver.step(Some(Event::Quit)), vec![EngineCall::FrameBegin]);
    assert!(!driver.quit_requested());
    assert_eq!(driver.phase(), Phase::EventPump);
}

#[test]
fn staged_viewport_is_applied_at_the_next_frame_boundary() {
    let mut driver = LoopDriver::with_defaults(false, true);
    run_to(&mut driver, Phase::UserUpdate);
    assert_eq!(driver.frame(), 0);
    assert_eq!(driver.step(None), vec![EngineCall::UserUpdate]);
    // the update of frame 0 runs now, and another thread asks for 800 by 600
    assert_eq!(set_viewport(&mut driver, String::from("Game"), 800, 600, false, 0, 0), Ok(()));
    assert_eq!(driver.viewport().applied().width, 1280);
    for after in [Phase::Draw, Phase::Present, Phase::FrameEnd, Phase::FrameBegin] {
        let calls = driver.step(None);
        assert_eq!(driver.phase(), after);
        assert!(calls.iter().all(|call| !matches!(call, EngineCall::ViewportSetSize(_, _))));
        assert_eq!(driver.viewport().applied().width, 1280);
        assert_eq!(driver.viewport().applied().height, 720);
    }
    assert_eq!(driver.frame(), 1);
    assert_eq!(run_to(&mut driver, Phase::ConfigApply), vec![EngineCall::FrameBegin]);
    assert_eq!(driver.viewport().applied().width, 1280);
    let calls = driver.step(None);
    assert_eq!(
        calls,
        vec![
            EngineCall::ViewportSetTitle(String::from("Game")),
            EngineCall::ViewportSetSize(800, 600),
            EngineCall::SetAntialiasing(0),
            EngineCall::SetMultisamples(0),
            EngineCall::SetFullscreen(0),
        ]
    );
    assert_eq!(driver.phase(), Phase::UserUpdate);
    assert_eq!(driver.frame(), 1);
    assert_eq!(driver.viewport().applied().width, 800);
    assert_eq!(driver.viewport().applied().height, 600);
    assert!(!driver.viewport().is_pending());
    // and once only
    run_to(&mut driver, Phase::ConfigApply);
    assert_eq!(driver.frame(), 2);
    assert_eq!(driver.step(None), Vec::<EngineCall>::new());
}

#[test]
fn the_default_viewport_is_not_applied_again_in_frame_zero() {
    let mut driver = LoopDriver::with_defaults(false, true);
    run_to(&mut driver, Phase::ConfigApply);
    assert_eq!(driver.step(None), Vec::<EngineCall>::new());
}

#[test]
fn a_request_before_the_loop_starts_waits_for_frame_one() {
    let mut driver = LoopDriver::with_defaults(false, false);
    set_viewport(&mut driver, String::from("Example"), 1280, 720, false, 1, 1).unwrap();
    let init = driver.step(None);
    assert_eq!(init[0], EngineCall::ViewportSetTitle(String::from("Output")));
    run_to(&mut driver, Phase::ConfigApply);
    assert_eq!(driver.step(None), Vec::<EngineCall>::new());
    run_to(&mut driver, Phase::ConfigApply);
    assert_eq!(driver.frame(), 1);
    let calls = driver.step(None);
    assert_eq!(calls[0], EngineCall::ViewportSetTitle(String::from("Example")));
    assert_eq!(calls[2], EngineCall::SetAntialiasing(1));
    assert_eq!(calls.len(), 5);
}

#[test]
fn only_the_last_request_of_a_frame_is_ever_applied() {
    let mut driver = LoopDriver::with_defaults(false, true);
    run_to(&mut driver, Phase::Collect);
    set_viewport(&mut driver, String::from("A"), 640, 480, false, 0, 0).unwrap();
    set_viewport(&mut driver, String::from("B"), 800, 600, true, 2, 4).unwrap();
    let mut all = Vec::new();
    for _ in 0..40 {
        all.extend(driver.step(None));
    }
    let sizes: Vec<&EngineCall> =
        all.iter().filter(|call| matches!(call, EngineCall::ViewportSetSize(_, _))).collect();
    assert_eq!(sizes, vec![&EngineCall::ViewportSetSize(800, 600)]);
    assert!(!all.contains(&EngineCall::ViewportSetTitle(String::from("A"))));
    assert!(all.contains(&EngineCall::ViewportSetTitle(String::from("B"))));
    assert!(all.contains(&EngineCall::SetFullscreen(1)));
    assert_eq!(driver.viewport().applied().title, "B");
}

#[test]
fn a_malformed_viewport_is_refused_and_the_old_one_stays() {
    let mut driver = LoopDriver::with_defaults(false, true);
    run_to(&mut driver, Phase::Collect);
    assert_eq!(
        set_viewport(&mut driver, String::from("bad"), 0, 600, false, 0, 0),
        Err(Error::InvalidConfig)
    );
    assert_eq!(
        set_viewport(&mut driver, String::from("bad"), 800, 0, false, 0, 0),
        Err(Error::InvalidConfig)
    );
    assert!(!driver.viewport().is_pending());
    run_to(&mut driver, Phase::ConfigApply);
    assert_eq!(driver.step(None), Vec::<EngineCall>::new());
    assert_eq!(driver.viewport().applied(), &Viewport::default());
}

#[test]
fn a_malformed_request_does_not_displace_a_waiting_one() {
    let mut driver = LoopDriver::with_defaults(false, true);
    run_to(&mut driver, Phase::Collect);
    set_viewport(&mut driver, String::from("good"), 800, 600, false, 0, 0).unwrap();
    assert_eq!(
        set_viewport(&mut driver, String::from("b\0d"), 1024, 768, false, 0, 0),
        Err(Error::InvalidConfig)
    );
    run_to(&mut driver, Phase::ConfigApply);
    let calls = driver.step(None);
    assert_eq!(calls[1], EngineCall::ViewportSetSize(800, 600));
    assert_eq!(driver.viewport().applied().title, "good");
}

#[test]
fn a_malformed_renderer_or_camera_is_refused() {
    let mut driver = LoopDriver::with_defaults(false, true);
    assert_eq!(
        set_renderer(&mut driver, String::from("r.cfg"), None, None, scalar(f32::NAN), false, false, scalar(0.1)),
        Err(Error::InvalidConfig)
    );
    assert_eq!(
        set_renderer(&mut driver, String::from("r\0.cfg"), None, None, scalar(0.0), false, false, scalar(0.1)),
        Err(Error::InvalidConfig)
    );
    assert_eq!(
        set_camera(&mut driver, vec3_zero(), vec3_zero(), scalar(f32::INFINITY), scalar(0.1), scalar(512.0), CameraType::Free),
        Err(Error::InvalidConfig)
    );
    assert!(!driver.renderer().is_pending());
    assert!(!driver.camera().is_pending());
    assert_eq!(driver.renderer().applied(), &Renderer::default());
    assert_eq!(driver.camera().applied(), &Camera::default());
}

#[test]
fn configuration_is_applied_viewport_then_renderer_then_camera() {
    let mut driver = LoopDriver::with_defaults(false, true);
    run_to(&mut driver, Phase::Collect);
    let eye = vec3 { x: scalar(25.0), y: scalar(25.0), z: scalar(10.0) };
    let look = vec3 { x: scalar(0.0), y: scalar(7.0), z: scalar(0.0) };
    set_camera(&mut driver, eye, look, scalar(0.78), scalar(0.1), scalar(512.0), CameraType::Orbit).unwrap();
    set_renderer(
        &mut driver,
        String::from("graphics.cfg"),
        Some(String::from("lut.dds")),
        None,
        scalar(0.0),
        false,
        true,
        scalar(0.15),
    )
    .unwrap();
    set_viewport(&mut driver, String::from("Example"), 1280, 720, false, 1, 1).unwrap();
    run_to(&mut driver, Phase::ConfigApply);
    assert_eq!(
        driver.step(None),
        vec![
            EngineCall::ViewportSetTitle(String::from("Example")),
            EngineCall::ViewportSetSize(1280, 720),
            EngineCall::SetAntialiasing(1),
            EngineCall::SetMultisamples(1),
            EngineCall::SetFullscreen(0),
            EngineCall::RendererSetGlitch(scalar(0.0)),
            EngineCall::RendererSetSkydomeEnabled(1),
            EngineCall::RendererSetSeaEnabled(0),
            EngineCall::RendererSetTod(scalar(0.15), 0),
            EngineCall::RendererSetColorCorrection(String::from("lut.dds")),
            EngineCall::CameraAssign(camera {
                position: eye,
                target: look,
                fov: scalar(0.78),
                near_clip: scalar(0.1),
                far_clip: scalar(512.0),
            }),
        ]
    );
    assert_eq!(driver.renderer().applied().configuration, "graphics.cfg");
    assert_eq!(driver.camera().applied().movement, CameraType::Orbit);
}

#[test]
fn the_camera_controller_changes_when_the_camera_is_applied() {
    let mut driver = LoopDriver::with_defaults(false, true);
    run_to(&mut driver, Phase::EventPump);
    set_camera(&mut driver, vec3_zero(), vec3_zero(), scalar(0.78), scalar(0.1), scalar(512.0), CameraType::Orbit).unwrap();
    assert_eq!(
        driver.step(Some(Event::Other)),
        vec![EngineCall::CameraControlFreecam, EngineCall::UiEvent]
    );
    run_to(&mut driver, Phase::FrameBegin);
    run_to(&mut driver, Phase::EventPump);
    // frame 1: the pump comes before the configuration
    assert_eq!(
        driver.step(Some(Event::Other)),
        vec![EngineCall::CameraControlFreecam, EngineCall::UiEvent]
    );
    run_to(&mut driver, Phase::FrameBegin);
    run_to(&mut driver, Phase::EventPump);
    assert_eq!(
        driver.step(Some(Event::Other)),
        vec![EngineCall::CameraControlOrbit, EngineCall::UiEvent]
    );
}

#[test]
fn pushed_objects_are_submitted_once_in_push_order() {
    let mesh = render_object_static(EntityHandle { slot: 0 });
    let lamp = render_object_light(EntityHandle { slot: 1 });
    let mut driver = LoopDriver::with_defaults(false, true);
    run_to(&mut driver, Phase::UserUpdate);
    assert_eq!(driver.step(None), vec![EngineCall::UserUpdate]);
    driver.push(mesh);
    driver.push(lamp);
    assert_eq!(driver.collected(), 2);
    assert_eq!(driver.step(None), Vec::<EngineCall>::new());
    assert_eq!(driver.collected(), 0);
    assert_eq!(driver.phase(), Phase::Draw);
    assert_eq!(
        driver.step(None),
        vec![
            EngineCall::RendererAdd(mesh),
            EngineCall::RendererAdd(lamp),
            EngineCall::RendererSetCamera,
            EngineCall::RendererRender,
            EngineCall::UiUpdate,
            EngineCall::UiRender,
        ]
    );
    // the next frame pushes nothing
    run_to(&mut driver, Phase::Draw);
    assert_eq!(driver.frame(), 1);
    assert_eq!(
        driver.step(None),
        vec![
            EngineCall::RendererSetCamera,
            EngineCall::RendererRender,
            EngineCall::UiUpdate,
            EngineCall::UiRender,
        ]
    );
}

#[test]
fn quit_in_the_pump_of_frame_five_ends_the_loop_after_frame_five() {
    let mut driver = LoopDriver::with_defaults(true, true);
    while driver.frame() < 5 {
        driver.step(None);
    }
    assert_eq!(driver.phase(), Phase::FrameBegin);
    assert_eq!(driver.step(None), vec![EngineCall::FrameBegin]);
    let each = vec![EngineCall::CameraControlFreecam, EngineCall::UiEvent, EngineCall::UserEvent];
    assert_eq!(driver.step(Some(Event::Other)), each);
    assert_eq!(driver.step(Some(Event::Quit)), each);
    assert!(driver.quit_requested());
    assert_eq!(driver.phase(), Phase::EventPump);
    assert_eq!(driver.step(Some(Event::Other)), each);
    assert_eq!(driver.step(None), Vec::<EngineCall>::new());
    let mut phases = Vec::new();
    let mut calls = Vec::new();
    while !driver.is_shut_down() {
        phases.push(driver.phase());
        assert_eq!(driver.frame(), 5);
        calls.extend(driver.step(None));
    }
    assert_eq!(
        phases,
        vec![
            Phase::ConfigApply,
            Phase::UserUpdate,
            Phase::Collect,
            Phase::Draw,
            Phase::Present,
            Phase::FrameEnd,
        ]
    );
    assert_eq!(
        calls,
        vec![
            EngineCall::UserUpdate,
            EngineCall::RendererSetCamera,
            EngineCall::RendererRender,
            EngineCall::UiUpdate,
            EngineCall::UiRender,
            EngineCall::GraphicsSwap,
            EngineCall::FrameEnd,
        ]
    );
    assert_eq!(driver.frame(), 6);
    assert_eq!(driver.phase(), Phase::Shutdown);
    for _ in 0..3 {
        assert_eq!(driver.step(Some(Event::Other)), Vec::<EngineCall>::new());
        assert_eq!(driver.phase(), Phase::Shutdown);
        assert_eq!(driver.frame(), 6);
    }
}

#[test]
fn request_staged_in_the_last_frame_is_never_applied() {
    let mut driver = LoopDriver::with_defaults(false, false);
    run_to(&mut driver, Phase::EventPump);
    driver.step(Some(Event::Quit));
    set_viewport(&mut driver, String::from("late"), 800, 600, false, 0, 0).unwrap();
    let calls = run_to(&mut driver, Phase::Shutdown);
    assert!(!calls.contains(&EngineCall::ViewportSetSize(800, 600)));
    assert_eq!(driver.viewport().applied().width, 1280);
    assert!(driver.viewport().is_pending());
}

#[test]
fn escape_coming_up_asks_to_quit() {
    assert!(Event::Quit.requests_quit());
    assert!(Event::KeyUp { key: SDLK_ESCAPE }.requests_quit());
    assert!(Event::KeyUp { key: 27 }.requests_quit());
    assert!(!Event::KeyDown { key: SDLK_ESCAPE }.requests_quit());
    assert!(!Event::KeyUp { key: 13 }.requests_quit());
    assert!(!Event::KeyUp { key: 0 }.requests_quit());
    assert!(!Event::Other.requests_quit());
}

#[test]
fn escape_in_the_pump_ends_the_loop_after_the_frame() {
    let mut driver = LoopDriver::with_defaults(false, false);
    run_to(&mut driver, Phase::EventPump);
    driver.step(Some(Event::KeyDown { key: SDLK_ESCAPE }));
    assert!(!driver.quit_requested());
    driver.step(Some(Event::KeyUp { key: SDLK_ESCAPE }));
    assert!(driver.quit_requested());
    driver.step(Some(Event::Other));
    assert!(driver.quit_requested());
    run_to(&mut driver, Phase::Shutdown);
    assert_eq!(driver.frame(), 1);
}

#[test]
fn raw_events_are_told_apart_by_sdls_numbers() {
    assert_eq!(SDL_QUIT, 256);
    assert_eq!(SDL_KEYDOWN, 768);
    assert_eq!(SDL_KEYUP, 769);
    assert_eq!(Event::from_raw(256, 0), Event::Quit);
    assert_eq!(Event::from_raw(256, 27), Event::Quit);
    assert_eq!(Event::from_raw(768, 27), Event::KeyDown { key: 27 });
    assert_eq!(Event::from_raw(769, 27), Event::KeyUp { key: 27 });
    assert_eq!(Event::from_raw(769, 1073741906), Event::KeyUp { key: 1073741906 });
    assert_eq!(Event::from_raw(1024, 27), Event::Other);
    assert_eq!(Event::from_raw(0, 0), Event::Other);
    assert_eq!(Event::from_raw(257, 0), Event::Other);
}

#[test]
fn the_frame_counter_counts_from_zero() {
    let mut counter = FrameCounter::new();
    assert_eq!(counter.current(), 0);
    counter.advance();
    counter.advance();
    assert_eq!(counter.current(), 2);
}

#[test]
fn objects_pushed_after_the_collection_are_dropped_when_the_next_frame_begins() {
    let stale = render_object_static(EntityHandle { slot: 7 });
    let fresh = render_object_light(EntityHandle { slot: 8 });
    let mut driver = LoopDriver::with_defaults(false, true);
    run_to(&mut driver, Phase::Draw);
    driver.push(stale);
    let rest_of_frame = run_to(&mut driver, Phase::FrameBegin);
    assert!(!rest_of_frame.contains(&EngineCall::RendererAdd(stale)));
    assert_eq!(driver.collected(), 1);
    assert_eq!(driver.step(None), vec![EngineCall::FrameBegin]);
    assert_eq!(driver.collected(), 0);
    run_to(&mut driver, Phase::Collect);
    driver.push(fresh);
    let drawn = run_to(&mut driver, Phase::Present);
    assert_eq!(drawn[0], EngineCall::RendererAdd(fresh));
    assert!(!drawn.contains(&EngineCall::RendererAdd(stale)));
}

#[test]
fn objects_pushed_in_the_event_pump_are_drawn_in_the_same_frame() {
    let early = render_object_static(EntityHandle { slot: 1 });
    let late = render_object_light(EntityHandle { slot: 2 });
    let mut driver = LoopDriver::with_defaults(true, true);
    run_to(&mut driver, Phase::EventPump);
    driver.step(Some(Event::Other));
    driver.push(early);
    run_to(&mut driver, Phase::Collect);
    driver.push(late);
    let drawn = run_to(&mut driver, Phase::Present);
    assert_eq!(drawn[0], EngineCall::RendererAdd(early));
    assert_eq!(drawn[1], EngineCall::RendererAdd(late));
}
