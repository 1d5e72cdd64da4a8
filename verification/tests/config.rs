use corange_rs::camera::{Camera, CameraType};
use corange_rs::corange::{camera, is_nul_free, vec3, vec3_new, vec3_zero, Scalar};
use corange_rs::engine::EngineCall;
use corange_rs::renderer::Renderer;
use corange_rs::staged::ConfigValue;
use corange_rs::viewport::{Viewport, ENGINE_INT_MAX};

fn scalar(value: f32) -> Scalar {
    Scalar::from_bits(value.to_bits())
}

#[test]
fn default_viewport_is_1280_by_720() {
    let viewport = Viewport::default();
    assert_eq!(viewport.title, "Output");
    assert_eq!(viewport.width, 1280);
    assert_eq!(viewport.height, 720);
    assert!(!viewport.fullscreen);
    assert_eq!(viewport.antialiasing, 0);
    assert_eq!(viewport.multisampling, 0);
    assert!(viewport.is_valid());
}

#[test]
fn default_renderer_reads_renderer_cfg() {
    let renderer = Renderer::default();
    assert_eq!(renderer.configuration, "renderer.cfg");
    assert_eq!(renderer.color_correction_texture, None);
    assert_eq!(renderer.vignetting_texture, None);
    assert_eq!(f32::from_bits(renderer.texture_noise.to_bits()), 0.0);
    assert!(!renderer.sea_enabled);
    assert!(!renderer.sky_enabled);
    assert_eq!(f32::from_bits(renderer.sky_time.to_bits()), 0.15);
    assert!(renderer.is_valid());
}

#[test]
fn default_camera_is_free_and_looks_at_the_origin() {
    let camera = Camera::default();
    assert_eq!(camera.movement, CameraType::Free);
    assert_eq!(camera.position, vec3_new(scalar(10.0), scalar(10.0), scalar(10.0)));
    assert_eq!(camera.target, vec3_zero());
    assert_eq!(f32::from_bits(camera.far_clip.to_bits()), 512.0);
    assert_eq!(f32::from_bits(camera.near_clip.to_bits()), 0.10);
    assert_eq!(f32::from_bits(camera.fov.to_bits()), 0.78);
    assert!(camera.is_valid());
}

#[test]
fn viewport_without_area_is_malformed() {
    let mut viewport = Viewport::default();
    viewport.width = 0;
    assert!(!viewport.is_valid());
    viewport.width = 1;
    viewport.height = 0;
    assert!(!viewport.is_valid());
    viewport.height = 1;
    assert!(viewport.is_valid());
}

#[test]
fn viewport_beyond_the_engines_range_is_malformed() {
    let mut viewport = Viewport::default();
    viewport.width = ENGINE_INT_MAX;
    assert!(viewport.is_valid());
    viewport.width = ENGINE_INT_MAX + 1;
    assert!(!viewport.is_valid());
    viewport.width = 1280;
    viewport.antialiasing = ENGINE_INT_MAX + 1;
    assert!(!viewport.is_valid());
    viewport.antialiasing = 16;
    viewport.multisampling = usize::MAX;
    assert!(!viewport.is_valid());
}

#[test]
fn viewport_title_with_a_nul_is_malformed() {
    let mut viewport = Viewport::default();
    viewport.title = String::from("Out\0put");
    assert!(!viewport.is_valid());
    viewport.title = String::new();
    assert!(viewport.is_valid());
}

#[test]
fn nul_is_found_wherever_it_stands() {
    assert!(is_nul_free(""));
    assert!(is_nul_free("renderer.cfg"));
    assert!(is_nul_free("h\u{e9}llo \u{1f600}"));
    assert!(!is_nul_free("\0"));
    assert!(!is_nul_free("\0abc"));
    assert!(!is_nul_free("abc\0"));
    assert!(!is_nul_free("a\0\0c"));
}

#[test]
fn viewport_apply_makes_five_calls_in_order() {
    let viewport = Viewport {
        title: String::from("Example"),
        width: 1280,
        height: 720,
        fullscreen: true,
        antialiasing: 1,
        multisampling: 4,
    };
    assert_eq!(
        viewport.apply(),
        vec![
            EngineCall::ViewportSetTitle(String::from("Example")),
            EngineCall::ViewportSetSize(1280, 720),
            EngineCall::SetAntialiasing(1),
            EngineCall::SetMultisamples(4),
            EngineCall::SetFullscreen(1),
        ]
    );
}

#[test]
fn viewport_apply_takes_the_largest_numbers() {
    let viewport = Viewport {
        title: String::new(),
        width: ENGINE_INT_MAX,
        height: 1,
        fullscreen: false,
        antialiasing: ENGINE_INT_MAX,
        multisampling: 0,
    };
    assert_eq!(
        viewport.apply(),
        vec![
            EngineCall::ViewportSetTitle(String::new()),
            EngineCall::ViewportSetSize(i32::MAX, 1),
            EngineCall::SetAntialiasing(i32::MAX),
            EngineCall::SetMultisamples(0),
            EngineCall::SetFullscreen(0),
        ]
    );
}

#[test]
fn renderer_apply_without_textures_makes_four_calls() {
    let renderer = Renderer::default();
    assert_eq!(
        renderer.apply(),
        vec![
            EngineCall::RendererSetGlitch(scalar(0.0)),
            EngineCall::RendererSetSkydomeEnabled(0),
            EngineCall::RendererSetSeaEnabled(0),
            EngineCall::RendererSetTod(scalar(0.15), 0),
        ]
    );
}

#[test]
fn renderer_apply_loads_the_textures_last() {
    let renderer = Renderer {
        configuration: String::from("graphics.cfg"),
        color_correction_texture: Some(String::from("lut.dds")),
        vignetting_texture: Some(String::from("vignette.dds")),
        texture_noise: scalar(0.5),
        sea_enabled: true,
        sky_enabled: false,
        sky_time: scalar(0.25),
    };
    assert_eq!(
        renderer.apply(),
        vec![
            EngineCall::RendererSetGlitch(scalar(0.5)),
            EngineCall::RendererSetSkydomeEnabled(0),
            EngineCall::RendererSetSeaEnabled(1),
            EngineCall::RendererSetTod(scalar(0.25), 0),
            EngineCall::RendererSetColorCorrection(String::from("lut.dds")),
            EngineCall::RendererSetVignetting(String::from("vignette.dds")),
        ]
    );
}

#[test]
fn renderer_apply_with_one_texture_skips_the_other() {
    let mut renderer = Renderer::default();
    renderer.sky_enabled = true;
    renderer.vignetting_texture = Some(String::from("vignette.dds"));
    assert_eq!(
        renderer.apply(),
        vec![
            EngineCall::RendererSetGlitch(scalar(0.0)),
            EngineCall::RendererSetSkydomeEnabled(1),
            EngineCall::RendererSetSeaEnabled(0),
            EngineCall::RendererSetTod(scalar(0.15), 0),
            EngineCall::RendererSetVignetting(String::from("vignette.dds")),
        ]
    );
}

#[test]
fn renderer_initialize_makes_the_renderer_first() {
    let renderer = Renderer::default();
    let calls = renderer.initialize();
    assert_eq!(calls.len(), 5);
    assert_eq!(calls[0], EngineCall::RendererNew(String::from("renderer.cfg")));
    assert_eq!(calls[1..].to_vec(), renderer.apply());
}

#[test]
fn renderer_with_a_nul_in_a_path_is_malformed() {
    let mut renderer = Renderer::default();
    renderer.configuration = String::from("render\0er.cfg");
    assert!(!renderer.is_valid());
    renderer.configuration = String::from("renderer.cfg");
    renderer.color_correction_texture = Some(String::from("\0"));
    assert!(!renderer.is_valid());
    renderer.color_correction_texture = Some(String::from("lut.dds"));
    renderer.vignetting_texture = Some(String::from("v\0"));
    assert!(!renderer.is_valid());
    renderer.vignetting_texture = None;
    assert!(renderer.is_valid());
}

#[test]
fn renderer_with_a_number_that_is_none_is_malformed() {
    let mut renderer = Renderer::default();
    renderer.texture_noise = scalar(f32::NAN);
    assert!(!renderer.is_valid());
    renderer.texture_noise = scalar(0.0);
    renderer.sky_time = scalar(f32::INFINITY);
    assert!(!renderer.is_valid());
    renderer.sky_time = scalar(-3.5);
    assert!(renderer.is_valid());
}

#[test]
fn finite_is_what_the_machine_calls_finite() {
    for value in [0.0f32, -0.0, 1.0, -1.0, 0.78, f32::MAX, f32::MIN, f32::MIN_POSITIVE, 1.0e-45] {
        assert!(scalar(value).is_finite());
    }
    for value in [f32::NAN, f32::INFINITY, f32::NEG_INFINITY] {
        assert!(!scalar(value).is_finite());
    }
    assert!(!Scalar::from_bits(0x7fc0_0001).is_finite());
    assert!(!Scalar::from_bits(0xff80_0000).is_finite());
    assert!(Scalar::from_bits(0x7f7f_ffff).is_finite());
    assert_eq!(Scalar::zero().to_bits(), 0);
}

#[test]
fn camera_with_a_number_that_is_none_is_malformed() {
    let mut configured = Camera::default();
    configured.position = vec3_new(scalar(0.0), scalar(f32::NAN), scalar(0.0));
    assert!(!configured.is_valid());
    configured.position = vec3_zero();
    configured.target = vec3_new(scalar(f32::INFINITY), scalar(0.0), scalar(0.0));
    assert!(!configured.is_valid());
    configured.target = vec3_zero();
    configured.fov = scalar(f32::NEG_INFINITY);
    assert!(!configured.is_valid());
    configured.fov = scalar(0.78);
    configured.near_clip = scalar(f32::NAN);
    assert!(!configured.is_valid());
    configured.near_clip = scalar(0.1);
    configured.far_clip = scalar(f32::NAN);
    assert!(!configured.is_valid());
    configured.far_clip = scalar(512.0);
    assert!(configured.is_valid());
}

#[test]
fn camera_apply_writes_the_five_parameters() {
    let configured = Camera {
        position: vec3_new(scalar(25.0), scalar(25.0), scalar(10.0)),
        target: vec3_new(scalar(0.0), scalar(7.0), scalar(0.0)),
        fov: scalar(0.78),
        near_clip: scalar(0.1),
        far_clip: scalar(512.0),
        movement: CameraType::Orbit,
    };
    let mut engine_camera = camera::default();
    assert_eq!(engine_camera.position, vec3_zero());
    assert_eq!(engine_camera.fov, Scalar::zero());
    configured.apply(&mut engine_camera);
    assert_eq!(
        engine_camera,
        camera {
            position: vec3 { x: scalar(25.0), y: scalar(25.0), z: scalar(10.0) },
            target: vec3 { x: scalar(0.0), y: scalar(7.0), z: scalar(0.0) },
            fov: scalar(0.78),
            near_clip: scalar(0.1),
            far_clip: scalar(512.0),
        }
    );
}
