use hala_pathtracer::application::{LoopAction, LoopEvent, MainLoop};
use hala_pathtracer::config::{
    default_ground_color, default_sky_color, validate_app_config, validate_tracer_config,
    validate_window_config, AppConfig, ConfigError, TonemapConfig, TracerConfig, WindowConfig, HALF_BITS,
};

fn config(rr_depth: u16, max_depth: u16) -> AppConfig {
    AppConfig {
        window: WindowConfig { width: 1280, height: 720 },
        tracer: TracerConfig { max_depth, rr_depth, ..TracerConfig::default() },
        scene_file: "scenes/box.yaml".to_string(),
        hdri_file: String::new(),
        hdri_rotation_bits: 0,
        ground_color_bits: default_ground_color(),
        sky_color_bits: default_sky_color(),
    }
}

#[test]
fn main_loop_takes_name_and_window_from_the_configuration() {
    let app = MainLoop::new("PathTracer", &config(0, 1));
    assert_eq!(app.name, "PathTracer");
    assert_eq!(app.win_config, WindowConfig { width: 1280, height: 720 });
}

#[test]
fn default_main_loop_is_empty() {
    let app = MainLoop::default();
    assert_eq!(app.name, "");
    assert_eq!(app.win_config, WindowConfig::default());
    assert_eq!(WindowConfig::default(), WindowConfig { width: 0, height: 0 });
}

#[test]
fn default_tracer_traces_one_bounce() {
    let tracer = TracerConfig::default();
    assert_eq!(tracer.max_depth, 1);
    assert_eq!(tracer.rr_depth, 0);
    assert_eq!(f32::from_bits(tracer.exposure_value_bits), 0.0);
    assert_eq!(tracer.max_samples, 0);
    assert_eq!(
        tracer.tonemap,
        TonemapConfig { enable: false, enable_aces: false, use_simple_aces: false }
    );
    assert_eq!(TonemapConfig::default(), tracer.tonemap);
}

#[test]
fn default_colors_are_middle_gray() {
    assert_eq!(f32::from_bits(HALF_BITS), 0.5);
    assert_eq!(default_ground_color().map(f32::from_bits), [0.5, 0.5, 0.5]);
    assert_eq!(default_sky_color().map(f32::from_bits), [0.5, 0.5, 0.5]);
}

#[test]
fn roulette_depth_may_not_exceed_max_depth() {
    assert_eq!(validate_tracer_config(&config(0, 1).tracer), Ok(()));
    assert_eq!(validate_tracer_config(&config(5, 5).tracer), Ok(()));
    assert_eq!(
        validate_tracer_config(&config(6, 5).tracer),
        Err(ConfigError::RouletteDepthExceedsMaxDepth)
    );
    assert_eq!(validate_tracer_config(&TracerConfig::default()), Ok(()));
}

#[test]
fn app_configuration_is_judged_window_first_then_tracer_then_scene() {
    assert_eq!(validate_app_config(&config(0, 1), true), Ok(()));
    let mut no_window = config(2, 1);
    no_window.window.height = 0;
    assert_eq!(validate_app_config(&no_window, false), Err(ConfigError::InvalidWindow));
    assert_eq!(
        validate_app_config(&config(2, 1), false),
        Err(ConfigError::RouletteDepthExceedsMaxDepth)
    );
    assert_eq!(validate_app_config(&config(1, 1), false), Err(ConfigError::SceneFileNotFound));
    assert_eq!(validate_app_config(&config(1, 1), true), Ok(()));
}

#[test]
fn window_needs_an_area() {
    assert_eq!(validate_window_config(&WindowConfig { width: 1, height: 1 }), Ok(()));
    assert_eq!(
        validate_window_config(&WindowConfig { width: 0, height: 720 }),
        Err(ConfigError::InvalidWindow)
    );
    assert_eq!(
        validate_window_config(&WindowConfig { width: 1280, height: 0 }),
        Err(ConfigError::InvalidWindow)
    );
}

#[test]
fn errors_have_their_messages() {
    assert_eq!(
        ConfigError::RouletteDepthExceedsMaxDepth.message(),
        "The Russian Roulette depth is greater than the max depth."
    );
    assert_eq!(ConfigError::SceneFileNotFound.message(), "The scene file is not found.");
    assert_eq!(ConfigError::InvalidWindow.message(), "The window size is invalid.");
}

#[test]
fn keyboard_events_reach_the_application_unless_synthetic_or_foreign() {
    let key = |own_window, synthetic, released| {
        MainLoop::on_event(LoopEvent::KeyboardInput { own_window, synthetic, released })
    };
    assert_eq!(key(true, false, false), LoopAction::KeyPressed);
    assert_eq!(key(true, false, true), LoopAction::KeyReleased);
    assert_eq!(key(true, true, false), LoopAction::Ignore);
    assert_eq!(key(true, true, true), LoopAction::Ignore);
    assert_eq!(key(false, false, true), LoopAction::Ignore);
}

#[test]
fn window_events_drive_the_loop() {
    assert_eq!(
        MainLoop::on_event(LoopEvent::CloseRequested { own_window: true }),
        LoopAction::Close
    );
    assert_eq!(
        MainLoop::on_event(LoopEvent::CloseRequested { own_window: false }),
        LoopAction::Ignore
    );
    assert_eq!(
        MainLoop::on_event(LoopEvent::RedrawRequested { own_window: true }),
        LoopAction::Frame
    );
    assert_eq!(
        MainLoop::on_event(LoopEvent::RedrawRequested { own_window: false }),
        LoopAction::Ignore
    );
    assert_eq!(MainLoop::on_event(LoopEvent::AboutToWait), LoopAction::RequestRedraw);
    assert_eq!(MainLoop::on_event(LoopEvent::Other), LoopAction::Ignore);
}

#[test]
fn loop_ends_when_a_frame_fails() {
    assert!(MainLoop::continues_after_frame(true, true));
    assert!(!MainLoop::continues_after_frame(true, false));
    assert!(!MainLoop::continues_after_frame(false, true));
    assert!(!MainLoop::continues_after_frame(false, false));
}

#[test]
fn frame_size_keeps_the_low_sixteen_bits() {
    assert_eq!(MainLoop::frame_size(1280, 720), (1280, 720));
    assert_eq!(MainLoop::frame_size(65535, 65536), (65535, 0));
    assert_eq!(MainLoop::frame_size(70000, 0), (4464, 0));
}
