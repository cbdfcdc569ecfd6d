//! The application's configuration and the rules it has to meet.
//!
//! Real-valued options are held by their IEEE 754 single-precision bit
//! patterns, so that a configuration is a plain value that can be copied and
//! compared exactly.

use vstd::prelude::*;
use vstd::string::*;

verus! {

/// The bit pattern of the real number one half.
pub const HALF_BITS: u32 = 0x3f00_0000;

/// The size of the window, in pixels.
#[derive(Clone, Copy, Debug, PartialEq, Eq, Structural)]
pub struct WindowConfig {
    pub width: u16,
    pub height: u16,
}

impl Default for WindowConfig {
    fn default() -> (config: WindowConfig)
        ensures
            config == (WindowConfig { width: 0, height: 0 }),
    {
        WindowConfig { width: 0, height: 0 }
    }
}

/// How the traced image is mapped to displayable colors.
#[derive(Clone, Copy, Debug, PartialEq, Eq, Structural)]
pub struct TonemapConfig {
    pub enable: bool,
    pub enable_aces: bool,
    pub use_simple_aces: bool,
}

impl Default for TonemapConfig {
    fn default() -> (config: TonemapConfig)
        ensures
            config == (TonemapConfig { enable: false, enable_aces: false, use_simple_aces: false }),
    {
        TonemapConfig { enable: false, enable_aces: false, use_simple_aces: false }
    }
}

/// The options of the path tracer.
#[derive(Clone, Copy, Debug, PartialEq, Eq, Structural)]
pub struct TracerConfig {
    /// The largest number of bounces of a path.
    pub max_depth: u16,
    /// The number of bounces after which Russian roulette may end a path.
    pub rr_depth: u16,
    /// The exposure value, as the bit pattern of a real number.
    pub exposure_value_bits: u32,
    pub tonemap: TonemapConfig,
    /// The number of samples after which tracing stops; 0 for no limit.
    pub max_samples: u32,
}

impl Default for TracerConfig {
    fn default() -> (config: TracerConfig)
        ensures
            config == (TracerConfig {
                max_depth: 1,
                rr_depth: 0,
                exposure_value_bits: 0,
                tonemap: TonemapConfig {
                    enable: false,
                    enable_aces: false,
                    use_simple_aces: false,
                },
                max_samples: 0,
            }),
    {
        TracerConfig {
            max_depth: 1,
            rr_depth: 0,
            exposure_value_bits: 0,
            tonemap: TonemapConfig::default(),
            max_samples: 0,
        }
    }
}

/// The configuration of the application.
#[derive(Clone, Debug)]
pub struct AppConfig {
    pub window: WindowConfig,
    pub tracer: TracerConfig,
    pub scene_file: String,
    pub hdri_file: String,
    /// The rotation of the environment map, as the bit pattern of a real
    /// number.
    pub hdri_rotation_bits: u32,
    /// The ground color, each channel as the bit pattern of a real number.
    pub ground_color_bits: [u32; 3],
    /// The sky color, each channel as the bit pattern of a real number.
    pub sky_color_bits: [u32; 3],
}

/// Why a configuration is refused.
#[derive(Clone, Copy, Debug, PartialEq, Eq, Structural)]
pub enum ConfigError {
    /// The window has no area.
    InvalidWindow,
    /// Russian roulette would start beyond the largest path depth.
    RouletteDepthExceedsMaxDepth,
    /// The scene file does not exist.
    SceneFileNotFound,
}

impl ConfigError {
    /// The message shown for this error.
    pub open spec fn message_text(self) -> Seq<char> {
        match self {
            ConfigError::InvalidWindow => "The window size is invalid."@,
            ConfigError::RouletteDepthExceedsMaxDepth => "The Russian Roulette depth is greater than the max depth."@,
            ConfigError::SceneFileNotFound => "The scene file is not found."@,
        }
    }

    /// The message shown for this error.
    pub fn message(self) -> (text: &'static str)
        ensures
            text@ == self.message_text(),
    {
        match self {
            ConfigError::InvalidWindow => "The window size is invalid.",
            ConfigError::RouletteDepthExceedsMaxDepth => "The Russian Roulette depth is greater than the max depth.",
            ConfigError::SceneFileNotFound => "The scene file is not found.",
        }
    }
}

/// The ground color used where the configuration names none: middle gray.
pub fn default_ground_color() -> (color: [u32; 3])
    ensures
        color@ == seq![HALF_BITS, HALF_BITS, HALF_BITS],
{
    let color: [u32; 3] = [HALF_BITS, HALF_BITS, HALF_BITS];
    assert(color@ =~= seq![HALF_BITS, HALF_BITS, HALF_BITS]);
    color
}

/// The sky color used where the configuration names none: middle gray.
pub fn default_sky_color() -> (color: [u32; 3])
    ensures
        color@ == seq![HALF_BITS, HALF_BITS, HALF_BITS],
{
    let color: [u32; 3] = [HALF_BITS, HALF_BITS, HALF_BITS];
    assert(color@ =~= seq![HALF_BITS, HALF_BITS, HALF_BITS]);
    color
}

/// The verdict on a tracer configuration: Russian roulette may not start
/// beyond the largest path depth.
pub open spec fn tracer_verdict(config: TracerConfig) -> Result<(), ConfigError> {
    if config.rr_depth > config.max_depth {
        Err(ConfigError::RouletteDepthExceedsMaxDepth)
    } else {
        Ok(())
    }
}

/// The verdict on a window configuration: the window needs an area.
pub open spec fn window_verdict(config: WindowConfig) -> Result<(), ConfigError> {
    if config.width == 0 || config.height == 0 {
        Err(ConfigError::InvalidWindow)
    } else {
        Ok(())
    }
}

/// The verdict on an application configuration, given whether the scene
/// file exists. The window is judged first, then the tracer, then the scene
/// file.
pub open spec fn app_verdict(config: AppConfig, scene_file_exists: bool) -> Result<
    (),
    ConfigError,
> {
    if window_verdict(config.window) is Err {
        window_verdict(config.window)
    } else if tracer_verdict(config.tracer) is Err {
        tracer_verdict(config.tracer)
    } else if !scene_file_exists {
        Err(ConfigError::SceneFileNotFound)
    } else {
        Ok(())
    }
}

/// Validates the tracer options.
pub fn validate_tracer_config(config: &TracerConfig) -> (verdict: Result<(), ConfigError>)
    ensures
        verdict == tracer_verdict(*config),
{
    if config.rr_depth > config.max_depth {
        return Err(ConfigError::RouletteDepthExceedsMaxDepth);
    }
    Ok(())
}

/// Validates the window options.
pub fn validate_window_config(config: &WindowConfig) -> (verdict: Result<(), ConfigError>)
    ensures
        verdict == window_verdict(*config),
{
    if config.width == 0 || config.height == 0 {
        return Err(ConfigError::InvalidWindow);
    }
    Ok(())
}

/// Validates the application's configuration. The caller says whether the
/// scene file exists.
pub fn validate_app_config(config: &AppConfig, scene_file_exists: bool) -> (verdict: Result<
    (),
    ConfigError,
>)
    ensures
        verdict == app_verdict(*config, scene_file_exists),
{
    match validate_window_config(&config.window) {
        Err(e) => {
            return Err(e);
        },
        Ok(_) => {},
    }
    match validate_tracer_config(&config.tracer) {
        Err(e) => {
            return Err(e);
        },
        Ok(_) => {},
    }
    if !scene_file_exists {
        return Err(ConfigError::SceneFileNotFound);
    }
    Ok(())
}

} // verus!
