//! Configuration data types. Loading, saving and command-line handling live
//! outside this crate; these are the plain values they produce and consume.

use vstd::prelude::*;
use crate::geometry::Direction;
use crate::weather::WeatherType;

verus! {

/// Rendering configuration.
#[derive(Debug, Clone)]
pub struct RenderingConfig {
    pub target_width: u32,
    pub target_height: u32,
    pub auto_detect_size: bool,
    pub enable_colors: bool,
    pub enable_unicode: bool,
    pub ascii_style: AsciiStyle,
    pub show_grid: bool,
    pub animation_speed: u32,
}

/// ASCII art style variants.
#[derive(Debug, Clone, Copy, PartialEq, Eq, Structural)]
pub enum AsciiStyle {
    Simple,
    Detailed,
    Minimal,
}

/// Direction as it appears in configuration files.
#[derive(Debug, Clone, Copy, PartialEq, Eq, Structural)]
pub enum DirectionConfig {
    North,
    South,
    East,
    West,
}

impl From<DirectionConfig> for Direction {
    fn from(config: DirectionConfig) -> (r: Direction) {
        match config {
            DirectionConfig::North => Direction::North,
            DirectionConfig::South => Direction::South,
            DirectionConfig::East => Direction::East,
            DirectionConfig::West => Direction::West,
        }
    }
}

impl vstd::std_specs::convert::FromSpecImpl<DirectionConfig> for Direction {
    open spec fn obeys_from_spec() -> bool {
        true
    }

    open spec fn from_spec(config: DirectionConfig) -> Direction {
        match config {
            DirectionConfig::North => Direction::North,
            DirectionConfig::South => Direction::South,
            DirectionConfig::East => Direction::East,
            DirectionConfig::West => Direction::West,
        }
    }
}

impl From<Direction> for DirectionConfig {
    fn from(direction: Direction) -> (r: DirectionConfig) {
        match direction {
            Direction::North => DirectionConfig::North,
            Direction::South => DirectionConfig::South,
            Direction::East => DirectionConfig::East,
            Direction::West => DirectionConfig::West,
        }
    }
}

impl vstd::std_specs::convert::FromSpecImpl<Direction> for DirectionConfig {
    open spec fn obeys_from_spec() -> bool {
        true
    }

    open spec fn from_spec(direction: Direction) -> DirectionConfig {
        match direction {
            Direction::North => DirectionConfig::North,
            Direction::South => DirectionConfig::South,
            Direction::East => DirectionConfig::East,
            Direction::West => DirectionConfig::West,
        }
    }
}

/// Weather type as it appears in configuration files.
#[derive(Debug, Clone, Copy, PartialEq, Eq, Structural)]
pub enum WeatherTypeConfig {
    Clear,
    LightRain,
    HeavyRain,
    Snow,
    Fog,
    Storm,
}

impl From<WeatherTypeConfig> for WeatherType {
    fn from(config: WeatherTypeConfig) -> (r: WeatherType) {
        match config {
            WeatherTypeConfig::Clear => WeatherType::Clear,
            WeatherTypeConfig::LightRain => WeatherType::LightRain,
            WeatherTypeConfig::HeavyRain => WeatherType::HeavyRain,
            WeatherTypeConfig::Snow => WeatherType::Snow,
            WeatherTypeConfig::Fog => WeatherType::Fog,
            WeatherTypeConfig::Storm => WeatherType::Storm,
        }
    }
}

impl vstd::std_specs::convert::FromSpecImpl<WeatherTypeConfig> for WeatherType {
    open spec fn obeys_from_spec() -> bool {
        true
    }

    open spec fn from_spec(config: WeatherTypeConfig) -> WeatherType {
        match config {
            WeatherTypeConfig::Clear => WeatherType::Clear,
            WeatherTypeConfig::LightRain => WeatherType::LightRain,
            WeatherTypeConfig::HeavyRain => WeatherType::HeavyRain,
            WeatherTypeConfig::Snow => WeatherType::Snow,
            WeatherTypeConfig::Fog => WeatherType::Fog,
            WeatherTypeConfig::Storm => WeatherType::Storm,
        }
    }
}

/// User interface configuration.
#[derive(Debug, Clone)]
pub struct UiConfig {
    pub show_status_panel: bool,
    pub show_statistics_panel: bool,
    pub show_controls_panel: bool,
    pub enable_alerts: bool,
    /// Alert display time in seconds.
    pub alert_duration: u64,
    /// UI refresh frequency in hertz.
    pub update_frequency: u32,
    pub color_scheme: ColorSchemeConfig,
}

/// Color scheme configuration, as color names.
#[derive(Debug, Clone)]
pub struct ColorSchemeConfig {
    pub primary: String,
    pub secondary: String,
    pub accent: String,
    pub background: String,
    pub text: String,
    pub error: String,
    pub warning: String,
    pub success: String,
}

/// Performance configuration.
#[derive(Debug, Clone)]
pub struct PerformanceConfig {
    pub enable_optimizations: bool,
    pub max_fps: u32,
    pub enable_dirty_rendering: bool,
    pub buffer_size: usize,
    pub garbage_collection_frequency: u32,
    pub statistics_history_size: usize,
    pub enable_profiling: bool,
}

/// Debug configuration.
#[derive(Debug, Clone)]
pub struct DebugConfig {
    pub enable_debug_mode: bool,
    pub show_fps: bool,
    pub show_vehicle_ids: bool,
    pub show_intersection_stats: bool,
    pub enable_logging: bool,
    pub log_level: LogLevel,
    pub log_file: Option<String>,
    pub enable_hot_reload: bool,
}

/// Logging level configuration.
#[derive(Debug, Clone, Copy, PartialEq, Eq, Structural)]
pub enum LogLevel {
    Off,
    Error,
    Warn,
    Info,
    Debug,
    Trace,
}

/// Configuration errors.
#[derive(Debug, Clone)]
pub enum ConfigError {
    FileError(String),
    ParseError(String),
    SerializeError(String),
    ValidationError(String),
}

/// Predefined configuration presets.
#[derive(Debug, Clone, Copy, PartialEq, Eq, Structural)]
pub enum ConfigPreset {
    Demo,
    Performance,
    Debug,
    LowEnd,
    HighEnd,
    Educational,
}

} // verus!
