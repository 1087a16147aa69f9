//! Configuration schema definitions.
use vstd::prelude::*;

verus! {

/// LED count used when none is configured.
pub const DEFAULT_LED_COUNT: usize = 300;

/// Audio capture configuration.
#[derive(Debug, Clone)]
pub struct AudioConfig {
    /// Audio backend: "pipewire", "alsa", or "fifo".
    pub backend: String,
    /// Device name or "auto" for automatic selection.
    pub device: String,
    /// Sample rate in Hz.
    pub sample_rate: u32,
    /// Audio chunk size in samples.
    pub chunk_size: usize,
    /// Path to the FIFO named pipe (used when backend = "fifo").
    pub fifo_path: Option<String>,
}

impl Default for AudioConfig {
    fn default() -> (c: Self)
        ensures
            c.backend@ == "pipewire"@,
            c.device@ == "auto"@,
            c.sample_rate == 48000,
            c.chunk_size == 512,
            c.fifo_path is None,
    {
        AudioConfig {
            backend: "pipewire".to_owned(),
            device: "auto".to_owned(),
            sample_rate: 48000,
            chunk_size: 512,
            fifo_path: None,
        }
    }
}

/// LED strip configuration.
///
/// Fields are optional so that values not explicitly set in the config can
/// be auto-detected from WLED devices.
#[derive(Debug, Clone, Default)]
pub struct LedConfig {
    /// Total number of LEDs (auto-detected from WLED when absent).
    pub count: Option<usize>,
    /// RGB byte order: "RGB", "GRB", "BGR", etc. (auto-detected from WLED
    /// when absent).
    pub rgb_order: Option<String>,
}

impl LedConfig {
    /// Resolved LED count, falling back to 300 if not configured.
    pub fn led_count(&self) -> (n: usize)
        ensures
            n == match self.count {
                Some(c) => c,
                None => DEFAULT_LED_COUNT,
            },
    {
        match self.count {
            Some(c) => c,
            None => DEFAULT_LED_COUNT,
        }
    }

    /// Resolved RGB order, falling back to "GRB" if not configured.
    pub fn order(&self) -> (s: &str)
        ensures
            s@ == match self.rgb_order {
                Some(o) => o@,
                None => "GRB"@,
            },
    {
        match &self.rgb_order {
            Some(o) => o.as_str(),
            None => "GRB",
        }
    }
}

/// Output segment for multi-controller setups.
#[derive(Debug, Clone)]
pub struct OutputSegment {
    /// Target address for this segment.
    pub target: String,
    /// Universe number.
    pub universe: u16,
    /// Starting LED index.
    pub start_led: usize,
    /// Ending LED index.
    pub end_led: usize,
}

/// Output configuration.
#[derive(Debug, Clone)]
pub struct OutputConfig {
    /// Output protocol: "e131", "ddp", or "artnet".
    pub protocol: String,
    /// Target address (multicast or unicast IP).
    pub target: String,
    /// Starting universe number (for E1.31).
    pub universe: u16,
    /// Target frames per second.
    pub fps: u32,
    /// Idle timeout in minutes (0 = disabled).
    pub idle_timeout: u64,
    /// LED configuration.
    pub leds: LedConfig,
    /// Optional output segments for multi-controller setups.
    pub segments: Vec<OutputSegment>,
}

impl Default for OutputConfig {
    fn default() -> (c: Self)
        ensures
            c.protocol@ == "e131"@,
            c.target@ == "239.255.0.1"@,
            c.universe == 1,
            c.fps == 60,
            c.idle_timeout == 0,
            c.leds.count is None,
            c.leds.rgb_order is None,
            c.segments@.len() == 0,
    {
        OutputConfig {
            protocol: "e131".to_owned(),
            target: "239.255.0.1".to_owned(),
            universe: 1,
            fps: 60,
            idle_timeout: 0,
            leds: LedConfig { count: None, rgb_order: None },
            segments: Vec::new(),
        }
    }
}

/// HTTP server configuration.
#[derive(Debug, Clone)]
pub struct HttpConfig {
    /// Enable the HTTP/WebSocket server.
    pub enabled: bool,
    /// Port to listen on.
    pub port: u16,
}

impl Default for HttpConfig {
    fn default() -> (c: Self)
        ensures
            !c.enabled,
            c.port == 8080,
    {
        HttpConfig { enabled: false, port: 8080 }
    }
}

} // verus!
