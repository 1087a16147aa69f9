//! RustyLights: the verified core of an audio-to-LED visualizer.
//!
//! The library holds the parts of the visualizer that compute on plain
//! values: the sample ring buffer, PCM decoding and the choice of capture
//! backend, the integer decisions of the audio analysis (transform sizes,
//! beat spacing), the LED colour model, gradients, effect names and
//! byte-order handling, the frame-rate limiter's decisions and the idle
//! timeout, the wire formats of the E1.31/sACN, DDP and Art-Net protocols and
//! of the browser view, and the configuration defaults and WLED
//! auto-configuration.
pub mod audio;
pub mod config;
pub mod dsp;
pub mod effects;
pub mod output;
pub mod util;
pub mod web;
pub mod wled;

pub use effects::Rgb;
