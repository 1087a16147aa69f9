//! Integer decisions of the audio analysis.
pub mod beat;
pub mod fft;

pub use beat::BeatGate;
