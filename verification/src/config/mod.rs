//! Configuration of the visualizer.
pub mod location;
pub mod schema;

pub use location::{resolve_config, ConfigLocation};
pub use schema::{AudioConfig, HttpConfig, LedConfig, OutputConfig, OutputSegment};
