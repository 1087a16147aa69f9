//! LED output: frame pacing and the wire formats of the output protocols.
pub mod artnet;
pub mod ddp;
pub mod e131;
pub mod idle;
pub mod multi;
pub mod ratelimit;
pub mod wire;

pub use idle::{IdleAction, IdleTimer};
pub use multi::MultiUniverseOutput;
pub use ratelimit::{FramePlan, RateLimiter};
