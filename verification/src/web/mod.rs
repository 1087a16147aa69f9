//! Data sent to the browser view of the LED strip, and the routing of its
//! requests.
pub mod protocol;
pub mod request;
