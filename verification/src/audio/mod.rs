//! Audio sample transport: the capture-to-analysis ring buffer, PCM
//! decoding and the choice of capture backend.
pub mod backend;
pub mod pcm;
pub mod ringbuffer;

pub use backend::BackendKind;
pub use ringbuffer::RingBuffer;
