pub mod buffer_tools;
pub mod diagnostic;

pub use buffer_tools::TripleBuffer;
pub use diagnostic::FrameQueue;
