//! Worker side of a host-to-worker task dispatch protocol over a local socket:
//! the task records, the length-prefixed envelope, the cancellation monitor and
//! the worker loop, each stated and proved with Verus.
pub mod envelope;
pub mod message;
pub mod monitor;
pub mod worker;

pub use message::{MessageCommunicate, MessageInputTask, MessageOutputTask, MessageStatus};
