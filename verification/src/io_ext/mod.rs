//! Buffered reading and writing on sources that are polled for readiness.

pub mod read;
pub mod write;
