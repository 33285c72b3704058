//! Connections over streams.

pub mod conn;
pub mod server;
