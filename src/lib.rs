//! Per-room playback sessions, their track queues, the decisions taken when a
//! track ends, and the listener presence cache that resolves voice channels.

pub mod cache;
pub mod session;
pub mod commands;
pub mod continuation;
pub mod registry;
mod store;
