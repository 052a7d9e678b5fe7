//! Client-side building blocks for publishing rich presence over Discord's
//! local IPC channel.

pub mod activity;
pub mod client;
pub mod endpoint;
pub mod error;
pub mod frame;
pub mod json;
pub mod message;
