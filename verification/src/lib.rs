//! Authentication and session state for a local Copilot proxy.

pub mod text;
pub mod error;
pub mod keyed;
pub mod credential;
pub mod oauth;
pub mod device_flow;
pub mod registry;
pub mod config;
pub mod status;
pub mod proxy;
pub mod session;
