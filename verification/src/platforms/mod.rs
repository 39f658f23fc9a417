//! Platform configuration, events, and the platform adapters.

pub mod config;
pub mod mattermost;

pub use config::{PlatformConfig, PlatformEvent};
