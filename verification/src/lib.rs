//! A chat-platform client library with a verified core.
//!
//! The library models the data a chat client handles (users, channels,
//! messages, teams, events), the rules that turn a Mattermost server's replies
//! into those models, and the small state machines (contexts, caches,
//! reconnection) that sit around the network layer.

pub mod text;
pub mod error;
pub mod clock;
pub mod json;
pub mod types;
pub mod string_map;
pub mod context;
pub mod platforms;
