//! Platform-agnostic types shared by every platform adapter.

pub mod capabilities;
pub mod channel;
pub mod connection;
pub mod emoji;
pub mod message;
pub mod team;
pub mod user;

pub use capabilities::PlatformCapabilities;
pub use channel::{Channel, ChannelType, ChannelUnread};
pub use connection::{ConnectionInfo, ConnectionState};
pub use emoji::Emoji;
pub use message::{Attachment, Message};
pub use team::{Team, TeamType};
pub use user::{User, UserStatus};
