//! Users and their presence.

use vstd::prelude::*;
use crate::json::JsonValue;
use crate::text::owned;

verus! {

/// A user on a chat platform.
#[derive(Debug, Clone)]
pub struct User {
    /// Unique identifier for this user
    pub id: String,
    /// Username (unique login name)
    pub username: String,
    /// Display name (what other users see)
    pub display_name: String,
    /// Email address (optional)
    pub email: Option<String>,
    /// Avatar/profile picture URL (optional)
    pub avatar_url: Option<String>,
    /// Current status (online, away, offline, etc.)
    pub status: UserStatus,
    /// Optional custom status text set by the user
    pub status_message: Option<String>,
    /// Whether this user is a bot
    pub is_bot: bool,
    /// Optional platform-specific metadata
    pub metadata: Option<JsonValue>,
}

/// User status/presence.
#[derive(Debug, Clone, Copy, PartialEq, Eq, Structural)]
pub enum UserStatus {
    /// User is online and active
    Online,
    /// User is away/idle
    Away,
    /// User is in "do not disturb" mode
    DoNotDisturb,
    /// User is offline
    Offline,
    /// Status is unknown
    Unknown,
}

impl Default for UserStatus {
    /// Unknown.
    fn default() -> (s: Self)
        ensures
            s == UserStatus::Unknown,
    {
        UserStatus::Unknown
    }
}

impl User {
    /// A user with unknown status, no email, avatar, status message or
    /// metadata, who is not a bot.
    pub fn new(id: &str, username: &str, display_name: &str) -> (u: Self)
        ensures
            u.id@ == id@,
            u.username@ == username@,
            u.display_name@ == display_name@,
            u.email is None,
            u.avatar_url is None,
            u.status == UserStatus::Unknown,
            u.status_message is None,
            !u.is_bot,
            u.metadata is None,
    {
        User {
            id: owned(id),
            username: owned(username),
            display_name: owned(display_name),
            email: None,
            avatar_url: None,
            status: UserStatus::Unknown,
            status_message: None,
            is_bot: false,
            metadata: None,
        }
    }

    /// The same user with the given email address.
    pub fn with_email(self, email: &str) -> (u: Self)
        ensures
            u.email matches Some(e) && e@ == email@,
            u == (User { email: u.email, ..self }),
    {
        let mut s = self;
        s.email = Some(owned(email));
        s
    }

    /// The same user with the given avatar URL.
    pub fn with_avatar(self, avatar_url: &str) -> (u: Self)
        ensures
            u.avatar_url matches Some(a) && a@ == avatar_url@,
            u == (User { avatar_url: u.avatar_url, ..self }),
    {
        let mut s = self;
        s.avatar_url = Some(owned(avatar_url));
        s
    }

    /// The same user with the given status.
    pub fn with_status(self, status: UserStatus) -> (u: Self)
        ensures
            u == (User { status, ..self }),
    {
        let mut s = self;
        s.status = status;
        s
    }

    /// The same user with the given status message.
    pub fn with_status_message(self, message: &str) -> (u: Self)
        ensures
            u.status_message matches Some(m) && m@ == message@,
            u == (User { status_message: u.status_message, ..self }),
    {
        let mut s = self;
        s.status_message = Some(owned(message));
        s
    }

    /// The same user, marked as a bot.
    pub fn as_bot(self) -> (u: Self)
        ensures
            u == (User { is_bot: true, ..self }),
    {
        let mut s = self;
        s.is_bot = true;
        s
    }

    /// The same user with the given metadata.
    pub fn with_metadata(self, metadata: JsonValue) -> (u: Self)
        ensures
            u == (User { metadata: Some(metadata), ..self }),
    {
        let mut s = self;
        s.metadata = Some(metadata);
        s
    }
}

} // verus!
