//! Channels (conversations) and their unread state.

use vstd::prelude::*;
use crate::json::JsonValue;
use crate::text::owned;

verus! {

/// A chat channel/conversation.
#[derive(Debug, Clone)]
pub struct Channel {
    /// Unique identifier for this channel
    pub id: String,
    /// Channel name
    pub name: String,
    /// Human-readable display name
    pub display_name: String,
    /// Type of channel (public, private, direct message, etc.)
    pub channel_type: ChannelType,
    /// Optional channel topic/description
    pub topic: Option<String>,
    /// Optional channel purpose
    pub purpose: Option<String>,
    /// User IDs of channel members (may be None if not loaded)
    pub member_ids: Option<Vec<String>>,
    /// When the channel was created (milliseconds since the Unix epoch)
    pub created_at: i64,
    /// Last activity (milliseconds since the Unix epoch)
    pub last_activity_at: Option<i64>,
    /// Whether the channel is archived
    pub is_archived: bool,
    /// Optional platform-specific metadata
    pub metadata: Option<JsonValue>,
}

/// Type of channel.
#[derive(Debug, Clone, Copy, PartialEq, Eq, Structural)]
pub enum ChannelType {
    /// Public channel (anyone can join)
    Public,
    /// Private channel (invite-only)
    Private,
    /// Direct message between two users
    DirectMessage,
    /// Group direct message (multiple users)
    GroupMessage,
}

impl Channel {
    /// A channel created now, with no topic, purpose, members, activity or
    /// metadata, not archived.
    pub fn new(id: &str, name: &str, display_name: &str, channel_type: ChannelType) -> (c: Self)
        ensures
            c.id@ == id@,
            c.name@ == name@,
            c.display_name@ == display_name@,
            c.channel_type == channel_type,
            c.topic is None,
            c.purpose is None,
            c.member_ids is None,
            c.last_activity_at is None,
            !c.is_archived,
            c.metadata is None,
    {
        Channel {
            id: owned(id),
            name: owned(name),
            display_name: owned(display_name),
            channel_type,
            topic: None,
            purpose: None,
            member_ids: None,
            created_at: crate::clock::now_millis(),
            last_activity_at: None,
            is_archived: false,
            metadata: None,
        }
    }

    /// The same channel with the given topic.
    pub fn with_topic(self, topic: &str) -> (c: Self)
        ensures
            c.topic matches Some(t) && t@ == topic@,
            c == (Channel { topic: c.topic, ..self }),
    {
        let mut s = self;
        s.topic = Some(owned(topic));
        s
    }

    /// The same channel with the given purpose.
    pub fn with_purpose(self, purpose: &str) -> (c: Self)
        ensures
            c.purpose matches Some(p) && p@ == purpose@,
            c == (Channel { purpose: c.purpose, ..self }),
    {
        let mut s = self;
        s.purpose = Some(owned(purpose));
        s
    }

    /// The same channel with the given member IDs.
    pub fn with_members(self, member_ids: Vec<String>) -> (c: Self)
        ensures
            c == (Channel { member_ids: Some(member_ids), ..self }),
    {
        let mut s = self;
        s.member_ids = Some(member_ids);
        s
    }

    /// The same channel with the given last-activity time.
    pub fn with_last_activity(self, timestamp: i64) -> (c: Self)
        ensures
            c == (Channel { last_activity_at: Some(timestamp), ..self }),
    {
        let mut s = self;
        s.last_activity_at = Some(timestamp);
        s
    }

    /// The same channel, archived.
    pub fn archived(self) -> (c: Self)
        ensures
            c == (Channel { is_archived: true, ..self }),
    {
        let mut s = self;
        s.is_archived = true;
        s
    }

    /// The same channel with the given metadata.
    pub fn with_metadata(self, metadata: JsonValue) -> (c: Self)
        ensures
            c == (Channel { metadata: Some(metadata), ..self }),
    {
        let mut s = self;
        s.metadata = Some(metadata);
        s
    }

    /// Whether this is a direct or group message channel.
    pub fn is_direct_message(&self) -> (b: bool)
        ensures
            b == (self.channel_type == ChannelType::DirectMessage
                || self.channel_type == ChannelType::GroupMessage),
    {
        match self.channel_type {
            ChannelType::DirectMessage | ChannelType::GroupMessage => true,
            _ => false,
        }
    }

    /// Whether this is a public channel.
    pub fn is_public(&self) -> (b: bool)
        ensures
            b == (self.channel_type == ChannelType::Public),
    {
        match self.channel_type {
            ChannelType::Public => true,
            _ => false,
        }
    }
}

/// Unread information for a channel.
#[derive(Debug, Clone)]
pub struct ChannelUnread {
    /// Channel ID
    pub channel_id: String,
    /// Team/workspace ID (if applicable)
    pub team_id: Option<String>,
    /// Number of unread messages
    pub msg_count: i64,
    /// Number of unread mentions
    pub mention_count: i64,
    /// When the channel was last viewed (milliseconds since the Unix epoch)
    pub last_viewed_at: i64,
}

impl ChannelUnread {
    /// Unread information for `channel_id` with no team and zero counts and time.
    pub fn new(channel_id: &str) -> (u: Self)
        ensures
            u.channel_id@ == channel_id@,
            u.team_id is None,
            u.msg_count == 0,
            u.mention_count == 0,
            u.last_viewed_at == 0,
    {
        ChannelUnread {
            channel_id: owned(channel_id),
            team_id: None,
            msg_count: 0,
            mention_count: 0,
            last_viewed_at: 0,
        }
    }

    /// The same information with the given team.
    pub fn with_team(self, team_id: &str) -> (u: Self)
        ensures
            u.team_id matches Some(t) && t@ == team_id@,
            u == (ChannelUnread { team_id: u.team_id, ..self }),
    {
        let mut s = self;
        s.team_id = Some(owned(team_id));
        s
    }

    /// The same information with the given counts.
    pub fn with_counts(self, msg_count: i64, mention_count: i64) -> (u: Self)
        ensures
            u == (ChannelUnread { msg_count, mention_count, ..self }),
    {
        let mut s = self;
        s.msg_count = msg_count;
        s.mention_count = mention_count;
        s
    }

    /// The same information with the given last-viewed time.
    pub fn with_last_viewed(self, last_viewed_at: i64) -> (u: Self)
        ensures
            u == (ChannelUnread { last_viewed_at, ..self }),
    {
        let mut s = self;
        s.last_viewed_at = last_viewed_at;
        s
    }
}

} // verus!
