//! What it takes to connect to a platform, and the events a platform reports.

use vstd::prelude::*;
use crate::json::JsonValue;
use crate::string_map::StringMap;
use crate::text::owned;
use crate::types::channel::Channel;
use crate::types::connection::ConnectionState;
use crate::types::message::Message;
use crate::types::user::UserStatus;

verus! {

/// The settings for connecting to a platform.
#[derive(Debug, Clone)]
pub struct PlatformConfig {
    /// Server URL or endpoint
    pub server: String,
    /// Authentication credentials (e.g. a token, or a login ID and password)
    pub credentials: StringMap<String>,
    /// Team/workspace identifier, for platforms that have them
    pub team_id: Option<String>,
    /// Additional platform-specific settings
    pub extra: StringMap<String>,
}

impl PlatformConfig {
    /// Settings for the server `server`, with no credentials, team or extras.
    pub fn new(server: &str) -> (c: Self)
        ensures
            c.server@ == server@,
            c.credentials@ == Map::<Seq<char>, String>::empty(),
            c.team_id is None,
            c.extra@ == Map::<Seq<char>, String>::empty(),
    {
        PlatformConfig { server: owned(server), credentials: StringMap::new(), team_id: None, extra: StringMap::new() }
    }

    /// The same settings with the credential `key` set to `value`.
    pub fn with_credential(self, key: &str, value: &str) -> (c: Self)
        ensures
            c.server == self.server,
            c.credentials@ == self.credentials@.insert(key@, c.credentials@[key@]),
            c.credentials@[key@]@ == value@,
            c.team_id == self.team_id,
            c.extra@ == self.extra@,
    {
        let mut s = self;
        s.credentials.insert(owned(key), owned(value));
        s
    }

    /// The same settings with the team set.
    pub fn with_team(self, team_id: &str) -> (c: Self)
        ensures
            c.server == self.server,
            c.credentials@ == self.credentials@,
            c.team_id matches Some(t) && t@ == team_id@,
            c.extra@ == self.extra@,
    {
        let mut s = self;
        s.team_id = Some(owned(team_id));
        s
    }

    /// The same settings with the extra setting `key` set to `value`.
    pub fn with_extra(self, key: &str, value: &str) -> (c: Self)
        ensures
            c.server == self.server,
            c.credentials@ == self.credentials@,
            c.team_id == self.team_id,
            c.extra@ == self.extra@.insert(key@, c.extra@[key@]),
            c.extra@[key@]@ == value@,
    {
        let mut s = self;
        s.extra.insert(owned(key), owned(value));
        s
    }
}

/// An event reported by a platform.
#[derive(Debug, Clone)]
pub enum PlatformEvent {
    /// A new message was posted.
    MessagePosted(Message),
    /// A message was edited.
    MessageUpdated(Message),
    /// A message was deleted.
    MessageDeleted { message_id: String, channel_id: String },
    /// A user's status changed.
    UserStatusChanged { user_id: String, status: UserStatus },
    /// A user started typing.
    UserTyping { user_id: String, channel_id: String },
    /// A channel was created.
    ChannelCreated(Channel),
    /// A channel was updated.
    ChannelUpdated(Channel),
    /// A channel was deleted.
    ChannelDeleted { channel_id: String },
    /// A user joined a channel.
    UserJoinedChannel { user_id: String, channel_id: String },
    /// A user left a channel.
    UserLeftChannel { user_id: String, channel_id: String },
    /// The connection state changed.
    ConnectionStateChanged(ConnectionState),
    /// A reaction was added to a message.
    ReactionAdded { message_id: String, user_id: String, emoji_name: String, channel_id: String },
    /// A reaction was removed from a message.
    ReactionRemoved { message_id: String, user_id: String, emoji_name: String, channel_id: String },
    /// A direct-message channel was created.
    DirectChannelAdded { channel_id: String },
    /// A group-message channel was created.
    GroupChannelAdded { channel_id: String },
    /// A user preference changed.
    PreferenceChanged { category: String, name: String, value: String },
    /// A temporary message arrived (typically a bot's reply).
    EphemeralMessage { message: String, channel_id: String },
    /// A new user joined the team or server.
    UserAdded { user_id: String },
    /// A user's profile was updated.
    UserUpdated { user_id: String },
    /// A user's role was updated.
    UserRoleUpdated { user_id: String },
    /// A user viewed a channel.
    ChannelViewed { user_id: String, channel_id: String },
    /// A thread's metadata changed.
    ThreadUpdated { thread_id: String, channel_id: String },
    /// A thread's read state changed.
    ThreadReadChanged { thread_id: String, user_id: String, channel_id: String },
    /// A thread's follow state changed.
    ThreadFollowChanged { thread_id: String, user_id: String, channel_id: String, following: bool },
    /// A post was marked unread.
    PostUnread { post_id: String, channel_id: String, user_id: String },
    /// A custom emoji was added.
    EmojiAdded { emoji_id: String, emoji_name: String },
    /// A user was added to a team.
    AddedToTeam { team_id: String, user_id: String },
    /// A user left a team.
    LeftTeam { team_id: String, user_id: String },
    /// The server configuration changed.
    ConfigChanged,
    /// The server license changed.
    LicenseChanged,
    /// A channel was converted (e.g. public to private).
    ChannelConverted { channel_id: String },
    /// A channel membership was updated.
    ChannelMemberUpdated { channel_id: String, user_id: String },
    /// A team was deleted.
    TeamDeleted { team_id: String },
    /// A team was updated.
    TeamUpdated { team_id: String },
    /// A member's role in a channel was updated.
    MemberRoleUpdated { channel_id: String, user_id: String },
    /// A plugin was disabled.
    PluginDisabled { plugin_id: String },
    /// A plugin was enabled.
    PluginEnabled { plugin_id: String },
    /// Plugin statuses changed.
    PluginStatusesChanged,
    /// User preferences were deleted.
    PreferencesDeleted { category: String, name: String },
    /// The reply to a request sent over the WebSocket.
    Response { status: String, seq_reply: i64, error: Option<String> },
    /// A dialog was opened.
    DialogOpened { dialog_id: String },
    /// A role was updated.
    RoleUpdated { role_id: String },
}

/// The name each kind of event goes by when it is handed to callers.
pub open spec fn event_kind_name(e: PlatformEvent) -> Seq<char> {
    match e {
        PlatformEvent::MessagePosted(..) => "message_posted"@,
        PlatformEvent::MessageUpdated(..) => "message_updated"@,
        PlatformEvent::MessageDeleted { .. } => "message_deleted"@,
        PlatformEvent::UserStatusChanged { .. } => "user_status_changed"@,
        PlatformEvent::UserTyping { .. } => "user_typing"@,
        PlatformEvent::ChannelCreated(..) => "channel_created"@,
        PlatformEvent::ChannelUpdated(..) => "channel_updated"@,
        PlatformEvent::ChannelDeleted { .. } => "channel_deleted"@,
        PlatformEvent::UserJoinedChannel { .. } => "user_joined_channel"@,
        PlatformEvent::UserLeftChannel { .. } => "user_left_channel"@,
        PlatformEvent::ConnectionStateChanged(..) => "connection_state_changed"@,
        PlatformEvent::ReactionAdded { .. } => "reaction_added"@,
        PlatformEvent::ReactionRemoved { .. } => "reaction_removed"@,
        PlatformEvent::DirectChannelAdded { .. } => "direct_channel_added"@,
        PlatformEvent::GroupChannelAdded { .. } => "group_channel_added"@,
        PlatformEvent::PreferenceChanged { .. } => "preference_changed"@,
        PlatformEvent::EphemeralMessage { .. } => "ephemeral_message"@,
        PlatformEvent::UserAdded { .. } => "user_added"@,
        PlatformEvent::UserUpdated { .. } => "user_updated"@,
        PlatformEvent::UserRoleUpdated { .. } => "user_role_updated"@,
        PlatformEvent::ChannelViewed { .. } => "channel_viewed"@,
        PlatformEvent::ThreadUpdated { .. } => "thread_updated"@,
        PlatformEvent::ThreadReadChanged { .. } => "thread_read_changed"@,
        PlatformEvent::ThreadFollowChanged { .. } => "thread_follow_changed"@,
        PlatformEvent::PostUnread { .. } => "post_unread"@,
        PlatformEvent::EmojiAdded { .. } => "emoji_added"@,
        PlatformEvent::AddedToTeam { .. } => "added_to_team"@,
        PlatformEvent::LeftTeam { .. } => "left_team"@,
        PlatformEvent::ConfigChanged => "config_changed"@,
        PlatformEvent::LicenseChanged => "license_changed"@,
        PlatformEvent::ChannelConverted { .. } => "channel_converted"@,
        PlatformEvent::ChannelMemberUpdated { .. } => "channel_member_updated"@,
        PlatformEvent::TeamDeleted { .. } => "team_deleted"@,
        PlatformEvent::TeamUpdated { .. } => "team_updated"@,
        PlatformEvent::MemberRoleUpdated { .. } => "member_role_updated"@,
        PlatformEvent::PluginDisabled { .. } => "plugin_disabled"@,
        PlatformEvent::PluginEnabled { .. } => "plugin_enabled"@,
        PlatformEvent::PluginStatusesChanged => "plugin_statuses_changed"@,
        PlatformEvent::PreferencesDeleted { .. } => "preferences_deleted"@,
        PlatformEvent::Response { .. } => "response"@,
        PlatformEvent::DialogOpened { .. } => "dialog_opened"@,
        PlatformEvent::RoleUpdated { .. } => "role_updated"@,
    }
}

/// The position of an event's kind among the kinds, in declaration order.
pub open spec fn event_kind_index(e: PlatformEvent) -> int {
    match e {
        PlatformEvent::MessagePosted(..) => 0,
        PlatformEvent::MessageUpdated(..) => 1,
        PlatformEvent::MessageDeleted { .. } => 2,
        PlatformEvent::UserStatusChanged { .. } => 3,
        PlatformEvent::UserTyping { .. } => 4,
        PlatformEvent::ChannelCreated(..) => 5,
        PlatformEvent::ChannelUpdated(..) => 6,
        PlatformEvent::ChannelDeleted { .. } => 7,
        PlatformEvent::UserJoinedChannel { .. } => 8,
        PlatformEvent::UserLeftChannel { .. } => 9,
        PlatformEvent::ConnectionStateChanged(..) => 10,
        PlatformEvent::ReactionAdded { .. } => 11,
        PlatformEvent::ReactionRemoved { .. } => 12,
        PlatformEvent::DirectChannelAdded { .. } => 13,
        PlatformEvent::GroupChannelAdded { .. } => 14,
        PlatformEvent::PreferenceChanged { .. } => 15,
        PlatformEvent::EphemeralMessage { .. } => 16,
        PlatformEvent::UserAdded { .. } => 17,
        PlatformEvent::UserUpdated { .. } => 18,
        PlatformEvent::UserRoleUpdated { .. } => 19,
        PlatformEvent::ChannelViewed { .. } => 20,
        PlatformEvent::ThreadUpdated { .. } => 21,
        PlatformEvent::ThreadReadChanged { .. } => 22,
        PlatformEvent::ThreadFollowChanged { .. } => 23,
        PlatformEvent::PostUnread { .. } => 24,
        PlatformEvent::EmojiAdded { .. } => 25,
        PlatformEvent::AddedToTeam { .. } => 26,
        PlatformEvent::LeftTeam { .. } => 27,
        PlatformEvent::ConfigChanged => 28,
        PlatformEvent::LicenseChanged => 29,
        PlatformEvent::ChannelConverted { .. } => 30,
        PlatformEvent::ChannelMemberUpdated { .. } => 31,
        PlatformEvent::TeamDeleted { .. } => 32,
        PlatformEvent::TeamUpdated { .. } => 33,
        PlatformEvent::MemberRoleUpdated { .. } => 34,
        PlatformEvent::PluginDisabled { .. } => 35,
        PlatformEvent::PluginEnabled { .. } => 36,
        PlatformEvent::PluginStatusesChanged => 37,
        PlatformEvent::PreferencesDeleted { .. } => 38,
        PlatformEvent::Response { .. } => 39,
        PlatformEvent::DialogOpened { .. } => 40,
        PlatformEvent::RoleUpdated { .. } => 41,
    }
}

/// The position of the kind whose type name is `s`, or -1 for a name that
/// is no kind's.
pub open spec fn kind_index_of_name(s: Seq<char>) -> int {
    if s == "message_posted"@ {
        0
    } else if s == "message_updated"@ {
        1
    } else if s == "message_deleted"@ {
        2
    } else if s == "user_status_changed"@ {
        3
    } else if s == "user_typing"@ {
        4
    } else if s == "channel_created"@ {
        5
    } else if s == "channel_updated"@ {
        6
    } else if s == "channel_deleted"@ {
        7
    } else if s == "user_joined_channel"@ {
        8
    } else if s == "user_left_channel"@ {
        9
    } else if s == "connection_state_changed"@ {
        10
    } else if s == "reaction_added"@ {
        11
    } else if s == "reaction_removed"@ {
        12
    } else if s == "direct_channel_added"@ {
        13
    } else if s == "group_channel_added"@ {
        14
    } else if s == "preference_changed"@ {
        15
    } else if s == "ephemeral_message"@ {
        16
    } else if s == "user_added"@ {
        17
    } else if s == "user_updated"@ {
        18
    } else if s == "user_role_updated"@ {
        19
    } else if s == "channel_viewed"@ {
        20
    } else if s == "thread_updated"@ {
        21
    } else if s == "thread_read_changed"@ {
        22
    } else if s == "thread_follow_changed"@ {
        23
    } else if s == "post_unread"@ {
        24
    } else if s == "emoji_added"@ {
        25
    } else if s == "added_to_team"@ {
        26
    } else if s == "left_team"@ {
        27
    } else if s == "config_changed"@ {
        28
    } else if s == "license_changed"@ {
        29
    } else if s == "channel_converted"@ {
        30
    } else if s == "channel_member_updated"@ {
        31
    } else if s == "team_deleted"@ {
        32
    } else if s == "team_updated"@ {
        33
    } else if s == "member_role_updated"@ {
        34
    } else if s == "plugin_disabled"@ {
        35
    } else if s == "plugin_enabled"@ {
        36
    } else if s == "plugin_statuses_changed"@ {
        37
    } else if s == "preferences_deleted"@ {
        38
    } else if s == "response"@ {
        39
    } else if s == "dialog_opened"@ {
        40
    } else if s == "role_updated"@ {
        41
    } else {
        -1
    }
}

/// The length of each kind's type name, and the letters at which names of
/// one length part.
proof fn lemma_kind_name_letters()
    ensures
        "message_posted"@.len() == 14,
        "message_posted"@[3] == 's',
        "message_updated"@.len() == 15,
        "message_updated"@[9] == 'p',
        "message_updated"@[0] == 'm',
        "message_deleted"@.len() == 15,
        "message_deleted"@[9] == 'e',
        "message_deleted"@[0] == 'm',
        "user_status_changed"@.len() == 19,
        "user_status_changed"@[8] == 't',
        "user_typing"@.len() == 11,
        "user_typing"@[0] == 'u',
        "channel_created"@.len() == 15,
        "channel_created"@[9] == 'r',
        "channel_created"@[0] == 'c',
        "channel_updated"@.len() == 15,
        "channel_updated"@[9] == 'p',
        "channel_updated"@[0] == 'c',
        "channel_deleted"@.len() == 15,
        "channel_deleted"@[9] == 'e',
        "channel_deleted"@[0] == 'c',
        "user_joined_channel"@.len() == 19,
        "user_joined_channel"@[8] == 'n',
        "user_left_channel"@.len() == 17,
        "user_left_channel"@[6] == 'e',
        "connection_state_changed"@.len() == 24,
        "reaction_added"@.len() == 14,
        "reaction_added"@[3] == 'c',
        "reaction_removed"@.len() == 16,
        "direct_channel_added"@.len() == 20,
        "group_channel_added"@.len() == 19,
        "group_channel_added"@[8] == 'a',
        "preference_changed"@.len() == 18,
        "ephemeral_message"@.len() == 17,
        "ephemeral_message"@[6] == 'r',
        "user_added"@.len() == 10,
        "user_updated"@.len() == 12,
        "user_updated"@[0] == 'u',
        "user_updated"@[5] == 'u',
        "user_role_updated"@.len() == 17,
        "user_role_updated"@[6] == 'o',
        "channel_viewed"@.len() == 14,
        "channel_viewed"@[3] == 'n',
        "thread_updated"@.len() == 14,
        "thread_updated"@[3] == 'e',
        "thread_read_changed"@.len() == 19,
        "thread_read_changed"@[8] == 'e',
        "thread_follow_changed"@.len() == 21,
        "post_unread"@.len() == 11,
        "post_unread"@[0] == 'p',
        "emoji_added"@.len() == 11,
        "emoji_added"@[0] == 'e',
        "added_to_team"@.len() == 13,
        "added_to_team"@[0] == 'a',
        "left_team"@.len() == 9,
        "config_changed"@.len() == 14,
        "config_changed"@[3] == 'f',
        "license_changed"@.len() == 15,
        "license_changed"@[9] == 'h',
        "license_changed"@[0] == 'l',
        "channel_converted"@.len() == 17,
        "channel_converted"@[6] == 'l',
        "channel_member_updated"@.len() == 22,
        "team_deleted"@.len() == 12,
        "team_deleted"@[0] == 't',
        "team_deleted"@[5] == 'd',
        "team_updated"@.len() == 12,
        "team_updated"@[0] == 't',
        "team_updated"@[5] == 'u',
        "member_role_updated"@.len() == 19,
        "member_role_updated"@[8] == 'o',
        "plugin_disabled"@.len() == 15,
        "plugin_disabled"@[9] == 's',
        "plugin_disabled"@[0] == 'p',
        "plugin_enabled"@.len() == 14,
        "plugin_enabled"@[3] == 'g',
        "plugin_statuses_changed"@.len() == 23,
        "preferences_deleted"@.len() == 19,
        "preferences_deleted"@[8] == 'c',
        "response"@.len() == 8,
        "dialog_opened"@.len() == 13,
        "dialog_opened"@[0] == 'd',
        "role_updated"@.len() == 12,
        "role_updated"@[0] == 'r',
        "role_updated"@[5] == 'u',
{
    reveal_strlit("message_posted");
    reveal_strlit("message_updated");
    reveal_strlit("message_deleted");
    reveal_strlit("user_status_changed");
    reveal_strlit("user_typing");
    reveal_strlit("channel_created");
    reveal_strlit("channel_updated");
    reveal_strlit("channel_deleted");
    reveal_strlit("user_joined_channel");
    reveal_strlit("user_left_channel");
    reveal_strlit("connection_state_changed");
    reveal_strlit("reaction_added");
    reveal_strlit("reaction_removed");
    reveal_strlit("direct_channel_added");
    reveal_strlit("group_channel_added");
    reveal_strlit("preference_changed");
    reveal_strlit("ephemeral_message");
    reveal_strlit("user_added");
    reveal_strlit("user_updated");
    reveal_strlit("user_role_updated");
    reveal_strlit("channel_viewed");
    reveal_strlit("thread_updated");
    reveal_strlit("thread_read_changed");
    reveal_strlit("thread_follow_changed");
    reveal_strlit("post_unread");
    reveal_strlit("emoji_added");
    reveal_strlit("added_to_team");
    reveal_strlit("left_team");
    reveal_strlit("config_changed");
    reveal_strlit("license_changed");
    reveal_strlit("channel_converted");
    reveal_strlit("channel_member_updated");
    reveal_strlit("team_deleted");
    reveal_strlit("team_updated");
    reveal_strlit("member_role_updated");
    reveal_strlit("plugin_disabled");
    reveal_strlit("plugin_enabled");
    reveal_strlit("plugin_statuses_changed");
    reveal_strlit("preferences_deleted");
    reveal_strlit("response");
    reveal_strlit("dialog_opened");
    reveal_strlit("role_updated");
    assert("message_posted"@.len() == 14);
    assert("message_updated"@.len() == 15);
    assert("message_deleted"@.len() == 15);
    assert("user_status_changed"@.len() == 19);
    assert("user_typing"@.len() == 11);
    assert("channel_created"@.len() == 15);
    assert("channel_updated"@.len() == 15);
    assert("channel_deleted"@.len() == 15);
    assert("user_joined_channel"@.len() == 19);
    assert("user_left_channel"@.len() == 17);
    assert("connection_state_changed"@.len() == 24);
    assert("reaction_added"@.len() == 14);
    assert("reaction_removed"@.len() == 16);
    assert("direct_channel_added"@.len() == 20);
    assert("group_channel_added"@.len() == 19);
    assert("preference_changed"@.len() == 18);
    assert("ephemeral_message"@.len() == 17);
    assert("user_added"@.len() == 10);
    assert("user_updated"@.len() == 12);
    assert("user_role_updated"@.len() == 17);
    assert("channel_viewed"@.len() == 14);
    assert("thread_updated"@.len() == 14);
    assert("thread_read_changed"@.len() == 19);
    assert("thread_follow_changed"@.len() == 21);
    assert("post_unread"@.len() == 11);
    assert("emoji_added"@.len() == 11);
    assert("added_to_team"@.len() == 13);
    assert("left_team"@.len() == 9);
    assert("config_changed"@.len() == 14);
    assert("license_changed"@.len() == 15);
    assert("channel_converted"@.len() == 17);
    assert("channel_member_updated"@.len() == 22);
    assert("team_deleted"@.len() == 12);
    assert("team_updated"@.len() == 12);
    assert("member_role_updated"@.len() == 19);
    assert("plugin_disabled"@.len() == 15);
    assert("plugin_enabled"@.len() == 14);
    assert("plugin_statuses_changed"@.len() == 23);
    assert("preferences_deleted"@.len() == 19);
    assert("response"@.len() == 8);
    assert("dialog_opened"@.len() == 13);
    assert("role_updated"@.len() == 12);
}

/// Every event's type name reads back as its own kind ("reaction_added" as
/// `ReactionAdded`, and so on), so events of different kinds never share a
/// type name: a caller can tell the kind of an event from its "type" alone.
#[verifier::rlimit(100)]
#[verifier::spinoff_prover]
pub proof fn law_kind_names_tell_kinds_apart(e1: PlatformEvent, e2: PlatformEvent)
    ensures
        kind_index_of_name(event_kind_name(e1)) == event_kind_index(e1),
        event_kind_name(e1) == event_kind_name(e2) ==> event_kind_index(e1) == event_kind_index(e2),
{
    lemma_kind_name_letters();
}

impl PlatformEvent {
    /// The name this kind of event goes by when it is handed to callers.
    pub fn kind_name(&self) -> (s: &'static str)
        ensures
            s@ == event_kind_name(*self),
    {
        match self {
            PlatformEvent::MessagePosted(..) => "message_posted",
            PlatformEvent::MessageUpdated(..) => "message_updated",
            PlatformEvent::MessageDeleted { .. } => "message_deleted",
            PlatformEvent::UserStatusChanged { .. } => "user_status_changed",
            PlatformEvent::UserTyping { .. } => "user_typing",
            PlatformEvent::ChannelCreated(..) => "channel_created",
            PlatformEvent::ChannelUpdated(..) => "channel_updated",
            PlatformEvent::ChannelDeleted { .. } => "channel_deleted",
            PlatformEvent::UserJoinedChannel { .. } => "user_joined_channel",
            PlatformEvent::UserLeftChannel { .. } => "user_left_channel",
            PlatformEvent::ConnectionStateChanged(..) => "connection_state_changed",
            PlatformEvent::ReactionAdded { .. } => "reaction_added",
            PlatformEvent::ReactionRemoved { .. } => "reaction_removed",
            PlatformEvent::DirectChannelAdded { .. } => "direct_channel_added",
            PlatformEvent::GroupChannelAdded { .. } => "group_channel_added",
            PlatformEvent::PreferenceChanged { .. } => "preference_changed",
            PlatformEvent::EphemeralMessage { .. } => "ephemeral_message",
            PlatformEvent::UserAdded { .. } => "user_added",
            PlatformEvent::UserUpdated { .. } => "user_updated",
            PlatformEvent::UserRoleUpdated { .. } => "user_role_updated",
            PlatformEvent::ChannelViewed { .. } => "channel_viewed",
            PlatformEvent::ThreadUpdated { .. } => "thread_updated",
            PlatformEvent::ThreadReadChanged { .. } => "thread_read_changed",
            PlatformEvent::ThreadFollowChanged { .. } => "thread_follow_changed",
            PlatformEvent::PostUnread { .. } => "post_unread",
            PlatformEvent::EmojiAdded { .. } => "emoji_added",
            PlatformEvent::AddedToTeam { .. } => "added_to_team",
            PlatformEvent::LeftTeam { .. } => "left_team",
            PlatformEvent::ConfigChanged => "config_changed",
            PlatformEvent::LicenseChanged => "license_changed",
            PlatformEvent::ChannelConverted { .. } => "channel_converted",
            PlatformEvent::ChannelMemberUpdated { .. } => "channel_member_updated",
            PlatformEvent::TeamDeleted { .. } => "team_deleted",
            PlatformEvent::TeamUpdated { .. } => "team_updated",
            PlatformEvent::MemberRoleUpdated { .. } => "member_role_updated",
            PlatformEvent::PluginDisabled { .. } => "plugin_disabled",
            PlatformEvent::PluginEnabled { .. } => "plugin_enabled",
            PlatformEvent::PluginStatusesChanged => "plugin_statuses_changed",
            PlatformEvent::PreferencesDeleted { .. } => "preferences_deleted",
            PlatformEvent::Response { .. } => "response",
            PlatformEvent::DialogOpened { .. } => "dialog_opened",
            PlatformEvent::RoleUpdated { .. } => "role_updated",
        }
    }
}

/// The value a structured part of an event is written as, when one was given.
pub open spec fn payload_value(payload: Option<JsonValue>) -> JsonValue {
    match payload {
        Some(v) => v,
        None => JsonValue::Null,
    }
}

/// Entry `e` of a JSON object is `key` with value `v`.
pub open spec fn is_field(e: (String, JsonValue), key: Seq<char>, v: JsonValue) -> bool {
    e.0@ == key && e.1 == v
}

/// The fields `f` that the JSON object of event `e` holds after its kind:
/// each of the event's values under its own name, in declaration order; a
/// message, channel, user status or connection state is written as `payload`
/// (JSON null when there is none).
pub open spec fn event_fields(e: PlatformEvent, payload: Option<JsonValue>, f: Seq<(String, JsonValue)>) -> bool {
    match e {
        PlatformEvent::MessagePosted(..) => {
            f.len() == 1
            && is_field(f[0], "data"@, payload_value(payload))
        },
        PlatformEvent::MessageUpdated(..) => {
            f.len() == 1
            && is_field(f[0], "data"@, payload_value(payload))
        },
        PlatformEvent::MessageDeleted { message_id, channel_id } => {
            f.len() == 2
            && is_field(f[0], "message_id"@, JsonValue::Str(message_id))
            && is_field(f[1], "channel_id"@, JsonValue::Str(channel_id))
        },
        PlatformEvent::UserStatusChanged { user_id, .. } => {
            f.len() == 2
            && is_field(f[0], "user_id"@, JsonValue::Str(user_id))
            && is_field(f[1], "status"@, payload_value(payload))
        },
        PlatformEvent::UserTyping { user_id, channel_id } => {
            f.len() == 2
            && is_field(f[0], "user_id"@, JsonValue::Str(user_id))
            && is_field(f[1], "channel_id"@, JsonValue::Str(channel_id))
        },
        PlatformEvent::ChannelCreated(..) => {
            f.len() == 1
            && is_field(f[0], "data"@, payload_value(payload))
        },
        PlatformEvent::ChannelUpdated(..) => {
            f.len() == 1
            && is_field(f[0], "data"@, payload_value(payload))
        },
        PlatformEvent::ChannelDeleted { channel_id } => {
            f.len() == 1
            && is_field(f[0], "channel_id"@, JsonValue::Str(channel_id))
        },
        PlatformEvent::UserJoinedChannel { user_id, channel_id } => {
            f.len() == 2
            && is_field(f[0], "user_id"@, JsonValue::Str(user_id))
            && is_field(f[1], "channel_id"@, JsonValue::Str(channel_id))
        },
        PlatformEvent::UserLeftChannel { user_id, channel_id } => {
            f.len() == 2
            && is_field(f[0], "user_id"@, JsonValue::Str(user_id))
            && is_field(f[1], "channel_id"@, JsonValue::Str(channel_id))
        },
        PlatformEvent::ConnectionStateChanged(..) => {
            f.len() == 1
            && is_field(f[0], "state"@, payload_value(payload))
        },
        PlatformEvent::ReactionAdded { message_id, user_id, emoji_name, channel_id } => {
            f.len() == 4
            && is_field(f[0], "message_id"@, JsonValue::Str(message_id))
            && is_field(f[1], "user_id"@, JsonValue::Str(user_id))
            && is_field(f[2], "emoji_name"@, JsonValue::Str(emoji_name))
            && is_field(f[3], "channel_id"@, JsonValue::Str(channel_id))
        },
        PlatformEvent::ReactionRemoved { message_id, user_id, emoji_name, channel_id } => {
            f.len() == 4
            && is_field(f[0], "message_id"@, JsonValue::Str(message_id))
            && is_field(f[1], "user_id"@, JsonValue::Str(user_id))
            && is_field(f[2], "emoji_name"@, JsonValue::Str(emoji_name))
            && is_field(f[3], "channel_id"@, JsonValue::Str(channel_id))
        },
        PlatformEvent::DirectChannelAdded { channel_id } => {
            f.len() == 1
            && is_field(f[0], "channel_id"@, JsonValue::Str(channel_id))
        },
        PlatformEvent::GroupChannelAdded { channel_id } => {
            f.len() == 1
            && is_field(f[0], "channel_id"@, JsonValue::Str(channel_id))
        },
        PlatformEvent::PreferenceChanged { category, name, value } => {
            f.len() == 3
            && is_field(f[0], "category"@, JsonValue::Str(category))
            && is_field(f[1], "name"@, JsonValue::Str(name))
            && is_field(f[2], "value"@, JsonValue::Str(value))
        },
        PlatformEvent::EphemeralMessage { message, channel_id } => {
            f.len() == 2
            && is_field(f[0], "message"@, JsonValue::Str(message))
            && is_field(f[1], "channel_id"@, JsonValue::Str(channel_id))
        },
        PlatformEvent::UserAdded { user_id } => {
            f.len() == 1
            && is_field(f[0], "user_id"@, JsonValue::Str(user_id))
        },
        PlatformEvent::UserUpdated { user_id } => {
            f.len() == 1
            && is_field(f[0], "user_id"@, JsonValue::Str(user_id))
        },
        PlatformEvent::UserRoleUpdated { user_id } => {
            f.len() == 1
            && is_field(f[0], "user_id"@, JsonValue::Str(user_id))
        },
        PlatformEvent::ChannelViewed { user_id, channel_id } => {
            f.len() == 2
            && is_field(f[0], "user_id"@, JsonValue::Str(user_id))
            && is_field(f[1], "channel_id"@, JsonValue::Str(channel_id))
        },
        PlatformEvent::ThreadUpdated { thread_id, channel_id } => {
            f.len() == 2
            && is_field(f[0], "thread_id"@, JsonValue::Str(thread_id))
            && is_field(f[1], "channel_id"@, JsonValue::Str(channel_id))
        },
        PlatformEvent::ThreadReadChanged { thread_id, user_id, channel_id } => {
            f.len() == 3
            && is_field(f[0], "thread_id"@, JsonValue::Str(thread_id))
            && is_field(f[1], "user_id"@, JsonValue::Str(user_id))
            && is_field(f[2], "channel_id"@, JsonValue::Str(channel_id))
        },
        PlatformEvent::ThreadFollowChanged { thread_id, user_id, channel_id, following } => {
            f.len() == 4
            && is_field(f[0], "thread_id"@, JsonValue::Str(thread_id))
            && is_field(f[1], "user_id"@, JsonValue::Str(user_id))
            && is_field(f[2], "channel_id"@, JsonValue::Str(channel_id))
            && is_field(f[3], "following"@, JsonValue::Bool(following))
        },
        PlatformEvent::PostUnread { post_id, channel_id, user_id } => {
            f.len() == 3
            && is_field(f[0], "post_id"@, JsonValue::Str(post_id))
            && is_field(f[1], "channel_id"@, JsonValue::Str(channel_id))
            && is_field(f[2], "user_id"@, JsonValue::Str(user_id))
        },
        PlatformEvent::EmojiAdded { emoji_id, emoji_name } => {
            f.len() == 2
            && is_field(f[0], "emoji_id"@, JsonValue::Str(emoji_id))
            && is_field(f[1], "emoji_name"@, JsonValue::Str(emoji_name))
        },
        PlatformEvent::AddedToTeam { team_id, user_id } => {
            f.len() == 2
            && is_field(f[0], "team_id"@, JsonValue::Str(team_id))
            && is_field(f[1], "user_id"@, JsonValue::Str(user_id))
        },
        PlatformEvent::LeftTeam { team_id, user_id } => {
            f.len() == 2
            && is_field(f[0], "team_id"@, JsonValue::Str(team_id))
            && is_field(f[1], "user_id"@, JsonValue::Str(user_id))
        },
        PlatformEvent::ConfigChanged => {
            f.len() == 0
        },
        PlatformEvent::LicenseChanged => {
            f.len() == 0
        },
        PlatformEvent::ChannelConverted { channel_id } => {
            f.len() == 1
            && is_field(f[0], "channel_id"@, JsonValue::Str(channel_id))
        },
        PlatformEvent::ChannelMemberUpdated { channel_id, user_id } => {
            f.len() == 2
            && is_field(f[0], "channel_id"@, JsonValue::Str(channel_id))
            && is_field(f[1], "user_id"@, JsonValue::Str(user_id))
        },
        PlatformEvent::TeamDeleted { team_id } => {
            f.len() == 1
            && is_field(f[0], "team_id"@, JsonValue::Str(team_id))
        },
        PlatformEvent::TeamUpdated { team_id } => {
            f.len() == 1
            && is_field(f[0], "team_id"@, JsonValue::Str(team_id))
        },
        PlatformEvent::MemberRoleUpdated { channel_id, user_id } => {
            f.len() == 2
            && is_field(f[0], "channel_id"@, JsonValue::Str(channel_id))
            && is_field(f[1], "user_id"@, JsonValue::Str(user_id))
        },
        PlatformEvent::PluginDisabled { plugin_id } => {
            f.len() == 1
            && is_field(f[0], "plugin_id"@, JsonValue::Str(plugin_id))
        },
        PlatformEvent::PluginEnabled { plugin_id } => {
            f.len() == 1
            && is_field(f[0], "plugin_id"@, JsonValue::Str(plugin_id))
        },
        PlatformEvent::PluginStatusesChanged => {
            f.len() == 0
        },
        PlatformEvent::PreferencesDeleted { category, name } => {
            f.len() == 2
            && is_field(f[0], "category"@, JsonValue::Str(category))
            && is_field(f[1], "name"@, JsonValue::Str(name))
        },
        PlatformEvent::Response { status, seq_reply, error } => {
            f.len() == 3
            && is_field(f[0], "status"@, JsonValue::Str(status))
            && is_field(f[1], "seq_reply"@, JsonValue::Int(seq_reply))
            && is_field(f[2], "error"@, match error { Some(x) => JsonValue::Str(x), None => JsonValue::Null })
        },
        PlatformEvent::DialogOpened { dialog_id } => {
            f.len() == 1
            && is_field(f[0], "dialog_id"@, JsonValue::Str(dialog_id))
        },
        PlatformEvent::RoleUpdated { role_id } => {
            f.len() == 1
            && is_field(f[0], "role_id"@, JsonValue::Str(role_id))
        },
    }
}

/// `r` is the JSON object of event `e`: its kind under "type", then its fields.
pub open spec fn event_object(e: PlatformEvent, payload: Option<JsonValue>, r: JsonValue) -> bool {
    &&& r matches JsonValue::Object(entries)
    &&& entries@.len() >= 1
    &&& entries@[0].0@ == "type"@
    &&& entries@[0].1 matches JsonValue::Str(t) && t@ == event_kind_name(e)
    &&& event_fields(e, payload, entries@.drop_first())
}

/// The value a payload stands for: the payload, or JSON null.
fn payload_or_null(payload: Option<JsonValue>) -> (v: JsonValue)
    ensures
        v == payload_value(payload),
{
    match payload {
        Some(v) => v,
        None => JsonValue::Null,
    }
}

impl PlatformEvent {
    /// The JSON object a C caller receives for this event: its kind under
    /// "type", then each of its values under its own name. The message,
    /// channel, user status or connection state the event carries is written
    /// as `payload`, which the caller encodes.
    pub fn into_json_object(self, payload: Option<JsonValue>) -> (r: JsonValue)
        ensures
            event_object(self, payload, r),
    {
        let ghost e = self;
        let kind = self.kind_name();
        let mut out: Vec<(String, JsonValue)> = Vec::new();
        out.push((owned("type"), JsonValue::Str(owned(kind))));
        match self {
            PlatformEvent::MessagePosted(..) => {
                out.push((owned("data"), payload_or_null(payload)));
            },
            PlatformEvent::MessageUpdated(..) => {
                out.push((owned("data"), payload_or_null(payload)));
            },
            PlatformEvent::MessageDeleted { message_id, channel_id } => {
                out.push((owned("message_id"), JsonValue::Str(message_id)));
                out.push((owned("channel_id"), JsonValue::Str(channel_id)));
            },
            PlatformEvent::UserStatusChanged { user_id, .. } => {
                out.push((owned("user_id"), JsonValue::Str(user_id)));
                out.push((owned("status"), payload_or_null(payload)));
            },
            PlatformEvent::UserTyping { user_id, channel_id } => {
                out.push((owned("user_id"), JsonValue::Str(user_id)));
                out.push((owned("channel_id"), JsonValue::Str(channel_id)));
            },
            PlatformEvent::ChannelCreated(..) => {
                out.push((owned("data"), payload_or_null(payload)));
            },
            PlatformEvent::ChannelUpdated(..) => {
                out.push((owned("data"), payload_or_null(payload)));
            },
            PlatformEvent::ChannelDeleted { channel_id } => {
                out.push((owned("channel_id"), JsonValue::Str(channel_id)));
            },
            PlatformEvent::UserJoinedChannel { user_id, channel_id } => {
                out.push((owned("user_id"), JsonValue::Str(user_id)));
                out.push((owned("channel_id"), JsonValue::Str(channel_id)));
            },
            PlatformEvent::UserLeftChannel { user_id, channel_id } => {
                out.push((owned("user_id"), JsonValue::Str(user_id)));
                out.push((owned("channel_id"), JsonValue::Str(channel_id)));
            },
            PlatformEvent::ConnectionStateChanged(..) => {
                out.push((owned("state"), payload_or_null(payload)));
            },
            PlatformEvent::ReactionAdded { message_id, user_id, emoji_name, channel_id } => {
                out.push((owned("message_id"), JsonValue::Str(message_id)));
                out.push((owned("user_id"), JsonValue::Str(user_id)));
                out.push((owned("emoji_name"), JsonValue::Str(emoji_name)));
                out.push((owned("channel_id"), JsonValue::Str(channel_id)));
            },
            PlatformEvent::ReactionRemoved { message_id, user_id, emoji_name, channel_id } => {
                out.push((owned("message_id"), JsonValue::Str(message_id)));
                out.push((owned("user_id"), JsonValue::Str(user_id)));
                out.push((owned("emoji_name"), JsonValue::Str(emoji_name)));
                out.push((owned("channel_id"), JsonValue::Str(channel_id)));
            },
            PlatformEvent::DirectChannelAdded { channel_id } => {
                out.push((owned("channel_id"), JsonValue::Str(channel_id)));
            },
            PlatformEvent::GroupChannelAdded { channel_id } => {
                out.push((owned("channel_id"), JsonValue::Str(channel_id)));
            },
            PlatformEvent::PreferenceChanged { category, name, value } => {
                out.push((owned("category"), JsonValue::Str(category)));
                out.push((owned("name"), JsonValue::Str(name)));
                out.push((owned("value"), JsonValue::Str(value)));
            },
            PlatformEvent::EphemeralMessage { message, channel_id } => {
                out.push((owned("message"), JsonValue::Str(message)));
                out.push((owned("channel_id"), JsonValue::Str(channel_id)));
            },
            PlatformEvent::UserAdded { user_id } => {
                out.push((owned("user_id"), JsonValue::Str(user_id)));
            },
            PlatformEvent::UserUpdated { user_id } => {
                out.push((owned("user_id"), JsonValue::Str(user_id)));
            },
            PlatformEvent::UserRoleUpdated { user_id } => {
                out.push((owned("user_id"), JsonValue::Str(user_id)));
            },
            PlatformEvent::ChannelViewed { user_id, channel_id } => {
                out.push((owned("user_id"), JsonValue::Str(user_id)));
                out.push((owned("channel_id"), JsonValue::Str(channel_id)));
            },
            PlatformEvent::ThreadUpdated { thread_id, channel_id } => {
                out.push((owned("thread_id"), JsonValue::Str(thread_id)));
                out.push((owned("channel_id"), JsonValue::Str(channel_id)));
            },
            PlatformEvent::ThreadReadChanged { thread_id, user_id, channel_id } => {
                out.push((owned("thread_id"), JsonValue::Str(thread_id)));
                out.push((owned("user_id"), JsonValue::Str(user_id)));
                out.push((owned("channel_id"), JsonValue::Str(channel_id)));
            },
            PlatformEvent::ThreadFollowChanged { thread_id, user_id, channel_id, following } => {
                out.push((owned("thread_id"), JsonValue::Str(thread_id)));
                out.push((owned("user_id"), JsonValue::Str(user_id)));
                out.push((owned("channel_id"), JsonValue::Str(channel_id)));
                out.push((owned("following"), JsonValue::Bool(following)));
            },
            PlatformEvent::PostUnread { post_id, channel_id, user_id } => {
                out.push((owned("post_id"), JsonValue::Str(post_id)));
                out.push((owned("channel_id"), JsonValue::Str(channel_id)));
                out.push((owned("user_id"), JsonValue::Str(user_id)));
            },
            PlatformEvent::EmojiAdded { emoji_id, emoji_name } => {
                out.push((owned("emoji_id"), JsonValue::Str(emoji_id)));
                out.push((owned("emoji_name"), JsonValue::Str(emoji_name)));
            },
            PlatformEvent::AddedToTeam { team_id, user_id } => {
                out.push((owned("team_id"), JsonValue::Str(team_id)));
                out.push((owned("user_id"), JsonValue::Str(user_id)));
            },
            PlatformEvent::LeftTeam { team_id, user_id } => {
                out.push((owned("team_id"), JsonValue::Str(team_id)));
                out.push((owned("user_id"), JsonValue::Str(user_id)));
            },
            PlatformEvent::ConfigChanged => {
                {}
            },
            PlatformEvent::LicenseChanged => {
                {}
            },
            PlatformEvent::ChannelConverted { channel_id } => {
                out.push((owned("channel_id"), JsonValue::Str(channel_id)));
            },
            PlatformEvent::ChannelMemberUpdated { channel_id, user_id } => {
                out.push((owned("channel_id"), JsonValue::Str(channel_id)));
                out.push((owned("user_id"), JsonValue::Str(user_id)));
            },
            PlatformEvent::TeamDeleted { team_id } => {
                out.push((owned("team_id"), JsonValue::Str(team_id)));
            },
            PlatformEvent::TeamUpdated { team_id } => {
                out.push((owned("team_id"), JsonValue::Str(team_id)));
            },
            PlatformEvent::MemberRoleUpdated { channel_id, user_id } => {
                out.push((owned("channel_id"), JsonValue::Str(channel_id)));
                out.push((owned("user_id"), JsonValue::Str(user_id)));
            },
            PlatformEvent::PluginDisabled { plugin_id } => {
                out.push((owned("plugin_id"), JsonValue::Str(plugin_id)));
            },
            PlatformEvent::PluginEnabled { plugin_id } => {
                out.push((owned("plugin_id"), JsonValue::Str(plugin_id)));
            },
            PlatformEvent::PluginStatusesChanged => {
                {}
            },
            PlatformEvent::PreferencesDeleted { category, name } => {
                out.push((owned("category"), JsonValue::Str(category)));
                out.push((owned("name"), JsonValue::Str(name)));
            },
            PlatformEvent::Response { status, seq_reply, error } => {
                out.push((owned("status"), JsonValue::Str(status)));
                out.push((owned("seq_reply"), JsonValue::Int(seq_reply)));
                out.push((owned("error"), match error { Some(x) => JsonValue::Str(x), None => JsonValue::Null }));
            },
            PlatformEvent::DialogOpened { dialog_id } => {
                out.push((owned("dialog_id"), JsonValue::Str(dialog_id)));
            },
            PlatformEvent::RoleUpdated { role_id } => {
                out.push((owned("role_id"), JsonValue::Str(role_id)));
            },
        }
        proof {
            assert(out@.drop_first().len() == out@.len() - 1);
        }
        JsonValue::Object(out)
    }
}


} // verus!
