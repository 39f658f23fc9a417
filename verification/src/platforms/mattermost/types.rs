//! Mattermost's wire types, as plain data, and their small helpers.

use vstd::prelude::*;
use crate::json::{copy_entries, copy_values, same_entries, same_values, JsonValue};
use crate::string_map::StringMap;
use crate::text::{copy_string_pairs, copy_strings, owned};

verus! {

/// Mattermost channel type.
#[derive(Debug, Clone, Copy, PartialEq, Eq, Structural)]
pub enum MattermostChannelType {
    /// Open/Public channel - "O"
    Open,
    /// Private channel - "P"
    Private,
    /// Direct message channel - "D"
    Direct,
    /// Group message channel - "G"
    Group,
}

/// The one-letter code of each channel type.
pub open spec fn channel_type_code(t: MattermostChannelType) -> Seq<char> {
    match t {
        MattermostChannelType::Open => "O"@,
        MattermostChannelType::Private => "P"@,
        MattermostChannelType::Direct => "D"@,
        MattermostChannelType::Group => "G"@,
    }
}

impl MattermostChannelType {
    /// The one-letter code of this channel type.
    pub fn as_str(&self) -> (s: &'static str)
        ensures
            s@ == channel_type_code(*self),
    {
        match self {
            MattermostChannelType::Open => "O",
            MattermostChannelType::Private => "P",
            MattermostChannelType::Direct => "D",
            MattermostChannelType::Group => "G",
        }
    }

    /// Whether this is a direct message (1-on-1) channel.
    pub fn is_direct(&self) -> (b: bool)
        ensures
            b == (*self == MattermostChannelType::Direct),
    {
        match self {
            MattermostChannelType::Direct => true,
            _ => false,
        }
    }

    /// Whether this is a group message channel.
    pub fn is_group(&self) -> (b: bool)
        ensures
            b == (*self == MattermostChannelType::Group),
    {
        match self {
            MattermostChannelType::Group => true,
            _ => false,
        }
    }

    /// Whether this is a public channel.
    pub fn is_public(&self) -> (b: bool)
        ensures
            b == (*self == MattermostChannelType::Open),
    {
        match self {
            MattermostChannelType::Open => true,
            _ => false,
        }
    }

    /// Whether this is a private channel.
    pub fn is_private(&self) -> (b: bool)
        ensures
            b == (*self == MattermostChannelType::Private),
    {
        match self {
            MattermostChannelType::Private => true,
            _ => false,
        }
    }
}

/// Mattermost User object.
#[derive(Debug)]
pub struct MattermostUser {
    pub id: String,
    pub username: String,
    pub email: String,
    pub first_name: String,
    pub last_name: String,
    pub nickname: String,
    pub position: String,
    pub roles: String,
    pub locale: String,
    pub timezone: Vec<(String, String)>,
    pub props: Vec<(String, JsonValue)>,
    pub is_bot: bool,
    pub create_at: i64,
    pub update_at: i64,
    pub delete_at: i64,
}

/// Mattermost Channel object.
#[derive(Debug)]
pub struct MattermostChannel {
    pub id: String,
    pub create_at: i64,
    pub update_at: i64,
    pub delete_at: i64,
    pub team_id: String,
    pub channel_type: MattermostChannelType,
    pub display_name: String,
    pub name: String,
    pub header: String,
    pub purpose: String,
    pub last_post_at: i64,
    pub total_msg_count: i64,
    pub creator_id: String,
}

/// Mattermost Post (message) object.
#[derive(Debug)]
pub struct MattermostPost {
    pub id: String,
    pub create_at: i64,
    pub update_at: i64,
    pub delete_at: i64,
    pub edit_at: i64,
    pub user_id: String,
    pub channel_id: String,
    pub root_id: String,
    pub parent_id: String,
    pub original_id: String,
    pub message: String,
    pub post_type: String,
    pub props: Vec<(String, JsonValue)>,
    pub hashtags: String,
    pub file_ids: Vec<String>,
    pub pending_post_id: String,
    pub metadata: PostMetadata,
}

/// Metadata for a Mattermost Post.
#[derive(Debug)]
pub struct PostMetadata {
    pub embeds: Vec<JsonValue>,
    pub emojis: Vec<JsonValue>,
    pub files: Vec<FileInfo>,
    pub images: Vec<(String, JsonValue)>,
    pub reactions: Vec<JsonValue>,
}

impl Default for PostMetadata {
    /// Metadata with nothing in it.
    fn default() -> (m: Self)
        ensures
            m.embeds@.len() == 0,
            m.emojis@.len() == 0,
            m.files@.len() == 0,
            m.images@.len() == 0,
            m.reactions@.len() == 0,
    {
        PostMetadata {
            embeds: Vec::new(),
            emojis: Vec::new(),
            files: Vec::new(),
            images: Vec::new(),
            reactions: Vec::new(),
        }
    }
}

/// Mattermost File information.
#[derive(Debug, Clone)]
pub struct FileInfo {
    pub id: String,
    pub user_id: String,
    pub post_id: String,
    pub create_at: i64,
    pub update_at: i64,
    pub delete_at: i64,
    pub name: String,
    pub extension: String,
    pub size: i64,
    pub mime_type: String,
    pub width: i32,
    pub height: i32,
    pub has_preview_image: bool,
}

impl MattermostChannel {
    /// An equal copy of this channel.
    pub fn duplicate(&self) -> (r: MattermostChannel)
        ensures
            r == *self,
    {
        MattermostChannel {
            id: self.id.clone(),
            create_at: self.create_at,
            update_at: self.update_at,
            delete_at: self.delete_at,
            team_id: self.team_id.clone(),
            channel_type: self.channel_type,
            display_name: self.display_name.clone(),
            name: self.name.clone(),
            header: self.header.clone(),
            purpose: self.purpose.clone(),
            last_post_at: self.last_post_at,
            total_msg_count: self.total_msg_count,
            creator_id: self.creator_id.clone(),
        }
    }
}

impl FileInfo {
    /// A copy of this file information.
    pub fn duplicate(&self) -> (r: FileInfo)
        ensures
            r == *self,
    {
        FileInfo {
            id: self.id.clone(),
            user_id: self.user_id.clone(),
            post_id: self.post_id.clone(),
            create_at: self.create_at,
            update_at: self.update_at,
            delete_at: self.delete_at,
            name: self.name.clone(),
            extension: self.extension.clone(),
            size: self.size,
            mime_type: self.mime_type.clone(),
            width: self.width,
            height: self.height,
            has_preview_image: self.has_preview_image,
        }
    }
}

/// `b` is a copy of user `a`: the same fields, the time zone entries the
/// same, and the same properties (see [`same_entries`]).
pub open spec fn user_copy(a: MattermostUser, b: MattermostUser) -> bool {
    &&& b.id == a.id
    &&& b.username == a.username
    &&& b.email == a.email
    &&& b.first_name == a.first_name
    &&& b.last_name == a.last_name
    &&& b.nickname == a.nickname
    &&& b.position == a.position
    &&& b.roles == a.roles
    &&& b.locale == a.locale
    &&& b.timezone@ == a.timezone@
    &&& same_entries(a.props@, b.props@)
    &&& b.is_bot == a.is_bot
    &&& b.create_at == a.create_at
    &&& b.update_at == a.update_at
    &&& b.delete_at == a.delete_at
}

impl Clone for MattermostUser {
    /// A copy of the user: see [`user_copy`].
    fn clone(&self) -> (r: Self)
        ensures
            user_copy(*self, r),
    {
        MattermostUser {
            id: self.id.clone(),
            username: self.username.clone(),
            email: self.email.clone(),
            first_name: self.first_name.clone(),
            last_name: self.last_name.clone(),
            nickname: self.nickname.clone(),
            position: self.position.clone(),
            roles: self.roles.clone(),
            locale: self.locale.clone(),
            timezone: copy_string_pairs(&self.timezone),
            props: copy_entries(&self.props),
            is_bot: self.is_bot,
            create_at: self.create_at,
            update_at: self.update_at,
            delete_at: self.delete_at,
        }
    }
}

impl Clone for MattermostChannel {
    /// An equal copy of the channel.
    fn clone(&self) -> (r: Self)
        ensures
            r == *self,
    {
        self.duplicate()
    }
}

impl Clone for MattermostTeam {
    /// An equal copy of the team.
    fn clone(&self) -> (r: Self)
        ensures
            r == *self,
    {
        MattermostTeam {
            id: self.id.clone(),
            create_at: self.create_at,
            update_at: self.update_at,
            delete_at: self.delete_at,
            display_name: self.display_name.clone(),
            name: self.name.clone(),
            description: self.description.clone(),
            email: self.email.clone(),
            team_type: self.team_type.clone(),
            company_name: self.company_name.clone(),
            allowed_domains: self.allowed_domains.clone(),
            invite_id: self.invite_id.clone(),
            allow_open_invite: self.allow_open_invite,
        }
    }
}

/// A copy of a list of file information.
pub fn copy_files(v: &Vec<FileInfo>) -> (r: Vec<FileInfo>)
    ensures
        r@ == v@,
{
    let mut r: Vec<FileInfo> = Vec::new();
    let mut i: usize = 0;
    while i < v.len()
        invariant
            i <= v@.len(),
            r@ == v@.subrange(0, i as int),
        decreases v.len() - i,
    {
        r.push(v[i].duplicate());
        assert(r@ =~= v@.subrange(0, i + 1));
        i = i + 1;
    }
    assert(v@.subrange(0, v@.len() as int) =~= v@);
    r
}

/// `b` is a copy of post metadata `a`: the same embeds, emojis, images and
/// reactions as JSON, and the same files.
pub open spec fn metadata_copy(a: PostMetadata, b: PostMetadata) -> bool {
    &&& same_values(a.embeds@, b.embeds@)
    &&& same_values(a.emojis@, b.emojis@)
    &&& b.files@ == a.files@
    &&& same_entries(a.images@, b.images@)
    &&& same_values(a.reactions@, b.reactions@)
}

impl Clone for PostMetadata {
    /// A copy of the metadata: see [`metadata_copy`].
    fn clone(&self) -> (r: Self)
        ensures
            metadata_copy(*self, r),
    {
        PostMetadata {
            embeds: copy_values(&self.embeds),
            emojis: copy_values(&self.emojis),
            files: copy_files(&self.files),
            images: copy_entries(&self.images),
            reactions: copy_values(&self.reactions),
        }
    }
}

/// `b` is a copy of post `a`: the same fields, the same properties and file
/// IDs, and a copy of the metadata.
pub open spec fn post_copy(a: MattermostPost, b: MattermostPost) -> bool {
    &&& b.id == a.id
    &&& b.create_at == a.create_at
    &&& b.update_at == a.update_at
    &&& b.delete_at == a.delete_at
    &&& b.edit_at == a.edit_at
    &&& b.user_id == a.user_id
    &&& b.channel_id == a.channel_id
    &&& b.root_id == a.root_id
    &&& b.parent_id == a.parent_id
    &&& b.original_id == a.original_id
    &&& b.message == a.message
    &&& b.post_type == a.post_type
    &&& same_entries(a.props@, b.props@)
    &&& b.hashtags == a.hashtags
    &&& b.file_ids@ == a.file_ids@
    &&& b.pending_post_id == a.pending_post_id
    &&& metadata_copy(a.metadata, b.metadata)
}

impl Clone for MattermostPost {
    /// A copy of the post: see [`post_copy`].
    fn clone(&self) -> (r: Self)
        ensures
            post_copy(*self, r),
    {
        MattermostPost {
            id: self.id.clone(),
            create_at: self.create_at,
            update_at: self.update_at,
            delete_at: self.delete_at,
            edit_at: self.edit_at,
            user_id: self.user_id.clone(),
            channel_id: self.channel_id.clone(),
            root_id: self.root_id.clone(),
            parent_id: self.parent_id.clone(),
            original_id: self.original_id.clone(),
            message: self.message.clone(),
            post_type: self.post_type.clone(),
            props: copy_entries(&self.props),
            hashtags: self.hashtags.clone(),
            file_ids: copy_strings(&self.file_ids),
            pending_post_id: self.pending_post_id.clone(),
            metadata: self.metadata.clone(),
        }
    }
}

/// Mattermost Reaction object.
#[derive(Debug, Clone)]
pub struct Reaction {
    pub user_id: String,
    pub post_id: String,
    pub emoji_name: String,
    pub create_at: i64,
}

/// Request to save a reaction.
#[derive(Debug, Clone)]
pub struct SaveReactionRequest {
    pub user_id: String,
    pub post_id: String,
    pub emoji_name: String,
}

/// Mattermost Team (workspace) object.
#[derive(Debug)]
pub struct MattermostTeam {
    pub id: String,
    pub create_at: i64,
    pub update_at: i64,
    pub delete_at: i64,
    pub display_name: String,
    pub name: String,
    pub description: String,
    pub email: String,
    /// "O" (open) or "I" (invite only)
    pub team_type: String,
    pub company_name: String,
    pub allowed_domains: String,
    pub invite_id: String,
    pub allow_open_invite: bool,
}

/// Login request payload.
#[derive(Debug, Clone)]
pub struct LoginRequest {
    pub login_id: String,
    pub password: String,
    /// MFA token (6-digit code from an authenticator app)
    pub token: Option<String>,
    /// Device ID for tracking login devices
    pub device_id: Option<String>,
}

/// Channel creation request for direct messages.
#[derive(Debug, Clone)]
pub struct CreateDirectChannelRequest {
    pub user_ids: Vec<String>,
}

/// Channel creation request for group messages.
#[derive(Debug, Clone)]
pub struct CreateGroupChannelRequest {
    pub user_ids: Vec<String>,
}

/// Post creation request.
#[derive(Debug, Clone)]
pub struct CreatePostRequest {
    pub channel_id: String,
    pub message: String,
    pub root_id: Option<String>,
    pub file_ids: Option<Vec<String>>,
    pub props: Option<Vec<(String, JsonValue)>>,
}

impl CreatePostRequest {
    /// A post request with just a channel and a message.
    pub fn new(channel_id: String, message: String) -> (r: Self)
        ensures
            r == (CreatePostRequest { channel_id, message, root_id: None, file_ids: None, props: None }),
    {
        CreatePostRequest { channel_id, message, root_id: None, file_ids: None, props: None }
    }

    /// The same request, as a reply to the post `root_id`.
    pub fn with_root_id(self, root_id: String) -> (r: Self)
        ensures
            r == (CreatePostRequest { root_id: Some(root_id), ..self }),
    {
        let mut s = self;
        s.root_id = Some(root_id);
        s
    }

    /// The same request with the given attached files.
    pub fn with_files(self, file_ids: Vec<String>) -> (r: Self)
        ensures
            r == (CreatePostRequest { file_ids: Some(file_ids), ..self }),
    {
        let mut s = self;
        s.file_ids = Some(file_ids);
        s
    }

    /// The same request with the given custom properties.
    pub fn with_props(self, props: Vec<(String, JsonValue)>) -> (r: Self)
        ensures
            r == (CreatePostRequest { props: Some(props), ..self }),
    {
        let mut s = self;
        s.props = Some(props);
        s
    }
}

/// A list of posts: their IDs in order, and the posts by ID.
pub struct PostList {
    pub order: Vec<String>,
    pub posts: StringMap<MattermostPost>,
    pub next_post_id: String,
    pub prev_post_id: String,
}

/// Channel member object.
#[derive(Debug, Clone)]
pub struct ChannelMember {
    pub channel_id: String,
    pub user_id: String,
    pub roles: String,
    pub last_viewed_at: i64,
    pub msg_count: i64,
    pub mention_count: i64,
    pub notify_props: Vec<(String, String)>,
    pub last_update_at: i64,
}

/// Request to mark a channel as viewed (read).
#[derive(Debug, Clone)]
pub struct ChannelViewRequest {
    pub channel_id: String,
    pub prev_channel_id: Option<String>,
}

impl ChannelViewRequest {
    /// A request to view `channel_id`, with no previous channel.
    pub fn new(channel_id: String) -> (r: Self)
        ensures
            r == (ChannelViewRequest { channel_id, prev_channel_id: None }),
    {
        ChannelViewRequest { channel_id, prev_channel_id: None }
    }

    /// The same request, recording the channel the user switched from.
    pub fn with_prev_channel(self, prev_channel_id: String) -> (r: Self)
        ensures
            r == (ChannelViewRequest { prev_channel_id: Some(prev_channel_id), ..self }),
    {
        let mut s = self;
        s.prev_channel_id = Some(prev_channel_id);
        s
    }
}

/// Unread information for a single channel.
#[derive(Debug, Clone)]
pub struct ChannelUnreadInfo {
    /// Team ID the channel belongs to
    pub team_id: String,
    /// Channel ID
    pub channel_id: String,
    /// Number of unread messages
    pub msg_count: i64,
    /// Number of unread mentions
    pub mention_count: i64,
    /// When the channel was last viewed
    pub last_viewed_at: i64,
}

/// Unread counts for a team.
#[derive(Debug, Clone)]
pub struct TeamUnread {
    /// Team ID
    pub team_id: String,
    /// Total unread message count across all channels in the team
    pub msg_count: i64,
    /// Total unread mention count across all channels in the team
    pub mention_count: i64,
}

/// Response from viewing a channel.
#[derive(Debug, Clone)]
pub struct ChannelViewResponse {
    pub status: String,
    pub last_viewed_at_times: Vec<(String, i64)>,
}

/// WebSocket event from Mattermost.
#[derive(Debug)]
pub struct WebSocketEvent {
    pub event: String,
    pub data: Vec<(String, JsonValue)>,
    pub broadcast: WebSocketBroadcast,
    pub seq: i64,
}

/// WebSocket broadcast information.
#[derive(Debug, Clone)]
pub struct WebSocketBroadcast {
    pub omit_users: Option<Vec<(String, bool)>>,
    pub user_id: String,
    pub channel_id: String,
    pub team_id: String,
    pub connection_id: String,
    pub omit_connection_id: String,
}

impl Default for WebSocketBroadcast {
    /// A broadcast addressed to nobody in particular: every field empty.
    fn default() -> (b: Self)
        ensures
            b.omit_users is None,
            b.user_id@.len() == 0,
            b.channel_id@.len() == 0,
            b.team_id@.len() == 0,
            b.connection_id@.len() == 0,
            b.omit_connection_id@.len() == 0,
    {
        WebSocketBroadcast {
            omit_users: None,
            user_id: String::new(),
            channel_id: String::new(),
            team_id: String::new(),
            connection_id: String::new(),
            omit_connection_id: String::new(),
        }
    }
}

/// WebSocket authentication challenge.
#[derive(Debug, Clone)]
pub struct WebSocketAuthChallenge {
    pub seq: i64,
    pub action: String,
    pub data: WebSocketAuthData,
}

/// The token sent in a WebSocket authentication challenge.
#[derive(Debug, Clone)]
pub struct WebSocketAuthData {
    pub token: String,
}

/// WebSocket authentication response.
#[derive(Debug, Clone)]
pub struct WebSocketAuthResponse {
    pub status: String,
    pub seq_reply: i64,
}

/// Status object for user presence.
#[derive(Debug, Clone)]
pub struct Status {
    pub user_id: String,
    /// "online", "away", "dnd" or "offline"
    pub status: String,
    pub manual: bool,
    pub last_activity_at: i64,
}

/// User status response from the Mattermost API.
#[derive(Debug, Clone)]
pub struct MattermostStatus {
    pub user_id: String,
    /// "online", "away", "dnd" or "offline"
    pub status: String,
    pub manual: bool,
    pub last_activity_at: i64,
}

/// Custom status for a user.
#[derive(Debug, Clone)]
pub struct CustomStatus {
    pub emoji: Option<String>,
    pub text: Option<String>,
    /// Duration like "thirty_minutes", "one_hour", "today", "this_week"
    pub duration: Option<String>,
    /// RFC 3339 timestamp
    pub expires_at: Option<String>,
}

/// Request to set user status.
#[derive(Debug, Clone)]
pub struct SetStatusRequest {
    pub user_id: String,
    /// "online", "away", "dnd" or "offline"
    pub status: String,
}

/// Request to get statuses for multiple users.
#[derive(Debug, Clone)]
pub struct GetStatusesByIdsRequest {
    pub user_ids: Vec<String>,
}

/// Mattermost custom emoji object.
#[derive(Debug, Clone)]
pub struct MattermostEmoji {
    /// The ID of the emoji
    pub id: String,
    /// The ID of the user that created the emoji
    pub creator_id: String,
    /// The name of the emoji
    pub name: String,
    /// When the emoji was created (milliseconds)
    pub create_at: i64,
    /// When the emoji was last updated (milliseconds)
    pub update_at: i64,
    /// When the emoji was deleted (0 if not deleted)
    pub delete_at: i64,
}

/// Mattermost error response structure.
#[derive(Debug, Clone)]
pub struct MattermostErrorResponse {
    /// Error identifier (e.g., "api.user.login.invalid_credentials")
    pub id: String,
    /// Human-readable error message
    pub message: String,
    /// Request ID for debugging with server logs
    pub request_id: String,
    /// HTTP status code
    pub status_code: i32,
    /// OAuth-specific error flag
    pub is_oauth: bool,
}

/// A thread the user follows.
#[derive(Debug, Clone)]
pub struct UserThread {
    /// ID of the post that is this thread's root
    pub id: String,
    /// Number of replies in this thread
    pub reply_count: i64,
    /// Timestamp of the last post to this thread
    pub last_reply_at: i64,
    /// Timestamp of the last time the user viewed this thread
    pub last_viewed_at: i64,
    /// Users participating in this thread
    pub participants: Vec<JsonValue>,
    /// The root post of the thread
    pub post: MattermostPost,
    /// Number of unread replies
    pub unread_replies: i64,
    /// Number of unread mentions
    pub unread_mentions: i64,
}

/// A page of followed threads.
#[derive(Debug, Clone)]
pub struct UserThreads {
    pub total: i64,
    pub total_unread_threads: i64,
    pub total_unread_mentions: i64,
    pub threads: Vec<UserThread>,
}

/// Response for thread read/follow operations.
#[derive(Debug, Clone)]
pub struct ThreadResponse {
    pub status: String,
}

/// Notification level for channels.
#[derive(Debug, Clone, Copy, PartialEq, Eq, Structural)]
pub enum NotificationLevel {
    /// Notify for all messages
    All,
    /// Notify only for mentions
    Mention,
    /// No notifications (wire name "none")
    Off,
}

/// The wire name of each notification level.
pub open spec fn notification_level_text(l: NotificationLevel) -> Seq<char> {
    match l {
        NotificationLevel::All => "all"@,
        NotificationLevel::Mention => "mention"@,
        NotificationLevel::Off => "none"@,
    }
}

impl NotificationLevel {
    /// The wire name of this level.
    pub fn as_str(&self) -> (s: &'static str)
        ensures
            s@ == notification_level_text(*self),
    {
        match self {
            NotificationLevel::All => "all",
            NotificationLevel::Mention => "mention",
            NotificationLevel::Off => "none",
        }
    }
}

/// A single preference setting of a user.
#[derive(Debug, Clone)]
pub struct UserPreference {
    /// User ID this preference belongs to
    pub user_id: String,
    /// Preference category (e.g., "display_settings", "notifications")
    pub category: String,
    /// Preference name within the category
    pub name: String,
    /// Preference value as a string
    pub value: String,
}

impl UserPreference {
    /// A preference with the given fields.
    pub fn new(user_id: String, category: String, name: String, value: String) -> (p: Self)
        ensures
            p == (UserPreference { user_id, category, name, value }),
    {
        UserPreference { user_id, category, name, value }
    }
}

/// Channel notification properties.
#[derive(Debug, Clone)]
pub struct ChannelNotifyProps {
    /// Desktop notification level
    pub desktop: Option<String>,
    /// Mobile push notification level
    pub push: Option<String>,
    /// Email notification setting
    pub email: Option<String>,
    /// Mark channel as unread
    pub mark_unread: Option<String>,
    /// Ignore channel mentions (mute)
    pub ignore_channel_mentions: Option<String>,
}

/// The five notification settings, each as optional text, in declaration order.
pub open spec fn notify_settings(p: ChannelNotifyProps) -> Seq<Option<Seq<char>>> {
    seq![
        crate::error::opt_view(p.desktop),
        crate::error::opt_view(p.push),
        crate::error::opt_view(p.email),
        crate::error::opt_view(p.mark_unread),
        crate::error::opt_view(p.ignore_channel_mentions),
    ]
}

impl ChannelNotifyProps {
    /// Properties with every setting absent.
    pub fn new() -> (p: Self)
        ensures
            notify_settings(p) == seq![None::<Seq<char>>, None, None, None, None],
    {
        ChannelNotifyProps { desktop: None, push: None, email: None, mark_unread: None, ignore_channel_mentions: None }
    }

    /// A muted channel: no desktop or push notifications, no email, unread only
    /// on mention, channel mentions ignored.
    pub fn muted() -> (p: Self)
        ensures
            notify_settings(p) == seq![Some("none"@), Some("none"@), Some("false"@), Some("mention"@), Some("on"@)],
    {
        ChannelNotifyProps {
            desktop: Some(owned("none")),
            push: Some(owned("none")),
            email: Some(owned("false")),
            mark_unread: Some(owned("mention")),
            ignore_channel_mentions: Some(owned("on")),
        }
    }

    /// An unmuted channel: default notifications, unread on every message,
    /// channel mentions honoured.
    pub fn unmuted() -> (p: Self)
        ensures
            notify_settings(p) == seq![Some("default"@), Some("default"@), Some("default"@), Some("all"@), Some("off"@)],
    {
        ChannelNotifyProps {
            desktop: Some(owned("default")),
            push: Some(owned("default")),
            email: Some(owned("default")),
            mark_unread: Some(owned("all")),
            ignore_channel_mentions: Some(owned("off")),
        }
    }

    /// The same properties with the given desktop level.
    pub fn with_desktop(self, level: NotificationLevel) -> (p: Self)
        ensures
            p.desktop matches Some(d) && d@ == notification_level_text(level),
            p == (ChannelNotifyProps { desktop: p.desktop, ..self }),
    {
        let mut s = self;
        s.desktop = Some(owned(level.as_str()));
        s
    }

    /// The same properties with the given push level.
    pub fn with_push(self, level: NotificationLevel) -> (p: Self)
        ensures
            p.push matches Some(d) && d@ == notification_level_text(level),
            p == (ChannelNotifyProps { push: p.push, ..self }),
    {
        let mut s = self;
        s.push = Some(owned(level.as_str()));
        s
    }

    /// The same properties with email notifications on ("true") or off ("false").
    pub fn with_email(self, enabled: bool) -> (p: Self)
        ensures
            p.email matches Some(d) && d@ == (if enabled { "true"@ } else { "false"@ }),
            p == (ChannelNotifyProps { email: p.email, ..self }),
    {
        let mut s = self;
        s.email = Some(owned(if enabled { "true" } else { "false" }));
        s
    }

    /// The same properties with the given mark-unread level.
    pub fn with_mark_unread(self, level: NotificationLevel) -> (p: Self)
        ensures
            p.mark_unread matches Some(d) && d@ == notification_level_text(level),
            p == (ChannelNotifyProps { mark_unread: p.mark_unread, ..self }),
    {
        let mut s = self;
        s.mark_unread = Some(owned(level.as_str()));
        s
    }
}

impl Default for ChannelNotifyProps {
    /// Properties with every setting absent.
    fn default() -> (p: Self)
        ensures
            notify_settings(p) == seq![None::<Seq<char>>, None, None, None, None],
    {
        ChannelNotifyProps::new()
    }
}

/// Request to update channel member notify properties.
#[derive(Debug, Clone)]
pub struct UpdateChannelNotifyPropsRequest {
    pub notify_props: ChannelNotifyProps,
}

/// Request to delete user preferences.
#[derive(Debug, Clone)]
pub struct DeletePreferencesRequest {
    pub preferences: Vec<UserPreference>,
}

} // verus!
