use communicator::clock::timestamp_parts;
use communicator::types::capabilities::PlatformCapabilities;
use communicator::types::channel::{Channel, ChannelType, ChannelUnread};
use communicator::types::connection::{ConnectionInfo, ConnectionState};
use communicator::types::emoji::Emoji;
use communicator::types::message::{Attachment, Message};
use communicator::types::team::{Team, TeamType};
use communicator::types::user::{User, UserStatus};

#[test]
fn test_default_capabilities() {
    let caps = PlatformCapabilities::new("test-platform");
    assert_eq!(caps.platform_name, "test-platform");
    assert!(!caps.has_workspaces);
    assert!(!caps.supports_reactions);
}

#[test]
fn test_builder_pattern() {
    let caps = PlatformCapabilities::new("custom")
        .with_workspaces()
        .with_reactions()
        .with_version("1.0");

    assert!(caps.has_workspaces);
    assert!(caps.supports_reactions);
    assert_eq!(caps.platform_version, Some("1.0".to_string()));
}

#[test]
fn test_mattermost_preset() {
    let caps = PlatformCapabilities::mattermost();
    assert_eq!(caps.platform_name, "mattermost");
    assert!(caps.has_workspaces);
    assert!(caps.has_threads);
    assert!(caps.supports_custom_status);
}

#[test]
fn test_slack_preset() {
    let caps = PlatformCapabilities::slack();
    assert_eq!(caps.platform_name, "slack");
    assert!(caps.has_workspaces);
    assert!(caps.supports_custom_status);
}

#[test]
fn test_discord_preset() {
    let caps = PlatformCapabilities::discord();
    assert_eq!(caps.platform_name, "discord");
    assert!(caps.has_workspaces);
    assert!(caps.supports_typing_indicators);
}

#[test]
fn preset_differences() {
    assert!(!PlatformCapabilities::slack().supports_typing_indicators);
    assert!(!PlatformCapabilities::discord().supports_search);
    assert_eq!(PlatformCapabilities::mattermost().platform_version, Some("v4".to_string()));
    assert_eq!(PlatformCapabilities::slack().platform_version, None);
}

#[test]
fn test_channel_creation() {
    let channel = Channel::new("ch-1", "general", "General", ChannelType::Public);
    assert_eq!(channel.id, "ch-1");
    assert_eq!(channel.name, "general");
    assert_eq!(channel.display_name, "General");
    assert_eq!(channel.channel_type, ChannelType::Public);
    assert!(!channel.is_archived);
}

#[test]
fn test_channel_builder() {
    let channel = Channel::new("ch-1", "team-chat", "Team Chat", ChannelType::Private)
        .with_topic("Team discussions")
        .with_purpose("Internal team communication")
        .with_members(vec!["user-1".to_string(), "user-2".to_string()]);

    assert_eq!(channel.topic, Some("Team discussions".to_string()));
    assert_eq!(channel.purpose, Some("Internal team communication".to_string()));
    assert_eq!(channel.member_ids.as_ref().unwrap().len(), 2);
}

#[test]
fn test_direct_message_channel() {
    let dm = Channel::new("dm-1", "alice-bob", "Alice & Bob", ChannelType::DirectMessage);
    assert!(dm.is_direct_message());
    assert!(!dm.is_public());
}

#[test]
fn test_public_channel() {
    let public = Channel::new("ch-1", "announcements", "Announcements", ChannelType::Public);
    assert!(public.is_public());
    assert!(!public.is_direct_message());
}

#[test]
fn test_archived_channel() {
    let channel = Channel::new("ch-1", "old-project", "Old Project", ChannelType::Private).archived();
    assert!(channel.is_archived);
}

#[test]
fn group_channel_is_a_direct_message() {
    let gm = Channel::new("gm-1", "a-b-c", "A, B, C", ChannelType::GroupMessage);
    assert!(gm.is_direct_message());
    let private = Channel::new("p-1", "p", "P", ChannelType::Private);
    assert!(!private.is_direct_message());
    assert!(!private.is_public());
}

#[test]
fn channel_unread_builders() {
    let u = ChannelUnread::new("ch-9").with_team("t-1").with_counts(5, 2).with_last_viewed(1700);
    assert_eq!(u.channel_id, "ch-9");
    assert_eq!(u.team_id, Some("t-1".to_string()));
    assert_eq!(u.msg_count, 5);
    assert_eq!(u.mention_count, 2);
    assert_eq!(u.last_viewed_at, 1700);
    let fresh = ChannelUnread::new("x");
    assert_eq!((fresh.msg_count, fresh.mention_count, fresh.last_viewed_at), (0, 0, 0));
    assert!(fresh.team_id.is_none());
}

#[test]
fn test_connection_info_creation() {
    let info = ConnectionInfo::new("mattermost", "https://chat.example.com", "user-123", "Alice Smith");
    assert_eq!(info.platform, "mattermost");
    assert_eq!(info.server, "https://chat.example.com");
    assert_eq!(info.user_id, "user-123");
    assert_eq!(info.user_display_name, "Alice Smith");
    assert_eq!(info.state, ConnectionState::Connected);
    assert!(info.is_connected());
}

#[test]
fn test_connection_with_team() {
    let info = ConnectionInfo::new("slack", "workspace.slack.com", "U123", "Bob").with_team("T456", "Engineering");
    assert_eq!(info.team_id, Some("T456".to_string()));
    assert_eq!(info.team_name, Some("Engineering".to_string()));
}

#[test]
fn test_connection_states() {
    let mut info = ConnectionInfo::new("mattermost", "server", "user-1", "User");

    info.state = ConnectionState::Connecting;
    assert!(info.is_connecting());
    assert!(!info.is_connected());
    assert!(!info.is_error());

    info.state = ConnectionState::Connected;
    assert!(info.is_connected());
    assert!(!info.is_connecting());

    info.state = ConnectionState::Error;
    assert!(info.is_error());
    assert!(!info.is_connected());
}

#[test]
fn test_reconnecting_state() {
    let info = ConnectionInfo::new("mattermost", "server", "user-1", "User").with_state(ConnectionState::Reconnecting);
    assert!(info.is_connecting());
    assert!(!info.is_connected());
}

#[test]
fn connection_state_default_is_disconnected() {
    assert_eq!(ConnectionState::default(), ConnectionState::Disconnected);
}

#[test]
fn test_emoji_creation() {
    let emoji = Emoji::new("emoji123".to_string(), "parrot".to_string(), "user456".to_string(), 1234567890000);
    assert_eq!(emoji.id, "emoji123");
    assert_eq!(emoji.name, "parrot");
    assert_eq!(emoji.creator_id, "user456");
    assert_eq!(emoji.created_at, 1234567890000);
}

#[test]
fn test_name_with_colons() {
    let emoji = Emoji::new("emoji123".to_string(), "parrot".to_string(), "user456".to_string(), 1234567890000);
    assert_eq!(emoji.name_with_colons(), ":parrot:");
}

#[test]
fn test_message_creation() {
    let msg = Message::new("msg-1", "Hello, world!", "user-1", "channel-1");
    assert_eq!(msg.id, "msg-1");
    assert_eq!(msg.text, "Hello, world!");
    assert_eq!(msg.sender_id, "user-1");
    assert_eq!(msg.channel_id, "channel-1");
    assert!(msg.attachments.is_empty());
    assert!(msg.metadata.is_none());
}

#[test]
fn test_attachment_creation() {
    let attachment = Attachment::new("att-1", "document.pdf", "application/pdf", 1024, "https://example.com/file.pdf");
    assert_eq!(attachment.id, "att-1");
    assert_eq!(attachment.filename, "document.pdf");
    assert_eq!(attachment.size, 1024);
}

#[test]
fn test_message_with_attachment() {
    let attachment = Attachment::new("att-1", "image.png", "image/png", 2048, "https://example.com/image.png");
    let msg = Message::new("msg-1", "Check this out", "user-1", "channel-1").with_attachment(attachment);
    assert_eq!(msg.attachments.len(), 1);
    assert_eq!(msg.attachments[0].filename, "image.png");
}

#[test]
fn attachment_thumbnail() {
    let a = Attachment::new("a", "b.png", "image/png", 1, "/u").with_thumbnail("/t");
    assert_eq!(a.thumbnail_url, Some("/t".to_string()));
}

#[test]
fn test_team_creation() {
    let team = Team::new("team-1", "engineering", "Engineering Team");
    assert_eq!(team.id, "team-1");
    assert_eq!(team.name, "engineering");
    assert_eq!(team.display_name, "Engineering Team");
    assert!(team.description.is_none());
    assert_eq!(team.team_type, TeamType::Invite);
    assert!(!team.allow_open_invite);
}

#[test]
fn test_team_builder() {
    let team = Team::new("team-2", "sales", "Sales Team")
        .with_description("Our awesome sales team")
        .with_team_type(TeamType::Open)
        .with_allowed_domains("example.com")
        .with_open_invite(true);

    assert_eq!(team.description, Some("Our awesome sales team".to_string()));
    assert_eq!(team.team_type, TeamType::Open);
    assert_eq!(team.allowed_domains, Some("example.com".to_string()));
    assert!(team.allow_open_invite);
}

#[test]
fn test_team_type_default() {
    let team_type = TeamType::default();
    assert_eq!(team_type, TeamType::Invite);
}

#[test]
fn test_user_creation() {
    let user = User::new("user-1", "alice", "Alice Smith");
    assert_eq!(user.id, "user-1");
    assert_eq!(user.username, "alice");
    assert_eq!(user.display_name, "Alice Smith");
    assert!(user.email.is_none());
    assert!(!user.is_bot);
    assert_eq!(user.status, UserStatus::Unknown);
}

#[test]
fn test_user_builder() {
    let user = User::new("user-1", "bob", "Bob Jones")
        .with_email("bob@example.com")
        .with_status(UserStatus::Online)
        .with_avatar("https://example.com/avatar.png");

    assert_eq!(user.email, Some("bob@example.com".to_string()));
    assert_eq!(user.status, UserStatus::Online);
    assert_eq!(user.avatar_url, Some("https://example.com/avatar.png".to_string()));
}

#[test]
fn test_bot_user() {
    let bot = User::new("bot-1", "helper-bot", "Helper Bot").as_bot();
    assert!(bot.is_bot);
}

#[test]
fn user_status_message_and_default() {
    let u = User::new("u", "n", "d").with_status_message("In a meeting");
    assert_eq!(u.status_message, Some("In a meeting".to_string()));
    assert_eq!(UserStatus::default(), UserStatus::Unknown);
}

#[test]
fn test_timestamp_conversion() {
    let timestamp_ms = 1234567890000i64;
    let (secs, nanos) = timestamp_parts(timestamp_ms);
    assert_eq!(secs, 1234567890);
    assert_eq!(nanos, 0);
}

#[test]
fn timestamp_parts_keep_the_remainder() {
    assert_eq!(timestamp_parts(1500), (1, 500_000_000));
    assert_eq!(timestamp_parts(0), (0, 0));
    // A negative remainder wraps, as a `u32` cast does.
    assert_eq!(timestamp_parts(-1500), (-1, 3_794_967_296));
}
