use communicator::json::JsonValue;
use communicator::platforms::mattermost::{
    status_string_to_user_status, user_status_to_status_string, ChannelNotifyProps, ChannelSearchRequest,
    ChannelViewRequest, CreatePostRequest, FileInfo, FileSearchRequest, MattermostChannel, MattermostChannelType,
    MattermostEmoji, MattermostPost, MattermostUser, NotificationLevel, PostMetadata, PostSearchOptions,
    UserPreference, UserSearchRequest,
};
use communicator::platforms::mattermost::convert::{channel_type_from_mattermost, parse_settable_status, user_display_name};
use communicator::error::ErrorCode;
use communicator::types::channel::{Channel, ChannelType};
use communicator::types::emoji::Emoji;
use communicator::types::message::{Attachment, Message};
use communicator::types::user::{User, UserStatus};

fn alice() -> MattermostUser {
    MattermostUser {
        id: "user123".to_string(),
        username: "alice".to_string(),
        email: "alice@example.com".to_string(),
        first_name: "Alice".to_string(),
        last_name: "Smith".to_string(),
        nickname: "".to_string(),
        position: "Developer".to_string(),
        roles: "system_user".to_string(),
        locale: "en".to_string(),
        timezone: Vec::new(),
        props: Vec::new(),
        is_bot: false,
        create_at: 1234567890000,
        update_at: 1234567890000,
        delete_at: 0,
    }
}

fn general() -> MattermostChannel {
    MattermostChannel {
        id: "ch123".to_string(),
        create_at: 1234567890000,
        update_at: 1234567890000,
        delete_at: 0,
        team_id: "team1".to_string(),
        channel_type: MattermostChannelType::Open,
        display_name: "General".to_string(),
        name: "general".to_string(),
        header: "Welcome!".to_string(),
        purpose: "General discussion".to_string(),
        last_post_at: 0,
        total_msg_count: 42,
        creator_id: "user1".to_string(),
    }
}

#[test]
fn test_user_conversion() {
    let user: User = User::from_mattermost(alice());
    assert_eq!(user.id, "user123");
    assert_eq!(user.username, "alice");
    assert_eq!(user.display_name, "Alice Smith");
    assert_eq!(user.email, Some("alice@example.com".to_string()));
    assert!(!user.is_bot);
}

#[test]
fn display_name_falls_back_to_nickname_then_username() {
    assert_eq!(user_display_name("Alice", "", "al", "alice"), "Alice");
    assert_eq!(user_display_name("", "Smith", "al", "alice"), "Smith");
    assert_eq!(user_display_name("", "", "al", "alice"), "al");
    assert_eq!(user_display_name("", "", "", "alice"), "alice");
    let mut bob = alice();
    bob.first_name = String::new();
    bob.last_name = String::new();
    bob.email = String::new();
    let user = User::from_mattermost(bob);
    assert_eq!(user.display_name, "alice");
    assert_eq!(user.email, None);
}

#[test]
fn test_channel_type_conversion() {
    let channel: Channel = Channel::from_mattermost(general());
    assert_eq!(channel.id, "ch123");
    assert_eq!(channel.name, "general");
    assert_eq!(channel.channel_type, ChannelType::Public);
    assert_eq!(channel.topic, Some("Welcome!".to_string()));
    assert_eq!(channel.purpose, Some("General discussion".to_string()));
    assert_eq!(channel.last_activity_at, None);
    assert!(!channel.is_archived);
}

#[test]
fn channel_types_map_one_to_one() {
    assert_eq!(channel_type_from_mattermost(MattermostChannelType::Open), ChannelType::Public);
    assert_eq!(channel_type_from_mattermost(MattermostChannelType::Private), ChannelType::Private);
    assert_eq!(channel_type_from_mattermost(MattermostChannelType::Direct), ChannelType::DirectMessage);
    assert_eq!(channel_type_from_mattermost(MattermostChannelType::Group), ChannelType::GroupMessage);
    let mut archived = general();
    archived.delete_at = 5;
    archived.last_post_at = 77;
    archived.header = String::new();
    let c = Channel::from_mattermost(archived);
    assert!(c.is_archived);
    assert_eq!(c.last_activity_at, Some(77));
    assert_eq!(c.topic, None);
}

#[test]
fn test_status_string_conversion() {
    assert_eq!(status_string_to_user_status("online"), UserStatus::Online);
    assert_eq!(status_string_to_user_status("away"), UserStatus::Away);
    assert_eq!(status_string_to_user_status("dnd"), UserStatus::DoNotDisturb);
    assert_eq!(status_string_to_user_status("offline"), UserStatus::Offline);
    assert_eq!(status_string_to_user_status("unknown"), UserStatus::Unknown);
}

#[test]
fn status_words_round_trip() {
    assert_eq!(status_string_to_user_status("do_not_disturb"), UserStatus::DoNotDisturb);
    for s in [UserStatus::Online, UserStatus::Away, UserStatus::DoNotDisturb, UserStatus::Offline] {
        assert_eq!(status_string_to_user_status(user_status_to_status_string(s)), s);
    }
    assert_eq!(user_status_to_status_string(UserStatus::Unknown), "unknown");
    assert_eq!(parse_settable_status("away").unwrap(), UserStatus::Away);
    let err = parse_settable_status("busy").unwrap_err();
    assert_eq!(err.code, ErrorCode::InvalidArgument);
    assert_eq!(err.message, "Invalid status. Must be one of: online, away, dnd, offline");
}

#[test]
fn test_create_post_request() {
    let req = CreatePostRequest::new("channel123".to_string(), "Hello, world!".to_string());
    assert_eq!(req.channel_id, "channel123");
    assert_eq!(req.message, "Hello, world!");
    assert!(req.root_id.is_none());
    assert!(req.file_ids.is_none());
}

#[test]
fn test_create_post_request_with_root_id() {
    let req = CreatePostRequest::new("channel123".to_string(), "Reply!".to_string())
        .with_root_id("post456".to_string());
    assert_eq!(req.root_id, Some("post456".to_string()));
}

#[test]
fn test_channel_type_enum() {
    assert_eq!(MattermostChannelType::Open.as_str(), "O");
    assert_eq!(MattermostChannelType::Private.as_str(), "P");
    assert_eq!(MattermostChannelType::Direct.as_str(), "D");
    assert_eq!(MattermostChannelType::Group.as_str(), "G");
    assert!(MattermostChannelType::Direct.is_direct());
    assert!(!MattermostChannelType::Open.is_direct());
    assert!(MattermostChannelType::Group.is_group());
    assert!(!MattermostChannelType::Private.is_group());
    assert!(MattermostChannelType::Open.is_public());
    assert!(!MattermostChannelType::Direct.is_public());
    assert!(MattermostChannelType::Private.is_private());
    assert!(!MattermostChannelType::Group.is_private());
}

#[test]
fn test_user_search_request_builder() {
    let request = UserSearchRequest::new("john".to_string())
        .with_team_id("team123".to_string())
        .in_channel("channel456".to_string())
        .with_limit(50);
    assert_eq!(request.term, "john");
    assert_eq!(request.team_id, Some("team123".to_string()));
    assert_eq!(request.in_channel_id, Some("channel456".to_string()));
    assert_eq!(request.limit, Some(50));
}

#[test]
fn test_channel_search_request() {
    let request = ChannelSearchRequest::new("general".to_string());
    assert_eq!(request.term, "general");
}

#[test]
fn test_file_search_request_builder() {
    let request = FileSearchRequest::new("report".to_string())
        .in_channel("channel123".to_string())
        .with_extensions(vec!["pdf".to_string(), "doc".to_string()])
        .with_timezone_offset(3600);
    assert_eq!(request.terms, "report");
    assert_eq!(request.channel_id, Some("channel123".to_string()));
    assert_eq!(request.ext, Some(vec!["pdf".to_string(), "doc".to_string()]));
    assert_eq!(request.time_zone_offset, Some(3600));
}

#[test]
fn test_post_search_options_default() {
    let options = PostSearchOptions::default();
    assert_eq!(options.is_or_search, false);
    assert_eq!(options.include_deleted_channels, false);
    assert_eq!(options.time_zone_offset, 0);
    assert_eq!(options.page, 0);
    assert_eq!(options.per_page, 0);
}

#[test]
fn notify_props_builders() {
    let muted = ChannelNotifyProps::muted();
    assert_eq!(muted.mark_unread, Some("mention".to_string()));
    let unmuted = ChannelNotifyProps::unmuted();
    assert_eq!(unmuted.mark_unread, Some("all".to_string()));
    let p = ChannelNotifyProps::new().with_desktop(NotificationLevel::Off).with_email(true);
    assert_eq!(p.desktop, Some("none".to_string()));
    assert_eq!(p.email, Some("true".to_string()));
    assert_eq!(NotificationLevel::Mention.as_str(), "mention");
    let view = ChannelViewRequest::new("c1".to_string()).with_prev_channel("c0".to_string());
    assert_eq!(view.channel_id, "c1");
    assert_eq!(view.prev_channel_id, Some("c0".to_string()));
    let pref = UserPreference::new("u".to_string(), "cat".to_string(), "n".to_string(), "v".to_string());
    assert_eq!(pref.category, "cat");
}

fn file(id: &str, post: &str) -> FileInfo {
    FileInfo {
        id: id.to_string(),
        user_id: "u1".to_string(),
        post_id: post.to_string(),
        create_at: 1,
        update_at: 2,
        delete_at: 0,
        name: "doc.pdf".to_string(),
        extension: "pdf".to_string(),
        size: 1024,
        mime_type: "application/pdf".to_string(),
        width: 0,
        height: 0,
        has_preview_image: true,
    }
}

#[test]
fn attachments_and_messages_from_mattermost() {
    let a = Attachment::from_file_info(file("f1", "p1"));
    assert_eq!(a.id, "f1");
    assert_eq!(a.url, "/api/v4/files/f1");
    assert_eq!(a.thumbnail_url, Some("/api/v4/files/p1/thumbnail".to_string()));
    let mut metadata = PostMetadata::default();
    metadata.files.push(file("f1", "p1"));
    let post = MattermostPost {
        id: "p1".to_string(),
        create_at: 100,
        update_at: 200,
        delete_at: 0,
        edit_at: 150,
        user_id: "u1".to_string(),
        channel_id: "c1".to_string(),
        root_id: String::new(),
        parent_id: String::new(),
        original_id: String::new(),
        message: "hello".to_string(),
        post_type: String::new(),
        props: vec![("k".to_string(), JsonValue::Bool(true))],
        hashtags: String::new(),
        file_ids: vec!["f1".to_string()],
        pending_post_id: String::new(),
        metadata,
    };
    let m: Message = Message::from_mattermost(post);
    assert_eq!(m.id, "p1");
    assert_eq!(m.text, "hello");
    assert_eq!(m.sender_id, "u1");
    assert_eq!(m.channel_id, "c1");
    assert_eq!(m.created_at, 100);
    assert_eq!(m.edited_at, Some(150));
    assert_eq!(m.attachments.len(), 1);
    assert_eq!(m.attachments[0].url, "/api/v4/files/f1");
}

#[test]
fn emoji_from_mattermost() {
    let e = Emoji::from_mattermost(MattermostEmoji {
        id: "e1".to_string(),
        creator_id: "u1".to_string(),
        name: "party".to_string(),
        create_at: 10,
        update_at: 10,
        delete_at: 0,
    });
    assert_eq!(e.id, "e1");
    assert_eq!(e.name, "party");
    assert_eq!(e.name_with_colons(), ":party:");
}
