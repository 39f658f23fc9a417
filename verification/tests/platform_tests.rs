use communicator::error::ErrorCode;
use communicator::platforms::config::{PlatformConfig, PlatformEvent};
use communicator::platforms::mattermost::platform::{
    channel_naming, choose_auth, custom_status, custom_status_with_expiry, first_messages, messages_from_posts,
    name_channel, newest_first, posts_in_order, require_team, status_map, AuthMethod, ChannelNaming,
};
use communicator::platforms::mattermost::{
    MattermostChannel, MattermostChannelType, MattermostPost, MattermostStatus, MattermostUser, PostList, PostMetadata,
};
use communicator::string_map::StringMap;
use communicator::json::JsonValue;
use communicator::platforms::mattermost::{ChannelUnreadInfo, MattermostTeam};
use communicator::types::channel::{Channel, ChannelUnread};
use communicator::types::team::{Team, TeamType};
use communicator::types::connection::ConnectionState;
use communicator::types::user::UserStatus;

#[test]
fn test_platform_config() {
    let config = PlatformConfig::new("https://mattermost.example.com")
        .with_credential("login_id", "user@example.com")
        .with_credential("password", "password123")
        .with_team("team-abc");
    assert_eq!(config.server, "https://mattermost.example.com");
    assert!(config.credentials.contains_key("login_id"));
    assert_eq!(config.team_id, Some("team-abc".to_string()));
}

#[test]
fn test_platform_config_builder() {
    let config = PlatformConfig::new("https://chat.example.com")
        .with_credential("token", "secret-token")
        .with_team("team-123")
        .with_extra("timeout", "30");
    assert_eq!(config.server, "https://chat.example.com");
    assert_eq!(config.credentials.get("token"), Some(&"secret-token".to_string()));
    assert_eq!(config.team_id, Some("team-123".to_string()));
    assert_eq!(config.extra.get("timeout"), Some(&"30".to_string()));
}

#[test]
fn credentials_choose_the_sign_in() {
    let token = PlatformConfig::new("s").with_credential("login_id", "a").with_credential("token", "t");
    assert!(matches!(choose_auth(&token), Ok(AuthMethod::Token(t)) if t == "t"));
    let pw = PlatformConfig::new("s").with_credential("login_id", "a").with_credential("password", "p");
    assert!(matches!(choose_auth(&pw), Ok(AuthMethod::Password { login_id, password }) if login_id == "a" && password == "p"));
    let mfa = pw.clone().with_credential("mfa_token", "123456");
    assert!(matches!(choose_auth(&mfa), Ok(AuthMethod::PasswordWithMfa { mfa_token, .. }) if mfa_token == "123456"));
    let none = PlatformConfig::new("s").with_credential("login_id", "a");
    let err = choose_auth(&none).unwrap_err();
    assert_eq!(err.code, ErrorCode::InvalidArgument);
    assert_eq!(err.message, "Missing authentication credentials (provide 'token' or 'login_id'+'password')");
}

fn mm_channel(kind: MattermostChannelType, name: &str, display: &str) -> MattermostChannel {
    MattermostChannel {
        id: "c".to_string(),
        create_at: 0,
        update_at: 0,
        delete_at: 0,
        team_id: String::new(),
        channel_type: kind,
        display_name: display.to_string(),
        name: name.to_string(),
        header: String::new(),
        purpose: String::new(),
        last_post_at: 0,
        total_msg_count: 0,
        creator_id: String::new(),
    }
}

fn person(first: &str, last: &str, nick: &str, username: &str) -> MattermostUser {
    MattermostUser {
        id: "p".to_string(),
        username: username.to_string(),
        email: String::new(),
        first_name: first.to_string(),
        last_name: last.to_string(),
        nickname: nick.to_string(),
        position: String::new(),
        roles: String::new(),
        locale: String::new(),
        timezone: Vec::new(),
        props: Vec::new(),
        is_bot: false,
        create_at: 0,
        update_at: 0,
        delete_at: 0,
    }
}

#[test]
fn direct_channels_are_named_after_the_partner() {
    let me = "t1pn9rb63fnpjrqibgriijcx4r";
    let own = mm_channel(MattermostChannelType::Direct, "t1pn9rb63fnpjrqibgriijcx4r__t1pn9rb63fnpjrqibgriijcx4r", "");
    assert_eq!(channel_naming(&own, Some(me)), ChannelNaming::SavedMessages);
    let dm = mm_channel(MattermostChannelType::Direct, "t1pn9rb63fnpjrqibgriijcx4r__xei6dqz8xfgm7kqzddjziyofyo", "");
    let naming = channel_naming(&dm, Some(me));
    assert_eq!(naming, ChannelNaming::Partner("xei6dqz8xfgm7kqzddjziyofyo".to_string()));
    assert_eq!(channel_naming(&dm, None), ChannelNaming::AsIs);
    let c = name_channel(Channel::from_mattermost(dm.clone()), &naming, Some(person("Jay", "Doe", "", "jay")));
    assert_eq!(c.display_name, "Jay Doe");
    let c = name_channel(Channel::from_mattermost(dm.clone()), &naming, Some(person("", "", "", "jay")));
    assert_eq!(c.display_name, "jay");
    let c = name_channel(Channel::from_mattermost(dm), &naming, None);
    assert_eq!(c.display_name, "Direct Message");
    let c = name_channel(Channel::from_mattermost(own), &ChannelNaming::SavedMessages, None);
    assert_eq!(c.display_name, "You (Saved Messages)");
}

#[test]
fn group_channels_without_a_name() {
    let gm = mm_channel(MattermostChannelType::Group, "g", "");
    assert_eq!(channel_naming(&gm, None), ChannelNaming::Group);
    let c = name_channel(Channel::from_mattermost(gm), &ChannelNaming::Group, None);
    assert_eq!(c.display_name, "Group Message");
    let named = mm_channel(MattermostChannelType::Group, "g", "a, b");
    assert_eq!(channel_naming(&named, None), ChannelNaming::AsIs);
    assert_eq!(channel_naming(&named, Some("u")), ChannelNaming::Group);
    let c = name_channel(Channel::from_mattermost(named), &ChannelNaming::Group, None);
    assert_eq!(c.display_name, "a, b");
    let open = mm_channel(MattermostChannelType::Open, "town-square", "Town Square");
    assert_eq!(channel_naming(&open, Some("u")), ChannelNaming::AsIs);
}

fn post(id: &str, text: &str) -> MattermostPost {
    MattermostPost {
        id: id.to_string(),
        create_at: 0,
        update_at: 0,
        delete_at: 0,
        edit_at: 0,
        user_id: "u".to_string(),
        channel_id: "c".to_string(),
        root_id: String::new(),
        parent_id: String::new(),
        original_id: String::new(),
        message: text.to_string(),
        post_type: String::new(),
        props: Vec::new(),
        hashtags: String::new(),
        file_ids: Vec::new(),
        pending_post_id: String::new(),
        metadata: PostMetadata::default(),
    }
}

#[test]
fn messages_follow_the_post_order() {
    let mut posts: StringMap<MattermostPost> = StringMap::new();
    posts.insert("p1".to_string(), post("p1", "first"));
    posts.insert("p2".to_string(), post("p2", "second"));
    let list = PostList {
        order: vec!["p2".to_string(), "missing".to_string(), "p1".to_string()],
        posts,
        next_post_id: String::new(),
        prev_post_id: String::new(),
    };
    let in_order = messages_from_posts(posts_in_order(&list));
    let texts: Vec<String> = in_order.iter().map(|m| m.text.clone()).collect();
    assert_eq!(texts, vec!["second".to_string(), "first".to_string()]);
    let reversed = newest_first(in_order);
    let texts: Vec<String> = reversed.iter().map(|m| m.text.clone()).collect();
    assert_eq!(texts, vec!["first".to_string(), "second".to_string()]);
    assert_eq!(first_messages(reversed.clone(), 1).len(), 1);
    assert_eq!(first_messages(reversed, 5).len(), 2);
}

#[test]
fn statuses_by_user_keep_the_last_report() {
    let st = |u: &str, s: &str| MattermostStatus { user_id: u.to_string(), status: s.to_string(), manual: false, last_activity_at: 0 };
    let m = status_map(&vec![st("a", "online"), st("b", "dnd"), st("a", "away")]);
    assert_eq!(m.get("a"), Some(&UserStatus::Away));
    assert_eq!(m.get("b"), Some(&UserStatus::DoNotDisturb));
    assert_eq!(m.get("c"), None);
}

#[test]
fn custom_statuses() {
    let c = custom_status_with_expiry(Some(":coffee:"), "In a meeting", None);
    assert_eq!(c.emoji, Some(":coffee:".to_string()));
    assert_eq!(c.text, Some("In a meeting".to_string()));
    assert_eq!(c.duration, None);
    assert_eq!(c.expires_at, None);
    let c = custom_status(None, "Away", Some(0));
    assert_eq!(c.expires_at, Some("1970-01-01T00:00:00+00:00".to_string()));
    let c = custom_status(None, "Away", None);
    assert_eq!(c.expires_at, None);
    // An instant chrono cannot hold falls back to the current time.
    let c = custom_status(None, "Away", Some(i64::MAX));
    assert!(c.expires_at.is_some());
}

#[test]
fn a_team_is_required() {
    assert_eq!(require_team(Some("t".to_string())).unwrap(), "t");
    let err = require_team(None).unwrap_err();
    assert_eq!(err.code, ErrorCode::InvalidArgument);
    assert_eq!(err.message, "Team ID not set");
}

#[test]
fn event_kind_names() {
    assert_eq!(PlatformEvent::UserAdded { user_id: "u".to_string() }.kind_name(), "user_added");
    assert_eq!(PlatformEvent::ConnectionStateChanged(ConnectionState::Connected).kind_name(), "connection_state_changed");
    assert_eq!(PlatformEvent::PluginStatusesChanged.kind_name(), "plugin_statuses_changed");
    assert_eq!(
        PlatformEvent::Response { status: "OK".to_string(), seq_reply: 3, error: None }.kind_name(),
        "response"
    );
}

#[test]
fn teams_from_the_server() {
    let team = |kind: &str, description: &str| MattermostTeam {
        id: "t1".to_string(),
        create_at: 1,
        update_at: 2,
        delete_at: 0,
        display_name: "Engineering".to_string(),
        name: "eng".to_string(),
        description: description.to_string(),
        email: String::new(),
        team_type: kind.to_string(),
        company_name: String::new(),
        allowed_domains: "example.com".to_string(),
        invite_id: String::new(),
        allow_open_invite: true,
    };
    let open = Team::from_mattermost(team("O", "All engineers"));
    assert_eq!(open.id, "t1");
    assert_eq!(open.name, "eng");
    assert_eq!(open.display_name, "Engineering");
    assert_eq!(open.team_type, TeamType::Open);
    assert_eq!(open.description, Some("All engineers".to_string()));
    assert_eq!(open.allowed_domains, Some("example.com".to_string()));
    assert!(open.allow_open_invite);
    let invite = Team::from_mattermost(team("I", ""));
    assert_eq!(invite.team_type, TeamType::Invite);
    assert_eq!(invite.description, None);
}

#[test]
fn unread_counts_keep_their_team() {
    let u = ChannelUnread::from_unread_info(ChannelUnreadInfo {
        team_id: "t1".to_string(),
        channel_id: "c1".to_string(),
        msg_count: 4,
        mention_count: 1,
        last_viewed_at: 99,
    });
    assert_eq!(u.channel_id, "c1");
    assert_eq!(u.team_id, Some("t1".to_string()));
    assert_eq!(u.msg_count, 4);
    assert_eq!(u.mention_count, 1);
    assert_eq!(u.last_viewed_at, 99);
}

#[test]
fn status_map_entries() {
    let st = |u: &str, s: &str| MattermostStatus { user_id: u.to_string(), status: s.to_string(), manual: false, last_activity_at: 0 };
    let entries = status_map(&vec![st("a", "online"), st("b", "offline"), st("a", "dnd")]).into_entries();
    assert_eq!(entries.len(), 2);
    assert!(entries.contains(&("a".to_string(), UserStatus::DoNotDisturb)));
    assert!(entries.contains(&("b".to_string(), UserStatus::Offline)));
}

#[test]
fn events_as_json_objects() {
    let obj = PlatformEvent::MessageDeleted { message_id: "m1".to_string(), channel_id: "c1".to_string() }
        .into_json_object(None);
    match obj {
        JsonValue::Object(entries) => {
            assert_eq!(entries.len(), 3);
            assert_eq!(entries[0].0, "type");
            assert!(matches!(&entries[0].1, JsonValue::Str(t) if t == "message_deleted"));
            assert_eq!(entries[1].0, "message_id");
            assert!(matches!(&entries[1].1, JsonValue::Str(t) if t == "m1"));
            assert_eq!(entries[2].0, "channel_id");
            assert!(matches!(&entries[2].1, JsonValue::Str(t) if t == "c1"));
        }
        _ => panic!("an event is written as an object"),
    }
    let obj = PlatformEvent::Response { status: "OK".to_string(), seq_reply: 7, error: None }.into_json_object(None);
    match obj {
        JsonValue::Object(entries) => {
            assert_eq!(entries.len(), 4);
            assert!(matches!(&entries[2].1, JsonValue::Int(7)));
            assert_eq!(entries[3].0, "error");
            assert!(matches!(&entries[3].1, JsonValue::Null));
        }
        _ => panic!("an event is written as an object"),
    }
    let obj = PlatformEvent::ConnectionStateChanged(ConnectionState::Connected)
        .into_json_object(Some(JsonValue::Str("connected".to_string())));
    match obj {
        JsonValue::Object(entries) => {
            assert_eq!(entries.len(), 2);
            assert_eq!(entries[1].0, "state");
            assert!(matches!(&entries[1].1, JsonValue::Str(t) if t == "connected"));
        }
        _ => panic!("an event is written as an object"),
    }
    let obj = PlatformEvent::ConfigChanged.into_json_object(None);
    assert!(matches!(obj, JsonValue::Object(ref e) if e.len() == 1));
}
