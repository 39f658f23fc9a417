use communicator::json::JsonValue;
use communicator::platforms::config::PlatformEvent;
use communicator::platforms::mattermost::websocket::{convert_event, ws_url_for, ConnectionState, EventQueue, WsSession};
use communicator::platforms::mattermost::{
    MattermostChannel, MattermostChannelType, MattermostPost, PostMetadata, WebSocketBroadcast, WebSocketEvent,
};
use communicator::types::user::UserStatus;

fn broadcast(user_id: &str, channel_id: &str) -> WebSocketBroadcast {
    WebSocketBroadcast {
        omit_users: None,
        user_id: user_id.to_string(),
        channel_id: channel_id.to_string(),
        team_id: String::new(),
        connection_id: String::new(),
        omit_connection_id: String::new(),
    }
}

fn text(key: &str, value: &str) -> (String, JsonValue) {
    (key.to_string(), JsonValue::Str(value.to_string()))
}

fn event(name: &str, data: Vec<(String, JsonValue)>, b: WebSocketBroadcast, seq: i64) -> WebSocketEvent {
    WebSocketEvent { event: name.to_string(), data, broadcast: b, seq }
}

// The post that the "post" data of the recorded events holds, as the
// caller reads it from that JSON text.
fn recorded_post(message: &str, update_at: i64, edit_at: i64) -> MattermostPost {
    MattermostPost {
        id: "a4aurxyyc3yruntz4zfmdw75nr".to_string(),
        create_at: 1761422860825,
        update_at,
        delete_at: 0,
        edit_at,
        user_id: "t1pn9rb63fnpjrqibgriijcx4r".to_string(),
        channel_id: "4ckrmjaeeb8mbpodbmo6bknpge".to_string(),
        root_id: String::new(),
        parent_id: String::new(),
        original_id: String::new(),
        message: message.to_string(),
        post_type: String::new(),
        props: vec![("disable_group_highlight".to_string(), JsonValue::Bool(true))],
        hashtags: String::new(),
        file_ids: Vec::new(),
        pending_post_id: String::new(),
        metadata: PostMetadata::default(),
    }
}

#[test]
fn test_ws_url_conversion() {
    assert_eq!(ws_url_for("https://mattermost.example.com"), "wss://mattermost.example.com/api/v4/websocket");
    assert_eq!(ws_url_for("http://localhost:8065"), "ws://localhost:8065/api/v4/websocket");
}

#[test]
fn test_parse_posted_event() {
    let data = vec![
        text("channel_display_name", "@jay"),
        text("post", "{\"id\":\"a4aurxyyc3yruntz4zfmdw75nr\",\"message\":\"aweff\"}"),
        text("sender_name", "@jay"),
        ("set_online".to_string(), JsonValue::Bool(true)),
    ];
    let ev = event("posted", data, broadcast("", "4ckrmjaeeb8mbpodbmo6bknpge"), 35);
    let platform_event = convert_event(ev, Some(recorded_post("aweff", 1761422860825, 0)), None);
    assert!(platform_event.is_some(), "Should successfully parse posted event");
    if let Some(PlatformEvent::MessagePosted(msg)) = platform_event {
        assert_eq!(msg.id, "a4aurxyyc3yruntz4zfmdw75nr");
        assert_eq!(msg.text, "aweff");
        assert_eq!(msg.channel_id, "4ckrmjaeeb8mbpodbmo6bknpge");
        assert_eq!(msg.sender_id, "t1pn9rb63fnpjrqibgriijcx4r");
    } else {
        panic!("Expected MessagePosted event");
    }
}

#[test]
fn test_parse_post_edited_event() {
    let data = vec![text("post", "{\"id\":\"a4aurxyyc3yruntz4zfmdw75nr\",\"message\":\"awe\"}")];
    let ev = event("post_edited", data, broadcast("", "4ckrmjaeeb8mbpodbmo6bknpge"), 37);
    let platform_event = convert_event(ev, Some(recorded_post("awe", 1761422988059, 1761422988059)), None);
    assert!(platform_event.is_some(), "Should successfully parse post_edited event");
    if let Some(PlatformEvent::MessageUpdated(msg)) = platform_event {
        assert_eq!(msg.id, "a4aurxyyc3yruntz4zfmdw75nr");
        assert_eq!(msg.text, "awe");
        assert_eq!(msg.channel_id, "4ckrmjaeeb8mbpodbmo6bknpge");
        assert_eq!(msg.sender_id, "t1pn9rb63fnpjrqibgriijcx4r");
        assert_eq!(msg.edited_at, Some(1761422988059));
    } else {
        panic!("Expected MessageUpdated event");
    }
}

#[test]
fn test_parse_post_deleted_event() {
    let data = vec![text("post", "{\"id\":\"a4aurxyyc3yruntz4zfmdw75nr\"}")];
    let ev = event("post_deleted", data, broadcast("", "4ckrmjaeeb8mbpodbmo6bknpge"), 38);
    let platform_event = convert_event(ev, Some(recorded_post("awe", 1761422988059, 1761422988059)), None);
    assert!(platform_event.is_some(), "Should successfully parse post_deleted event");
    if let Some(PlatformEvent::MessageDeleted { message_id, channel_id }) = platform_event {
        assert_eq!(message_id, "a4aurxyyc3yruntz4zfmdw75nr");
        assert_eq!(channel_id, "4ckrmjaeeb8mbpodbmo6bknpge");
    } else {
        panic!("Expected MessageDeleted event");
    }
}

#[test]
fn posts_that_do_not_read_give_nothing() {
    let ev = event("posted", vec![text("post", "not json")], broadcast("", "c"), 1);
    assert!(convert_event(ev, None, None).is_none());
    let ev = event("post_deleted", Vec::new(), broadcast("", "c"), 1);
    match convert_event(ev, None, None) {
        Some(PlatformEvent::MessageDeleted { message_id, channel_id }) => {
            assert_eq!(message_id, "");
            assert_eq!(channel_id, "c");
        },
        _ => panic!("Expected MessageDeleted event"),
    }
}

#[test]
fn test_parse_reaction_added_event() {
    let data = vec![text("post_id", "post123"), text("user_id", "user456"), text("emoji_name", "thumbsup")];
    let ev = event("reaction_added", data, broadcast("", "channel789"), 42);
    let platform_event = convert_event(ev, None, None);
    assert!(platform_event.is_some(), "Should successfully parse reaction_added event");
    if let Some(PlatformEvent::ReactionAdded { message_id, user_id, emoji_name, channel_id }) = platform_event {
        assert_eq!(message_id, "post123");
        assert_eq!(user_id, "user456");
        assert_eq!(emoji_name, "thumbsup");
        assert_eq!(channel_id, "channel789");
    } else {
        panic!("Expected ReactionAdded event");
    }
}

#[test]
fn test_parse_reaction_removed_event() {
    let data = vec![text("post_id", "post123"), text("user_id", "user456"), text("emoji_name", "thumbsup")];
    let ev = event("reaction_removed", data, broadcast("", "channel789"), 43);
    let platform_event = convert_event(ev, None, None);
    assert!(platform_event.is_some(), "Should successfully parse reaction_removed event");
    if let Some(PlatformEvent::ReactionRemoved { message_id, user_id, emoji_name, channel_id }) = platform_event {
        assert_eq!(message_id, "post123");
        assert_eq!(user_id, "user456");
        assert_eq!(emoji_name, "thumbsup");
        assert_eq!(channel_id, "channel789");
    } else {
        panic!("Expected ReactionRemoved event");
    }
}

#[test]
fn reactions_need_a_post_and_an_emoji() {
    let ev = event("reaction_added", vec![text("post_id", "p")], broadcast("", "c"), 1);
    assert!(convert_event(ev, None, None).is_none());
}

#[test]
fn test_parse_direct_added_event() {
    let ev = event("direct_added", Vec::new(), broadcast("", "dm_channel_123"), 44);
    let platform_event = convert_event(ev, None, None);
    assert!(platform_event.is_some(), "Should successfully parse direct_added event");
    if let Some(PlatformEvent::DirectChannelAdded { channel_id }) = platform_event {
        assert_eq!(channel_id, "dm_channel_123");
    } else {
        panic!("Expected DirectChannelAdded event");
    }
}

#[test]
fn test_parse_group_added_event() {
    let ev = event("group_added", Vec::new(), broadcast("", "gm_channel_456"), 45);
    let platform_event = convert_event(ev, None, None);
    assert!(platform_event.is_some(), "Should successfully parse group_added event");
    if let Some(PlatformEvent::GroupChannelAdded { channel_id }) = platform_event {
        assert_eq!(channel_id, "gm_channel_456");
    } else {
        panic!("Expected GroupChannelAdded event");
    }
    let ev = event("group_added", Vec::new(), broadcast("", ""), 46);
    assert!(convert_event(ev, None, None).is_none());
}

#[test]
fn test_parse_preference_changed_event() {
    let data = vec![text("category", "notifications"), text("name", "email"), text("value", "true")];
    let ev = event("preference_changed", data, broadcast("", ""), 46);
    let platform_event = convert_event(ev, None, None);
    assert!(platform_event.is_some(), "Should successfully parse preference_changed event");
    if let Some(PlatformEvent::PreferenceChanged { category, name, value }) = platform_event {
        assert_eq!(category, "notifications");
        assert_eq!(name, "email");
        assert_eq!(value, "true");
    } else {
        panic!("Expected PreferenceChanged event");
    }
}

#[test]
fn test_parse_ephemeral_message_event() {
    let data = vec![text("post", "This is a bot message")];
    let ev = event("ephemeral_message", data, broadcast("", "channel123"), 47);
    let platform_event = convert_event(ev, None, None);
    assert!(platform_event.is_some(), "Should successfully parse ephemeral_message event");
    if let Some(PlatformEvent::EphemeralMessage { message, channel_id }) = platform_event {
        assert_eq!(message, "This is a bot message");
        assert_eq!(channel_id, "channel123");
    } else {
        panic!("Expected EphemeralMessage event");
    }
}

#[test]
fn test_parse_new_user_event() {
    let ev = event("new_user", vec![text("user_id", "newuser123")], broadcast("", ""), 48);
    let platform_event = convert_event(ev, None, None);
    assert!(platform_event.is_some(), "Should successfully parse new_user event");
    if let Some(PlatformEvent::UserAdded { user_id }) = platform_event {
        assert_eq!(user_id, "newuser123");
    } else {
        panic!("Expected UserAdded event");
    }
}

#[test]
fn test_parse_user_updated_event() {
    let user = JsonValue::Object(vec![text("id", "user456"), text("username", "john_doe")]);
    let ev = event("user_updated", vec![("user".to_string(), user)], broadcast("", ""), 49);
    let platform_event = convert_event(ev, None, None);
    assert!(platform_event.is_some(), "Should successfully parse user_updated event");
    if let Some(PlatformEvent::UserUpdated { user_id }) = platform_event {
        assert_eq!(user_id, "user456");
    } else {
        panic!("Expected UserUpdated event");
    }
}

#[test]
fn user_updated_falls_back_to_the_broadcast_user() {
    let ev = event("user_updated", Vec::new(), broadcast("bcast", ""), 1);
    match convert_event(ev, None, None) {
        Some(PlatformEvent::UserUpdated { user_id }) => assert_eq!(user_id, "bcast"),
        _ => panic!("Expected UserUpdated event"),
    }
    let ev = event("user_updated", Vec::new(), broadcast("", ""), 1);
    assert!(convert_event(ev, None, None).is_none());
}

#[test]
fn test_parse_user_role_updated_event() {
    let ev = event("user_role_updated", vec![text("user_id", "user789")], broadcast("", ""), 50);
    let platform_event = convert_event(ev, None, None);
    assert!(platform_event.is_some(), "Should successfully parse user_role_updated event");
    if let Some(PlatformEvent::UserRoleUpdated { user_id }) = platform_event {
        assert_eq!(user_id, "user789");
    } else {
        panic!("Expected UserRoleUpdated event");
    }
}

#[test]
fn test_parse_channel_viewed_event() {
    let ev = event("channel_viewed", Vec::new(), broadcast("viewer123", "channel456"), 51);
    let platform_event = convert_event(ev, None, None);
    assert!(platform_event.is_some(), "Should successfully parse channel_viewed event");
    if let Some(PlatformEvent::ChannelViewed { user_id, channel_id }) = platform_event {
        assert_eq!(user_id, "viewer123");
        assert_eq!(channel_id, "channel456");
    } else {
        panic!("Expected ChannelViewed event");
    }
}

#[test]
fn status_changes_and_typing() {
    let ev = event("status_change", vec![text("user_id", "u1"), text("status", "do_not_disturb")], broadcast("", ""), 1);
    match convert_event(ev, None, None) {
        Some(PlatformEvent::UserStatusChanged { user_id, status }) => {
            assert_eq!(user_id, "u1");
            assert_eq!(status, UserStatus::DoNotDisturb);
        },
        _ => panic!("Expected UserStatusChanged event"),
    }
    let ev = event("status_change", vec![text("user_id", "u1")], broadcast("", ""), 1);
    match convert_event(ev, None, None) {
        Some(PlatformEvent::UserStatusChanged { status, .. }) => assert_eq!(status, UserStatus::Offline),
        _ => panic!("Expected UserStatusChanged event"),
    }
    let ev = event("typing", vec![text("user_id", "u2")], broadcast("", "c9"), 1);
    match convert_event(ev, None, None) {
        Some(PlatformEvent::UserTyping { user_id, channel_id }) => {
            assert_eq!(user_id, "u2");
            assert_eq!(channel_id, "c9");
        },
        _ => panic!("Expected UserTyping event"),
    }
    assert!(convert_event(event("hello", Vec::new(), broadcast("", ""), 1), None, None).is_none());
    assert!(convert_event(event("something_else", Vec::new(), broadcast("", ""), 1), None, None).is_none());
}

#[test]
fn channel_events_carry_the_channel() {
    let ch = MattermostChannel {
        id: "c1".to_string(),
        create_at: 0,
        update_at: 0,
        delete_at: 0,
        team_id: "t".to_string(),
        channel_type: MattermostChannelType::Private,
        display_name: "Secret".to_string(),
        name: "secret".to_string(),
        header: String::new(),
        purpose: String::new(),
        last_post_at: 0,
        total_msg_count: 0,
        creator_id: String::new(),
    };
    match convert_event(event("channel_updated", Vec::new(), broadcast("", "c1"), 1), None, Some(ch)) {
        Some(PlatformEvent::ChannelUpdated(c)) => assert_eq!(c.display_name, "Secret"),
        _ => panic!("Expected ChannelUpdated event"),
    }
    assert!(convert_event(event("channel_created", Vec::new(), broadcast("", "c1"), 1), None, None).is_none());
    match convert_event(event("channel_deleted", Vec::new(), broadcast("", "c1"), 1), None, None) {
        Some(PlatformEvent::ChannelDeleted { channel_id }) => assert_eq!(channel_id, "c1"),
        _ => panic!("Expected ChannelDeleted event"),
    }
}

#[test]
fn test_connection_state() {
    let session = WsSession::new();
    assert_eq!(session.get_connection_state(), ConnectionState::Disconnected);
}

#[test]
fn test_reconnect_attempts_counter() {
    let mut session = WsSession::new();
    assert_eq!(session.reconnect_attempts(), 0);
    session.reset_reconnect_attempts();
    assert_eq!(session.reconnect_attempts(), 0);
}

#[test]
fn test_connection_state_query() {
    let session = WsSession::new();
    assert_eq!(session.get_connection_state(), ConnectionState::Disconnected);
    let state = session.get_connection_state();
    assert!(matches!(state, ConnectionState::Disconnected));
}

#[test]
fn reconnection_gives_up_after_the_limit() {
    let mut s = WsSession::new();
    s.begin_connect();
    assert_eq!(s.get_connection_state(), ConnectionState::Connecting);
    s.authenticated();
    s.connection_lost();
    assert!(s.should_reconnect(true));
    assert!(!s.should_reconnect(false));
    assert_eq!(s.next_reconnect_attempt(Some(2)), Some(0));
    assert_eq!(s.get_connection_state(), ConnectionState::Reconnecting);
    assert_eq!(s.next_reconnect_attempt(Some(2)), Some(1));
    assert_eq!(s.next_reconnect_attempt(Some(2)), None);
    assert_eq!(s.get_connection_state(), ConnectionState::Disconnected);
    assert_eq!(s.reconnect_attempts(), 2);
    s.authenticated();
    assert_eq!(s.reconnect_attempts(), 0);
    assert_eq!(s.get_connection_state(), ConnectionState::Connected);
}

#[test]
fn disconnect_requests() {
    let mut s = WsSession::new();
    assert!(!s.request_disconnect());
    s.authenticated();
    assert!(s.request_disconnect());
    assert_eq!(s.get_connection_state(), ConnectionState::ShuttingDown);
    assert!(!s.should_reconnect(true));
    assert!(!s.request_disconnect());
    s.shutdown_received();
    s.finished();
    assert_eq!(s.get_connection_state(), ConnectionState::Disconnected);
    s.begin_connect();
    s.connect_failed();
    assert_eq!(s.get_connection_state(), ConnectionState::Disconnected);
}

#[test]
fn sequence_numbers() {
    let mut s = WsSession::new();
    assert_eq!(s.seq_number(), 1);
    assert_eq!(s.next_seq(), 1);
    assert_eq!(s.next_seq(), 2);
    assert_eq!(s.seq_number(), 3);
    assert_eq!(s.observe_seq(5), 0);
    assert_eq!(s.observe_seq(6), 0);
    assert_eq!(s.observe_seq(10), 3);
    assert_eq!(s.observe_seq(0), 0);
    assert_eq!(s.observe_seq(11), 0);
}

#[test]
fn event_queue_drops_the_oldest_when_full() {
    let mut q = EventQueue::new(2);
    q.push(PlatformEvent::ConfigChanged);
    q.push(PlatformEvent::LicenseChanged);
    assert_eq!(q.len(), 2);
    q.push(PlatformEvent::PluginStatusesChanged);
    assert_eq!(q.len(), 2);
    assert_eq!(q.pop().unwrap().kind_name(), "license_changed");
    assert_eq!(q.pop().unwrap().kind_name(), "plugin_statuses_changed");
    assert!(q.pop().is_none());
}

#[test]
fn event_queue_without_room_keeps_nothing() {
    let mut q = EventQueue::new(0);
    q.push(PlatformEvent::ConfigChanged);
    assert_eq!(q.len(), 0);
    assert!(q.pop().is_none());
}
