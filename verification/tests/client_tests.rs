use communicator::error::{Error, ErrorCode};
use communicator::json::JsonValue;
use communicator::platforms::config::PlatformEvent;
use communicator::platforms::mattermost::client::RetryState;
use communicator::platforms::mattermost::{
    CacheConfig, MattermostChannel, MattermostChannelType, MattermostClient, MattermostErrorResponse, MattermostUser,
    RateLimitInfo,
};
use communicator::platforms::mattermost::client::order_users;
use communicator::types::connection::ConnectionState;

fn client() -> MattermostClient {
    MattermostClient::new("https://mattermost.example.com").unwrap()
}

fn user(id: &str, name: &str) -> MattermostUser {
    MattermostUser {
        id: id.to_string(),
        username: name.to_string(),
        email: String::new(),
        first_name: String::new(),
        last_name: String::new(),
        nickname: String::new(),
        position: String::new(),
        roles: String::new(),
        locale: String::new(),
        timezone: Vec::new(),
        props: Vec::new(),
        is_bot: false,
        create_at: 0,
        update_at: 0,
        delete_at: 0,
    }
}

fn channel(id: &str) -> MattermostChannel {
    MattermostChannel {
        id: id.to_string(),
        create_at: 0,
        update_at: 0,
        delete_at: 0,
        team_id: "t".to_string(),
        channel_type: MattermostChannelType::Open,
        display_name: "D".to_string(),
        name: "n".to_string(),
        header: String::new(),
        purpose: String::new(),
        last_post_at: 0,
        total_msg_count: 0,
        creator_id: String::new(),
    }
}

#[test]
fn test_new_client() {
    let client = MattermostClient::new("https://mattermost.example.com");
    assert!(client.is_ok());
}

#[test]
fn client_test_invalid_url() {
    let client = MattermostClient::new("not a url");
    assert!(client.is_err());
}

#[test]
fn invalid_url_error_names_the_reason() {
    let err = MattermostClient::new("not a url").err().unwrap();
    assert_eq!(err.code, ErrorCode::InvalidArgument);
    assert!(err.message.starts_with("Invalid URL: "));
    let err = MattermostClient::from_parsed_url(Err("bad".to_string()), CacheConfig::default()).err().unwrap();
    assert_eq!(err.message, "Invalid URL: bad");
    let ok = MattermostClient::from_parsed_url(Ok("https://x.test/".to_string()), CacheConfig::disabled()).unwrap();
    assert_eq!(ok.get_base_url(), "https://x.test/");
    assert!(!ok.cache_enabled());
}

#[test]
fn test_api_url() {
    let client = client();
    assert_eq!(client.api_url("/users/me"), "https://mattermost.example.com/api/v4/users/me");
    assert_eq!(client.api_url("users/me"), "https://mattermost.example.com/api/v4/users/me");
}

#[test]
fn api_url_keeps_the_server_path() {
    let client = MattermostClient::new("https://chat.example.com/mm/").unwrap();
    assert_eq!(client.api_url("//posts"), "https://chat.example.com/mm/api/v4/posts");
}

#[test]
fn test_channel_endpoints() {
    let client = client();
    assert_eq!(
        client.api_url("/users/me/teams/team123/channels"),
        "https://mattermost.example.com/api/v4/users/me/teams/team123/channels"
    );
    assert_eq!(client.api_url("/channels/channel123"), "https://mattermost.example.com/api/v4/channels/channel123");
}

#[test]
fn test_pinned_endpoints() {
    let client = client();
    assert_eq!(client.api_url("/posts/post123/pin"), "https://mattermost.example.com/api/v4/posts/post123/pin");
    assert_eq!(client.api_url("/posts/post123/unpin"), "https://mattermost.example.com/api/v4/posts/post123/unpin");
    assert_eq!(
        client.api_url("/channels/channel123/pinned"),
        "https://mattermost.example.com/api/v4/channels/channel123/pinned"
    );
}

#[test]
fn test_post_endpoints() {
    let client = client();
    assert_eq!(client.api_url("/posts"), "https://mattermost.example.com/api/v4/posts");
    assert_eq!(client.api_url("/posts/post123"), "https://mattermost.example.com/api/v4/posts/post123");
    assert_eq!(
        client.api_url("/channels/channel123/posts?page=0&per_page=60"),
        "https://mattermost.example.com/api/v4/channels/channel123/posts?page=0&per_page=60"
    );
}

#[test]
fn test_preference_endpoints() {
    let client = client();
    assert_eq!(
        client.api_url("/users/user123/preferences"),
        "https://mattermost.example.com/api/v4/users/user123/preferences"
    );
    assert_eq!(
        client.api_url("/users/user123/preferences/delete"),
        "https://mattermost.example.com/api/v4/users/user123/preferences/delete"
    );
    assert_eq!(
        client.api_url("/users/user123/preferences/notifications"),
        "https://mattermost.example.com/api/v4/users/user123/preferences/notifications"
    );
    assert_eq!(
        client.api_url("/users/user123/preferences/notifications/name/email"),
        "https://mattermost.example.com/api/v4/users/user123/preferences/notifications/name/email"
    );
}

#[test]
fn test_channel_notify_endpoints() {
    let client = client();
    assert_eq!(
        client.api_url("/channels/channel123/members/user456"),
        "https://mattermost.example.com/api/v4/channels/channel123/members/user456"
    );
    assert_eq!(
        client.api_url("/channels/channel123/members/user456/notify_props"),
        "https://mattermost.example.com/api/v4/channels/channel123/members/user456/notify_props"
    );
}

#[test]
fn test_thread_endpoints() {
    let client = client();
    assert_eq!(client.api_url("/posts/post123/thread"), "https://mattermost.example.com/api/v4/posts/post123/thread");
    assert_eq!(
        client.api_url("/users/me/teams/team123/threads?page=0&perPage=60"),
        "https://mattermost.example.com/api/v4/users/me/teams/team123/threads?page=0&perPage=60"
    );
    assert_eq!(
        client.api_url("/users/me/teams/team123/threads/thread123/following"),
        "https://mattermost.example.com/api/v4/users/me/teams/team123/threads/thread123/following"
    );
    assert_eq!(
        client.api_url("/users/me/teams/team123/threads/thread123/read/1234567890"),
        "https://mattermost.example.com/api/v4/users/me/teams/team123/threads/thread123/read/1234567890"
    );
}

#[test]
fn test_user_endpoints() {
    let client = client();
    assert_eq!(client.api_url("/users/user123"), "https://mattermost.example.com/api/v4/users/user123");
    assert_eq!(client.api_url("/users/me"), "https://mattermost.example.com/api/v4/users/me");
}

#[test]
fn test_token_management() {
    let mut client = client();
    assert!(client.get_token().is_none());
    client.set_token("test_token".to_string());
    assert_eq!(client.get_token(), Some("test_token".to_string()));
}

#[test]
fn test_state_management() {
    let mut client = client();
    assert_eq!(client.get_state(), ConnectionState::Disconnected);
    client.set_state(ConnectionState::Connected);
    assert_eq!(client.get_state(), ConnectionState::Connected);
}

#[test]
fn test_rate_limit_info_creation() {
    let info = RateLimitInfo { limit: 100, remaining: 50, reset_at: 1234567890 };
    assert_eq!(info.limit, 100);
    assert_eq!(info.remaining, 50);
    assert_eq!(info.reset_at, 1234567890);
}

#[test]
fn test_rate_limit_tracking() {
    let mut client = client();
    assert!(client.get_rate_limit_info().is_none());
    let info = RateLimitInfo { limit: 100, remaining: 95, reset_at: 1234567890 };
    client.update_rate_limit_info(Some(info));
    let retrieved = client.get_rate_limit_info();
    assert!(retrieved.is_some());
    let retrieved = retrieved.unwrap();
    assert_eq!(retrieved.limit, 100);
    assert_eq!(retrieved.remaining, 95);
    assert_eq!(retrieved.reset_at, 1234567890);
    // A reply without the headers keeps the earlier figures.
    client.update_rate_limit_info(None);
    assert_eq!(client.get_rate_limit_info(), Some(info));
}

#[test]
fn rate_limit_headers_must_all_be_numbers() {
    assert_eq!(
        MattermostClient::extract_rate_limit_info(Some("100"), Some("+7"), Some("1700000000")),
        Some(RateLimitInfo { limit: 100, remaining: 7, reset_at: 1700000000 })
    );
    assert_eq!(MattermostClient::extract_rate_limit_info(Some("100"), None, Some("1")), None);
    assert_eq!(MattermostClient::extract_rate_limit_info(Some("4294967296"), Some("1"), Some("1")), None);
    assert_eq!(MattermostClient::extract_rate_limit_info(Some("10"), Some("x"), Some("1")), None);
    assert_eq!(MattermostClient::extract_rate_limit_info(Some(""), Some("1"), Some("1")), None);
}

#[test]
fn test_mattermost_error_id_mapping() {
    assert_eq!(
        MattermostClient::map_mattermost_error_id("api.user.login.invalid_credentials"),
        ErrorCode::AuthenticationFailed
    );
    assert_eq!(MattermostClient::map_mattermost_error_id("api.user.login.failed"), ErrorCode::AuthenticationFailed);
    assert_eq!(MattermostClient::map_mattermost_error_id("api.user.get.not_found"), ErrorCode::NotFound);
    assert_eq!(MattermostClient::map_mattermost_error_id("api.channel.not_found"), ErrorCode::NotFound);
    assert_eq!(MattermostClient::map_mattermost_error_id("api.context.permissions_error"), ErrorCode::PermissionDenied);
    assert_eq!(MattermostClient::map_mattermost_error_id("api.team.forbidden"), ErrorCode::PermissionDenied);
    assert_eq!(MattermostClient::map_mattermost_error_id("api.rate_limit.exceeded"), ErrorCode::RateLimited);
    assert_eq!(MattermostClient::map_mattermost_error_id("api.request.timeout"), ErrorCode::Timeout);
    assert_eq!(MattermostClient::map_mattermost_error_id("api.post.invalid_param.message"), ErrorCode::InvalidArgument);
    assert_eq!(MattermostClient::map_mattermost_error_id("api.channel.invalid_id"), ErrorCode::InvalidArgument);
    assert_eq!(MattermostClient::map_mattermost_error_id("api.unknown.error"), ErrorCode::Unknown);
}

#[test]
fn mfa_errors_are_authentication_failures() {
    assert_eq!(MattermostClient::map_mattermost_error_id("api.user.mfa_required"), ErrorCode::AuthenticationFailed);
    assert_eq!(MattermostClient::map_mattermost_error_id("api.user.check_user_mfa.bad_code"), ErrorCode::AuthenticationFailed);
}

#[test]
fn status_codes_suggest_error_codes() {
    assert_eq!(MattermostClient::status_error_code(401), ErrorCode::AuthenticationFailed);
    assert_eq!(MattermostClient::status_error_code(403), ErrorCode::AuthenticationFailed);
    assert_eq!(MattermostClient::status_error_code(404), ErrorCode::NotFound);
    assert_eq!(MattermostClient::status_error_code(429), ErrorCode::RateLimited);
    assert_eq!(MattermostClient::status_error_code(500), ErrorCode::NetworkError);
    assert_eq!(MattermostClient::status_error_code(599), ErrorCode::NetworkError);
    assert_eq!(MattermostClient::status_error_code(418), ErrorCode::Unknown);
}

#[test]
fn failed_reply_without_a_mattermost_error() {
    let e = MattermostClient::response_error(404, "no such page", None, Some("req-1".to_string()));
    assert_eq!(e.code, ErrorCode::NotFound);
    assert_eq!(e.message, "API request failed with status 404 Not Found: no such page");
    assert_eq!(e.http_status, Some(404));
    assert_eq!(e.request_id, Some("req-1".to_string()));
    assert_eq!(e.mattermost_error_id, None);
    let e = MattermostClient::response_error(599, "x", None, None);
    assert_eq!(e.message, "API request failed with status 599 <unknown status code>: x");
    assert_eq!(e.request_id, None);
    let e = MattermostClient::response_error(42, "x", None, None);
    assert_eq!(e.message, "API request failed with status 42 <unknown status code>: x");
    assert_eq!(e.code, ErrorCode::Unknown);
}

#[test]
fn failed_reply_with_a_mattermost_error() {
    let mm = MattermostErrorResponse {
        id: "api.user.login.invalid_credentials".to_string(),
        message: "Invalid login credentials".to_string(),
        request_id: "abc123".to_string(),
        status_code: 401,
        is_oauth: false,
    };
    let e = MattermostClient::response_error(401, "{...}", Some(mm), None);
    assert_eq!(e.code, ErrorCode::AuthenticationFailed);
    assert_eq!(e.message, "Invalid login credentials");
    assert_eq!(e.mattermost_error_id, Some("api.user.login.invalid_credentials".to_string()));
    assert_eq!(e.http_status, Some(401));
}

#[test]
fn current_user_requires_sign_in() {
    let mut client = client();
    let err = client.current_user_id().unwrap_err();
    assert_eq!(err.code, ErrorCode::InvalidState);
    assert_eq!(err.message, "Not authenticated - no user ID available");
    client.set_user_id(Some("u1".to_string()));
    assert_eq!(client.current_user_id().unwrap(), "u1");
    assert_eq!(client.get_user_id(), Some("u1".to_string()));
}

#[test]
fn connection_info_reports_the_session() {
    let mut client = client();
    client.set_user_id(Some("u1".to_string()));
    client.set_state(ConnectionState::Connected);
    let info = client.connection_info("https://server", "Alice");
    assert_eq!(info.platform, "mattermost");
    assert_eq!(info.server, "https://server");
    assert_eq!(info.user_id, "u1");
    assert_eq!(info.user_display_name, "Alice");
    assert_eq!(info.team_id, None);
    client.set_team_id(Some("t1".to_string()));
    let info = client.connection_info("https://server", "Alice");
    assert_eq!(info.team_id, Some("t1".to_string()));
    assert_eq!(info.team_name, Some(String::new()));
    assert_eq!(client.get_team_id(), Some("t1".to_string()));
}

#[test]
fn password_sign_in_flow() {
    let mut client = client();
    client.begin_login();
    assert_eq!(client.get_state(), ConnectionState::Connecting);
    assert!(client.login_token_header(true, Some(Ok("tok".to_string()))).is_ok());
    assert_eq!(client.get_token(), Some("tok".to_string()));
    let u = client.login_succeeded(Ok(user("u1", "alice"))).unwrap();
    assert_eq!(u.id, "u1");
    assert_eq!(client.get_user_id(), Some("u1".to_string()));
    assert_eq!(client.get_state(), ConnectionState::Connected);
}

#[test]
fn password_sign_in_failures() {
    let mut client = client();
    client.begin_login();
    let e = client.login_token_header(false, None).unwrap_err();
    assert_eq!(e.message, "No token in login response");
    assert_eq!(client.get_state(), ConnectionState::Error);
    let e = client.login_token_header(true, Some(Err("bad bytes".to_string()))).unwrap_err();
    assert_eq!(e.message, "Invalid token header: bad bytes");
    let e = client.login_failed(401, "denied");
    assert_eq!(e.code, ErrorCode::AuthenticationFailed);
    assert_eq!(e.message, "Login failed with status 401 Unauthorized: denied");
    let e = client.login_succeeded(Err("eof".to_string())).unwrap_err();
    assert_eq!(e.code, ErrorCode::Unknown);
    assert_eq!(e.message, "Failed to parse user: eof");
    let e = MattermostClient::login_send_error("refused");
    assert_eq!(e.message, "Login request failed: refused");
}

#[test]
fn token_sign_in_flow() {
    let mut client = client();
    client.begin_token_login("pat".to_string());
    assert_eq!(client.get_state(), ConnectionState::Connecting);
    assert_eq!(client.get_token(), Some("pat".to_string()));
    let failed = client.token_login_finished(Err(Error::new(ErrorCode::AuthenticationFailed, "bad".to_string())));
    let e = failed.unwrap_err();
    assert_eq!(e.message, "Token authentication failed: Authentication failed: bad");
    assert_eq!(client.get_state(), ConnectionState::Error);
    assert_eq!(client.get_token(), Some(String::new()));
    client.begin_token_login("pat".to_string());
    let u = client.token_login_finished(Ok(user("u9", "bob"))).unwrap();
    assert_eq!(u.username, "bob");
    assert_eq!(client.get_state(), ConnectionState::Connected);
}

#[test]
fn test_logout_without_token() {
    let mut client = client();
    let call_server = client.begin_logout();
    assert!(!call_server);
    client.finish_logout(call_server);
    assert_eq!(client.get_state(), ConnectionState::Disconnected);
}

#[test]
fn logout_with_token_forgets_the_session() {
    let mut client = client();
    client.set_token("t".to_string());
    client.set_user_id(Some("u".to_string()));
    client.set_team_id(Some("team".to_string()));
    let call_server = client.begin_logout();
    assert!(call_server);
    assert_eq!(client.get_state(), ConnectionState::Disconnecting);
    client.finish_logout(call_server);
    assert_eq!(client.get_state(), ConnectionState::Disconnected);
    assert_eq!(client.get_token(), Some(String::new()));
    assert_eq!(client.get_user_id(), None);
    assert_eq!(client.get_team_id(), None);
}

#[test]
fn test_verify_session_no_token() {
    let client = client();
    assert!(!client.has_token());
}

#[test]
fn cached_lookups_through_the_client() {
    let mut client = client();
    assert!(client.cached_user("u1", 0).is_none());
    client.remember_user("u1".to_string(), user("u1", "alice"), 0);
    assert_eq!(client.cached_user("u1", 1_000).unwrap().username, "alice");
    // Users live five minutes.
    assert!(client.cached_user("u1", 300_000_000_000).is_none());
    client.update_channel_cache(&channel("c1"), 0);
    assert_eq!(client.cached_channel("c1", 119_999_999_999).unwrap().id, "c1");
    assert!(client.cached_channel("c1", 120_000_000_000).is_none());
    client.remember_team("t1".to_string(), communicator::platforms::mattermost::MattermostTeam {
        id: "t1".to_string(),
        create_at: 0,
        update_at: 0,
        delete_at: 0,
        display_name: "Team".to_string(),
        name: "team".to_string(),
        description: String::new(),
        email: String::new(),
        team_type: "O".to_string(),
        company_name: String::new(),
        allowed_domains: String::new(),
        invite_id: String::new(),
        allow_open_invite: true,
    }, 0);
    assert!(client.cached_team("t1", 599_999_999_999).is_some());
    let stats = client.get_cache_stats(0);
    // The expired user and channel were dropped when they were looked up.
    assert_eq!(stats, vec![("user", 0, 0), ("channel", 0, 0), ("team", 1, 0)]);
    assert_eq!(client.get_cache_stats(600_000_000_000), vec![("user", 0, 0), ("channel", 0, 0), ("team", 1, 1)]);
    client.clear_all_caches();
    assert_eq!(client.get_cache_stats(0), vec![("user", 0, 0), ("channel", 0, 0), ("team", 0, 0)]);
}

#[test]
fn disabled_caches_store_nothing() {
    let mut client = MattermostClient::with_cache_config("https://mattermost.example.com", CacheConfig::disabled()).unwrap();
    client.remember_user("u1".to_string(), user("u1", "alice"), 0);
    assert!(client.cached_user("u1", 0).is_none());
    let ids = vec!["u1".to_string(), "u2".to_string()];
    let (found, missing) = client.split_cached_users(&ids, 0);
    assert!(found.is_empty());
    assert_eq!(missing, ids);
}

#[test]
fn batch_lookup_splits_and_orders() {
    let mut client = client();
    client.remember_user("u2".to_string(), user("u2", "bob"), 0);
    let ids = vec!["u1".to_string(), "u2".to_string(), "u3".to_string()];
    let (found, missing) = client.split_cached_users(&ids, 10);
    assert_eq!(missing, vec!["u1".to_string(), "u3".to_string()]);
    assert_eq!(found.len(), 1);
    assert_eq!(found[0].0, "u2");
    let mut all = found;
    all.push(("u3".to_string(), user("u3", "carol")));
    all.push(("u1".to_string(), user("u1", "alice")));
    let ordered = order_users(&ids, &all);
    let names: Vec<String> = ordered.iter().map(|u| u.username.clone()).collect();
    assert_eq!(names, vec!["alice".to_string(), "bob".to_string(), "carol".to_string()]);
    // An ID with no user is skipped; a repeated ID takes the last entry.
    let more = vec![("u1".to_string(), user("u1", "old")), ("u1".to_string(), user("u1", "new"))];
    let ids2 = vec!["u1".to_string(), "zz".to_string(), "u1".to_string()];
    let names2: Vec<String> = order_users(&ids2, &more).iter().map(|u| u.username.clone()).collect();
    assert_eq!(names2, vec!["new".to_string(), "new".to_string()]);
}

#[test]
fn batch_lookup_finishes_with_the_fetched_users() {
    let mut client = client();
    client.remember_user("u2".to_string(), user("u2", "bob"), 0);
    let ids = vec!["u1".to_string(), "u2".to_string(), "u3".to_string()];
    let (found, missing) = client.split_cached_users(&ids, 10);
    assert_eq!(missing, vec!["u1".to_string(), "u3".to_string()]);
    let fetched = vec![user("u3", "carol"), user("u1", "alice")];
    let ordered = client.finish_cached_users(&ids, found, fetched, 20);
    let names: Vec<String> = ordered.iter().map(|u| u.username.clone()).collect();
    assert_eq!(names, vec!["alice".to_string(), "bob".to_string(), "carol".to_string()]);
    // The fetched users are now cached, from time 20.
    assert_eq!(client.cached_user("u1", 300_000_000_019).unwrap().username, "alice");
    assert_eq!(client.cached_user("u3", 100).unwrap().username, "carol");
    assert!(client.cached_user("u1", 300_000_000_020).is_none());
    // A fetched user stands after a cached one with the same ID.
    let (found, _) = client.split_cached_users(&vec!["u3".to_string()], 30);
    let ordered = client.finish_cached_users(&vec!["u3".to_string()], found, vec![user("u3", "carol2")], 30);
    assert_eq!(ordered[0].username, "carol2");
    assert_eq!(client.cached_user("u3", 40).unwrap().username, "carol2");
}

#[test]
fn batch_lookup_with_caching_off_caches_nothing() {
    let mut client = MattermostClient::with_cache_config("https://mattermost.example.com", CacheConfig::disabled()).unwrap();
    let ids = vec!["u1".to_string()];
    let ordered = client.finish_cached_users(&ids, Vec::new(), vec![user("u1", "alice")], 0);
    assert_eq!(ordered.len(), 1);
    assert!(client.cached_user("u1", 0).is_none());
}

#[test]
fn events_invalidate_the_caches() {
    let mut client = client();
    client.remember_user("u1".to_string(), user("u1", "alice"), 0);
    client.update_channel_cache(&channel("c1"), 0);
    client.invalidate_for_event(&PlatformEvent::UserTyping { user_id: "u1".to_string(), channel_id: "c1".to_string() });
    assert!(client.cached_user("u1", 0).is_some());
    client.invalidate_for_event(&PlatformEvent::UserUpdated { user_id: "u1".to_string() });
    assert!(client.cached_user("u1", 0).is_none());
    client.invalidate_for_event(&PlatformEvent::ChannelDeleted { channel_id: "c1".to_string() });
    assert!(client.cached_channel("c1", 0).is_none());
    client.remove_channel_from_cache("c1");
    client.invalidate_team_cache("none");
    client.invalidate_user_cache("none");
}

#[test]
fn rate_limited_requests_back_off() {
    let mut r = RetryState::new();
    let waits: Vec<Option<u64>> = (0..7).map(|_| r.on_error(ErrorCode::RateLimited, 6)).collect();
    assert_eq!(
        waits,
        vec![Some(1000), Some(2000), Some(4000), Some(8000), Some(16000), Some(30000), None]
    );
    let mut r = RetryState::new();
    assert_eq!(r.on_error(ErrorCode::NotFound, 3), None);
    assert_eq!(r.retries, 0);
}

#[test]
fn cache_config_presets() {
    let d = CacheConfig::default();
    assert_eq!((d.user_ttl, d.channel_ttl, d.team_ttl, d.enable_cache), (300_000_000_000, 120_000_000_000, 600_000_000_000, true));
    let off = CacheConfig::disabled();
    assert!(!off.enable_cache);
    assert_eq!(off.user_ttl, 300_000_000_000);
    let _unused = JsonValue::Null;
}

#[test]
fn replies_without_a_body_of_interest() {
    assert!(MattermostClient::require_success(200, "delete channel").is_ok());
    assert!(MattermostClient::require_success(204, "delete channel").is_ok());
    let e = MattermostClient::require_success(404, "delete channel").unwrap_err();
    assert_eq!(e.code, ErrorCode::NetworkError);
    assert_eq!(e.message, "Failed to delete channel: 404 Not Found");
    assert_eq!(e.http_status, None);
    let e = MattermostClient::require_success(302, "follow thread").unwrap_err();
    assert_eq!(e.message, "Failed to follow thread: 302 Found");
    assert_eq!(MattermostClient::status_phrase(500), "500 Internal Server Error");
    assert_eq!(MattermostClient::status_phrase(42), "42 <unknown status code>");
}

#[test]
fn replies_whose_body_tells_the_failure() {
    assert!(MattermostClient::require_success_with_body(200, "pin post", "").is_ok());
    let e = MattermostClient::require_success_with_body(403, "pin post", "not allowed").unwrap_err();
    assert_eq!(e.code, ErrorCode::Unknown);
    assert_eq!(e.message, "Failed to pin post: not allowed");
    let e = MattermostClient::transfer_failed("download thumbnail", "gone");
    assert_eq!(e.code, ErrorCode::NetworkError);
    assert_eq!(e.message, "Failed to download thumbnail: gone");
}
