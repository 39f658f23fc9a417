use communicator::platforms::mattermost::endpoints::{
    channel_by_name_endpoint, channel_posts_endpoint, emoji_list_endpoint, file_info_endpoint,
    posts_around_unread_endpoint, posts_unread_limited_endpoint, reaction_endpoint, team_by_name_endpoint,
    team_endpoint, thread_read_endpoint, user_custom_status_endpoint, user_status_endpoint, user_threads_endpoint,
    users_autocomplete_endpoint,
};

#[test]
fn test_status_endpoints() {
    assert_eq!(user_status_endpoint("user123"), "/users/user123/status");
    assert_eq!(user_custom_status_endpoint("user123"), "/users/user123/status/custom");
}

#[test]
fn test_team_endpoints() {
    assert_eq!(team_endpoint("team123"), "/teams/team123");
    assert_eq!(team_by_name_endpoint("engineering"), "/teams/name/engineering");
}

#[test]
fn test_file_operations_exist() {
    assert_eq!(file_info_endpoint("f1"), "/files/f1/info");
}

#[test]
fn numbered_endpoints() {
    assert_eq!(channel_posts_endpoint("channel123", 0, 60), "/channels/channel123/posts?page=0&per_page=60");
    assert_eq!(emoji_list_endpoint(2, 200, "name"), "/emoji?page=2&per_page=200&sort=name");
    assert_eq!(
        thread_read_endpoint("me", "team123", "thread123", 1234567890),
        "/users/me/teams/team123/threads/thread123/read/1234567890"
    );
    assert_eq!(thread_read_endpoint("me", "t", "th", -5), "/users/me/teams/t/threads/th/read/-5");
}

#[test]
fn nested_endpoints() {
    assert_eq!(channel_by_name_endpoint("t1", "town-square"), "/teams/t1/channels/name/town-square");
    assert_eq!(reaction_endpoint("u1", "p1", "smile"), "/users/u1/posts/p1/reactions/smile");
}

#[test]
fn endpoints_with_optional_queries() {
    assert_eq!(posts_around_unread_endpoint("c1", None, None), "/channels/c1/posts/unread");
    assert_eq!(posts_around_unread_endpoint("c1", Some(10), None), "/channels/c1/posts/unread?limit_before=10");
    assert_eq!(posts_around_unread_endpoint("c1", None, Some(5)), "/channels/c1/posts/unread?limit_after=5");
    assert_eq!(
        posts_around_unread_endpoint("c1", Some(10), Some(5)),
        "/channels/c1/posts/unread?limit_before=10&limit_after=5"
    );
    assert_eq!(posts_unread_limited_endpoint("u1", "c1", None), "/users/u1/channels/c1/posts/unread");
    assert_eq!(posts_unread_limited_endpoint("u1", "c1", Some(3)), "/users/u1/channels/c1/posts/unread?limit_after=3");
    assert_eq!(
        users_autocomplete_endpoint("t", "c", "al", Some(10)),
        "/users/autocomplete?in_team=t&in_channel=c&name=al&limit=10"
    );
    assert_eq!(users_autocomplete_endpoint("t", "c", "al", None), "/users/autocomplete?in_team=t&in_channel=c&name=al");
    assert_eq!(
        user_threads_endpoint("me", "team123", None, false, false, false, 0, 60),
        "/users/me/teams/team123/threads?page=0&perPage=60"
    );
    assert_eq!(
        user_threads_endpoint("me", "t", Some(99), true, true, true, 1, 20),
        "/users/me/teams/t/threads?page=1&perPage=20&since=99&deleted=true&unread=true&threadsOnly=true"
    );
}
