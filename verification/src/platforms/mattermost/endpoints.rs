//! The paths of the Mattermost REST API that the client calls, below
//! "/api/v4". Identifiers are put in as given.

use vstd::prelude::*;
use crate::text::{decimal, i64_to_decimal, owned, signed_decimal, u64_to_decimal};

verus! {

/// The path of: a user.
pub open spec fn user_path(user_id: Seq<char>) -> Seq<char> {
    "/users/"@ + user_id
}

/// The path of: a user.
pub fn user_endpoint(user_id: &str) -> (r: String)
    ensures
        r@ == user_path(user_id@),
{
    let mut r = owned("/users/");
    r.append(user_id);
    r
}

/// The path of: a user found by username.
pub open spec fn user_by_username_path(username: Seq<char>) -> Seq<char> {
    "/users/username/"@ + username
}

/// The path of: a user found by username.
pub fn user_by_username_endpoint(username: &str) -> (r: String)
    ensures
        r@ == user_by_username_path(username@),
{
    let mut r = owned("/users/username/");
    r.append(username);
    r
}

/// The path of: a user found by e-mail address.
pub open spec fn user_by_email_path(email: Seq<char>) -> Seq<char> {
    "/users/email/"@ + email
}

/// The path of: a user found by e-mail address.
pub fn user_by_email_endpoint(email: &str) -> (r: String)
    ensures
        r@ == user_by_email_path(email@),
{
    let mut r = owned("/users/email/");
    r.append(email);
    r
}

/// The path of: a user's status.
pub open spec fn user_status_path(user_id: Seq<char>) -> Seq<char> {
    "/users/"@ + user_id + "/status"@
}

/// The path of: a user's status.
pub fn user_status_endpoint(user_id: &str) -> (r: String)
    ensures
        r@ == user_status_path(user_id@),
{
    let mut r = owned("/users/");
    r.append(user_id);
    r.append("/status");
    r
}

/// The path of: a user's custom status.
pub open spec fn user_custom_status_path(user_id: Seq<char>) -> Seq<char> {
    "/users/"@ + user_id + "/status/custom"@
}

/// The path of: a user's custom status.
pub fn user_custom_status_endpoint(user_id: &str) -> (r: String)
    ensures
        r@ == user_custom_status_path(user_id@),
{
    let mut r = owned("/users/");
    r.append(user_id);
    r.append("/status/custom");
    r
}

/// The path of: a team.
pub open spec fn team_path(team_id: Seq<char>) -> Seq<char> {
    "/teams/"@ + team_id
}

/// The path of: a team.
pub fn team_endpoint(team_id: &str) -> (r: String)
    ensures
        r@ == team_path(team_id@),
{
    let mut r = owned("/teams/");
    r.append(team_id);
    r
}

/// The path of: a team found by name.
pub open spec fn team_by_name_path(team_name: Seq<char>) -> Seq<char> {
    "/teams/name/"@ + team_name
}

/// The path of: a team found by name.
pub fn team_by_name_endpoint(team_name: &str) -> (r: String)
    ensures
        r@ == team_by_name_path(team_name@),
{
    let mut r = owned("/teams/name/");
    r.append(team_name);
    r
}

/// The path of: the signed-in user's channels in a team.
pub open spec fn my_team_channels_path(team_id: Seq<char>) -> Seq<char> {
    "/users/me/teams/"@ + team_id + "/channels"@
}

/// The path of: the signed-in user's channels in a team.
pub fn my_team_channels_endpoint(team_id: &str) -> (r: String)
    ensures
        r@ == my_team_channels_path(team_id@),
{
    let mut r = owned("/users/me/teams/");
    r.append(team_id);
    r.append("/channels");
    r
}

/// The path of: a channel.
pub open spec fn channel_path(channel_id: Seq<char>) -> Seq<char> {
    "/channels/"@ + channel_id
}

/// The path of: a channel.
pub fn channel_endpoint(channel_id: &str) -> (r: String)
    ensures
        r@ == channel_path(channel_id@),
{
    let mut r = owned("/channels/");
    r.append(channel_id);
    r
}

/// The path of: a channel found by name in a team.
pub open spec fn channel_by_name_path(team_id: Seq<char>, channel_name: Seq<char>) -> Seq<char> {
    "/teams/"@ + team_id + "/channels/name/"@ + channel_name
}

/// The path of: a channel found by name in a team.
pub fn channel_by_name_endpoint(team_id: &str, channel_name: &str) -> (r: String)
    ensures
        r@ == channel_by_name_path(team_id@, channel_name@),
{
    let mut r = owned("/teams/");
    r.append(team_id);
    r.append("/channels/name/");
    r.append(channel_name);
    r
}

/// The path of: a channel's members.
pub open spec fn channel_members_path(channel_id: Seq<char>) -> Seq<char> {
    "/channels/"@ + channel_id + "/members"@
}

/// The path of: a channel's members.
pub fn channel_members_endpoint(channel_id: &str) -> (r: String)
    ensures
        r@ == channel_members_path(channel_id@),
{
    let mut r = owned("/channels/");
    r.append(channel_id);
    r.append("/members");
    r
}

/// The path of: one member of a channel.
pub open spec fn channel_member_path(channel_id: Seq<char>, user_id: Seq<char>) -> Seq<char> {
    "/channels/"@ + channel_id + "/members/"@ + user_id
}

/// The path of: one member of a channel.
pub fn channel_member_endpoint(channel_id: &str, user_id: &str) -> (r: String)
    ensures
        r@ == channel_member_path(channel_id@, user_id@),
{
    let mut r = owned("/channels/");
    r.append(channel_id);
    r.append("/members/");
    r.append(user_id);
    r
}

/// The path of: marking a channel viewed for a user.
pub open spec fn view_channel_path(user_id: Seq<char>) -> Seq<char> {
    "/channels/members/"@ + user_id + "/view"@
}

/// The path of: marking a channel viewed for a user.
pub fn view_channel_endpoint(user_id: &str) -> (r: String)
    ensures
        r@ == view_channel_path(user_id@),
{
    let mut r = owned("/channels/members/");
    r.append(user_id);
    r.append("/view");
    r
}

/// The path of: a user's unread counts in a channel.
pub open spec fn channel_unread_path(user_id: Seq<char>, channel_id: Seq<char>) -> Seq<char> {
    "/users/"@ + user_id + "/channels/"@ + channel_id + "/unread"@
}

/// The path of: a user's unread counts in a channel.
pub fn channel_unread_endpoint(user_id: &str, channel_id: &str) -> (r: String)
    ensures
        r@ == channel_unread_path(user_id@, channel_id@),
{
    let mut r = owned("/users/");
    r.append(user_id);
    r.append("/channels/");
    r.append(channel_id);
    r.append("/unread");
    r
}

/// The path of: a user's channel memberships in a team.
pub open spec fn team_channel_members_path(user_id: Seq<char>, team_id: Seq<char>) -> Seq<char> {
    "/users/"@ + user_id + "/teams/"@ + team_id + "/channels/members"@
}

/// The path of: a user's channel memberships in a team.
pub fn team_channel_members_endpoint(user_id: &str, team_id: &str) -> (r: String)
    ensures
        r@ == team_channel_members_path(user_id@, team_id@),
{
    let mut r = owned("/users/");
    r.append(user_id);
    r.append("/teams/");
    r.append(team_id);
    r.append("/channels/members");
    r
}

/// The path of: a user's unread counts per team.
pub open spec fn teams_unread_path(user_id: Seq<char>) -> Seq<char> {
    "/users/"@ + user_id + "/teams/unread"@
}

/// The path of: a user's unread counts per team.
pub fn teams_unread_endpoint(user_id: &str) -> (r: String)
    ensures
        r@ == teams_unread_path(user_id@),
{
    let mut r = owned("/users/");
    r.append(user_id);
    r.append("/teams/unread");
    r
}

/// The path of: a page of custom emojis.
pub open spec fn emoji_list_path(page: u32, per_page: u32, sort: Seq<char>) -> Seq<char> {
    "/emoji?page="@ + decimal(page as nat) + "&per_page="@ + decimal(per_page as nat) + "&sort="@ + sort
}

/// The path of: a page of custom emojis.
pub fn emoji_list_endpoint(page: u32, per_page: u32, sort: &str) -> (r: String)
    ensures
        r@ == emoji_list_path(page, per_page, sort@),
{
    let mut r = owned("/emoji?page=");
    let page_text = u64_to_decimal(page as u64);
    r.append(page_text.as_str());
    r.append("&per_page=");
    let per_page_text = u64_to_decimal(per_page as u64);
    r.append(per_page_text.as_str());
    r.append("&sort=");
    r.append(sort);
    r
}

/// The path of: a custom emoji.
pub open spec fn emoji_path(emoji_id: Seq<char>) -> Seq<char> {
    "/emoji/"@ + emoji_id
}

/// The path of: a custom emoji.
pub fn emoji_endpoint(emoji_id: &str) -> (r: String)
    ensures
        r@ == emoji_path(emoji_id@),
{
    let mut r = owned("/emoji/");
    r.append(emoji_id);
    r
}

/// The path of: a custom emoji found by name.
pub open spec fn emoji_by_name_path(emoji_name: Seq<char>) -> Seq<char> {
    "/emoji/name/"@ + emoji_name
}

/// The path of: a custom emoji found by name.
pub fn emoji_by_name_endpoint(emoji_name: &str) -> (r: String)
    ensures
        r@ == emoji_by_name_path(emoji_name@),
{
    let mut r = owned("/emoji/name/");
    r.append(emoji_name);
    r
}

/// The path of: a file's content.
pub open spec fn file_path(file_id: Seq<char>) -> Seq<char> {
    "/files/"@ + file_id
}

/// The path of: a file's content.
pub fn file_endpoint(file_id: &str) -> (r: String)
    ensures
        r@ == file_path(file_id@),
{
    let mut r = owned("/files/");
    r.append(file_id);
    r
}

/// The path of: a file's metadata.
pub open spec fn file_info_path(file_id: Seq<char>) -> Seq<char> {
    "/files/"@ + file_id + "/info"@
}

/// The path of: a file's metadata.
pub fn file_info_endpoint(file_id: &str) -> (r: String)
    ensures
        r@ == file_info_path(file_id@),
{
    let mut r = owned("/files/");
    r.append(file_id);
    r.append("/info");
    r
}

/// The path of: a file's thumbnail.
pub open spec fn file_thumbnail_path(file_id: Seq<char>) -> Seq<char> {
    "/files/"@ + file_id + "/thumbnail"@
}

/// The path of: a file's thumbnail.
pub fn file_thumbnail_endpoint(file_id: &str) -> (r: String)
    ensures
        r@ == file_thumbnail_path(file_id@),
{
    let mut r = owned("/files/");
    r.append(file_id);
    r.append("/thumbnail");
    r
}

/// The path of: a file's preview.
pub open spec fn file_preview_path(file_id: Seq<char>) -> Seq<char> {
    "/files/"@ + file_id + "/preview"@
}

/// The path of: a file's preview.
pub fn file_preview_endpoint(file_id: &str) -> (r: String)
    ensures
        r@ == file_preview_path(file_id@),
{
    let mut r = owned("/files/");
    r.append(file_id);
    r.append("/preview");
    r
}

/// The path of: a file's public link.
pub open spec fn file_link_path(file_id: Seq<char>) -> Seq<char> {
    "/files/"@ + file_id + "/link"@
}

/// The path of: a file's public link.
pub fn file_link_endpoint(file_id: &str) -> (r: String)
    ensures
        r@ == file_link_path(file_id@),
{
    let mut r = owned("/files/");
    r.append(file_id);
    r.append("/link");
    r
}

/// The path of: pinning a post.
pub open spec fn pin_post_path(post_id: Seq<char>) -> Seq<char> {
    "/posts/"@ + post_id + "/pin"@
}

/// The path of: pinning a post.
pub fn pin_post_endpoint(post_id: &str) -> (r: String)
    ensures
        r@ == pin_post_path(post_id@),
{
    let mut r = owned("/posts/");
    r.append(post_id);
    r.append("/pin");
    r
}

/// The path of: unpinning a post.
pub open spec fn unpin_post_path(post_id: Seq<char>) -> Seq<char> {
    "/posts/"@ + post_id + "/unpin"@
}

/// The path of: unpinning a post.
pub fn unpin_post_endpoint(post_id: &str) -> (r: String)
    ensures
        r@ == unpin_post_path(post_id@),
{
    let mut r = owned("/posts/");
    r.append(post_id);
    r.append("/unpin");
    r
}

/// The path of: a channel's pinned posts.
pub open spec fn pinned_posts_path(channel_id: Seq<char>) -> Seq<char> {
    "/channels/"@ + channel_id + "/pinned"@
}

/// The path of: a channel's pinned posts.
pub fn pinned_posts_endpoint(channel_id: &str) -> (r: String)
    ensures
        r@ == pinned_posts_path(channel_id@),
{
    let mut r = owned("/channels/");
    r.append(channel_id);
    r.append("/pinned");
    r
}

/// The path of: a post.
pub open spec fn post_path(post_id: Seq<char>) -> Seq<char> {
    "/posts/"@ + post_id
}

/// The path of: a post.
pub fn post_endpoint(post_id: &str) -> (r: String)
    ensures
        r@ == post_path(post_id@),
{
    let mut r = owned("/posts/");
    r.append(post_id);
    r
}

/// The path of: a page of a channel's posts.
pub open spec fn channel_posts_path(channel_id: Seq<char>, page: u32, per_page: u32) -> Seq<char> {
    "/channels/"@ + channel_id + "/posts?page="@ + decimal(page as nat) + "&per_page="@ + decimal(per_page as nat)
}

/// The path of: a page of a channel's posts.
pub fn channel_posts_endpoint(channel_id: &str, page: u32, per_page: u32) -> (r: String)
    ensures
        r@ == channel_posts_path(channel_id@, page, per_page),
{
    let mut r = owned("/channels/");
    r.append(channel_id);
    r.append("/posts?page=");
    let page_text = u64_to_decimal(page as u64);
    r.append(page_text.as_str());
    r.append("&per_page=");
    let per_page_text = u64_to_decimal(per_page as u64);
    r.append(per_page_text.as_str());
    r
}

/// The path of: a channel's posts before a post.
pub open spec fn posts_before_path(channel_id: Seq<char>, post_id: Seq<char>, per_page: u32) -> Seq<char> {
    "/channels/"@ + channel_id + "/posts?before="@ + post_id + "&per_page="@ + decimal(per_page as nat)
}

/// The path of: a channel's posts before a post.
pub fn posts_before_endpoint(channel_id: &str, post_id: &str, per_page: u32) -> (r: String)
    ensures
        r@ == posts_before_path(channel_id@, post_id@, per_page),
{
    let mut r = owned("/channels/");
    r.append(channel_id);
    r.append("/posts?before=");
    r.append(post_id);
    r.append("&per_page=");
    let per_page_text = u64_to_decimal(per_page as u64);
    r.append(per_page_text.as_str());
    r
}

/// The path of: a channel's posts after a post.
pub open spec fn posts_after_path(channel_id: Seq<char>, post_id: Seq<char>, per_page: u32) -> Seq<char> {
    "/channels/"@ + channel_id + "/posts?after="@ + post_id + "&per_page="@ + decimal(per_page as nat)
}

/// The path of: a channel's posts after a post.
pub fn posts_after_endpoint(channel_id: &str, post_id: &str, per_page: u32) -> (r: String)
    ensures
        r@ == posts_after_path(channel_id@, post_id@, per_page),
{
    let mut r = owned("/channels/");
    r.append(channel_id);
    r.append("/posts?after=");
    r.append(post_id);
    r.append("&per_page=");
    let per_page_text = u64_to_decimal(per_page as u64);
    r.append(per_page_text.as_str());
    r
}

/// The path of: searching a team's posts.
pub open spec fn team_posts_search_path(team_id: Seq<char>) -> Seq<char> {
    "/teams/"@ + team_id + "/posts/search"@
}

/// The path of: searching a team's posts.
pub fn team_posts_search_endpoint(team_id: &str) -> (r: String)
    ensures
        r@ == team_posts_search_path(team_id@),
{
    let mut r = owned("/teams/");
    r.append(team_id);
    r.append("/posts/search");
    r
}

/// The path of: a user's preferences.
pub open spec fn preferences_path(user_id: Seq<char>) -> Seq<char> {
    "/users/"@ + user_id + "/preferences"@
}

/// The path of: a user's preferences.
pub fn preferences_endpoint(user_id: &str) -> (r: String)
    ensures
        r@ == preferences_path(user_id@),
{
    let mut r = owned("/users/");
    r.append(user_id);
    r.append("/preferences");
    r
}

/// The path of: deleting some of a user's preferences.
pub open spec fn preferences_delete_path(user_id: Seq<char>) -> Seq<char> {
    "/users/"@ + user_id + "/preferences/delete"@
}

/// The path of: deleting some of a user's preferences.
pub fn preferences_delete_endpoint(user_id: &str) -> (r: String)
    ensures
        r@ == preferences_delete_path(user_id@),
{
    let mut r = owned("/users/");
    r.append(user_id);
    r.append("/preferences/delete");
    r
}

/// The path of: a user's preferences in a category.
pub open spec fn preferences_in_category_path(user_id: Seq<char>, category: Seq<char>) -> Seq<char> {
    "/users/"@ + user_id + "/preferences/"@ + category
}

/// The path of: a user's preferences in a category.
pub fn preferences_in_category_endpoint(user_id: &str, category: &str) -> (r: String)
    ensures
        r@ == preferences_in_category_path(user_id@, category@),
{
    let mut r = owned("/users/");
    r.append(user_id);
    r.append("/preferences/");
    r.append(category);
    r
}

/// The path of: one of a user's preferences.
pub open spec fn preference_path(user_id: Seq<char>, category: Seq<char>, name: Seq<char>) -> Seq<char> {
    "/users/"@ + user_id + "/preferences/"@ + category + "/name/"@ + name
}

/// The path of: one of a user's preferences.
pub fn preference_endpoint(user_id: &str, category: &str, name: &str) -> (r: String)
    ensures
        r@ == preference_path(user_id@, category@, name@),
{
    let mut r = owned("/users/");
    r.append(user_id);
    r.append("/preferences/");
    r.append(category);
    r.append("/name/");
    r.append(name);
    r
}

/// The path of: a member's notification settings in a channel.
pub open spec fn channel_notify_props_path(channel_id: Seq<char>, user_id: Seq<char>) -> Seq<char> {
    "/channels/"@ + channel_id + "/members/"@ + user_id + "/notify_props"@
}

/// The path of: a member's notification settings in a channel.
pub fn channel_notify_props_endpoint(channel_id: &str, user_id: &str) -> (r: String)
    ensures
        r@ == channel_notify_props_path(channel_id@, user_id@),
{
    let mut r = owned("/channels/");
    r.append(channel_id);
    r.append("/members/");
    r.append(user_id);
    r.append("/notify_props");
    r
}

/// The path of: a user's reaction to a post.
pub open spec fn reaction_path(user_id: Seq<char>, post_id: Seq<char>, emoji_name: Seq<char>) -> Seq<char> {
    "/users/"@ + user_id + "/posts/"@ + post_id + "/reactions/"@ + emoji_name
}

/// The path of: a user's reaction to a post.
pub fn reaction_endpoint(user_id: &str, post_id: &str, emoji_name: &str) -> (r: String)
    ensures
        r@ == reaction_path(user_id@, post_id@, emoji_name@),
{
    let mut r = owned("/users/");
    r.append(user_id);
    r.append("/posts/");
    r.append(post_id);
    r.append("/reactions/");
    r.append(emoji_name);
    r
}

/// The path of: a post's reactions.
pub open spec fn post_reactions_path(post_id: Seq<char>) -> Seq<char> {
    "/posts/"@ + post_id + "/reactions"@
}

/// The path of: a post's reactions.
pub fn post_reactions_endpoint(post_id: &str) -> (r: String)
    ensures
        r@ == post_reactions_path(post_id@),
{
    let mut r = owned("/posts/");
    r.append(post_id);
    r.append("/reactions");
    r
}

/// The path of: searching a team's channels.
pub open spec fn team_channels_search_path(team_id: Seq<char>) -> Seq<char> {
    "/teams/"@ + team_id + "/channels/search"@
}

/// The path of: searching a team's channels.
pub fn team_channels_search_endpoint(team_id: &str) -> (r: String)
    ensures
        r@ == team_channels_search_path(team_id@),
{
    let mut r = owned("/teams/");
    r.append(team_id);
    r.append("/channels/search");
    r
}

/// The path of: channel name completion in a team.
pub open spec fn channel_autocomplete_path(team_id: Seq<char>, name: Seq<char>) -> Seq<char> {
    "/teams/"@ + team_id + "/channels/autocomplete?name="@ + name
}

/// The path of: channel name completion in a team.
pub fn channel_autocomplete_endpoint(team_id: &str, name: &str) -> (r: String)
    ensures
        r@ == channel_autocomplete_path(team_id@, name@),
{
    let mut r = owned("/teams/");
    r.append(team_id);
    r.append("/channels/autocomplete?name=");
    r.append(name);
    r
}

/// The path of: searching a team's files.
pub open spec fn team_files_search_path(team_id: Seq<char>) -> Seq<char> {
    "/teams/"@ + team_id + "/files/search"@
}

/// The path of: searching a team's files.
pub fn team_files_search_endpoint(team_id: &str) -> (r: String)
    ensures
        r@ == team_files_search_path(team_id@),
{
    let mut r = owned("/teams/");
    r.append(team_id);
    r.append("/files/search");
    r
}

/// The path of: the thread a post belongs to.
pub open spec fn post_thread_path(post_id: Seq<char>) -> Seq<char> {
    "/posts/"@ + post_id + "/thread"@
}

/// The path of: the thread a post belongs to.
pub fn post_thread_endpoint(post_id: &str) -> (r: String)
    ensures
        r@ == post_thread_path(post_id@),
{
    let mut r = owned("/posts/");
    r.append(post_id);
    r.append("/thread");
    r
}

/// The path of: a thread a user follows.
pub open spec fn user_thread_path(user_id: Seq<char>, team_id: Seq<char>, thread_id: Seq<char>) -> Seq<char> {
    "/users/"@ + user_id + "/teams/"@ + team_id + "/threads/"@ + thread_id
}

/// The path of: a thread a user follows.
pub fn user_thread_endpoint(user_id: &str, team_id: &str, thread_id: &str) -> (r: String)
    ensures
        r@ == user_thread_path(user_id@, team_id@, thread_id@),
{
    let mut r = owned("/users/");
    r.append(user_id);
    r.append("/teams/");
    r.append(team_id);
    r.append("/threads/");
    r.append(thread_id);
    r
}

/// The path of: following or unfollowing a thread.
pub open spec fn thread_following_path(user_id: Seq<char>, team_id: Seq<char>, thread_id: Seq<char>) -> Seq<char> {
    "/users/"@ + user_id + "/teams/"@ + team_id + "/threads/"@ + thread_id + "/following"@
}

/// The path of: following or unfollowing a thread.
pub fn thread_following_endpoint(user_id: &str, team_id: &str, thread_id: &str) -> (r: String)
    ensures
        r@ == thread_following_path(user_id@, team_id@, thread_id@),
{
    let mut r = owned("/users/");
    r.append(user_id);
    r.append("/teams/");
    r.append(team_id);
    r.append("/threads/");
    r.append(thread_id);
    r.append("/following");
    r
}

/// The path of: marking a thread read up to a time.
pub open spec fn thread_read_path(user_id: Seq<char>, team_id: Seq<char>, thread_id: Seq<char>, timestamp: i64) -> Seq<char> {
    "/users/"@ + user_id + "/teams/"@ + team_id + "/threads/"@ + thread_id + "/read/"@ + signed_decimal(timestamp as int)
}

/// The path of: marking a thread read up to a time.
pub fn thread_read_endpoint(user_id: &str, team_id: &str, thread_id: &str, timestamp: i64) -> (r: String)
    ensures
        r@ == thread_read_path(user_id@, team_id@, thread_id@, timestamp),
{
    let mut r = owned("/users/");
    r.append(user_id);
    r.append("/teams/");
    r.append(team_id);
    r.append("/threads/");
    r.append(thread_id);
    r.append("/read/");
    let timestamp_text = i64_to_decimal(timestamp);
    r.append(timestamp_text.as_str());
    r
}

/// The path of: marking a thread unread from a post.
pub open spec fn thread_set_unread_path(user_id: Seq<char>, team_id: Seq<char>, thread_id: Seq<char>, post_id: Seq<char>) -> Seq<char> {
    "/users/"@ + user_id + "/teams/"@ + team_id + "/threads/"@ + thread_id + "/set_unread/"@ + post_id
}

/// The path of: marking a thread unread from a post.
pub fn thread_set_unread_endpoint(user_id: &str, team_id: &str, thread_id: &str, post_id: &str) -> (r: String)
    ensures
        r@ == thread_set_unread_path(user_id@, team_id@, thread_id@, post_id@),
{
    let mut r = owned("/users/");
    r.append(user_id);
    r.append("/teams/");
    r.append(team_id);
    r.append("/threads/");
    r.append(thread_id);
    r.append("/set_unread/");
    r.append(post_id);
    r
}

/// The path of: marking all of a user's threads in a team read.
pub open spec fn threads_read_path(user_id: Seq<char>, team_id: Seq<char>) -> Seq<char> {
    "/users/"@ + user_id + "/teams/"@ + team_id + "/threads/read"@
}

/// The path of: marking all of a user's threads in a team read.
pub fn threads_read_endpoint(user_id: &str, team_id: &str) -> (r: String)
    ensures
        r@ == threads_read_path(user_id@, team_id@),
{
    let mut r = owned("/users/");
    r.append(user_id);
    r.append("/teams/");
    r.append(team_id);
    r.append("/threads/read");
    r
}

/// The path of: a user's posts around the first unread one in a channel.
pub open spec fn posts_unread_path(user_id: Seq<char>, channel_id: Seq<char>) -> Seq<char> {
    "/users/"@ + user_id + "/channels/"@ + channel_id + "/posts/unread"@
}

/// The path of: a user's posts around the first unread one in a channel.
pub fn posts_unread_endpoint(user_id: &str, channel_id: &str) -> (r: String)
    ensures
        r@ == posts_unread_path(user_id@, channel_id@),
{
    let mut r = owned("/users/");
    r.append(user_id);
    r.append("/channels/");
    r.append(channel_id);
    r.append("/posts/unread");
    r
}

/// The optional query of the posts around the first unread post: the
/// limits given, as "limit_before=..." and "limit_after=...", joined by "&"
/// after a "?" (nothing when neither is given).
pub open spec fn unread_window_query(limit_before: Option<i32>, limit_after: Option<i32>) -> Seq<char> {
    match (limit_before, limit_after) {
        (None, None) => Seq::empty(),
        (Some(b), None) => "?limit_before="@ + signed_decimal(b as int),
        (None, Some(a)) => "?limit_after="@ + signed_decimal(a as int),
        (Some(b), Some(a)) => "?limit_before="@ + signed_decimal(b as int) + "&limit_after="@ + signed_decimal(a as int),
    }
}

/// The path of: a channel's posts around the first unread one.
pub open spec fn posts_around_unread_path(channel_id: Seq<char>, limit_before: Option<i32>, limit_after: Option<i32>) -> Seq<char> {
    "/channels/"@ + channel_id + "/posts/unread"@ + unread_window_query(limit_before, limit_after)
}

/// The path of: a channel's posts around the first unread one.
pub fn posts_around_unread_endpoint(channel_id: &str, limit_before: Option<i32>, limit_after: Option<i32>) -> (r: String)
    ensures
        r@ == posts_around_unread_path(channel_id@, limit_before, limit_after),
{
    let mut r = owned("/channels/");
    r.append(channel_id);
    r.append("/posts/unread");
    match (limit_before, limit_after) {
        (None, None) => {},
        (Some(b), None) => {
            r.append("?limit_before=");
            let t = i64_to_decimal(b as i64);
            r.append(t.as_str());
        },
        (None, Some(a)) => {
            r.append("?limit_after=");
            let t = i64_to_decimal(a as i64);
            r.append(t.as_str());
        },
        (Some(b), Some(a)) => {
            r.append("?limit_before=");
            let t = i64_to_decimal(b as i64);
            r.append(t.as_str());
            r.append("&limit_after=");
            let u = i64_to_decimal(a as i64);
            r.append(u.as_str());
        },
    }
    proof {
        assert(r@ =~= posts_around_unread_path(channel_id@, limit_before, limit_after));
    }
    r
}

/// The path of: a user's posts around the first unread one in a channel,
/// with at most `limit_after` posts after it when given.
pub open spec fn posts_unread_limited_path(user_id: Seq<char>, channel_id: Seq<char>, limit_after: Option<i32>) -> Seq<char> {
    posts_unread_path(user_id, channel_id) + match limit_after {
        Some(a) => "?limit_after="@ + signed_decimal(a as int),
        None => Seq::empty(),
    }
}

/// The path of: a user's posts around the first unread one in a channel,
/// with at most `limit_after` posts after it when given.
pub fn posts_unread_limited_endpoint(user_id: &str, channel_id: &str, limit_after: Option<i32>) -> (r: String)
    ensures
        r@ == posts_unread_limited_path(user_id@, channel_id@, limit_after),
{
    let mut r = posts_unread_endpoint(user_id, channel_id);
    match limit_after {
        Some(a) => {
            r.append("?limit_after=");
            let t = i64_to_decimal(a as i64);
            r.append(t.as_str());
            proof {
                assert(r@ =~= posts_unread_limited_path(user_id@, channel_id@, limit_after));
            }
        },
        None => {
            assert(r@ =~= posts_unread_limited_path(user_id@, channel_id@, limit_after));
        },
    }
    r
}

/// The path of: user name completion in a team and channel, with at most
/// `limit` results when given.
pub open spec fn users_autocomplete_path(team_id: Seq<char>, channel_id: Seq<char>, name: Seq<char>, limit: Option<u32>) -> Seq<char> {
    "/users/autocomplete?in_team="@ + team_id + "&in_channel="@ + channel_id + "&name="@ + name + match limit {
        Some(l) => "&limit="@ + decimal(l as nat),
        None => Seq::empty(),
    }
}

/// The path of: user name completion in a team and channel.
pub fn users_autocomplete_endpoint(team_id: &str, channel_id: &str, name: &str, limit: Option<u32>) -> (r: String)
    ensures
        r@ == users_autocomplete_path(team_id@, channel_id@, name@, limit),
{
    let mut r = owned("/users/autocomplete?in_team=");
    r.append(team_id);
    r.append("&in_channel=");
    r.append(channel_id);
    r.append("&name=");
    r.append(name);
    match limit {
        Some(l) => {
            r.append("&limit=");
            let t = u64_to_decimal(l as u64);
            r.append(t.as_str());
        },
        None => {},
    }
    proof {
        assert(r@ =~= users_autocomplete_path(team_id@, channel_id@, name@, limit));
    }
    r
}

/// The path of: a page of the threads a user follows in a team, with the
/// filters given.
pub open spec fn user_threads_path(
    user_id: Seq<char>,
    team_id: Seq<char>,
    since: Option<i64>,
    deleted: bool,
    unread: bool,
    threads_only: bool,
    page: u32,
    per_page: u32,
) -> Seq<char> {
    "/users/"@ + user_id + "/teams/"@ + team_id + "/threads?page="@ + decimal(page as nat) + "&perPage="@ + decimal(per_page as nat)
        + (match since { Some(t) => "&since="@ + signed_decimal(t as int), None => Seq::empty() })
        + (if deleted { "&deleted=true"@ } else { Seq::empty() })
        + (if unread { "&unread=true"@ } else { Seq::empty() })
        + (if threads_only { "&threadsOnly=true"@ } else { Seq::empty() })
}

/// The path of: a page of the threads a user follows in a team.
pub fn user_threads_endpoint(
    user_id: &str,
    team_id: &str,
    since: Option<i64>,
    deleted: bool,
    unread: bool,
    threads_only: bool,
    page: u32,
    per_page: u32,
) -> (r: String)
    ensures
        r@ == user_threads_path(user_id@, team_id@, since, deleted, unread, threads_only, page, per_page),
{
    let mut r = owned("/users/");
    r.append(user_id);
    r.append("/teams/");
    r.append(team_id);
    r.append("/threads?page=");
    let p = u64_to_decimal(page as u64);
    r.append(p.as_str());
    r.append("&perPage=");
    let q = u64_to_decimal(per_page as u64);
    r.append(q.as_str());
    let ghost base = r@;
    match since {
        Some(t) => {
            r.append("&since=");
            let s = i64_to_decimal(t);
            r.append(s.as_str());
        },
        None => {},
    }
    let ghost with_since = r@;
    if deleted {
        r.append("&deleted=true");
    }
    let ghost with_deleted = r@;
    if unread {
        r.append("&unread=true");
    }
    let ghost with_unread = r@;
    if threads_only {
        r.append("&threadsOnly=true");
    }
    proof {
        assert(with_since =~= base + (match since { Some(t) => "&since="@ + signed_decimal(t as int), None => Seq::<char>::empty() }));
        assert(with_deleted =~= with_since + (if deleted { "&deleted=true"@ } else { Seq::<char>::empty() }));
        assert(with_unread =~= with_deleted + (if unread { "&unread=true"@ } else { Seq::<char>::empty() }));
        assert(r@ =~= with_unread + (if threads_only { "&threadsOnly=true"@ } else { Seq::<char>::empty() }));
    }
    r
}

/// The path for a channel's posts before a post names the post in a
/// "before=" query right after the channel's posts path, and so differs from
/// the path for the posts after the same post.
pub proof fn law_posts_before_is_not_after(channel_id: Seq<char>, post_id: Seq<char>, per_page: u32)
    ensures
        posts_before_path(channel_id, post_id, per_page).subrange(10 + channel_id.len() as int, 24 + channel_id.len() as int)
            == "/posts?before="@,
        posts_before_path(channel_id, post_id, per_page).subrange(24 + channel_id.len() as int, 24 + channel_id.len() + post_id.len() as int)
            == post_id,
        posts_before_path(channel_id, post_id, per_page) != posts_after_path(channel_id, post_id, per_page),
{
    reveal_strlit("/channels/");
    reveal_strlit("/posts?before=");
    reveal_strlit("/posts?after=");
    let b = posts_before_path(channel_id, post_id, per_page);
    let a = posts_after_path(channel_id, post_id, per_page);
    let k: int = 10 + channel_id.len() as int;
    assert(b.subrange(k, k + 14) =~= "/posts?before="@);
    assert(b.subrange(k + 14, k + 14 + post_id.len()) =~= post_id);
    assert(b[k + 7] == 'b');
    assert(a[k + 7] == 'a');
}

} // verus!
