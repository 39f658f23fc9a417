//! Search requests and results.

use vstd::prelude::*;

verus! {

/// Request body for a user search.
#[derive(Debug, Clone)]
pub struct UserSearchRequest {
    /// Search term to match against username, first name, last name, nickname, or email
    pub term: String,
    /// Limit the search to a team
    pub team_id: Option<String>,
    /// Limit the search to users not in a channel
    pub not_in_channel_id: Option<String>,
    /// Limit the search to users in a channel
    pub in_channel_id: Option<String>,
    /// Allow inactive users to be returned
    pub allow_inactive: Option<bool>,
    /// Limit the search to users without a team
    pub without_team: Option<bool>,
    /// Maximum number of users to return (the server's default is 100)
    pub limit: Option<u32>,
}

impl UserSearchRequest {
    /// A search for `term` with no filters.
    pub fn new(term: String) -> (r: Self)
        ensures
            r == (UserSearchRequest {
                term,
                team_id: None,
                not_in_channel_id: None,
                in_channel_id: None,
                allow_inactive: None,
                without_team: None,
                limit: None,
            }),
    {
        UserSearchRequest {
            term,
            team_id: None,
            not_in_channel_id: None,
            in_channel_id: None,
            allow_inactive: None,
            without_team: None,
            limit: None,
        }
    }

    /// The same search, limited to a team.
    pub fn with_team_id(self, team_id: String) -> (r: Self)
        ensures
            r == (UserSearchRequest { team_id: Some(team_id), ..self }),
    {
        let mut s = self;
        s.team_id = Some(team_id);
        s
    }

    /// The same search, limited to users not in a channel.
    pub fn not_in_channel(self, channel_id: String) -> (r: Self)
        ensures
            r == (UserSearchRequest { not_in_channel_id: Some(channel_id), ..self }),
    {
        let mut s = self;
        s.not_in_channel_id = Some(channel_id);
        s
    }

    /// The same search, limited to users in a channel.
    pub fn in_channel(self, channel_id: String) -> (r: Self)
        ensures
            r == (UserSearchRequest { in_channel_id: Some(channel_id), ..self }),
    {
        let mut s = self;
        s.in_channel_id = Some(channel_id);
        s
    }

    /// The same search, with inactive users allowed or not.
    pub fn allow_inactive(self, allow: bool) -> (r: Self)
        ensures
            r == (UserSearchRequest { allow_inactive: Some(allow), ..self }),
    {
        let mut s = self;
        s.allow_inactive = Some(allow);
        s
    }

    /// The same search, limited to users without a team or not.
    pub fn without_team(self, without: bool) -> (r: Self)
        ensures
            r == (UserSearchRequest { without_team: Some(without), ..self }),
    {
        let mut s = self;
        s.without_team = Some(without);
        s
    }

    /// The same search, returning at most `limit` users.
    pub fn with_limit(self, limit: u32) -> (r: Self)
        ensures
            r == (UserSearchRequest { limit: Some(limit), ..self }),
    {
        let mut s = self;
        s.limit = Some(limit);
        s
    }
}

/// Request body for a channel search.
#[derive(Debug, Clone)]
pub struct ChannelSearchRequest {
    /// Search term to match against channel name or display name
    pub term: String,
}

impl ChannelSearchRequest {
    /// A search for `term`.
    pub fn new(term: String) -> (r: Self)
        ensures
            r == (ChannelSearchRequest { term }),
    {
        ChannelSearchRequest { term }
    }
}

/// Request body for a file search.
#[derive(Debug, Clone)]
pub struct FileSearchRequest {
    /// Search terms
    pub terms: String,
    /// Limit the search to a channel
    pub channel_id: Option<String>,
    /// Filter by file extensions (e.g., "pdf", "png")
    pub ext: Option<Vec<String>>,
    /// Time zone offset in seconds
    pub time_zone_offset: Option<i32>,
}

impl FileSearchRequest {
    /// A search for `terms` with no filters.
    pub fn new(terms: String) -> (r: Self)
        ensures
            r == (FileSearchRequest { terms, channel_id: None, ext: None, time_zone_offset: None }),
    {
        FileSearchRequest { terms, channel_id: None, ext: None, time_zone_offset: None }
    }

    /// The same search, limited to a channel.
    pub fn in_channel(self, channel_id: String) -> (r: Self)
        ensures
            r == (FileSearchRequest { channel_id: Some(channel_id), ..self }),
    {
        let mut s = self;
        s.channel_id = Some(channel_id);
        s
    }

    /// The same search, limited to the given file extensions.
    pub fn with_extensions(self, extensions: Vec<String>) -> (r: Self)
        ensures
            r == (FileSearchRequest { ext: Some(extensions), ..self }),
    {
        let mut s = self;
        s.ext = Some(extensions);
        s
    }

    /// The same search, with the given time zone offset.
    pub fn with_timezone_offset(self, offset: i32) -> (r: Self)
        ensures
            r == (FileSearchRequest { time_zone_offset: Some(offset), ..self }),
    {
        let mut s = self;
        s.time_zone_offset = Some(offset);
        s
    }
}

/// A file search result item.
#[derive(Debug, Clone)]
pub struct FileSearchResult {
    pub id: String,
    pub user_id: String,
    pub post_id: String,
    pub channel_id: String,
    pub create_at: i64,
    pub update_at: i64,
    pub delete_at: i64,
    pub name: String,
    pub extension: String,
    pub size: i64,
    pub mime_type: String,
    pub width: i32,
    pub height: i32,
    pub has_preview_image: bool,
}

/// The response of a file search.
#[derive(Debug, Clone)]
pub struct FileSearchResponse {
    pub file_infos: Vec<FileSearchResult>,
    pub order: Vec<String>,
}

/// Advanced search options for posts.
#[derive(Debug, Clone, Copy)]
pub struct PostSearchOptions {
    /// Match any of the terms rather than all of them
    pub is_or_search: bool,
    /// Include posts in deleted channels
    pub include_deleted_channels: bool,
    /// Time zone offset for date searches
    pub time_zone_offset: i32,
    /// Page of results
    pub page: u32,
    /// Results per page
    pub per_page: u32,
}

impl Default for PostSearchOptions {
    /// Every option off or zero.
    fn default() -> (o: Self)
        ensures
            o == (PostSearchOptions {
                is_or_search: false,
                include_deleted_channels: false,
                time_zone_offset: 0,
                page: 0,
                per_page: 0,
            }),
    {
        PostSearchOptions {
            is_or_search: false,
            include_deleted_channels: false,
            time_zone_offset: 0,
            page: 0,
            per_page: 0,
        }
    }
}

} // verus!
