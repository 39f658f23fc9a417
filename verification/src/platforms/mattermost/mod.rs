//! The Mattermost adapter: its wire types and the rules that turn server
//! replies into the platform-agnostic types.

pub mod cache;
pub mod channels;
pub mod client;
pub mod endpoints;
pub mod platform;
pub mod convert;
pub mod search;
pub mod types;
pub mod websocket;

pub use client::{CacheConfig, MattermostClient, RateLimitInfo};
pub use convert::{status_string_to_user_status, user_status_to_status_string};
pub use search::{ChannelSearchRequest, FileSearchRequest, FileSearchResponse, FileSearchResult, PostSearchOptions, UserSearchRequest};
pub use types::{MattermostChannelType, MattermostUser, MattermostChannel, MattermostPost, PostMetadata, FileInfo, Reaction, SaveReactionRequest, MattermostTeam, LoginRequest, CreateDirectChannelRequest, CreateGroupChannelRequest, CreatePostRequest, PostList, ChannelMember, ChannelViewRequest, ChannelUnreadInfo, TeamUnread, ChannelViewResponse, WebSocketEvent, WebSocketBroadcast, WebSocketAuthChallenge, WebSocketAuthData, WebSocketAuthResponse, Status, MattermostStatus, CustomStatus, SetStatusRequest, GetStatusesByIdsRequest, MattermostEmoji, MattermostErrorResponse, UserThread, UserThreads, ThreadResponse, NotificationLevel, UserPreference, ChannelNotifyProps, UpdateChannelNotifyPropsRequest, DeletePreferencesRequest};
