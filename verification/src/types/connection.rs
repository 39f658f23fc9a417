//! Connection state and information.

use vstd::prelude::*;
use crate::json::JsonValue;
use crate::text::owned;

verus! {

/// Information about an active connection to a platform.
#[derive(Debug, Clone)]
pub struct ConnectionInfo {
    /// Platform identifier (e.g., "mattermost", "slack")
    pub platform: String,
    /// Server URL or identifier
    pub server: String,
    /// Connected user ID
    pub user_id: String,
    /// Connected user's display name
    pub user_display_name: String,
    /// When the connection was established (milliseconds since the Unix epoch)
    pub connected_at: i64,
    /// Current connection state
    pub state: ConnectionState,
    /// Optional team/workspace identifier
    pub team_id: Option<String>,
    /// Optional team/workspace name
    pub team_name: Option<String>,
    /// Optional platform-specific metadata
    pub metadata: Option<JsonValue>,
}

/// Connection state.
#[derive(Debug, Clone, Copy, PartialEq, Eq, Structural)]
pub enum ConnectionState {
    /// Currently connecting/authenticating
    Connecting,
    /// Successfully connected and authenticated
    Connected,
    /// Connection is being closed
    Disconnecting,
    /// Not connected
    Disconnected,
    /// Connection failed or encountered an error
    Error,
    /// Connection is being reconnected
    Reconnecting,
}

impl Default for ConnectionState {
    /// Not connected.
    fn default() -> (s: Self)
        ensures
            s == ConnectionState::Disconnected,
    {
        ConnectionState::Disconnected
    }
}

impl ConnectionInfo {
    /// A connection established now, in the connected state, with no team or metadata.
    pub fn new(platform: &str, server: &str, user_id: &str, user_display_name: &str) -> (c: Self)
        ensures
            c.platform@ == platform@,
            c.server@ == server@,
            c.user_id@ == user_id@,
            c.user_display_name@ == user_display_name@,
            c.state == ConnectionState::Connected,
            c.team_id is None,
            c.team_name is None,
            c.metadata is None,
    {
        ConnectionInfo {
            platform: owned(platform),
            server: owned(server),
            user_id: owned(user_id),
            user_display_name: owned(user_display_name),
            connected_at: crate::clock::now_millis(),
            state: ConnectionState::Connected,
            team_id: None,
            team_name: None,
            metadata: None,
        }
    }

    /// The same connection with the given team.
    pub fn with_team(self, team_id: &str, team_name: &str) -> (c: Self)
        ensures
            c.team_id matches Some(t) && t@ == team_id@,
            c.team_name matches Some(n) && n@ == team_name@,
            c == (ConnectionInfo { team_id: c.team_id, team_name: c.team_name, ..self }),
    {
        let mut s = self;
        s.team_id = Some(owned(team_id));
        s.team_name = Some(owned(team_name));
        s
    }

    /// The same connection in the given state.
    pub fn with_state(self, state: ConnectionState) -> (c: Self)
        ensures
            c == (ConnectionInfo { state, ..self }),
    {
        let mut s = self;
        s.state = state;
        s
    }

    /// The same connection with the given metadata.
    pub fn with_metadata(self, metadata: JsonValue) -> (c: Self)
        ensures
            c == (ConnectionInfo { metadata: Some(metadata), ..self }),
    {
        let mut s = self;
        s.metadata = Some(metadata);
        s
    }

    /// Whether the connection is active.
    pub fn is_connected(&self) -> (b: bool)
        ensures
            b == (self.state == ConnectionState::Connected),
    {
        match self.state {
            ConnectionState::Connected => true,
            _ => false,
        }
    }

    /// Whether a connection is in progress (connecting or reconnecting).
    pub fn is_connecting(&self) -> (b: bool)
        ensures
            b == (self.state == ConnectionState::Connecting
                || self.state == ConnectionState::Reconnecting),
    {
        match self.state {
            ConnectionState::Connecting | ConnectionState::Reconnecting => true,
            _ => false,
        }
    }

    /// Whether the connection has failed.
    pub fn is_error(&self) -> (b: bool)
        ensures
            b == (self.state == ConnectionState::Error),
    {
        match self.state {
            ConnectionState::Error => true,
            _ => false,
        }
    }
}

} // verus!
