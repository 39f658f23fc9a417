//! Teams/workspaces/guilds: the units that group channels.

use vstd::prelude::*;
use crate::json::JsonValue;
use crate::text::owned;

verus! {

/// A team/workspace/guild on a chat platform.
#[derive(Debug, Clone)]
pub struct Team {
    /// Unique identifier for this team
    pub id: String,
    /// Team name (unique identifier, often used in URLs)
    pub name: String,
    /// Display name (what users see)
    pub display_name: String,
    /// Team description
    pub description: Option<String>,
    /// Team type (open or invite-only)
    pub team_type: TeamType,
    /// Email domain for automatic team membership
    pub allowed_domains: Option<String>,
    /// Whether users can invite others
    pub allow_open_invite: bool,
    /// Optional platform-specific metadata
    pub metadata: Option<JsonValue>,
}

/// Team type/visibility.
#[derive(Debug, Clone, Copy, PartialEq, Eq, Structural)]
pub enum TeamType {
    /// Open team - anyone can join
    Open,
    /// Invite-only team
    Invite,
}

impl Default for TeamType {
    /// Invite-only.
    fn default() -> (t: Self)
        ensures
            t == TeamType::Invite,
    {
        TeamType::Invite
    }
}

impl Team {
    /// An invite-only team with no description, domains, open invite or metadata.
    pub fn new(id: &str, name: &str, display_name: &str) -> (t: Self)
        ensures
            t.id@ == id@,
            t.name@ == name@,
            t.display_name@ == display_name@,
            t.description is None,
            t.team_type == TeamType::Invite,
            t.allowed_domains is None,
            !t.allow_open_invite,
            t.metadata is None,
    {
        Team {
            id: owned(id),
            name: owned(name),
            display_name: owned(display_name),
            description: None,
            team_type: TeamType::Invite,
            allowed_domains: None,
            allow_open_invite: false,
            metadata: None,
        }
    }

    /// The same team with the given description.
    pub fn with_description(self, description: &str) -> (t: Self)
        ensures
            t.description matches Some(d) && d@ == description@,
            t == (Team { description: t.description, ..self }),
    {
        let mut s = self;
        s.description = Some(owned(description));
        s
    }

    /// The same team with the given type.
    pub fn with_team_type(self, team_type: TeamType) -> (t: Self)
        ensures
            t == (Team { team_type, ..self }),
    {
        let mut s = self;
        s.team_type = team_type;
        s
    }

    /// The same team with the given allowed domains.
    pub fn with_allowed_domains(self, domains: &str) -> (t: Self)
        ensures
            t.allowed_domains matches Some(d) && d@ == domains@,
            t == (Team { allowed_domains: t.allowed_domains, ..self }),
    {
        let mut s = self;
        s.allowed_domains = Some(owned(domains));
        s
    }

    /// The same team with open invites allowed or not.
    pub fn with_open_invite(self, allow: bool) -> (t: Self)
        ensures
            t == (Team { allow_open_invite: allow, ..self }),
    {
        let mut s = self;
        s.allow_open_invite = allow;
        s
    }

    /// The same team with the given metadata.
    pub fn with_metadata(self, metadata: JsonValue) -> (t: Self)
        ensures
            t == (Team { metadata: Some(metadata), ..self }),
    {
        let mut s = self;
        s.metadata = Some(metadata);
        s
    }
}

} // verus!
