//! Platform capabilities: what features a platform implementation supports.

use vstd::prelude::*;
use crate::text::owned;

verus! {

/// Platform capabilities and feature flags.
///
/// Consumers can check these flags before calling optional platform operations.
#[derive(Debug, Clone)]
pub struct PlatformCapabilities {
    /// Platform name (e.g., "mattermost", "slack", "discord")
    pub platform_name: String,
    /// Platform version or API version
    pub platform_version: Option<String>,
    /// Does this platform have workspaces/teams/guilds?
    pub has_workspaces: bool,
    /// Does this platform support threaded conversations?
    pub has_threads: bool,
    /// Can messages be edited after posting?
    pub supports_message_editing: bool,
    /// Can messages be deleted?
    pub supports_message_deletion: bool,
    /// Does the platform support message reactions/emoji?
    pub supports_reactions: bool,
    /// Does the platform support file attachments?
    pub supports_file_attachments: bool,
    /// Does the platform support rich text/markdown?
    pub supports_rich_text: bool,
    /// Does the platform support basic user status (online/away/dnd/offline)?
    pub supports_status: bool,
    /// Does the platform support custom status messages?
    pub supports_custom_status: bool,
    /// Does the platform support user typing indicators?
    pub supports_typing_indicators: bool,
    /// Can users create public channels?
    pub supports_public_channels: bool,
    /// Can users create private channels?
    pub supports_private_channels: bool,
    /// Does the platform support direct messages?
    pub supports_direct_messages: bool,
    /// Does the platform support group direct messages?
    pub supports_group_messages: bool,
    /// Does the platform support real-time event subscriptions?
    pub supports_realtime_events: bool,
    /// Does the platform support webhooks?
    pub supports_webhooks: bool,
    /// Can users search message history?
    pub supports_search: bool,
    /// Can users load message history?
    pub supports_message_history: bool,
}

/// The feature flags of a capabilities value, in declaration order.
pub open spec fn feature_flags(c: PlatformCapabilities) -> Seq<bool> {
    seq![c.has_workspaces, c.has_threads, c.supports_message_editing, c.supports_message_deletion, c.supports_reactions, c.supports_file_attachments, c.supports_rich_text, c.supports_status, c.supports_custom_status, c.supports_typing_indicators, c.supports_public_channels, c.supports_private_channels, c.supports_direct_messages, c.supports_group_messages, c.supports_realtime_events, c.supports_webhooks, c.supports_search, c.supports_message_history]
}

impl PlatformCapabilities {
    /// Capabilities named `platform_name`, with no version and every feature disabled.
    pub fn new(platform_name: &str) -> (c: Self)
        ensures
            c.platform_name@ == platform_name@,
            c.platform_version is None,
            feature_flags(c) == seq![false, false, false, false, false, false, false, false, false, false, false, false, false, false, false, false, false, false],
    {
        PlatformCapabilities {
            platform_name: owned(platform_name),
            platform_version: None,
            has_workspaces: false,
            has_threads: false,
            supports_message_editing: false,
            supports_message_deletion: false,
            supports_reactions: false,
            supports_file_attachments: false,
            supports_rich_text: false,
            supports_status: false,
            supports_custom_status: false,
            supports_typing_indicators: false,
            supports_public_channels: false,
            supports_private_channels: false,
            supports_direct_messages: false,
            supports_group_messages: false,
            supports_realtime_events: false,
            supports_webhooks: false,
            supports_search: false,
            supports_message_history: false,
        }
    }

    /// The same capabilities with the given version.
    pub fn with_version(self, version: &str) -> (c: Self)
        ensures
            c.platform_version matches Some(v) && v@ == version@,
            c == (PlatformCapabilities { platform_version: c.platform_version, ..self }),
    {
        let mut s = self;
        s.platform_version = Some(owned(version));
        s
    }

    /// Enable workspace support (all else unchanged).
    pub fn with_workspaces(self) -> (c: Self)
        ensures
            c == (PlatformCapabilities { has_workspaces: true, ..self }),
    {
        let mut s = self;
        s.has_workspaces = true;
        s
    }

    /// Enable thread support (all else unchanged).
    pub fn with_threads(self) -> (c: Self)
        ensures
            c == (PlatformCapabilities { has_threads: true, ..self }),
    {
        let mut s = self;
        s.has_threads = true;
        s
    }

    /// Enable message editing (all else unchanged).
    pub fn with_message_editing(self) -> (c: Self)
        ensures
            c == (PlatformCapabilities { supports_message_editing: true, ..self }),
    {
        let mut s = self;
        s.supports_message_editing = true;
        s
    }

    /// Enable message deletion (all else unchanged).
    pub fn with_message_deletion(self) -> (c: Self)
        ensures
            c == (PlatformCapabilities { supports_message_deletion: true, ..self }),
    {
        let mut s = self;
        s.supports_message_deletion = true;
        s
    }

    /// Enable reactions (all else unchanged).
    pub fn with_reactions(self) -> (c: Self)
        ensures
            c == (PlatformCapabilities { supports_reactions: true, ..self }),
    {
        let mut s = self;
        s.supports_reactions = true;
        s
    }

    /// Enable file attachments (all else unchanged).
    pub fn with_file_attachments(self) -> (c: Self)
        ensures
            c == (PlatformCapabilities { supports_file_attachments: true, ..self }),
    {
        let mut s = self;
        s.supports_file_attachments = true;
        s
    }

    /// Enable rich text support (all else unchanged).
    pub fn with_rich_text(self) -> (c: Self)
        ensures
            c == (PlatformCapabilities { supports_rich_text: true, ..self }),
    {
        let mut s = self;
        s.supports_rich_text = true;
        s
    }

    /// Enable basic status support (all else unchanged).
    pub fn with_status(self) -> (c: Self)
        ensures
            c == (PlatformCapabilities { supports_status: true, ..self }),
    {
        let mut s = self;
        s.supports_status = true;
        s
    }

    /// Enable custom status messages (all else unchanged).
    pub fn with_custom_status(self) -> (c: Self)
        ensures
            c == (PlatformCapabilities { supports_custom_status: true, ..self }),
    {
        let mut s = self;
        s.supports_custom_status = true;
        s
    }

    /// Enable typing indicators (all else unchanged).
    pub fn with_typing_indicators(self) -> (c: Self)
        ensures
            c == (PlatformCapabilities { supports_typing_indicators: true, ..self }),
    {
        let mut s = self;
        s.supports_typing_indicators = true;
        s
    }

    /// Enable public channels (all else unchanged).
    pub fn with_public_channels(self) -> (c: Self)
        ensures
            c == (PlatformCapabilities { supports_public_channels: true, ..self }),
    {
        let mut s = self;
        s.supports_public_channels = true;
        s
    }

    /// Enable private channels (all else unchanged).
    pub fn with_private_channels(self) -> (c: Self)
        ensures
            c == (PlatformCapabilities { supports_private_channels: true, ..self }),
    {
        let mut s = self;
        s.supports_private_channels = true;
        s
    }

    /// Enable direct messages (all else unchanged).
    pub fn with_direct_messages(self) -> (c: Self)
        ensures
            c == (PlatformCapabilities { supports_direct_messages: true, ..self }),
    {
        let mut s = self;
        s.supports_direct_messages = true;
        s
    }

    /// Enable group messages (all else unchanged).
    pub fn with_group_messages(self) -> (c: Self)
        ensures
            c == (PlatformCapabilities { supports_group_messages: true, ..self }),
    {
        let mut s = self;
        s.supports_group_messages = true;
        s
    }

    /// Enable real-time events (all else unchanged).
    pub fn with_realtime_events(self) -> (c: Self)
        ensures
            c == (PlatformCapabilities { supports_realtime_events: true, ..self }),
    {
        let mut s = self;
        s.supports_realtime_events = true;
        s
    }

    /// Enable webhooks (all else unchanged).
    pub fn with_webhooks(self) -> (c: Self)
        ensures
            c == (PlatformCapabilities { supports_webhooks: true, ..self }),
    {
        let mut s = self;
        s.supports_webhooks = true;
        s
    }

    /// Enable search (all else unchanged).
    pub fn with_search(self) -> (c: Self)
        ensures
            c == (PlatformCapabilities { supports_search: true, ..self }),
    {
        let mut s = self;
        s.supports_search = true;
        s
    }

    /// Enable message history (all else unchanged).
    pub fn with_message_history(self) -> (c: Self)
        ensures
            c == (PlatformCapabilities { supports_message_history: true, ..self }),
    {
        let mut s = self;
        s.supports_message_history = true;
        s
    }
}

/// Preset capabilities for common platforms.
impl PlatformCapabilities {

    /// Capabilities of Mattermost: API "v4", every feature.
    pub fn mattermost() -> (c: Self)
        ensures
            c.platform_name@ == "mattermost"@,
            c.platform_version matches Some(v) && v@ == "v4"@,
            feature_flags(c) == seq![true, true, true, true, true, true, true, true, true, true, true, true, true, true, true, true, true, true],
    {
        let c = PlatformCapabilities::new("mattermost")
            .with_version("v4")
            .with_workspaces()
            .with_threads()
            .with_message_editing()
            .with_message_deletion()
            .with_reactions()
            .with_file_attachments()
            .with_rich_text()
            .with_status()
            .with_custom_status()
            .with_typing_indicators()
            .with_public_channels()
            .with_private_channels()
            .with_direct_messages()
            .with_group_messages()
            .with_realtime_events()
            .with_webhooks()
            .with_search()
            .with_message_history();
        proof {
            reveal_strlit("mattermost");
            reveal_strlit("v4");
        }
        c
    }

    /// Capabilities of Slack: every feature but typing indicators.
    pub fn slack() -> (c: Self)
        ensures
            c.platform_name@ == "slack"@,
            c.platform_version is None,
            feature_flags(c) == seq![true, true, true, true, true, true, true, true, true, false, true, true, true, true, true, true, true, true],
    {
        let c = PlatformCapabilities::new("slack")
            .with_workspaces()
            .with_threads()
            .with_message_editing()
            .with_message_deletion()
            .with_reactions()
            .with_file_attachments()
            .with_rich_text()
            .with_status()
            .with_custom_status()
            .with_public_channels()
            .with_private_channels()
            .with_direct_messages()
            .with_group_messages()
            .with_realtime_events()
            .with_webhooks()
            .with_search()
            .with_message_history();
        proof {
            reveal_strlit("slack");
        }
        c
    }

    /// Capabilities of Discord: every feature but search.
    pub fn discord() -> (c: Self)
        ensures
            c.platform_name@ == "discord"@,
            c.platform_version is None,
            feature_flags(c) == seq![true, true, true, true, true, true, true, true, true, true, true, true, true, true, true, true, false, true],
    {
        let c = PlatformCapabilities::new("discord")
            .with_workspaces()
            .with_threads()
            .with_message_editing()
            .with_message_deletion()
            .with_reactions()
            .with_file_attachments()
            .with_rich_text()
            .with_status()
            .with_custom_status()
            .with_typing_indicators()
            .with_public_channels()
            .with_private_channels()
            .with_direct_messages()
            .with_group_messages()
            .with_realtime_events()
            .with_webhooks()
            .with_message_history();
        proof {
            reveal_strlit("discord");
        }
        c
    }
}

} // verus!
