//! The rules of the Mattermost WebSocket connection: its address, the state
//! machine that tracks connecting, reconnecting and shutting down, the
//! sequence numbers of messages sent and received, and how a server event
//! becomes a platform event. The socket itself is driven outside the library,
//! which reports to the session what happened and asks it what to do next.

use vstd::prelude::*;
use crate::json::{get, get_str, get_str_or_empty, lookup, str_at, str_or_empty, JsonValue};
use crate::platforms::config::PlatformEvent;
use crate::text::{owned, replace_all, replace_str, str_eq};
use crate::types::channel::Channel;
use crate::types::message::Message;
use crate::types::user::UserStatus;
use super::convert::{channel_converted, message_converted, status_of_word, status_string_to_user_status};
use super::types::{MattermostChannel, MattermostPost, WebSocketEvent};

verus! {

/// The state of the WebSocket connection.
#[derive(Debug, Clone, Copy, PartialEq, Eq, Structural)]
pub enum ConnectionState {
    /// Not connected
    Disconnected,
    /// Attempting to connect
    Connecting,
    /// Connected and authenticated
    Connected,
    /// Attempting to reconnect after the connection was lost
    Reconnecting,
    /// Shutting down at the caller's request
    ShuttingDown,
}

/// The WebSocket address of a server: "https://" becomes "wss://", then
/// "http://" becomes "ws://", and "/api/v4/websocket" is appended.
pub open spec fn ws_url_of(base_url: Seq<char>) -> Seq<char> {
    replace_all(replace_all(base_url, "https://"@, "wss://"@), "http://"@, "ws://"@) + "/api/v4/websocket"@
}

/// The WebSocket address of the server at `base_url`.
pub fn ws_url_for(base_url: &str) -> (r: String)
    ensures
        r@ == ws_url_of(base_url@),
{
    proof {
        reveal_strlit("https://");
        reveal_strlit("http://");
    }
    let a = replace_str(base_url, "https://", "wss://");
    let mut b = replace_str(a.as_str(), "http://", "ws://");
    b.append("/api/v4/websocket");
    b
}

/// What a [`WsSession`] holds.
pub struct WsSessionView {
    pub state: ConnectionState,
    pub reconnect_attempts: u32,
    pub seq_number: i64,
    pub last_received_seq: i64,
}

/// The state of a WebSocket connection as the library tracks it: the
/// connection state, how many reconnection attempts have been made since the
/// last successful connection, the sequence number of the next message to
/// send, and the last sequence number received.
pub struct WsSession {
    state: ConnectionState,
    reconnect_attempts: u32,
    seq_number: i64,
    last_received_seq: i64,
}

impl View for WsSession {
    type V = WsSessionView;

    closed spec fn view(&self) -> WsSessionView {
        WsSessionView {
            state: self.state,
            reconnect_attempts: self.reconnect_attempts,
            seq_number: self.seq_number,
            last_received_seq: self.last_received_seq,
        }
    }
}

/// The outcome of one step of the reconnection loop, taken from session
/// `s` with at most `max_attempts` attempts in a row: when the attempts are
/// used up the session is disconnected and the loop gives up (`None`);
/// otherwise the attempt counter goes up by one, the session is reconnecting,
/// and the step gives the number of attempts made before it.
pub open spec fn reconnect_step(s: WsSessionView, max_attempts: Option<u32>) -> (WsSessionView, Option<u32>) {
    if max_attempts matches Some(m) && s.reconnect_attempts >= m {
        (WsSessionView { state: ConnectionState::Disconnected, ..s }, None)
    } else {
        (
            WsSessionView { state: ConnectionState::Reconnecting, reconnect_attempts: (s.reconnect_attempts + 1) as u32, ..s },
            Some(s.reconnect_attempts),
        )
    }
}

/// The number of events missed when a message numbered `seq` arrives after
/// the one numbered `last`: positive only when both are known (positive) and
/// `seq` skips past `last + 1`.
pub open spec fn seq_gap(last: i64, seq: i64) -> int {
    if seq > 0 && last > 0 && seq > last + 1 {
        seq - (last + 1)
    } else {
        0
    }
}

impl WsSession {
    /// A session that is not connected, with no attempts made, the first
    /// message to send numbered 1 and nothing received yet.
    pub fn new() -> (s: Self)
        ensures
            s@ == (WsSessionView {
                state: ConnectionState::Disconnected,
                reconnect_attempts: 0,
                seq_number: 1,
                last_received_seq: 0,
            }),
    {
        WsSession { state: ConnectionState::Disconnected, reconnect_attempts: 0, seq_number: 1, last_received_seq: 0 }
    }

    /// The connection state.
    pub fn get_connection_state(&self) -> (r: ConnectionState)
        ensures
            r == self@.state,
    {
        self.state
    }

    /// The number of reconnection attempts since the last successful connection.
    pub fn reconnect_attempts(&self) -> (r: u32)
        ensures
            r == self@.reconnect_attempts,
    {
        self.reconnect_attempts
    }

    /// Start the count of reconnection attempts afresh.
    pub fn reset_reconnect_attempts(&mut self)
        ensures
            final(self)@ == (WsSessionView { reconnect_attempts: 0, ..old(self)@ }),
    {
        self.reconnect_attempts = 0;
    }

    /// A connection attempt begins.
    pub fn begin_connect(&mut self)
        ensures
            final(self)@ == (WsSessionView { state: ConnectionState::Connecting, ..old(self)@ }),
    {
        self.state = ConnectionState::Connecting;
    }

    /// The first connection attempt failed.
    pub fn connect_failed(&mut self)
        ensures
            final(self)@ == (WsSessionView { state: ConnectionState::Disconnected, ..old(self)@ }),
    {
        self.state = ConnectionState::Disconnected;
    }

    /// The socket is open and the authentication challenge was sent: the
    /// session is connected and the attempt counter starts afresh.
    pub fn authenticated(&mut self)
        ensures
            final(self)@ == (WsSessionView { state: ConnectionState::Connected, reconnect_attempts: 0, ..old(self)@ }),
    {
        self.state = ConnectionState::Connected;
        self.reconnect_attempts = 0;
    }

    /// The connection was lost: the server closed it, the stream ended or
    /// failed, or a ping or pong could not be sent.
    pub fn connection_lost(&mut self)
        ensures
            final(self)@ == (WsSessionView { state: ConnectionState::Disconnected, ..old(self)@ }),
    {
        self.state = ConnectionState::Disconnected;
    }

    /// The reading task saw the shutdown signal.
    pub fn shutdown_received(&mut self)
        ensures
            final(self)@ == (WsSessionView { state: ConnectionState::ShuttingDown, ..old(self)@ }),
    {
        self.state = ConnectionState::ShuttingDown;
    }

    /// The caller asks to disconnect. When the session is already shutting
    /// down or disconnected nothing happens (`false`); otherwise it is
    /// shutting down and the shutdown signal is to be sent (`true`).
    pub fn request_disconnect(&mut self) -> (send_signal: bool)
        ensures
            send_signal == !(old(self)@.state == ConnectionState::ShuttingDown
                || old(self)@.state == ConnectionState::Disconnected),
            final(self)@ == if send_signal {
                WsSessionView { state: ConnectionState::ShuttingDown, ..old(self)@ }
            } else {
                old(self)@
            },
    {
        if self.state == ConnectionState::ShuttingDown || self.state == ConnectionState::Disconnected {
            false
        } else {
            self.state = ConnectionState::ShuttingDown;
            true
        }
    }

    /// Whether, once the reading loop has ended, the connection should be
    /// re-established: only when automatic reconnection is on and the session
    /// is not shutting down.
    pub fn should_reconnect(&self, enable_auto_reconnect: bool) -> (b: bool)
        ensures
            b == (self@.state != ConnectionState::ShuttingDown && enable_auto_reconnect),
    {
        self.state != ConnectionState::ShuttingDown && enable_auto_reconnect
    }

    /// One step of the reconnection loop: see [`reconnect_step`].
    pub fn next_reconnect_attempt(&mut self, max_attempts: Option<u32>) -> (r: Option<u32>)
        requires
            max_attempts is Some || old(self)@.reconnect_attempts < u32::MAX,
        ensures
            (final(self)@, r) == reconnect_step(old(self)@, max_attempts),
    {
        match max_attempts {
            Some(m) => {
                if self.reconnect_attempts >= m {
                    self.state = ConnectionState::Disconnected;
                    return None;
                }
            },
            None => {},
        }
        let attempt = self.reconnect_attempts;
        self.reconnect_attempts = attempt + 1;
        self.state = ConnectionState::Reconnecting;
        Some(attempt)
    }

    /// The reading task has ended for good.
    pub fn finished(&mut self)
        ensures
            final(self)@ == (WsSessionView { state: ConnectionState::Disconnected, ..old(self)@ }),
    {
        self.state = ConnectionState::Disconnected;
    }

    /// The sequence number that the next message sent will carry.
    pub fn seq_number(&self) -> (r: i64)
        ensures
            r == self@.seq_number,
    {
        self.seq_number
    }

    /// The sequence number of the next message to send; the counter moves on.
    pub fn next_seq(&mut self) -> (r: i64)
        requires
            old(self)@.seq_number < i64::MAX,
        ensures
            r == old(self)@.seq_number,
            final(self)@ == (WsSessionView { seq_number: (old(self)@.seq_number + 1) as i64, ..old(self)@ }),
    {
        let current = self.seq_number;
        self.seq_number = current + 1;
        current
    }

    /// A message numbered `seq` arrived. Returns how many events were missed
    /// before it (zero when none were); a positive number becomes the last
    /// one received.
    pub fn observe_seq(&mut self, seq: i64) -> (missed: i64)
        ensures
            missed == seq_gap(old(self)@.last_received_seq, seq),
            final(self)@ == if seq > 0 {
                WsSessionView { last_received_seq: seq, ..old(self)@ }
            } else {
                old(self)@
            },
    {
        if seq > 0 {
            let last = self.last_received_seq;
            let missed = if last > 0 && seq - 1 > last { seq - 1 - last } else { 0 };
            self.last_received_seq = seq;
            missed
        } else {
            0
        }
    }
}

/// The text under `key` in an event's data when it is a string, else empty.
pub open spec fn data_text(ev: WebSocketEvent, key: Seq<char>) -> Seq<char> {
    str_or_empty(ev.data@, key)
}

/// The user a "user_updated" event names: the "id" text of the "user"
/// object in its data, or else the user the broadcast is addressed to.
pub open spec fn updated_user_id(ev: WebSocketEvent) -> Seq<char> {
    match lookup(ev.data@, "user"@) {
        Some(JsonValue::Object(o)) => match str_at(o@, "id"@) {
            Some(id) => id,
            None => ev.broadcast.user_id@,
        },
        _ => ev.broadcast.user_id@,
    }
}

/// The status word of a "status_change" event ("offline" when absent).
pub open spec fn status_word(ev: WebSocketEvent) -> Seq<char> {
    match str_at(ev.data@, "status"@) {
        Some(s) => s,
        None => "offline"@,
    }
}

/// How a server event becomes a platform event (`r`), given the post its
/// "post" data holds and the channel its "channel" data holds, as read by the
/// caller (`None` where the event carries none that reads as one):
/// - "posted" and "post_edited" give the post as a new or edited message, and
///   nothing without a post;
/// - "post_deleted" gives the deleted post's ID (empty without a post) and the
///   broadcast channel;
/// - "typing", "user_added" and "user_removed" give the data's "user_id" (empty
///   when absent) and the broadcast channel;
/// - "channel_created" and "channel_updated" give the channel, and nothing
///   without one; "channel_deleted" gives the broadcast channel;
/// - "status_change" gives the data's "user_id" and the status its "status"
///   word stands for ("offline" when absent);
/// - "reaction_added" and "reaction_removed" need a non-empty "post_id" and
///   "emoji_name"; "direct_added", "group_added" and "channel_viewed" need a
///   broadcast channel; "preference_changed" and "preferences_changed" need a
///   non-empty "category" and "name"; "ephemeral_message" needs a non-empty
///   "post" text; "new_user", "user_updated" and "user_role_updated" need a
///   non-empty user ID;
/// - "hello" and every other event give nothing.
pub open spec fn event_converted(
    ev: WebSocketEvent,
    post: Option<MattermostPost>,
    channel: Option<MattermostChannel>,
    r: Option<PlatformEvent>,
) -> bool {
    let name = ev.event@;
    let chan = ev.broadcast.channel_id@;
    if name == "posted"@ {
        match post {
            Some(p) => r matches Some(PlatformEvent::MessagePosted(m)) && message_converted(p, m),
            None => r is None,
        }
    } else if name == "post_edited"@ {
        match post {
            Some(p) => r matches Some(PlatformEvent::MessageUpdated(m)) && message_converted(p, m),
            None => r is None,
        }
    } else if name == "post_deleted"@ {
        r matches Some(PlatformEvent::MessageDeleted { message_id, channel_id })
            && message_id@ == (match post { Some(p) => p.id@, None => Seq::<char>::empty() })
            && channel_id@ == chan
    } else if name == "typing"@ {
        r matches Some(PlatformEvent::UserTyping { user_id, channel_id })
            && user_id@ == data_text(ev, "user_id"@) && channel_id@ == chan
    } else if name == "user_added"@ {
        r matches Some(PlatformEvent::UserJoinedChannel { user_id, channel_id })
            && user_id@ == data_text(ev, "user_id"@) && channel_id@ == chan
    } else if name == "user_removed"@ {
        r matches Some(PlatformEvent::UserLeftChannel { user_id, channel_id })
            && user_id@ == data_text(ev, "user_id"@) && channel_id@ == chan
    } else if name == "channel_created"@ {
        match channel {
            Some(c) => r matches Some(PlatformEvent::ChannelCreated(x)) && channel_converted(c, x),
            None => r is None,
        }
    } else if name == "channel_deleted"@ {
        r matches Some(PlatformEvent::ChannelDeleted { channel_id }) && channel_id@ == chan
    } else if name == "channel_updated"@ {
        match channel {
            Some(c) => r matches Some(PlatformEvent::ChannelUpdated(x)) && channel_converted(c, x),
            None => r is None,
        }
    } else if name == "status_change"@ {
        r matches Some(PlatformEvent::UserStatusChanged { user_id, status })
            && user_id@ == data_text(ev, "user_id"@) && status == status_of_word(status_word(ev))
    } else if name == "reaction_added"@ || name == "reaction_removed"@ {
        let mid = data_text(ev, "post_id"@);
        let emoji = data_text(ev, "emoji_name"@);
        if mid.len() > 0 && emoji.len() > 0 {
            if name == "reaction_added"@ {
                r matches Some(PlatformEvent::ReactionAdded { message_id, user_id, emoji_name, channel_id })
                    && message_id@ == mid && user_id@ == data_text(ev, "user_id"@)
                    && emoji_name@ == emoji && channel_id@ == chan
            } else {
                r matches Some(PlatformEvent::ReactionRemoved { message_id, user_id, emoji_name, channel_id })
                    && message_id@ == mid && user_id@ == data_text(ev, "user_id"@)
                    && emoji_name@ == emoji && channel_id@ == chan
            }
        } else {
            r is None
        }
    } else if name == "direct_added"@ {
        if chan.len() > 0 {
            r matches Some(PlatformEvent::DirectChannelAdded { channel_id }) && channel_id@ == chan
        } else {
            r is None
        }
    } else if name == "group_added"@ {
        if chan.len() > 0 {
            r matches Some(PlatformEvent::GroupChannelAdded { channel_id }) && channel_id@ == chan
        } else {
            r is None
        }
    } else if name == "preference_changed"@ || name == "preferences_changed"@ {
        if data_text(ev, "category"@).len() > 0 && data_text(ev, "name"@).len() > 0 {
            r matches Some(PlatformEvent::PreferenceChanged { category, name, value })
                && category@ == data_text(ev, "category"@) && name@ == data_text(ev, "name"@)
                && value@ == data_text(ev, "value"@)
        } else {
            r is None
        }
    } else if name == "ephemeral_message"@ {
        if data_text(ev, "post"@).len() > 0 {
            r matches Some(PlatformEvent::EphemeralMessage { message, channel_id })
                && message@ == data_text(ev, "post"@) && channel_id@ == chan
        } else {
            r is None
        }
    } else if name == "new_user"@ {
        if data_text(ev, "user_id"@).len() > 0 {
            r matches Some(PlatformEvent::UserAdded { user_id }) && user_id@ == data_text(ev, "user_id"@)
        } else {
            r is None
        }
    } else if name == "user_updated"@ {
        if updated_user_id(ev).len() > 0 {
            r matches Some(PlatformEvent::UserUpdated { user_id }) && user_id@ == updated_user_id(ev)
        } else {
            r is None
        }
    } else if name == "user_role_updated"@ {
        if data_text(ev, "user_id"@).len() > 0 {
            r matches Some(PlatformEvent::UserRoleUpdated { user_id }) && user_id@ == data_text(ev, "user_id"@)
        } else {
            r is None
        }
    } else if name == "channel_viewed"@ {
        if chan.len() > 0 {
            r matches Some(PlatformEvent::ChannelViewed { user_id, channel_id })
                && user_id@ == ev.broadcast.user_id@ && channel_id@ == chan
        } else {
            r is None
        }
    } else {
        r is None
    }
}

/// The user a "user_updated" event names.
fn updated_user(ev: &WebSocketEvent) -> (r: String)
    ensures
        r@ == updated_user_id(*ev),
{
    match get(&ev.data, "user") {
        Some(JsonValue::Object(o)) => match get_str(o, "id") {
            Some(id) => id,
            None => ev.broadcast.user_id.clone(),
        },
        _ => ev.broadcast.user_id.clone(),
    }
}

/// The status word of a "status_change" event.
fn status_word_of(ev: &WebSocketEvent) -> (r: String)
    ensures
        r@ == status_word(*ev),
{
    match get_str(&ev.data, "status") {
        Some(s) => s,
        None => owned("offline"),
    }
}

/// The platform event a server event stands for: see [`event_converted`].
/// `post` and `channel` are the post and channel the event's data holds, as
/// read by the caller.
pub fn convert_event(
    ws_event: WebSocketEvent,
    post: Option<MattermostPost>,
    channel: Option<MattermostChannel>,
) -> (r: Option<PlatformEvent>)
    ensures
        event_converted(ws_event, post, channel, r),
{
    let ghost ev = ws_event;
    let name = ws_event.event.as_str();
    if str_eq(name, "posted") {
        match post {
            Some(p) => Some(PlatformEvent::MessagePosted(Message::from_mattermost(p))),
            None => None,
        }
    } else if str_eq(name, "post_edited") {
        match post {
            Some(p) => Some(PlatformEvent::MessageUpdated(Message::from_mattermost(p))),
            None => None,
        }
    } else if str_eq(name, "post_deleted") {
        let message_id = match post {
            Some(p) => p.id,
            None => String::new(),
        };
        Some(PlatformEvent::MessageDeleted { message_id, channel_id: ws_event.broadcast.channel_id })
    } else if str_eq(name, "typing") {
        let user_id = get_str_or_empty(&ws_event.data, "user_id");
        Some(PlatformEvent::UserTyping { user_id, channel_id: ws_event.broadcast.channel_id })
    } else if str_eq(name, "user_added") {
        let user_id = get_str_or_empty(&ws_event.data, "user_id");
        Some(PlatformEvent::UserJoinedChannel { user_id, channel_id: ws_event.broadcast.channel_id })
    } else if str_eq(name, "user_removed") {
        let user_id = get_str_or_empty(&ws_event.data, "user_id");
        Some(PlatformEvent::UserLeftChannel { user_id, channel_id: ws_event.broadcast.channel_id })
    } else if str_eq(name, "channel_created") {
        match channel {
            Some(c) => Some(PlatformEvent::ChannelCreated(Channel::from_mattermost(c))),
            None => None,
        }
    } else if str_eq(name, "channel_deleted") {
        Some(PlatformEvent::ChannelDeleted { channel_id: ws_event.broadcast.channel_id })
    } else if str_eq(name, "channel_updated") {
        match channel {
            Some(c) => Some(PlatformEvent::ChannelUpdated(Channel::from_mattermost(c))),
            None => None,
        }
    } else if str_eq(name, "status_change") {
        let user_id = get_str_or_empty(&ws_event.data, "user_id");
        let word = status_word_of(&ws_event);
        let status = status_string_to_user_status(word.as_str());
        Some(PlatformEvent::UserStatusChanged { user_id, status })
    } else if str_eq(name, "reaction_added") || str_eq(name, "reaction_removed") {
        let message_id = get_str_or_empty(&ws_event.data, "post_id");
        let user_id = get_str_or_empty(&ws_event.data, "user_id");
        let emoji_name = get_str_or_empty(&ws_event.data, "emoji_name");
        if !message_id.as_str().is_empty() && !emoji_name.as_str().is_empty() {
            let channel_id = ws_event.broadcast.channel_id;
            if str_eq(name, "reaction_added") {
                Some(PlatformEvent::ReactionAdded { message_id, user_id, emoji_name, channel_id })
            } else {
                Some(PlatformEvent::ReactionRemoved { message_id, user_id, emoji_name, channel_id })
            }
        } else {
            None
        }
    } else if str_eq(name, "direct_added") {
        if !ws_event.broadcast.channel_id.as_str().is_empty() {
            Some(PlatformEvent::DirectChannelAdded { channel_id: ws_event.broadcast.channel_id })
        } else {
            None
        }
    } else if str_eq(name, "group_added") {
        if !ws_event.broadcast.channel_id.as_str().is_empty() {
            Some(PlatformEvent::GroupChannelAdded { channel_id: ws_event.broadcast.channel_id })
        } else {
            None
        }
    } else if str_eq(name, "preference_changed") || str_eq(name, "preferences_changed") {
        let category = get_str_or_empty(&ws_event.data, "category");
        let pref_name = get_str_or_empty(&ws_event.data, "name");
        let value = get_str_or_empty(&ws_event.data, "value");
        if !category.as_str().is_empty() && !pref_name.as_str().is_empty() {
            Some(PlatformEvent::PreferenceChanged { category, name: pref_name, value })
        } else {
            None
        }
    } else if str_eq(name, "ephemeral_message") {
        let message = get_str_or_empty(&ws_event.data, "post");
        if !message.as_str().is_empty() {
            Some(PlatformEvent::EphemeralMessage { message, channel_id: ws_event.broadcast.channel_id })
        } else {
            None
        }
    } else if str_eq(name, "new_user") {
        let user_id = get_str_or_empty(&ws_event.data, "user_id");
        if !user_id.as_str().is_empty() {
            Some(PlatformEvent::UserAdded { user_id })
        } else {
            None
        }
    } else if str_eq(name, "user_updated") {
        let user_id = updated_user(&ws_event);
        if !user_id.as_str().is_empty() {
            Some(PlatformEvent::UserUpdated { user_id })
        } else {
            None
        }
    } else if str_eq(name, "user_role_updated") {
        let user_id = get_str_or_empty(&ws_event.data, "user_id");
        if !user_id.as_str().is_empty() {
            Some(PlatformEvent::UserRoleUpdated { user_id })
        } else {
            None
        }
    } else if str_eq(name, "channel_viewed") {
        if !ws_event.broadcast.channel_id.as_str().is_empty() {
            Some(PlatformEvent::ChannelViewed {
                user_id: ws_event.broadcast.user_id,
                channel_id: ws_event.broadcast.channel_id,
            })
        } else {
            None
        }
    } else {
        None
    }
}

/// The session after `k` steps of the reconnection loop from `s`.
pub open spec fn reconnect_run(s: WsSessionView, max_attempts: Option<u32>, k: nat) -> WsSessionView
    decreases k,
{
    if k == 0 {
        s
    } else {
        reconnect_step(reconnect_run(s, max_attempts, (k - 1) as nat), max_attempts).0
    }
}

/// With at most `m` attempts in a row, the attempt counter never passes `m`:
/// each step of the reconnection loop keeps it at or below `m`.
pub proof fn law_reconnect_attempts_bounded(s: WsSessionView, m: u32)
    requires
        s.reconnect_attempts <= m,
    ensures
        reconnect_step(s, Some(m)).0.reconnect_attempts <= m,
        reconnect_step(s, Some(m)).1 is None <==> s.reconnect_attempts == m,
{
}

/// From a fresh attempt count, the first `m` steps of the reconnection loop
/// each make an attempt (numbered 0, 1, ...), and the next one gives up and
/// leaves the session disconnected.
pub proof fn law_reconnect_gives_up_after_max(s: WsSessionView, m: u32, k: nat)
    requires
        s.reconnect_attempts == 0,
        k <= m,
    ensures
        reconnect_run(s, Some(m), k).reconnect_attempts == k,
        k < m ==> reconnect_step(reconnect_run(s, Some(m), k), Some(m)).1 == Some(k as u32),
        k == m ==> reconnect_step(reconnect_run(s, Some(m), k), Some(m)).1 is None,
        k == m ==> reconnect_step(reconnect_run(s, Some(m), k), Some(m)).0.state == ConnectionState::Disconnected,
    decreases k,
{
    if k > 0 {
        law_reconnect_gives_up_after_max(s, m, (k - 1) as nat);
    }
}

/// Messages that arrive numbered one after another report no missed events.
pub proof fn law_consecutive_seqs_have_no_gap(last: i64, seq: i64)
    requires
        seq == last + 1,
    ensures
        seq_gap(last, seq) == 0,
{
}

/// The events a bounded queue holds after `e` arrives: with room, `e` joins
/// the end; when full, the oldest event makes room for it; a queue with no
/// room at all keeps nothing.
pub open spec fn queue_after_push(q: Seq<PlatformEvent>, capacity: usize, e: PlatformEvent) -> Seq<PlatformEvent> {
    if capacity == 0 {
        q
    } else if q.len() >= capacity {
        q.drop_first().push(e)
    } else {
        q.push(e)
    }
}

/// A bounded queue of events, oldest first: when it is full, the oldest
/// event is dropped to make room for a new one.
pub struct EventQueue {
    events: Vec<PlatformEvent>,
    capacity: usize,
}

impl View for EventQueue {
    type V = Seq<PlatformEvent>;

    closed spec fn view(&self) -> Seq<PlatformEvent> {
        self.events@
    }
}

impl EventQueue {
    #[verifier::type_invariant]
    closed spec fn within_capacity(self) -> bool {
        self.events@.len() <= self.capacity
    }

    /// The largest number of events the queue holds.
    pub closed spec fn spec_capacity(&self) -> usize {
        self.capacity
    }

    /// An empty queue holding at most `capacity` events.
    pub fn new(capacity: usize) -> (q: Self)
        ensures
            q@ == Seq::<PlatformEvent>::empty(),
            q.spec_capacity() == capacity,
    {
        EventQueue { events: Vec::new(), capacity }
    }

    /// The number of queued events.
    pub fn len(&self) -> (n: usize)
        ensures
            n == self@.len(),
            n <= self.spec_capacity(),
    {
        proof {
            use_type_invariant(self);
        }
        self.events.len()
    }

    /// Queue `e`: see [`queue_after_push`].
    pub fn push(&mut self, e: PlatformEvent)
        ensures
            final(self)@ == queue_after_push(old(self)@, old(self).spec_capacity(), e),
            final(self).spec_capacity() == old(self).spec_capacity(),
    {
        proof {
            use_type_invariant(&*self);
        }
        if self.capacity == 0 {
            return;
        }
        let mut events: Vec<PlatformEvent> = Vec::new();
        std::mem::swap(&mut events, &mut self.events);
        if events.len() >= self.capacity {
            events.remove(0);
        }
        events.push(e);
        self.events = events;
    }

    /// Take the oldest queued event, if any.
    pub fn pop(&mut self) -> (r: Option<PlatformEvent>)
        ensures
            old(self)@.len() == 0 ==> r is None && final(self)@ == old(self)@,
            old(self)@.len() > 0 ==> r == Some(old(self)@[0]) && final(self)@ == old(self)@.drop_first(),
            final(self).spec_capacity() == old(self).spec_capacity(),
    {
        proof {
            use_type_invariant(&*self);
        }
        if self.events.len() == 0 {
            return None;
        }
        let mut events: Vec<PlatformEvent> = Vec::new();
        std::mem::swap(&mut events, &mut self.events);
        let first = events.remove(0);
        self.events = events;
        Some(first)
    }
}

/// A bounded queue never holds more than its capacity, and once an event
/// arrives at a queue with any room, it is the newest event queued.
pub proof fn law_queue_keeps_the_newest(q: Seq<PlatformEvent>, capacity: usize, e: PlatformEvent)
    requires
        q.len() <= capacity,
    ensures
        queue_after_push(q, capacity, e).len() <= capacity,
        capacity > 0 ==> queue_after_push(q, capacity, e).last() == e,
        capacity > 0 && q.len() == capacity ==> queue_after_push(q, capacity, e).subrange(0, capacity - 1) == q.subrange(1, capacity as int),
{
    if capacity > 0 && q.len() == capacity {
        assert(queue_after_push(q, capacity, e).subrange(0, capacity - 1) =~= q.subrange(1, capacity as int));
    }
}

/// The two membership event names differ from each other and from the names
/// tested before them.
proof fn lemma_membership_names()
    ensures
        "user_added"@ != "posted"@,
        "user_added"@ != "post_edited"@,
        "user_added"@ != "post_deleted"@,
        "user_added"@ != "typing"@,
        "user_removed"@ != "posted"@,
        "user_removed"@ != "post_edited"@,
        "user_removed"@ != "post_deleted"@,
        "user_removed"@ != "typing"@,
        "user_removed"@ != "user_added"@,
{
    reveal_strlit("user_added");
    reveal_strlit("user_removed");
    reveal_strlit("posted");
    reveal_strlit("post_edited");
    reveal_strlit("post_deleted");
    reveal_strlit("typing");
    assert("user_added"@.len() == 10);
    assert("user_removed"@.len() == 12);
    assert("posted"@.len() == 6);
    assert("post_edited"@.len() == 11);
    assert("post_deleted"@.len() == 12);
    assert("typing"@.len() == 6);
    assert("user_removed"@[0] != "post_deleted"@[0]);
}

/// A server "user_added" event always becomes a `UserJoinedChannel` event,
/// and a "user_removed" event a `UserLeftChannel` event, each for the user
/// named in the event's data and the channel it was broadcast to; so the two
/// server events never become the same kind of platform event.
pub proof fn law_membership_events(
    added: WebSocketEvent,
    removed: WebSocketEvent,
    post1: Option<MattermostPost>,
    channel1: Option<MattermostChannel>,
    post2: Option<MattermostPost>,
    channel2: Option<MattermostChannel>,
    r1: Option<PlatformEvent>,
    r2: Option<PlatformEvent>,
)
    requires
        added.event@ == "user_added"@,
        removed.event@ == "user_removed"@,
        event_converted(added, post1, channel1, r1),
        event_converted(removed, post2, channel2, r2),
    ensures
        r1 matches Some(PlatformEvent::UserJoinedChannel { user_id, channel_id })
            && user_id@ == str_or_empty(added.data@, "user_id"@)
            && channel_id@ == added.broadcast.channel_id@,
        r2 matches Some(PlatformEvent::UserLeftChannel { user_id, channel_id })
            && user_id@ == str_or_empty(removed.data@, "user_id"@)
            && channel_id@ == removed.broadcast.channel_id@,
        !(r1 matches Some(PlatformEvent::UserLeftChannel { .. })),
        !(r2 matches Some(PlatformEvent::UserJoinedChannel { .. })),
{
    lemma_membership_names();
}

} // verus!
