//! The decisions the Mattermost platform adapter makes around its requests:
//! how it signs in, how it names direct and group channels, in what order it
//! hands out messages, and how it reads status replies.

use vstd::prelude::*;
use crate::error::{opt_view, Error, ErrorCode, ErrorView};
use crate::platforms::config::PlatformConfig;
use crate::string_map::StringMap;
use crate::text::{owned, str_eq};
use crate::types::channel::Channel;
use crate::types::message::Message;
use crate::types::user::UserStatus;
use super::channels::{dm_partner, get_dm_partner_id};
use super::convert::{display_name_for, message_converted, status_of_word, status_string_to_user_status, user_display_name};
use super::types::{post_copy, ChannelMember, ChannelUnreadInfo, CustomStatus, MattermostChannel, MattermostChannelType, MattermostPost, MattermostStatus, MattermostUser, PostList};

verus! {

/// How to sign in, as the credentials of a platform configuration say.
#[derive(Debug, Clone)]
pub enum AuthMethod {
    /// With an access token.
    Token(String),
    /// With a login ID (e-mail or username) and password.
    Password { login_id: String, password: String },
    /// With a login ID, password and multi-factor code.
    PasswordWithMfa { login_id: String, password: String, mfa_token: String },
}

/// The error for a configuration without usable credentials.
pub open spec fn missing_credentials_error() -> ErrorView {
    ErrorView {
        code: ErrorCode::InvalidArgument,
        message: "Missing authentication credentials (provide 'token' or 'login_id'+'password')"@,
        mattermost_error_id: None,
        request_id: None,
        http_status: None,
    }
}

/// How to sign in with credentials `c`: a "token" wins; otherwise a
/// "login_id" with a "password" (and an "mfa_token" when there is one);
/// otherwise the credentials are refused.
pub open spec fn auth_method_for(c: Map<Seq<char>, String>, r: Result<AuthMethod, Error>) -> bool {
    if c.contains_key("token"@) {
        r matches Ok(AuthMethod::Token(t)) && t@ == c["token"@]@
    } else if c.contains_key("login_id"@) && c.contains_key("password"@) {
        if c.contains_key("mfa_token"@) {
            r matches Ok(AuthMethod::PasswordWithMfa { login_id, password, mfa_token })
                && login_id@ == c["login_id"@]@ && password@ == c["password"@]@ && mfa_token@ == c["mfa_token"@]@
        } else {
            r matches Ok(AuthMethod::Password { login_id, password })
                && login_id@ == c["login_id"@]@ && password@ == c["password"@]@
        }
    } else {
        r matches Err(e) && e@ == missing_credentials_error()
    }
}

/// How to sign in with the credentials of `config`: see [`auth_method_for`].
pub fn choose_auth(config: &PlatformConfig) -> (r: Result<AuthMethod, Error>)
    ensures
        auth_method_for(config.credentials@, r),
{
    match config.credentials.get("token") {
        Some(t) => Ok(AuthMethod::Token(t.clone())),
        None => {
            match (config.credentials.get("login_id"), config.credentials.get("password")) {
                (Some(l), Some(p)) => match config.credentials.get("mfa_token") {
                    Some(m) => Ok(AuthMethod::PasswordWithMfa { login_id: l.clone(), password: p.clone(), mfa_token: m.clone() }),
                    None => Ok(AuthMethod::Password { login_id: l.clone(), password: p.clone() }),
                },
                _ => Err(Error::new(
                    ErrorCode::InvalidArgument,
                    owned("Missing authentication credentials (provide 'token' or 'login_id'+'password')"),
                )),
            }
        },
    }
}

/// How a channel's shown name is settled.
#[derive(Debug, Clone, PartialEq, Eq)]
pub enum ChannelNaming {
    /// The server's display name stands.
    AsIs,
    /// A direct-message channel with oneself.
    SavedMessages,
    /// A direct-message channel: named after the partner with this user ID.
    Partner(String),
    /// A group channel: named "Group Message" when the server gave no name.
    Group,
}

/// The name of a direct-message channel between a user and themself.
pub open spec fn self_dm_name(user_id: Seq<char>) -> Seq<char> {
    user_id + "__"@ + user_id
}

/// How the name of `ch` is settled for the signed-in user `me` (`n`): a
/// direct channel is the user's saved messages when it joins them with
/// themself, and is named after the partner when its name holds the user's
/// ID and one other; a group channel falls back to "Group Message" when it
/// has no name or someone is signed in; anything else keeps its name.
pub open spec fn channel_naming_for(ch: MattermostChannel, me: Option<Seq<char>>, n: ChannelNaming) -> bool {
    if ch.channel_type == MattermostChannelType::Direct {
        match me {
            Some(u) => if ch.name@ == self_dm_name(u) {
                n == ChannelNaming::SavedMessages
            } else {
                match dm_partner(ch.name@, u) {
                    Some(p) => n matches ChannelNaming::Partner(q) && q@ == p,
                    None => n == ChannelNaming::AsIs,
                }
            },
            None => n == ChannelNaming::AsIs,
        }
    } else if ch.channel_type == MattermostChannelType::Group && (ch.display_name@.len() == 0 || me is Some) {
        n == ChannelNaming::Group
    } else {
        n == ChannelNaming::AsIs
    }
}

/// How the name of `ch` is settled for the signed-in user
/// `current_user_id`: see [`channel_naming_for`].
pub fn channel_naming(ch: &MattermostChannel, current_user_id: Option<&str>) -> (n: ChannelNaming)
    ensures
        channel_naming_for(*ch, match current_user_id { Some(u) => Some(u@), None => None }, n),
{
    match ch.channel_type {
        MattermostChannelType::Direct => match current_user_id {
            Some(u) => {
                let mut own = owned(u);
                own.append("__");
                own.append(u);
                if str_eq(ch.name.as_str(), own.as_str()) {
                    ChannelNaming::SavedMessages
                } else {
                    match get_dm_partner_id(ch.name.as_str(), u) {
                        Some(p) => ChannelNaming::Partner(p),
                        None => ChannelNaming::AsIs,
                    }
                }
            },
            None => ChannelNaming::AsIs,
        },
        MattermostChannelType::Group => {
            if ch.display_name.as_str().is_empty() || current_user_id.is_some() {
                ChannelNaming::Group
            } else {
                ChannelNaming::AsIs
            }
        },
        _ => ChannelNaming::AsIs,
    }
}

/// The name shown for a channel once its naming is settled: the saved
/// messages' own name; the partner's display name, or "Direct Message" when
/// the partner could not be fetched (`partner` is `None`); "Group Message"
/// for a group channel without a name; otherwise the channel's own name.
pub open spec fn settled_name(current: Seq<char>, n: ChannelNaming, partner: Option<MattermostUser>) -> Seq<char> {
    match n {
        ChannelNaming::SavedMessages => "You (Saved Messages)"@,
        ChannelNaming::Partner(_) => match partner {
            Some(u) => display_name_for(u.first_name@, u.last_name@, u.nickname@, u.username@),
            None => "Direct Message"@,
        },
        ChannelNaming::Group => if current.len() == 0 { "Group Message"@ } else { current },
        ChannelNaming::AsIs => current,
    }
}

/// The channel with its name settled: see [`settled_name`]. Only the
/// display name changes.
pub fn name_channel(channel: Channel, naming: &ChannelNaming, partner: Option<MattermostUser>) -> (c: Channel)
    ensures
        c.display_name@ == settled_name(channel.display_name@, *naming, partner),
        c == (Channel { display_name: c.display_name, ..channel }),
{
    let mut c = channel;
    match naming {
        ChannelNaming::SavedMessages => {
            c.display_name = owned("You (Saved Messages)");
        },
        ChannelNaming::Partner(_) => {
            c.display_name = match &partner {
                Some(u) => user_display_name(u.first_name.as_str(), u.last_name.as_str(), u.nickname.as_str(), u.username.as_str()),
                None => owned("Direct Message"),
            };
        },
        ChannelNaming::Group => {
            if c.display_name.as_str().is_empty() {
                c.display_name = owned("Group Message");
            }
        },
        ChannelNaming::AsIs => {},
    }
    c
}

/// The posts of a post list that its order names, in that order (IDs
/// without a post are skipped).
pub open spec fn ordered_posts(order: Seq<String>, posts: Map<Seq<char>, MattermostPost>) -> Seq<MattermostPost>
    decreases order.len(),
{
    if order.len() == 0 {
        Seq::empty()
    } else {
        let rest = ordered_posts(order.drop_last(), posts);
        if posts.contains_key(order.last()@) {
            rest.push(posts[order.last()@])
        } else {
            rest
        }
    }
}

/// Copies (see [`post_copy`]) of the posts of a post list that its order names, in that order
/// (IDs without a post are skipped).
pub fn posts_in_order(list: &PostList) -> (r: Vec<MattermostPost>)
    ensures
        r@.len() == ordered_posts(list.order@, list.posts@).len(),
        forall|i: int| 0 <= i < r@.len() ==> post_copy(ordered_posts(list.order@, list.posts@)[i], #[trigger] r@[i]),
{
    let mut r: Vec<MattermostPost> = Vec::new();
    let mut i: usize = 0;
    while i < list.order.len()
        invariant
            i <= list.order@.len(),
            r@.len() == ordered_posts(list.order@.subrange(0, i as int), list.posts@).len(),
            forall|j: int| 0 <= j < r@.len() ==> post_copy(ordered_posts(list.order@.subrange(0, i as int), list.posts@)[j], #[trigger] r@[j]),
        decreases list.order.len() - i,
    {
        proof {
            assert(list.order@.subrange(0, i + 1).drop_last() =~= list.order@.subrange(0, i as int));
        }
        match list.posts.get(list.order[i].as_str()) {
            Some(post) => {
                r.push(post.clone());
            },
            None => {},
        }
        i = i + 1;
    }
    proof {
        assert(list.order@.subrange(0, list.order@.len() as int) =~= list.order@);
    }
    r
}

/// The messages the posts describe, in the same order.
pub fn messages_from_posts(posts: Vec<MattermostPost>) -> (r: Vec<Message>)
    ensures
        r@.len() == posts@.len(),
        forall|i: int| 0 <= i < r@.len() ==> message_converted(posts@[i], #[trigger] r@[i]),
{
    let ghost src = posts@;
    let mut rest = posts;
    let mut r: Vec<Message> = Vec::new();
    let n = rest.len();
    while rest.len() > 0
        invariant
            n == src.len(),
            rest@ == src.subrange(n - rest@.len(), n as int),
            r@.len() + rest@.len() == n,
            forall|j: int| 0 <= j < r@.len() ==> message_converted(src[j], #[trigger] r@[j]),
        decreases rest.len(),
    {
        let p = rest.remove(0);
        proof {
            assert(p == src[r@.len() as int]);
        }
        r.push(Message::from_mattermost(p));
        proof {
            assert(rest@ =~= src.subrange(n - rest@.len(), n as int));
        }
    }
    r
}

/// The messages in reverse order: newest first, for lists the server gives
/// oldest first.
pub fn newest_first(messages: Vec<Message>) -> (r: Vec<Message>)
    ensures
        r@ == messages@.reverse(),
{
    let ghost src = messages@;
    let n = messages.len();
    let mut rest = messages;
    let mut r: Vec<Message> = Vec::new();
    while rest.len() > 0
        invariant
            n == src.len(),
            rest@.len() <= n,
            rest@ == src.subrange(0, rest@.len() as int),
            r@.len() == n - rest@.len(),
            forall|j: int| 0 <= j < r@.len() ==> #[trigger] r@[j] == src[n - 1 - j],
        decreases rest.len(),
    {
        let m = rest.pop().unwrap();
        r.push(m);
        proof {
            assert(rest@ =~= src.subrange(0, rest@.len() as int));
        }
    }
    proof {
        assert(r@ =~= src.reverse());
    }
    r
}

/// At most the first `limit` of `messages`, in order.
pub fn first_messages(messages: Vec<Message>, limit: usize) -> (r: Vec<Message>)
    ensures
        r@ == messages@.take(if limit < messages@.len() { limit as int } else { messages@.len() as int }),
{
    let mut m = messages;
    m.truncate(limit);
    m
}

/// The statuses in a status reply, by user: each user's status is what the
/// last entry for that user says.
pub open spec fn statuses_by_user(statuses: Seq<MattermostStatus>) -> Map<Seq<char>, UserStatus>
    decreases statuses.len(),
{
    if statuses.len() == 0 {
        Map::empty()
    } else {
        statuses_by_user(statuses.drop_last()).insert(statuses.last().user_id@, status_of_word(statuses.last().status@))
    }
}

/// The statuses in a status reply, by user: see [`statuses_by_user`].
pub fn status_map(statuses: &Vec<MattermostStatus>) -> (r: StringMap<UserStatus>)
    ensures
        r@ == statuses_by_user(statuses@),
{
    let mut r: StringMap<UserStatus> = StringMap::new();
    let mut i: usize = 0;
    while i < statuses.len()
        invariant
            i <= statuses@.len(),
            r@ == statuses_by_user(statuses@.subrange(0, i as int)),
        decreases statuses.len() - i,
    {
        proof {
            assert(statuses@.subrange(0, i + 1).drop_last() =~= statuses@.subrange(0, i as int));
        }
        let st = status_string_to_user_status(statuses[i].status.as_str());
        r.insert(statuses[i].user_id.clone(), st);
        i = i + 1;
    }
    proof {
        assert(statuses@.subrange(0, statuses@.len() as int) =~= statuses@);
    }
    r
}

/// The custom status to set: the given emoji, the text, no duration, and the
/// expiry text when there is one.
pub fn custom_status_with_expiry(emoji: Option<&str>, text: &str, expires_at: Option<String>) -> (c: CustomStatus)
    ensures
        opt_view(c.emoji) == match emoji { Some(e) => Some(e@), None => None },
        c.text matches Some(t) && t@ == text@,
        c.duration is None,
        c.expires_at == expires_at,
{
    CustomStatus {
        emoji: match emoji {
            Some(e) => Some(owned(e)),
            None => None,
        },
        text: Some(owned(text)),
        duration: None,
        expires_at,
    }
}

/// The custom status to set, expiring at `expires_at` seconds after the
/// Unix epoch when given: the expiry is written in RFC 3339 by chrono, and
/// an instant chrono cannot represent is replaced by the current time.
pub fn custom_status(emoji: Option<&str>, text: &str, expires_at: Option<i64>) -> (c: CustomStatus)
    ensures
        opt_view(c.emoji) == match emoji { Some(e) => Some(e@), None => None },
        c.text matches Some(t) && t@ == text@,
        c.duration is None,
        match expires_at {
            None => c.expires_at is None,
            Some(ts) => c.expires_at is Some && (crate::clock::rfc3339_of_unix_seconds(ts) matches Some(x)
                ==> opt_view(c.expires_at) == Some(x)),
        },
{
    let expiry = match expires_at {
        Some(ts) => match crate::clock::unix_seconds_to_rfc3339(ts) {
            Some(t) => Some(t),
            None => Some(crate::clock::now_rfc3339()),
        },
        None => None,
    };
    custom_status_with_expiry(emoji, text, expiry)
}

/// The unread counts of a team's channels, from the user's channel
/// memberships in that team, in the same order.
pub fn team_unreads(team_id: &str, members: Vec<ChannelMember>) -> (r: Vec<ChannelUnreadInfo>)
    ensures
        r@.len() == members@.len(),
        forall|i: int| 0 <= i < r@.len() ==> {
            &&& (#[trigger] r@[i]).team_id@ == team_id@
            &&& r@[i].channel_id == members@[i].channel_id
            &&& r@[i].msg_count == members@[i].msg_count
            &&& r@[i].mention_count == members@[i].mention_count
            &&& r@[i].last_viewed_at == members@[i].last_viewed_at
        },
{
    let ghost src = members@;
    let n = members.len();
    let mut rest = members;
    let mut r: Vec<ChannelUnreadInfo> = Vec::new();
    while rest.len() > 0
        invariant
            n == src.len(),
            rest@ == src.subrange(n - rest@.len(), n as int),
            r@.len() + rest@.len() == n,
            forall|i: int| 0 <= i < r@.len() ==> {
                &&& (#[trigger] r@[i]).team_id@ == team_id@
                &&& r@[i].channel_id == src[i].channel_id
                &&& r@[i].msg_count == src[i].msg_count
                &&& r@[i].mention_count == src[i].mention_count
                &&& r@[i].last_viewed_at == src[i].last_viewed_at
            },
        decreases rest.len(),
    {
        let m = rest.remove(0);
        proof {
            assert(m == src[r@.len() as int]);
        }
        r.push(ChannelUnreadInfo {
            team_id: owned(team_id),
            channel_id: m.channel_id,
            msg_count: m.msg_count,
            mention_count: m.mention_count,
            last_viewed_at: m.last_viewed_at,
        });
        proof {
            assert(rest@ =~= src.subrange(n - rest@.len(), n as int));
        }
    }
    r
}

/// A channel with the changes asked for: each of the display name, purpose
/// and header that is given replaces the current one.
pub fn channel_with_updates(
    channel: MattermostChannel,
    display_name: Option<&str>,
    purpose: Option<&str>,
    header: Option<&str>,
) -> (c: MattermostChannel)
    ensures
        c.display_name@ == match display_name { Some(d) => d@, None => channel.display_name@ },
        c.purpose@ == match purpose { Some(p) => p@, None => channel.purpose@ },
        c.header@ == match header { Some(h) => h@, None => channel.header@ },
        c == (MattermostChannel { display_name: c.display_name, purpose: c.purpose, header: c.header, ..channel }),
{
    let mut c = channel;
    match display_name {
        Some(d) => {
            c.display_name = owned(d);
        },
        None => {},
    }
    match purpose {
        Some(p) => {
            c.purpose = owned(p);
        },
        None => {},
    }
    match header {
        Some(h) => {
            c.header = owned(h);
        },
        None => {},
    }
    c
}

/// The error for an operation that needs a team when none is set.
pub open spec fn team_not_set_error() -> ErrorView {
    ErrorView {
        code: ErrorCode::InvalidArgument,
        message: "Team ID not set"@,
        mattermost_error_id: None,
        request_id: None,
        http_status: None,
    }
}

/// The team an operation works in; an `InvalidArgument` error when none is set.
pub fn require_team(team_id: Option<String>) -> (r: Result<String, Error>)
    ensures
        match team_id {
            Some(t) => r == Ok::<String, Error>(t),
            None => r matches Err(e) && e@ == team_not_set_error(),
        },
{
    match team_id {
        Some(t) => Ok(t),
        None => Err(Error::new(ErrorCode::InvalidArgument, owned("Team ID not set"))),
    }
}

} // verus!
