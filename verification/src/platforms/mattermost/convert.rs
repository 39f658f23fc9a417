//! Conversions from Mattermost's wire types to the platform-agnostic types,
//! and between status words and user statuses.

use vstd::prelude::*;
use crate::error::opt_view;
use crate::json::JsonValue;
use crate::text::{owned, str_eq, trim, trim_string, u64_to_decimal};
use crate::types::channel::{Channel, ChannelType, ChannelUnread};
use crate::types::emoji::Emoji;
use crate::types::team::{Team, TeamType};
use crate::types::message::{Attachment, Message};
use crate::types::user::{User, UserStatus};
use super::types::{ChannelUnreadInfo, FileInfo, MattermostChannel, MattermostChannelType, MattermostEmoji, MattermostPost, MattermostTeam, MattermostUser};

verus! {

/// The name shown for a Mattermost user: first and last name joined by a
/// space and trimmed when either is set, else the nickname when set, else the
/// username.
pub open spec fn display_name_for(first: Seq<char>, last: Seq<char>, nickname: Seq<char>, username: Seq<char>) -> Seq<char> {
    if first.len() > 0 || last.len() > 0 {
        trim(first + seq![' '] + last)
    } else if nickname.len() > 0 {
        nickname
    } else {
        username
    }
}

/// The name shown for a Mattermost user.
pub fn user_display_name(first: &str, last: &str, nickname: &str, username: &str) -> (r: String)
    ensures
        r@ == display_name_for(first@, last@, nickname@, username@),
{
    if !first.is_empty() || !last.is_empty() {
        let mut joined = owned(first);
        joined.append(" ");
        joined.append(last);
        proof {
            reveal_strlit(" ");
            assert(joined@ =~= first@ + seq![' '] + last@);
        }
        trim_string(joined.as_str())
    } else if !nickname.is_empty() {
        owned(nickname)
    } else {
        owned(username)
    }
}

fn entry(key: &str, value: JsonValue) -> (e: (String, JsonValue))
    ensures
        e.0@ == key@,
        e.1 == value,
{
    (owned(key), value)
}

fn string_pairs_object(pairs: &Vec<(String, String)>) -> (v: JsonValue)
    ensures
        v matches JsonValue::Object(o) && o@.len() == pairs@.len() && forall|i: int|
            0 <= i < pairs@.len() ==> (#[trigger] o@[i]).0 == pairs@[i].0 && o@[i].1 == JsonValue::Str(pairs@[i].1),
{
    let mut o: Vec<(String, JsonValue)> = Vec::new();
    let mut i: usize = 0;
    while i < pairs.len()
        invariant
            i <= pairs.len(),
            o@.len() == i,
            forall|j: int| 0 <= j < i ==> (#[trigger] o@[j]).0 == pairs@[j].0 && o@[j].1 == JsonValue::Str(pairs@[j].1),
        decreases pairs.len() - i,
    {
        o.push((pairs[i].0.clone(), JsonValue::Str(pairs[i].1.clone())));
        i = i + 1;
    }
    JsonValue::Object(o)
}

/// The metadata a converted user carries: the Mattermost-specific fields.
pub open spec fn user_metadata_ok(md: JsonValue, mm: MattermostUser) -> bool {
    &&& md matches JsonValue::Object(o)
    &&& o@.len() == 10
    &&& o@[0].0@ == "first_name"@ && o@[0].1 == JsonValue::Str(mm.first_name)
    &&& o@[1].0@ == "last_name"@ && o@[1].1 == JsonValue::Str(mm.last_name)
    &&& o@[2].0@ == "nickname"@ && o@[2].1 == JsonValue::Str(mm.nickname)
    &&& o@[3].0@ == "position"@ && o@[3].1 == JsonValue::Str(mm.position)
    &&& o@[4].0@ == "roles"@ && o@[4].1 == JsonValue::Str(mm.roles)
    &&& o@[5].0@ == "locale"@ && o@[5].1 == JsonValue::Str(mm.locale)
    &&& o@[6].0@ == "timezone"@ && (o@[6].1 matches JsonValue::Object(tz) && tz@.len() == mm.timezone@.len()
        && forall|i: int| 0 <= i < tz@.len() ==> (#[trigger] tz@[i]).0 == mm.timezone@[i].0
            && tz@[i].1 == JsonValue::Str(mm.timezone@[i].1))
    &&& o@[7].0@ == "props"@ && o@[7].1 == JsonValue::Object(mm.props)
    &&& o@[8].0@ == "create_at"@ && o@[8].1 == JsonValue::Int(mm.create_at)
    &&& o@[9].0@ == "update_at"@ && o@[9].1 == JsonValue::Int(mm.update_at)
}

/// How a Mattermost user becomes a user.
pub open spec fn user_converted(mm: MattermostUser, u: User) -> bool {
    &&& u.id == mm.id
    &&& u.username == mm.username
    &&& u.display_name@ == display_name_for(mm.first_name@, mm.last_name@, mm.nickname@, mm.username@)
    &&& opt_view(u.email) == if mm.email@.len() > 0 { Some(mm.email@) } else { None }
    &&& u.avatar_url is None
    &&& u.status == UserStatus::Unknown
    &&& u.status_message is None
    &&& u.is_bot == mm.is_bot
    &&& u.metadata matches Some(md) && user_metadata_ok(md, mm)
}

impl User {
    /// The user a Mattermost user object describes.
    pub fn from_mattermost(mm_user: MattermostUser) -> (u: User)
        ensures
            user_converted(mm_user, u),
    {
        let ghost mm = mm_user;
        let display_name = user_display_name(
            mm_user.first_name.as_str(),
            mm_user.last_name.as_str(),
            mm_user.nickname.as_str(),
            mm_user.username.as_str(),
        );
        let mut md: Vec<(String, JsonValue)> = Vec::new();
        md.push(entry("first_name", JsonValue::Str(mm_user.first_name.clone())));
        md.push(entry("last_name", JsonValue::Str(mm_user.last_name.clone())));
        md.push(entry("nickname", JsonValue::Str(mm_user.nickname.clone())));
        md.push(entry("position", JsonValue::Str(mm_user.position)));
        md.push(entry("roles", JsonValue::Str(mm_user.roles)));
        md.push(entry("locale", JsonValue::Str(mm_user.locale)));
        md.push(entry("timezone", string_pairs_object(&mm_user.timezone)));
        md.push(entry("props", JsonValue::Object(mm_user.props)));
        md.push(entry("create_at", JsonValue::Int(mm_user.create_at)));
        md.push(entry("update_at", JsonValue::Int(mm_user.update_at)));
        let email = if !mm_user.email.as_str().is_empty() { Some(mm_user.email) } else { None };
        User {
            id: mm_user.id,
            username: mm_user.username,
            display_name,
            email,
            avatar_url: None,
            status: UserStatus::Unknown,
            status_message: None,
            is_bot: mm_user.is_bot,
            metadata: Some(JsonValue::Object(md)),
        }
    }
}

/// The URL path of a file.
pub open spec fn file_url(file_id: Seq<char>) -> Seq<char> {
    "/api/v4/files/"@ + file_id
}

/// The URL path of a file's thumbnail, addressed by the post the file belongs to.
pub open spec fn file_thumbnail_url(post_id: Seq<char>) -> Seq<char> {
    "/api/v4/files/"@ + post_id + "/thumbnail"@
}

/// How a Mattermost file becomes an attachment.
pub open spec fn attachment_converted(file: FileInfo, a: Attachment) -> bool {
    &&& a.id@ == file.id@
    &&& a.filename == file.name
    &&& a.mime_type == file.mime_type
    &&& a.size == file.size as u64
    &&& a.url@ == file_url(file.id@)
    &&& opt_view(a.thumbnail_url) == if file.has_preview_image { Some(file_thumbnail_url(file.post_id@)) } else { None }
}

impl Attachment {
    /// The attachment a Mattermost file describes.
    pub fn from_file_info(file: FileInfo) -> (a: Attachment)
        ensures
            attachment_converted(file, a),
    {
        let mut url = owned("/api/v4/files/");
        url.append(file.id.as_str());
        let thumbnail_url = if file.has_preview_image {
            let mut t = owned("/api/v4/files/");
            t.append(file.post_id.as_str());
            t.append("/thumbnail");
            Some(t)
        } else {
            None
        };
        Attachment {
            id: file.id,
            filename: file.name,
            mime_type: file.mime_type,
            size: file.size as u64,
            url,
            thumbnail_url,
        }
    }
}

/// The metadata a converted message carries.
pub open spec fn message_metadata_ok(md: JsonValue, post: MattermostPost) -> bool {
    &&& md matches JsonValue::Object(o)
    &&& o@.len() == 7
    &&& o@[0].0@ == "root_id"@ && o@[0].1 == JsonValue::Str(post.root_id)
    &&& o@[1].0@ == "parent_id"@ && o@[1].1 == JsonValue::Str(post.parent_id)
    &&& o@[2].0@ == "post_type"@ && o@[2].1 == JsonValue::Str(post.post_type)
    &&& o@[3].0@ == "props"@ && o@[3].1 == JsonValue::Object(post.props)
    &&& o@[4].0@ == "hashtags"@ && o@[4].1 == JsonValue::Str(post.hashtags)
    &&& o@[5].0@ == "update_at"@ && o@[5].1 == JsonValue::Int(post.update_at)
    &&& o@[6].0@ == "delete_at"@ && o@[6].1 == JsonValue::Int(post.delete_at)
}

/// How a Mattermost post becomes a message.
pub open spec fn message_converted(post: MattermostPost, m: Message) -> bool {
    &&& m.id == post.id
    &&& m.text == post.message
    &&& m.sender_id == post.user_id
    &&& m.channel_id == post.channel_id
    &&& m.created_at == post.create_at
    &&& m.edited_at == if post.edit_at > 0 { Some(post.edit_at) } else { None }
    &&& m.attachments@.len() == post.metadata.files@.len()
    &&& forall|i: int| 0 <= i < m.attachments@.len()
        ==> attachment_converted(post.metadata.files@[i], #[trigger] m.attachments@[i])
    &&& m.metadata matches Some(md) && message_metadata_ok(md, post)
}

impl Message {
    /// The message a Mattermost post describes.
    pub fn from_mattermost(post: MattermostPost) -> (m: Message)
        ensures
            message_converted(post, m),
    {
        let ghost given = post;
        let edited_at = if post.edit_at > 0 { Some(post.edit_at) } else { None };
        let files = post.metadata.files;
        let mut attachments: Vec<Attachment> = Vec::new();
        let mut i: usize = 0;
        while i < files.len()
            invariant
                i <= files.len(),
                files@ == given.metadata.files@,
                attachments@.len() == i,
                forall|j: int| 0 <= j < i ==> attachment_converted(files@[j], #[trigger] attachments@[j]),
            decreases files.len() - i,
        {
            attachments.push(Attachment::from_file_info(files[i].duplicate()));
            i = i + 1;
        }
        let mut md: Vec<(String, JsonValue)> = Vec::new();
        md.push(entry("root_id", JsonValue::Str(post.root_id)));
        md.push(entry("parent_id", JsonValue::Str(post.parent_id)));
        md.push(entry("post_type", JsonValue::Str(post.post_type)));
        md.push(entry("props", JsonValue::Object(post.props)));
        md.push(entry("hashtags", JsonValue::Str(post.hashtags)));
        md.push(entry("update_at", JsonValue::Int(post.update_at)));
        md.push(entry("delete_at", JsonValue::Int(post.delete_at)));
        Message {
            id: post.id,
            text: post.message,
            sender_id: post.user_id,
            channel_id: post.channel_id,
            created_at: post.create_at,
            edited_at,
            attachments,
            metadata: Some(JsonValue::Object(md)),
        }
    }
}

/// The channel type each Mattermost channel type stands for.
pub open spec fn channel_type_of(t: MattermostChannelType) -> ChannelType {
    match t {
        MattermostChannelType::Open => ChannelType::Public,
        MattermostChannelType::Private => ChannelType::Private,
        MattermostChannelType::Direct => ChannelType::DirectMessage,
        MattermostChannelType::Group => ChannelType::GroupMessage,
    }
}

/// The channel type a Mattermost channel type stands for.
pub fn channel_type_from_mattermost(t: MattermostChannelType) -> (r: ChannelType)
    ensures
        r == channel_type_of(t),
{
    match t {
        MattermostChannelType::Open => ChannelType::Public,
        MattermostChannelType::Private => ChannelType::Private,
        MattermostChannelType::Direct => ChannelType::DirectMessage,
        MattermostChannelType::Group => ChannelType::GroupMessage,
    }
}

/// The metadata a converted channel carries.
pub open spec fn channel_metadata_ok(md: JsonValue, ch: MattermostChannel) -> bool {
    &&& md matches JsonValue::Object(o)
    &&& o@.len() == 5
    &&& o@[0].0@ == "team_id"@ && o@[0].1 == JsonValue::Str(ch.team_id)
    &&& o@[1].0@ == "total_msg_count"@ && o@[1].1 == JsonValue::Int(ch.total_msg_count)
    &&& o@[2].0@ == "creator_id"@ && o@[2].1 == JsonValue::Str(ch.creator_id)
    &&& o@[3].0@ == "update_at"@ && o@[3].1 == JsonValue::Int(ch.update_at)
    &&& o@[4].0@ == "delete_at"@ && o@[4].1 == JsonValue::Int(ch.delete_at)
}

/// How a Mattermost channel becomes a channel: the header is the topic and
/// the purpose the purpose when set, the last post time the last activity when
/// positive, and a positive deletion time marks it archived.
pub open spec fn channel_converted(ch: MattermostChannel, c: Channel) -> bool {
    &&& c.id == ch.id
    &&& c.name == ch.name
    &&& c.display_name == ch.display_name
    &&& c.channel_type == channel_type_of(ch.channel_type)
    &&& opt_view(c.topic) == if ch.header@.len() > 0 { Some(ch.header@) } else { None }
    &&& opt_view(c.purpose) == if ch.purpose@.len() > 0 { Some(ch.purpose@) } else { None }
    &&& c.member_ids is None
    &&& c.created_at == ch.create_at
    &&& c.last_activity_at == if ch.last_post_at > 0 { Some(ch.last_post_at) } else { None }
    &&& c.is_archived == (ch.delete_at > 0)
    &&& c.metadata matches Some(md) && channel_metadata_ok(md, ch)
}

impl Channel {
    /// The channel a Mattermost channel object describes.
    pub fn from_mattermost(mm_channel: MattermostChannel) -> (c: Channel)
        ensures
            channel_converted(mm_channel, c),
    {
        let channel_type = channel_type_from_mattermost(mm_channel.channel_type);
        let last_activity_at = if mm_channel.last_post_at > 0 { Some(mm_channel.last_post_at) } else { None };
        let topic = if !mm_channel.header.as_str().is_empty() { Some(mm_channel.header) } else { None };
        let purpose = if !mm_channel.purpose.as_str().is_empty() { Some(mm_channel.purpose) } else { None };
        let mut md: Vec<(String, JsonValue)> = Vec::new();
        md.push(entry("team_id", JsonValue::Str(mm_channel.team_id)));
        md.push(entry("total_msg_count", JsonValue::Int(mm_channel.total_msg_count)));
        md.push(entry("creator_id", JsonValue::Str(mm_channel.creator_id)));
        md.push(entry("update_at", JsonValue::Int(mm_channel.update_at)));
        md.push(entry("delete_at", JsonValue::Int(mm_channel.delete_at)));
        Channel {
            id: mm_channel.id,
            name: mm_channel.name,
            display_name: mm_channel.display_name,
            channel_type,
            topic,
            purpose,
            member_ids: None,
            created_at: mm_channel.create_at,
            last_activity_at,
            is_archived: mm_channel.delete_at > 0,
            metadata: Some(JsonValue::Object(md)),
        }
    }
}

/// How a Mattermost team becomes a team: type "O" is open and anything else
/// invite-only; the description and allowed domains are kept when set.
pub open spec fn team_converted(t: MattermostTeam, r: Team) -> bool {
    &&& r.id == t.id
    &&& r.name == t.name
    &&& r.display_name == t.display_name
    &&& opt_view(r.description) == if t.description@.len() > 0 { Some(t.description@) } else { None }
    &&& r.team_type == if t.team_type@ == "O"@ { TeamType::Open } else { TeamType::Invite }
    &&& opt_view(r.allowed_domains) == if t.allowed_domains@.len() > 0 { Some(t.allowed_domains@) } else { None }
    &&& r.allow_open_invite == t.allow_open_invite
    &&& r.metadata is None
}

impl Team {
    /// The team a Mattermost team object describes.
    pub fn from_mattermost(mm_team: MattermostTeam) -> (r: Team)
        ensures
            team_converted(mm_team, r),
    {
        let open = str_eq(mm_team.team_type.as_str(), "O");
        proof {
            reveal_strlit("O");
        }
        let description = if !mm_team.description.as_str().is_empty() { Some(mm_team.description) } else { None };
        let allowed_domains = if !mm_team.allowed_domains.as_str().is_empty() { Some(mm_team.allowed_domains) } else { None };
        Team {
            id: mm_team.id,
            name: mm_team.name,
            display_name: mm_team.display_name,
            description,
            team_type: if open { TeamType::Open } else { TeamType::Invite },
            allowed_domains,
            allow_open_invite: mm_team.allow_open_invite,
            metadata: None,
        }
    }
}

impl ChannelUnread {
    /// The unread counts a Mattermost unread record gives, with its team.
    pub fn from_unread_info(info: ChannelUnreadInfo) -> (u: ChannelUnread)
        ensures
            u == (ChannelUnread {
                channel_id: info.channel_id,
                team_id: Some(info.team_id),
                msg_count: info.msg_count,
                mention_count: info.mention_count,
                last_viewed_at: info.last_viewed_at,
            }),
    {
        ChannelUnread {
            channel_id: info.channel_id,
            team_id: Some(info.team_id),
            msg_count: info.msg_count,
            mention_count: info.mention_count,
            last_viewed_at: info.last_viewed_at,
        }
    }
}

impl Emoji {
    /// The emoji a Mattermost custom emoji describes.
    pub fn from_mattermost(mm_emoji: MattermostEmoji) -> (e: Emoji)
        ensures
            e == (Emoji {
                id: mm_emoji.id,
                name: mm_emoji.name,
                creator_id: mm_emoji.creator_id,
                created_at: mm_emoji.create_at,
            }),
    {
        Emoji {
            id: mm_emoji.id,
            name: mm_emoji.name,
            creator_id: mm_emoji.creator_id,
            created_at: mm_emoji.create_at,
        }
    }
}

/// The user status a Mattermost status word stands for; unknown words map to
/// `Unknown`.
pub open spec fn status_of_word(s: Seq<char>) -> UserStatus {
    if s == "online"@ {
        UserStatus::Online
    } else if s == "away"@ {
        UserStatus::Away
    } else if s == "dnd"@ || s == "do_not_disturb"@ {
        UserStatus::DoNotDisturb
    } else if s == "offline"@ {
        UserStatus::Offline
    } else {
        UserStatus::Unknown
    }
}

/// The word Mattermost uses for each user status.
pub open spec fn word_of_status(s: UserStatus) -> Seq<char> {
    match s {
        UserStatus::Online => "online"@,
        UserStatus::Away => "away"@,
        UserStatus::DoNotDisturb => "dnd"@,
        UserStatus::Offline => "offline"@,
        UserStatus::Unknown => "unknown"@,
    }
}

/// The user status a Mattermost status word stands for.
pub fn status_string_to_user_status(status: &str) -> (r: UserStatus)
    ensures
        r == status_of_word(status@),
{
    if str_eq(status, "online") {
        UserStatus::Online
    } else if str_eq(status, "away") {
        UserStatus::Away
    } else if str_eq(status, "dnd") || str_eq(status, "do_not_disturb") {
        UserStatus::DoNotDisturb
    } else if str_eq(status, "offline") {
        UserStatus::Offline
    } else {
        UserStatus::Unknown
    }
}

/// The word Mattermost uses for a user status.
pub fn user_status_to_status_string(status: UserStatus) -> (s: &'static str)
    ensures
        s@ == word_of_status(status),
{
    match status {
        UserStatus::Online => "online",
        UserStatus::Away => "away",
        UserStatus::DoNotDisturb => "dnd",
        UserStatus::Offline => "offline",
        UserStatus::Unknown => "unknown",
    }
}

/// The status a caller may set: one of the four words "online", "away", "dnd",
/// "offline"; anything else is refused.
pub open spec fn settable_status(s: Seq<char>) -> Option<UserStatus> {
    if s == "online"@ {
        Some(UserStatus::Online)
    } else if s == "away"@ {
        Some(UserStatus::Away)
    } else if s == "dnd"@ {
        Some(UserStatus::DoNotDisturb)
    } else if s == "offline"@ {
        Some(UserStatus::Offline)
    } else {
        None
    }
}

/// Read a status a caller asks to set, or refuse it with `InvalidArgument`.
pub fn parse_settable_status(status: &str) -> (r: Result<UserStatus, crate::error::Error>)
    ensures
        match r {
            Ok(s) => settable_status(status@) == Some(s),
            Err(e) => settable_status(status@) is None && e.code == crate::error::ErrorCode::InvalidArgument
                && e.message@ == "Invalid status. Must be one of: online, away, dnd, offline"@,
        },
{
    if str_eq(status, "online") {
        Ok(UserStatus::Online)
    } else if str_eq(status, "away") {
        Ok(UserStatus::Away)
    } else if str_eq(status, "dnd") {
        Ok(UserStatus::DoNotDisturb)
    } else if str_eq(status, "offline") {
        Ok(UserStatus::Offline)
    } else {
        Err(crate::error::Error::new(
            crate::error::ErrorCode::InvalidArgument,
            owned("Invalid status. Must be one of: online, away, dnd, offline"),
        ))
    }
}

/// Every settable status reads back from the word it is set with, and every
/// status but `Unknown` round-trips through its word.
pub proof fn law_status_words_round_trip(s: UserStatus)
    ensures
        s != UserStatus::Unknown ==> status_of_word(word_of_status(s)) == s,
        s != UserStatus::Unknown ==> settable_status(word_of_status(s)) == Some(s),
        s == UserStatus::Unknown ==> status_of_word(word_of_status(s)) == UserStatus::Unknown,
{
    reveal_strlit("online");
    reveal_strlit("away");
    reveal_strlit("dnd");
    reveal_strlit("do_not_disturb");
    reveal_strlit("offline");
    reveal_strlit("unknown");
    assert("online"@[0] == 'o' && "away"@[0] == 'a' && "dnd"@[0] == 'd' && "unknown"@[0] == 'u');
    assert("offline"@[0] == 'o' && "do_not_disturb"@[0] == 'd');
    assert("online"@[1] == 'n' && "offline"@[1] == 'f');
    assert("dnd"@.len() == 3 && "do_not_disturb"@.len() == 14);
}

/// A converted user is a bot exactly when the Mattermost user is one, and
/// keeps its ID and username.
pub proof fn law_user_conversion_keeps_identity(mm: MattermostUser, u: User)
    requires
        user_converted(mm, u),
    ensures
        u.is_bot <==> mm.is_bot,
        u.id@ == mm.id@,
        u.username@ == mm.username@,
{
}

} // verus!
