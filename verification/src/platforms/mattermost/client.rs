//! The Mattermost client's own state and rules: the server address, the
//! session (token, user, team, connection state), the rate-limit figures the
//! server reports, the response caches, and how a failed reply becomes an
//! error. The HTTP transport that sends requests lives outside the library and
//! asks this state what to send and how to read the answer.

use vstd::prelude::*;
use crate::error::{opt_view, copy_opt, Error, ErrorCode, ErrorView};
use crate::text::{
    contains_str, decimal, has_substring, owned, parse_unsigned, parse_unsigned_decimal,
    trim_end_char, trim_end_matches, trim_start_char, trim_start_matches, u64_to_decimal,
};
use crate::types::connection::{ConnectionInfo, ConnectionState};
use super::cache::{expiry, live_at, live_part, lookup_outcome, Cache, CacheEntry};
use super::types::{user_copy, MattermostChannel, MattermostErrorResponse, MattermostTeam, MattermostUser};
use crate::platforms::config::PlatformEvent;

verus! {

/// How long cached replies live, in nanoseconds of the monotonic clock, and
/// whether caching is on.
#[derive(Debug, Clone, Copy, PartialEq, Eq, Structural)]
pub struct CacheConfig {
    /// Time-to-live of cached users (default: five minutes).
    pub user_ttl: u64,
    /// Time-to-live of cached channels (default: two minutes).
    pub channel_ttl: u64,
    /// Time-to-live of cached teams (default: ten minutes).
    pub team_ttl: u64,
    /// Whether lookups go through the caches (default: yes).
    pub enable_cache: bool,
}

/// The default cache settings.
pub open spec fn default_cache_config() -> CacheConfig {
    CacheConfig { user_ttl: 300_000_000_000, channel_ttl: 120_000_000_000, team_ttl: 600_000_000_000, enable_cache: true }
}

impl Default for CacheConfig {
    fn default() -> (c: Self)
        ensures
            c == default_cache_config(),
    {
        CacheConfig { user_ttl: 300_000_000_000, channel_ttl: 120_000_000_000, team_ttl: 600_000_000_000, enable_cache: true }
    }
}

impl CacheConfig {
    /// The default settings with caching switched off.
    pub fn disabled() -> (c: Self)
        ensures
            c == (CacheConfig { enable_cache: false, ..default_cache_config() }),
    {
        CacheConfig { enable_cache: false, ..CacheConfig::default() }
    }
}

/// The rate-limit figures a Mattermost server reports with each reply.
#[derive(Debug, Clone, Copy, PartialEq, Eq, Structural)]
pub struct RateLimitInfo {
    /// Requests allowed per second.
    pub limit: u32,
    /// Requests left in the current window.
    pub remaining: u32,
    /// When the window resets, in seconds since the Unix epoch.
    pub reset_at: u64,
}

/// The rate-limit figures read from the three header values, when each is
/// present and is a number of its type.
pub open spec fn rate_limit_of(
    limit: Option<Seq<char>>,
    remaining: Option<Seq<char>>,
    reset: Option<Seq<char>>,
) -> Option<RateLimitInfo> {
    match (limit, remaining, reset) {
        (Some(l), Some(m), Some(r)) => {
            match (parse_unsigned(l, u32::MAX as nat), parse_unsigned(m, u32::MAX as nat), parse_unsigned(r, u64::MAX as nat)) {
                (Some(a), Some(b), Some(c)) => Some(RateLimitInfo { limit: a as u32, remaining: b as u32, reset_at: c as u64 }),
                _ => None,
            }
        },
        _ => None,
    }
}

fn parse_header(value: Option<&str>, max: u64) -> (r: Option<u64>)
    ensures
        match value {
            Some(v) => match r {
                Some(n) => parse_unsigned(v@, max as nat) == Some(n as nat),
                None => parse_unsigned(v@, max as nat) is None,
            },
            None => r is None,
        },
{
    match value {
        Some(v) => parse_unsigned_decimal(v, max),
        None => None,
    }
}

/// The error-code family that a Mattermost error ID belongs to, judged by the
/// words it contains, in this order: authentication words ("mfa_required",
/// "invalid_mfa", "mfa", "invalid_credentials", "login"), "not_found",
/// permission words ("permission", "forbidden"), "rate_limit", "timeout",
/// argument words ("invalid_param", "invalid_").
pub open spec fn error_code_for_id(id: Seq<char>) -> ErrorCode {
    if has_substring(id, "mfa_required"@) || has_substring(id, "invalid_mfa"@) || has_substring(id, "mfa"@)
        || has_substring(id, "invalid_credentials"@) || has_substring(id, "login"@) {
        ErrorCode::AuthenticationFailed
    } else if has_substring(id, "not_found"@) {
        ErrorCode::NotFound
    } else if has_substring(id, "permission"@) || has_substring(id, "forbidden"@) {
        ErrorCode::PermissionDenied
    } else if has_substring(id, "rate_limit"@) {
        ErrorCode::RateLimited
    } else if has_substring(id, "timeout"@) {
        ErrorCode::Timeout
    } else if has_substring(id, "invalid_param"@) || has_substring(id, "invalid_"@) {
        ErrorCode::InvalidArgument
    } else {
        ErrorCode::Unknown
    }
}

/// The error code that an HTTP status alone suggests, for replies whose body
/// is not a Mattermost error.
pub open spec fn error_code_for_status(status: u16) -> ErrorCode {
    if status == 401 || status == 403 {
        ErrorCode::AuthenticationFailed
    } else if status == 404 {
        ErrorCode::NotFound
    } else if status == 429 {
        ErrorCode::RateLimited
    } else if 500 <= status <= 599 {
        ErrorCode::NetworkError
    } else {
        ErrorCode::Unknown
    }
}

/// The reason phrase the `http` crate gives a status code
/// (`StatusCode::canonical_reason`), where it has one.
pub uninterp spec fn http_canonical_reason(status: u16) -> Option<Seq<char>>;

/// `reqwest::StatusCode::from_u16(status)` and its `canonical_reason`. The
/// contract states that the result is the named table entry for `status`,
/// and that a number outside 100..=999, which is no status code, has none.
#[verifier::external_body]
fn canonical_reason(status: u16) -> (r: Option<String>)
    ensures
        !(100 <= status <= 999) ==> r is None,
        opt_view(r) == http_canonical_reason(status),
{
    match reqwest::StatusCode::from_u16(status) {
        Ok(code) => match code.canonical_reason() {
            Some(text) => Some(text.to_string()),
            None => None,
        },
        Err(_) => None,
    }
}

/// How an HTTP status is written: the number, a space, and the reason phrase
/// (or "<unknown status code>").
pub open spec fn status_text(status: u16, reason: Option<Seq<char>>) -> Seq<char> {
    decimal(status as nat) + " "@ + match reason {
        Some(r) => r,
        None => "<unknown status code>"@,
    }
}

/// The error reported for a failed reply, given the reason phrase of its
/// status: when the body is a Mattermost error, its message and ID, with the
/// code its ID suggests; otherwise a message quoting the status and the body,
/// with the code the status suggests. The status, and the request ID where the
/// server sent one, are attached either way.
pub open spec fn failed_response_view(
    status: u16,
    reason: Option<Seq<char>>,
    error_text: Seq<char>,
    parsed: Option<MattermostErrorResponse>,
    request_id: Option<Seq<char>>,
) -> ErrorView {
    match parsed {
        Some(mm) => ErrorView {
            code: error_code_for_id(mm.id@),
            message: mm.message@,
            mattermost_error_id: Some(mm.id@),
            request_id,
            http_status: Some(status),
        },
        None => ErrorView {
            code: error_code_for_status(status),
            message: "API request failed with status "@ + status_text(status, reason) + ": "@ + error_text,
            mattermost_error_id: None,
            request_id,
            http_status: Some(status),
        },
    }
}

/// The API address of `endpoint` on the server at `base`: the base without
/// trailing slashes, "/api/v4/", and the endpoint without leading slashes.
pub open spec fn api_url_of(base: Seq<char>, endpoint: Seq<char>) -> Seq<char> {
    trim_end_matches(base, '/') + "/api/v4/"@ + trim_start_matches(endpoint, '/')
}

/// The `url` crate's reading of a server address: its serialization
/// (`Url::as_str`) or the text of its parse error.
pub uninterp spec fn url_parse_result(input: Seq<char>) -> Result<Seq<char>, Seq<char>>;

/// `url::Url::parse(input)`, giving the parsed URL's serialization or the
/// error's `Display` text. The contract claims only that the result is the
/// named reading of `input`.
#[verifier::external_body]
fn parse_url(input: &str) -> (r: Result<String, String>)
    ensures
        match r {
            Ok(u) => url_parse_result(input@) == Ok::<Seq<char>, Seq<char>>(u@),
            Err(e) => url_parse_result(input@) == Err::<Seq<char>, Seq<char>>(e@),
        },
{
    match url::Url::parse(input) {
        Ok(u) => Ok(u.as_str().to_string()),
        Err(e) => Err(e.to_string()),
    }
}

/// The client after the caches have taken note of event `e`: an updated
/// user, or one whose role changed, leaves the user cache; a created,
/// updated or deleted channel leaves the channel cache; a team a user was
/// added to or left leaves the team cache; other events change nothing.
pub open spec fn after_event(v: ClientView, e: PlatformEvent) -> ClientView {
    match e {
        PlatformEvent::UserUpdated { user_id } => ClientView { users: v.users.remove(user_id@), ..v },
        PlatformEvent::UserRoleUpdated { user_id } => ClientView { users: v.users.remove(user_id@), ..v },
        PlatformEvent::ChannelCreated(c) => ClientView { channels: v.channels.remove(c.id@), ..v },
        PlatformEvent::ChannelUpdated(c) => ClientView { channels: v.channels.remove(c.id@), ..v },
        PlatformEvent::ChannelDeleted { channel_id } => ClientView { channels: v.channels.remove(channel_id@), ..v },
        PlatformEvent::AddedToTeam { team_id, .. } => ClientView { teams: v.teams.remove(team_id@), ..v },
        PlatformEvent::LeftTeam { team_id, .. } => ClientView { teams: v.teams.remove(team_id@), ..v },
        _ => v,
    }
}

/// The wait before the retry that follows `k` earlier ones, in
/// milliseconds: one second, doubled each time, at most thirty seconds.
pub open spec fn retry_delay(k: nat) -> u64
    decreases k,
{
    if k == 0 {
        1000
    } else {
        let d = retry_delay((k - 1) as nat);
        if 2 * d > 30000 { 30000 } else { (2 * d) as u64 }
    }
}

/// The state of a request that is retried while the server says it is rate
/// limited: how many retries have been made, and the next wait.
pub struct RetryState {
    pub retries: u32,
    pub backoff_ms: u64,
}

impl RetryState {
    /// No retries yet; the first wait is one second.
    pub fn new() -> (r: Self)
        ensures
            r.retries == 0,
            r.backoff_ms == 1000,
    {
        RetryState { retries: 0, backoff_ms: 1000 }
    }

    /// The request failed with `code`. When it was rate limited and fewer
    /// than `max_retries` retries have been made, returns the wait before the
    /// next try (the retry count goes up and the next wait doubles, capped at
    /// thirty seconds); otherwise `None`: the error stands.
    pub fn on_error(&mut self, code: ErrorCode, max_retries: u32) -> (wait: Option<u64>)
        ensures
            if code == ErrorCode::RateLimited && old(self).retries < max_retries {
                &&& wait == Some(old(self).backoff_ms)
                &&& final(self).retries == old(self).retries + 1
                &&& final(self).backoff_ms == if 2 * old(self).backoff_ms > 30000 { 30000 } else { 2 * old(self).backoff_ms }
            } else {
                wait is None && *final(self) == *old(self)
            },
    {
        if code == ErrorCode::RateLimited && self.retries < max_retries {
            let wait = self.backoff_ms;
            self.retries = self.retries + 1;
            self.backoff_ms = if self.backoff_ms > 15000 { 30000 } else { self.backoff_ms * 2 };
            Some(wait)
        } else {
            None
        }
    }
}

/// The retry state after `k` rate-limited failures, each retried.
pub open spec fn retry_run(k: nat) -> RetryState
    decreases k,
{
    if k == 0 {
        RetryState { retries: 0, backoff_ms: 1000 }
    } else {
        let s = retry_run((k - 1) as nat);
        RetryState {
            retries: (s.retries + 1) as u32,
            backoff_ms: if 2 * s.backoff_ms > 30000 { 30000 } else { (2 * s.backoff_ms) as u64 },
        }
    }
}

/// Rate-limited requests wait one, two, four, ... seconds between tries,
/// never more than thirty: after `k` retries the next wait is
/// `retry_delay(k)`, and no retry is made once `max_retries` have been.
pub proof fn law_retry_backoff(k: nat, max_retries: u32)
    requires
        k <= max_retries,
    ensures
        retry_run(k).retries == k,
        retry_run(k).backoff_ms == retry_delay(k),
        1000 <= retry_run(k).backoff_ms <= 30000,
    decreases k,
{
    if k > 0 {
        law_retry_backoff((k - 1) as nat, max_retries);
    }
}

/// Leading slashes on an endpoint make no difference to its API address.
pub proof fn law_api_url_leading_slash(base: Seq<char>, endpoint: Seq<char>)
    ensures
        api_url_of(base, seq!['/'] + endpoint) == api_url_of(base, endpoint),
{
    assert((seq!['/'] + endpoint).drop_first() =~= endpoint);
}

/// What a lookup in the user cache gives back and leaves behind: see
/// [`lookup_outcome`], a user being given back as a copy (see [`user_copy`]).
pub open spec fn user_lookup(
    before: Map<Seq<char>, CacheEntry<MattermostUser>>,
    after: Map<Seq<char>, CacheEntry<MattermostUser>>,
    key: Seq<char>,
    now: u64,
    r: Option<MattermostUser>,
) -> bool {
    lookup_outcome(before, after, key, now, r, |a: MattermostUser, b: MattermostUser| user_copy(a, b))
}

/// What a lookup in a cache gives back and leaves behind: see
/// [`lookup_outcome`], a value being given back equal to the stored one.
pub open spec fn exact_lookup<T>(
    before: Map<Seq<char>, CacheEntry<T>>,
    after: Map<Seq<char>, CacheEntry<T>>,
    key: Seq<char>,
    now: u64,
    r: Option<T>,
) -> bool {
    lookup_outcome(before, after, key, now, r, |a: T, b: T| a == b)
}

/// Once a user's profile or role is reported changed, the next lookup of
/// that user misses the cache (so it is fetched afresh); likewise for a
/// created, updated or deleted channel, and for a team a user joins or leaves.
pub proof fn law_event_forces_refetch(
    v: ClientView,
    e: PlatformEvent,
    now: u64,
    after_users: Map<Seq<char>, CacheEntry<MattermostUser>>,
    after_channels: Map<Seq<char>, CacheEntry<MattermostChannel>>,
    after_teams: Map<Seq<char>, CacheEntry<MattermostTeam>>,
    user: Option<MattermostUser>,
    channel: Option<MattermostChannel>,
    team: Option<MattermostTeam>,
)
    ensures
        (e matches PlatformEvent::UserUpdated { user_id } && user_lookup(after_event(v, e).users, after_users, user_id@, now, user)) ==> user is None,
        (e matches PlatformEvent::UserRoleUpdated { user_id } && user_lookup(after_event(v, e).users, after_users, user_id@, now, user)) ==> user is None,
        (e matches PlatformEvent::ChannelUpdated(c) && exact_lookup(after_event(v, e).channels, after_channels, c.id@, now, channel)) ==> channel is None,
        (e matches PlatformEvent::ChannelDeleted { channel_id } && exact_lookup(after_event(v, e).channels, after_channels, channel_id@, now, channel)) ==> channel is None,
        (e matches PlatformEvent::LeftTeam { team_id, .. } && exact_lookup(after_event(v, e).teams, after_teams, team_id@, now, team)) ==> team is None,
        (e matches PlatformEvent::AddedToTeam { team_id, .. } && exact_lookup(after_event(v, e).teams, after_teams, team_id@, now, team)) ==> team is None,
{
}

/// What a [`MattermostClient`] holds.
pub struct ClientView {
    pub base_url: Seq<char>,
    pub token: Option<Seq<char>>,
    pub state: ConnectionState,
    pub team_id: Option<Seq<char>>,
    pub user_id: Option<Seq<char>>,
    pub rate_limit_info: Option<RateLimitInfo>,
    pub users: Map<Seq<char>, CacheEntry<MattermostUser>>,
    pub channels: Map<Seq<char>, CacheEntry<MattermostChannel>>,
    pub teams: Map<Seq<char>, CacheEntry<MattermostTeam>>,
    pub cache_config: CacheConfig,
}

/// A client for the server at `base_url`, not yet signed in, with empty caches.
pub open spec fn fresh_client(base_url: Seq<char>, cache_config: CacheConfig) -> ClientView {
    ClientView {
        base_url,
        token: None,
        state: ConnectionState::Disconnected,
        team_id: None,
        user_id: None,
        rate_limit_info: None,
        users: Map::empty(),
        channels: Map::empty(),
        teams: Map::empty(),
        cache_config,
    }
}

/// The error for a server address that does not parse.
pub open spec fn invalid_url_error(reason: Seq<char>) -> ErrorView {
    ErrorView {
        code: ErrorCode::InvalidArgument,
        message: "Invalid URL: "@ + reason,
        mattermost_error_id: None,
        request_id: None,
        http_status: None,
    }
}

/// What building a client from a parsed (or refused) server address gives.
pub open spec fn client_from_parse(
    parsed: Result<Seq<char>, Seq<char>>,
    cache_config: CacheConfig,
    r: Result<MattermostClient, Error>,
) -> bool {
    match parsed {
        Ok(u) => r matches Ok(c) && c@ == fresh_client(u, cache_config),
        Err(e) => r matches Err(err) && err@ == invalid_url_error(e),
    }
}

/// The views of a list of strings.
pub open spec fn views(s: Seq<String>) -> Seq<Seq<char>> {
    s.map_values(|x: String| x@)
}

/// Whether the user cache holds a live entry for `id` at time `now`.
pub open spec fn user_cached(users: Map<Seq<char>, CacheEntry<MattermostUser>>, id: Seq<char>, now: u64) -> bool {
    users.contains_key(id) && live_at(users[id].expires_at, now)
}

/// The user cache after looking up each of `ids` at time `now`: the
/// entries of those IDs that had expired are gone, the rest is unchanged.
pub open spec fn after_lookups(
    users: Map<Seq<char>, CacheEntry<MattermostUser>>,
    ids: Seq<Seq<char>>,
    now: u64,
) -> Map<Seq<char>, CacheEntry<MattermostUser>> {
    Map::new(
        |k: Seq<char>| users.contains_key(k) && (live_at(users[k].expires_at, now) || !ids.contains(k)),
        |k: Seq<char>| users[k],
    )
}

/// The value stored under `k` by the last of `entries` with that key.
pub open spec fn last_value<V>(entries: Seq<(String, V)>, k: Seq<char>) -> Option<V>
    decreases entries.len(),
{
    if entries.len() == 0 {
        None
    } else if entries.last().0@ == k {
        Some(entries.last().1)
    } else {
        last_value(entries.drop_last(), k)
    }
}

/// For each of `ids` in order, the user that the last entry of `found` with
/// that ID holds; IDs with no entry are skipped.
pub open spec fn users_in_order(ids: Seq<Seq<char>>, found: Seq<(String, MattermostUser)>) -> Seq<MattermostUser>
    decreases ids.len(),
{
    if ids.len() == 0 {
        Seq::empty()
    } else {
        let rest = users_in_order(ids.drop_last(), found);
        match last_value(found, ids.last()) {
            Some(u) => rest.push(u),
            None => rest,
        }
    }
}

/// Each user of a batch under its own ID.
pub open spec fn pairs_of(users: Seq<MattermostUser>) -> Seq<(String, MattermostUser)> {
    users.map_values(|u: MattermostUser| (u.id, u))
}

/// The users found in the cache followed by those fetched from the server,
/// each under its own ID.
pub open spec fn with_fetched(found: Seq<(String, MattermostUser)>, fetched: Seq<MattermostUser>) -> Seq<(String, MattermostUser)> {
    found + pairs_of(fetched)
}

/// The user cache after keeping each of `fetched` in turn under its ID, to
/// expire at `expires_at` (a later user with the same ID wins).
pub open spec fn users_with(
    users: Map<Seq<char>, CacheEntry<MattermostUser>>,
    fetched: Seq<MattermostUser>,
    expires_at: u64,
) -> Map<Seq<char>, CacheEntry<MattermostUser>>
    decreases fetched.len(),
{
    if fetched.len() == 0 {
        users
    } else {
        users_with(users, fetched.drop_last(), expires_at).insert(
            fetched.last().id@,
            CacheEntry { value: fetched.last(), expires_at },
        )
    }
}

proof fn lemma_push_contains<A>(s: Seq<A>, x: A, q: A)
    ensures
        s.push(x).contains(q) <==> (s.contains(q) || q == x),
{
    if s.contains(q) {
        let j = choose|j: int| 0 <= j < s.len() && s[j] == q;
        assert(s.push(x)[j] == q);
    }
    if q == x {
        assert(s.push(x)[s.len() as int] == x);
    }
    if s.push(x).contains(q) {
        let j = choose|j: int| 0 <= j < s.push(x).len() && s.push(x)[j] == q;
        if j < s.len() {
            assert(s[j] == q);
        }
    }
}

/// Where the last entry of `found` with key `k` is, if any.
fn last_index_of(found: &Vec<(String, MattermostUser)>, k: &str) -> (r: Option<usize>)
    ensures
        match r {
            Some(j) => j < found@.len() && last_value(found@, k@) == Some(found@[j as int].1),
            None => last_value(found@, k@) is None,
        },
{
    let mut i: usize = found.len();
    assert(found@.subrange(0, found@.len() as int) =~= found@);
    while i > 0
        invariant
            i <= found@.len(),
            last_value(found@, k@) == last_value(found@.subrange(0, i as int), k@),
        decreases i,
    {
        let ghost pre = found@.subrange(0, i as int);
        assert(pre.drop_last() =~= found@.subrange(0, i - 1));
        if crate::text::str_eq(found[i - 1].0.as_str(), k) {
            return Some(i - 1);
        }
        i = i - 1;
    }
    None
}

/// For each of `ids` in order, a copy of the user that the last entry of
/// `found` with that ID holds, skipping IDs with none: how a batch of users,
/// gathered from the cache and the server in any order, is put back in the
/// order they were asked for.
pub fn order_users(ids: &Vec<String>, found: &Vec<(String, MattermostUser)>) -> (r: Vec<MattermostUser>)
    ensures
        r@.len() == users_in_order(views(ids@), found@).len(),
        forall|i: int| 0 <= i < r@.len() ==> user_copy(users_in_order(views(ids@), found@)[i], #[trigger] r@[i]),
{
    let mut r: Vec<MattermostUser> = Vec::new();
    let mut i: usize = 0;
    while i < ids.len()
        invariant
            i <= ids@.len(),
            r@.len() == users_in_order(views(ids@).subrange(0, i as int), found@).len(),
            forall|j: int| 0 <= j < r@.len() ==> user_copy(users_in_order(views(ids@).subrange(0, i as int), found@)[j], #[trigger] r@[j]),
        decreases ids.len() - i,
    {
        let ghost before = users_in_order(views(ids@).subrange(0, i as int), found@);
        proof {
            assert(views(ids@).subrange(0, i + 1).drop_last() =~= views(ids@).subrange(0, i as int));
            assert(views(ids@).subrange(0, i + 1).last() == ids@[i as int]@);
        }
        match last_index_of(found, ids[i].as_str()) {
            Some(j) => {
                let u = found[j].1.clone();
                r.push(u);
            },
            None => {},
        }
        i = i + 1;
    }
    proof {
        assert(views(ids@).subrange(0, ids@.len() as int) =~= views(ids@));
    }
    r
}

/// The session state of a Mattermost client.
pub struct MattermostClient {
    base_url: String,
    token: Option<String>,
    state: ConnectionState,
    team_id: Option<String>,
    user_id: Option<String>,
    rate_limit_info: Option<RateLimitInfo>,
    user_cache: Cache<MattermostUser>,
    channel_cache: Cache<MattermostChannel>,
    team_cache: Cache<MattermostTeam>,
    enable_cache: bool,
}

impl View for MattermostClient {
    type V = ClientView;

    closed spec fn view(&self) -> ClientView {
        ClientView {
            base_url: self.base_url@,
            token: opt_view(self.token),
            state: self.state,
            team_id: opt_view(self.team_id),
            user_id: opt_view(self.user_id),
            rate_limit_info: self.rate_limit_info,
            users: self.user_cache@,
            channels: self.channel_cache@,
            teams: self.team_cache@,
            cache_config: CacheConfig {
                user_ttl: self.user_cache.spec_ttl(),
                channel_ttl: self.channel_cache.spec_ttl(),
                team_ttl: self.team_cache.spec_ttl(),
                enable_cache: self.enable_cache,
            },
        }
    }
}

impl MattermostClient {
    /// A client for the server at `base_url` with the default cache settings;
    /// an `InvalidArgument` error when the address does not parse as a URL.
    pub fn new(base_url: &str) -> (r: Result<Self, Error>)
        ensures
            client_from_parse(url_parse_result(base_url@), default_cache_config(), r),
    {
        Self::with_cache_config(base_url, CacheConfig::default())
    }

    /// A client for the server at `base_url` with the given cache settings;
    /// an `InvalidArgument` error when the address does not parse as a URL.
    pub fn with_cache_config(base_url: &str, cache_config: CacheConfig) -> (r: Result<Self, Error>)
        ensures
            client_from_parse(url_parse_result(base_url@), cache_config, r),
    {
        let parsed = parse_url(base_url);
        Self::from_parsed_url(parsed, cache_config)
    }

    /// A client from the outcome of parsing its server address: on success a
    /// client for the parsed URL; otherwise an `InvalidArgument` error whose
    /// message quotes the parse error.
    pub fn from_parsed_url(parsed: Result<String, String>, cache_config: CacheConfig) -> (r: Result<Self, Error>)
        ensures
            client_from_parse(
                match parsed { Ok(u) => Ok::<Seq<char>, Seq<char>>(u@), Err(e) => Err::<Seq<char>, Seq<char>>(e@) },
                cache_config,
                r,
            ),
    {
        match parsed {
            Ok(url) => {
                let c = MattermostClient {
                    base_url: url,
                    token: None,
                    state: ConnectionState::Disconnected,
                    team_id: None,
                    user_id: None,
                    rate_limit_info: None,
                    user_cache: Cache::new(cache_config.user_ttl),
                    channel_cache: Cache::new(cache_config.channel_ttl),
                    team_cache: Cache::new(cache_config.team_ttl),
                    enable_cache: cache_config.enable_cache,
                };
                Ok(c)
            },
            Err(reason) => {
                let mut msg = owned("Invalid URL: ");
                msg.append(reason.as_str());
                Err(Error::new(ErrorCode::InvalidArgument, msg))
            },
        }
    }

    /// Remember the session token.
    pub fn set_token(&mut self, token: String)
        ensures
            final(self)@ == (ClientView { token: Some(token@), ..old(self)@ }),
    {
        self.token = Some(token);
    }

    /// Forget the session token.
    pub fn clear_token(&mut self)
        ensures
            final(self)@ == (ClientView { token: None, ..old(self)@ }),
    {
        self.token = None;
    }

    /// The session token, if signed in.
    pub fn get_token(&self) -> (r: Option<String>)
        ensures
            opt_view(r) == self@.token,
    {
        copy_opt(&self.token)
    }

    /// Set (or clear) the team the client works in.
    pub fn set_team_id(&mut self, team_id: Option<String>)
        ensures
            final(self)@ == (ClientView { team_id: opt_view(team_id), ..old(self)@ }),
    {
        self.team_id = team_id;
    }

    /// The team the client works in.
    pub fn get_team_id(&self) -> (r: Option<String>)
        ensures
            opt_view(r) == self@.team_id,
    {
        copy_opt(&self.team_id)
    }

    /// Set (or clear) the signed-in user's ID.
    pub fn set_user_id(&mut self, user_id: Option<String>)
        ensures
            final(self)@ == (ClientView { user_id: opt_view(user_id), ..old(self)@ }),
    {
        self.user_id = user_id;
    }

    /// The signed-in user's ID.
    pub fn get_user_id(&self) -> (r: Option<String>)
        ensures
            opt_view(r) == self@.user_id,
    {
        copy_opt(&self.user_id)
    }

    /// The signed-in user's ID; an `InvalidState` error when nobody is signed in.
    pub fn current_user_id(&self) -> (r: Result<String, Error>)
        ensures
            match self@.user_id {
                Some(u) => r matches Ok(s) && s@ == u,
                None => r matches Err(e) && e@ == (ErrorView {
                    code: ErrorCode::InvalidState,
                    message: "Not authenticated - no user ID available"@,
                    mattermost_error_id: None,
                    request_id: None,
                    http_status: None,
                }),
            },
    {
        match &self.user_id {
            Some(u) => Ok(u.clone()),
            None => Err(Error::new(ErrorCode::InvalidState, owned("Not authenticated - no user ID available"))),
        }
    }

    /// The server address, as the URL parser wrote it.
    pub fn get_base_url(&self) -> (r: &str)
        ensures
            r@ == self@.base_url,
    {
        self.base_url.as_str()
    }

    /// Record the connection state.
    pub fn set_state(&mut self, state: ConnectionState)
        ensures
            final(self)@ == (ClientView { state, ..old(self)@ }),
    {
        self.state = state;
    }

    /// The connection state.
    pub fn get_state(&self) -> (r: ConnectionState)
        ensures
            r == self@.state,
    {
        self.state
    }

    /// The connection as the platform layer reports it: platform
    /// "mattermost", the given server and display name, the signed-in user's
    /// ID (empty when nobody is signed in), the client's state, and the team
    /// (with an empty name) when one is set.
    pub fn connection_info(&self, server_url: &str, user_display_name: &str) -> (c: ConnectionInfo)
        ensures
            c.platform@ == "mattermost"@,
            c.server@ == server_url@,
            c.user_display_name@ == user_display_name@,
            c.user_id@ == match self@.user_id { Some(u) => u, None => Seq::<char>::empty() },
            c.state == self@.state,
            opt_view(c.team_id) == self@.team_id,
            opt_view(c.team_name) == match self@.team_id { Some(_) => Some(Seq::<char>::empty()), None => None },
            c.metadata is None,
    {
        let user_id = match &self.user_id {
            Some(u) => u.clone(),
            None => String::new(),
        };
        let info = ConnectionInfo::new("mattermost", server_url, user_id.as_str(), user_display_name);
        let mut info = info.with_state(self.state);
        match &self.team_id {
            Some(tid) => {
                info = info.with_team(tid.as_str(), "");
                proof {
                    reveal_strlit("");
                }
            },
            None => {},
        }
        proof {
            reveal_strlit("mattermost");
        }
        info
    }

    /// The rate-limit figures of the latest reply that carried them.
    pub fn get_rate_limit_info(&self) -> (r: Option<RateLimitInfo>)
        ensures
            r == self@.rate_limit_info,
    {
        self.rate_limit_info
    }

    /// Read the rate-limit figures from a reply's `X-Ratelimit-Limit`,
    /// `X-Ratelimit-Remaining` and `X-Ratelimit-Reset` header values: all three
    /// must be present and be numbers (the first two of 32 bits).
    pub fn extract_rate_limit_info(limit: Option<&str>, remaining: Option<&str>, reset: Option<&str>) -> (r: Option<RateLimitInfo>)
        ensures
            r == rate_limit_of(
                match limit { Some(s) => Some(s@), None => None },
                match remaining { Some(s) => Some(s@), None => None },
                match reset { Some(s) => Some(s@), None => None },
            ),
    {
        let l = parse_header(limit, 4294967295u64);
        let m = parse_header(remaining, 4294967295u64);
        let r = parse_header(reset, 18446744073709551615u64);
        match (l, m, r) {
            (Some(a), Some(b), Some(c)) => Some(RateLimitInfo { limit: a as u32, remaining: b as u32, reset_at: c }),
            _ => None,
        }
    }

    /// Keep the rate-limit figures of a reply when it carried them; otherwise
    /// keep the earlier ones.
    pub fn update_rate_limit_info(&mut self, info: Option<RateLimitInfo>)
        ensures
            final(self)@ == (ClientView {
                rate_limit_info: match info { Some(i) => Some(i), None => old(self)@.rate_limit_info },
                ..old(self)@
            }),
    {
        match info {
            Some(i) => {
                self.rate_limit_info = Some(i);
            },
            None => {},
        }
    }

    /// The full API address of an endpoint: the server address without
    /// trailing slashes, "/api/v4/", and the endpoint without leading slashes.
    pub fn api_url(&self, endpoint: &str) -> (r: String)
        ensures
            r@ == api_url_of(self@.base_url, endpoint@),
    {
        let ep = trim_start_char(endpoint, '/');
        let mut url = trim_end_char(self.base_url.as_str(), '/');
        url.append("/api/v4/");
        url.append(ep.as_str());
        url
    }

    /// A password sign-in begins: the client is connecting.
    pub fn begin_login(&mut self)
        ensures
            final(self)@ == (ClientView { state: ConnectionState::Connecting, ..old(self)@ }),
    {
        self.state = ConnectionState::Connecting;
    }

    /// The error for a sign-in request that could not be sent; `reason` is
    /// the transport's description of the failure.
    pub fn login_send_error(reason: &str) -> (e: Error)
        ensures
            e@ == (ErrorView {
                code: ErrorCode::AuthenticationFailed,
                message: "Login request failed: "@ + reason@,
                mattermost_error_id: None,
                request_id: None,
                http_status: None,
            }),
    {
        let mut msg = owned("Login request failed: ");
        msg.append(reason);
        Error::new(ErrorCode::AuthenticationFailed, msg)
    }

    /// The sign-in reply's status and "Token" header arrived. A failed
    /// status puts the client in the error state. The header's text (or the
    /// reason it is not text) decides what follows: a token is kept and the
    /// sign-in goes on; an unreadable header, or none, fails the sign-in with
    /// `AuthenticationFailed` (a missing one also puts the client in the error
    /// state).
    pub fn login_token_header(&mut self, success: bool, token_header: Option<Result<String, String>>) -> (r: Result<(), Error>)
        ensures
            ({
                let s1 = if success { old(self)@ } else { ClientView { state: ConnectionState::Error, ..old(self)@ } };
                match token_header {
                    Some(Ok(t)) => r is Ok && final(self)@ == (ClientView { token: Some(t@), ..s1 }),
                    Some(Err(why)) => r matches Err(e) && e@ == (ErrorView {
                        code: ErrorCode::AuthenticationFailed,
                        message: "Invalid token header: "@ + why@,
                        mattermost_error_id: None,
                        request_id: None,
                        http_status: None,
                    }) && final(self)@ == s1,
                    None => r matches Err(e) && e@ == (ErrorView {
                        code: ErrorCode::AuthenticationFailed,
                        message: "No token in login response"@,
                        mattermost_error_id: None,
                        request_id: None,
                        http_status: None,
                    }) && final(self)@ == (ClientView { state: ConnectionState::Error, ..s1 }),
                }
            }),
    {
        if !success {
            self.state = ConnectionState::Error;
        }
        match token_header {
            Some(Ok(t)) => {
                self.token = Some(t);
                Ok(())
            },
            Some(Err(why)) => {
                let mut msg = owned("Invalid token header: ");
                msg.append(why.as_str());
                Err(Error::new(ErrorCode::AuthenticationFailed, msg))
            },
            None => {
                self.state = ConnectionState::Error;
                Err(Error::new(ErrorCode::AuthenticationFailed, owned("No token in login response")))
            },
        }
    }

    /// A successful sign-in reply's body was read as a user (or could not be,
    /// for the given reason). A user becomes the signed-in user and the client
    /// is connected; an unreadable body is an `Unknown` error.
    pub fn login_succeeded(&mut self, user: Result<MattermostUser, String>) -> (r: Result<MattermostUser, Error>)
        ensures
            match user {
                Ok(u) => r == Ok::<MattermostUser, Error>(u) && final(self)@ == (ClientView {
                    user_id: Some(u.id@),
                    state: ConnectionState::Connected,
                    ..old(self)@
                }),
                Err(why) => r matches Err(e) && e@ == (ErrorView {
                    code: ErrorCode::Unknown,
                    message: "Failed to parse user: "@ + why@,
                    mattermost_error_id: None,
                    request_id: None,
                    http_status: None,
                }) && final(self)@ == old(self)@,
            },
    {
        match user {
            Ok(u) => {
                self.user_id = Some(u.id.clone());
                self.state = ConnectionState::Connected;
                Ok(u)
            },
            Err(why) => {
                let mut msg = owned("Failed to parse user: ");
                msg.append(why.as_str());
                Err(Error::new(ErrorCode::Unknown, msg))
            },
        }
    }

    /// A sign-in reply with a failed status: the client is in the error state
    /// and the sign-in fails with `AuthenticationFailed`, quoting the status
    /// (with the `http` crate's reason phrase) and the reply's body.
    pub fn login_failed(&mut self, status: u16, error_text: &str) -> (e: Error)
        ensures
            final(self)@ == (ClientView { state: ConnectionState::Error, ..old(self)@ }),
            e@ == (ErrorView {
                code: ErrorCode::AuthenticationFailed,
                message: "Login failed with status "@ + status_text(status, http_canonical_reason(status)) + ": "@ + error_text@,
                mattermost_error_id: None,
                request_id: None,
                http_status: None,
            }),
    {
        let reason = canonical_reason(status);
        self.login_failed_with_reason(status, reason, error_text)
    }

    /// A sign-in reply with a failed status whose reason phrase is `reason`:
    /// the client is in the error state and the sign-in fails with
    /// `AuthenticationFailed`, quoting the status and the reply's body.
    pub fn login_failed_with_reason(&mut self, status: u16, reason: Option<String>, error_text: &str) -> (e: Error)
        ensures
            final(self)@ == (ClientView { state: ConnectionState::Error, ..old(self)@ }),
            e@ == (ErrorView {
                code: ErrorCode::AuthenticationFailed,
                message: "Login failed with status "@ + status_text(status, opt_view(reason)) + ": "@ + error_text@,
                mattermost_error_id: None,
                request_id: None,
                http_status: None,
            }),
    {
        self.state = ConnectionState::Error;
        let mut msg = owned("Login failed with status ");
        let num = u64_to_decimal(status as u64);
        msg.append(num.as_str());
        msg.append(" ");
        match &reason {
            Some(r) => msg.append(r.as_str()),
            None => msg.append("<unknown status code>"),
        }
        msg.append(": ");
        msg.append(error_text);
        proof {
            reveal_strlit(" ");
            reveal_strlit(": ");
            reveal_strlit("<unknown status code>");
            reveal_strlit("Login failed with status ");
            assert(msg@ =~= "Login failed with status "@ + status_text(status, opt_view(reason)) + ": "@ + error_text@);
        }
        Error::new(ErrorCode::AuthenticationFailed, msg)
    }

    /// A sign-in with an access token begins: the client is connecting and
    /// holds the token.
    pub fn begin_token_login(&mut self, token: String)
        ensures
            final(self)@ == (ClientView { state: ConnectionState::Connecting, token: Some(token@), ..old(self)@ }),
    {
        self.state = ConnectionState::Connecting;
        self.token = Some(token);
    }

    /// The server answered the token check with the signed-in user, or an
    /// error. A user becomes the signed-in user and the client is connected;
    /// on an error the client is in the error state, its token is emptied,
    /// and the sign-in fails with `AuthenticationFailed` quoting the error.
    pub fn token_login_finished(&mut self, outcome: Result<MattermostUser, Error>) -> (r: Result<MattermostUser, Error>)
        ensures
            match outcome {
                Ok(u) => r == Ok::<MattermostUser, Error>(u) && final(self)@ == (ClientView {
                    user_id: Some(u.id@),
                    state: ConnectionState::Connected,
                    ..old(self)@
                }),
                Err(err) => r matches Err(e) && e@ == (ErrorView {
                    code: ErrorCode::AuthenticationFailed,
                    message: "Token authentication failed: "@ + crate::error::error_code_text(err@.code) + ": "@ + err@.message,
                    mattermost_error_id: None,
                    request_id: None,
                    http_status: None,
                }) && final(self)@ == (ClientView {
                    state: ConnectionState::Error,
                    token: Some(Seq::<char>::empty()),
                    ..old(self)@
                }),
            },
    {
        match outcome {
            Ok(u) => {
                self.user_id = Some(u.id.clone());
                self.state = ConnectionState::Connected;
                Ok(u)
            },
            Err(err) => {
                self.state = ConnectionState::Error;
                self.token = Some(String::new());
                let mut msg = owned("Token authentication failed: ");
                let shown = err.to_display_string();
                msg.append(shown.as_str());
                proof {
                    assert(msg@ =~= "Token authentication failed: "@ + crate::error::error_code_text(err@.code) + ": "@ + err@.message);
                }
                Err(Error::new(ErrorCode::AuthenticationFailed, msg))
            },
        }
    }

    /// Sign-out begins: the client is disconnecting. Returns whether the
    /// server is to be told (only when the client holds a token).
    pub fn begin_logout(&mut self) -> (call_server: bool)
        ensures
            call_server == old(self)@.token is Some,
            final(self)@ == (ClientView { state: ConnectionState::Disconnecting, ..old(self)@ }),
    {
        self.state = ConnectionState::Disconnecting;
        self.token.is_some()
    }

    /// Sign-out ends, whatever the server answered: the client is
    /// disconnected, and when it had told the server, its token is emptied and
    /// it forgets the user and the team.
    pub fn finish_logout(&mut self, told_server: bool)
        ensures
            final(self)@ == if told_server {
                ClientView {
                    token: Some(Seq::<char>::empty()),
                    user_id: None,
                    team_id: None,
                    state: ConnectionState::Disconnected,
                    ..old(self)@
                }
            } else {
                ClientView { state: ConnectionState::Disconnected, ..old(self)@ }
            },
    {
        if told_server {
            self.token = Some(String::new());
            self.user_id = None;
            self.team_id = None;
        }
        self.state = ConnectionState::Disconnected;
    }

    /// Whether a session check is worth making: only with a token.
    pub fn has_token(&self) -> (b: bool)
        ensures
            b == self@.token is Some,
    {
        self.token.is_some()
    }

    /// Whether lookups go through the caches.
    pub fn cache_enabled(&self) -> (b: bool)
        ensures
            b == self@.cache_config.enable_cache,
    {
        self.enable_cache
    }

    /// The cached user under `user_id` at time `now` (nanoseconds), when
    /// caching is on: see [`user_lookup`]. With caching off, nothing is found
    /// and nothing changes.
    pub fn cached_user(&mut self, user_id: &str, now: u64) -> (r: Option<MattermostUser>)
        ensures
            if old(self)@.cache_config.enable_cache {
                &&& user_lookup(old(self)@.users, final(self)@.users, user_id@, now, r)
                &&& final(self)@ == (ClientView { users: final(self)@.users, ..old(self)@ })
            } else {
                r is None && final(self)@ == old(self)@
            },
    {
        if self.enable_cache {
            self.user_cache.drop_if_expired_at(user_id, now);
            match self.user_cache.peek(user_id) {
                Some(v) => Some(v.clone()),
                None => None,
            }
        } else {
            None
        }
    }

    /// The cached channel under `channel_id` at time `now`, when caching is on.
    pub fn cached_channel(&mut self, channel_id: &str, now: u64) -> (r: Option<MattermostChannel>)
        ensures
            if old(self)@.cache_config.enable_cache {
                &&& exact_lookup(old(self)@.channels, final(self)@.channels, channel_id@, now, r)
                &&& final(self)@ == (ClientView { channels: final(self)@.channels, ..old(self)@ })
            } else {
                r is None && final(self)@ == old(self)@
            },
    {
        if self.enable_cache {
            self.channel_cache.drop_if_expired_at(channel_id, now);
            match self.channel_cache.peek(channel_id) {
                Some(v) => Some(v.clone()),
                None => None,
            }
        } else {
            None
        }
    }

    /// The cached team under `team_id` at time `now`, when caching is on.
    pub fn cached_team(&mut self, team_id: &str, now: u64) -> (r: Option<MattermostTeam>)
        ensures
            if old(self)@.cache_config.enable_cache {
                &&& exact_lookup(old(self)@.teams, final(self)@.teams, team_id@, now, r)
                &&& final(self)@ == (ClientView { teams: final(self)@.teams, ..old(self)@ })
            } else {
                r is None && final(self)@ == old(self)@
            },
    {
        if self.enable_cache {
            self.team_cache.drop_if_expired_at(team_id, now);
            match self.team_cache.peek(team_id) {
                Some(v) => Some(v.clone()),
                None => None,
            }
        } else {
            None
        }
    }

    /// Keep a fetched user under `key` from time `now`, when caching is on.
    pub fn remember_user(&mut self, key: String, user: MattermostUser, now: u64)
        ensures
            final(self)@ == if old(self)@.cache_config.enable_cache {
                ClientView {
                    users: old(self)@.users.insert(key@, CacheEntry { value: user, expires_at: expiry(now, old(self)@.cache_config.user_ttl) }),
                    ..old(self)@
                }
            } else {
                old(self)@
            },
    {
        if self.enable_cache {
            self.user_cache.set_at(key, user, now);
        }
    }

    /// Keep a fetched channel under `key` from time `now`, when caching is on.
    pub fn remember_channel(&mut self, key: String, channel: MattermostChannel, now: u64)
        ensures
            final(self)@ == if old(self)@.cache_config.enable_cache {
                ClientView {
                    channels: old(self)@.channels.insert(key@, CacheEntry { value: channel, expires_at: expiry(now, old(self)@.cache_config.channel_ttl) }),
                    ..old(self)@
                }
            } else {
                old(self)@
            },
    {
        if self.enable_cache {
            self.channel_cache.set_at(key, channel, now);
        }
    }

    /// Keep a fetched team under `key` from time `now`, when caching is on.
    pub fn remember_team(&mut self, key: String, team: MattermostTeam, now: u64)
        ensures
            final(self)@ == if old(self)@.cache_config.enable_cache {
                ClientView {
                    teams: old(self)@.teams.insert(key@, CacheEntry { value: team, expires_at: expiry(now, old(self)@.cache_config.team_ttl) }),
                    ..old(self)@
                }
            } else {
                old(self)@
            },
    {
        if self.enable_cache {
            self.team_cache.set_at(key, team, now);
        }
    }

    /// Look each of `ids` up in the user cache at time `now`, for a batch
    /// fetch: returns the IDs found (each with a copy of its cached user) and
    /// the IDs still to fetch, both in the order asked, and drops the expired
    /// entries met on the way. With caching off nothing is found and nothing
    /// changes.
    pub fn split_cached_users(&mut self, ids: &Vec<String>, now: u64) -> (r: (Vec<(String, MattermostUser)>, Vec<String>))
        ensures
            if old(self)@.cache_config.enable_cache {
                &&& views(r.1@) == views(ids@).filter(|k: Seq<char>| !user_cached(old(self)@.users, k, now))
                &&& r.0@.map_values(|p: (String, MattermostUser)| p.0@) == views(ids@).filter(|k: Seq<char>| user_cached(old(self)@.users, k, now))
                &&& forall|j: int| 0 <= j < r.0@.len() ==> user_copy(old(self)@.users[#[trigger] r.0@[j].0@].value, r.0@[j].1)
                &&& final(self)@ == (ClientView { users: after_lookups(old(self)@.users, views(ids@), now), ..old(self)@ })
            } else {
                &&& r.0@.len() == 0
                &&& views(r.1@) == views(ids@)
                &&& final(self)@ == old(self)@
            },
    {
        let ghost old_users = self@.users;
        let ghost idv = views(ids@);
        let ghost live = |k: Seq<char>| user_cached(old_users, k, now);
        let ghost dead = |k: Seq<char>| !user_cached(old_users, k, now);
        let mut found: Vec<(String, MattermostUser)> = Vec::new();
        let mut missing: Vec<String> = Vec::new();
        if !self.enable_cache {
            let mut i: usize = 0;
            while i < ids.len()
                invariant
                    i <= ids@.len(),
                    views(missing@) == views(ids@).subrange(0, i as int),
                    self@ == old(self)@,
                    found@.len() == 0,
                decreases ids.len() - i,
            {
                let ghost mb = missing@;
                missing.push(ids[i].clone());
                proof {
                    assert(views(missing@) =~= views(mb).push(ids@[i as int]@));
                    assert(views(ids@).subrange(0, i as int).push(ids@[i as int]@) =~= views(ids@).subrange(0, i + 1));
                }
                i = i + 1;
            }
            proof {
                assert(views(ids@).subrange(0, ids@.len() as int) =~= views(ids@));
            }
            return (found, missing);
        }
        let mut i: usize = 0;
        proof {
            assert(after_lookups(old_users, idv.subrange(0, 0), now) =~= old_users);
        }
        while i < ids.len()
            invariant
                i <= ids@.len(),
                idv == views(ids@),
                self.enable_cache,
                old(self)@.cache_config.enable_cache,
                old_users == old(self)@.users,
                live == (|k: Seq<char>| user_cached(old_users, k, now)),
                dead == (|k: Seq<char>| !user_cached(old_users, k, now)),
                views(missing@) == idv.subrange(0, i as int).filter(dead),
                found@.map_values(|p: (String, MattermostUser)| p.0@) == idv.subrange(0, i as int).filter(live),
                forall|j: int| 0 <= j < found@.len() ==> user_copy(old_users[#[trigger] found@[j].0@].value, found@[j].1),
                self@ == (ClientView { users: after_lookups(old_users, idv.subrange(0, i as int), now), ..old(self)@ }),
            decreases ids.len() - i,
        {
            let ghost pre = idv.subrange(0, i as int);
            let ghost k = ids@[i as int]@;
            proof {
                assert(pre.push(k) =~= idv.subrange(0, i + 1));
                assert forall|q: Seq<char>| #[trigger] pre.push(k).contains(q) <==> (pre.contains(q) || q == k) by {
                    lemma_push_contains(pre, k, q);
                }
                pre.lemma_filter_push(k, live);
                pre.lemma_filter_push(k, dead);
            }
            let got = self.cached_user(ids[i].as_str(), now);
            match got {
                Some(u) => {
                    let ghost fb = found@;
                    found.push((ids[i].clone(), u));
                    proof {
                        assert(found@.map_values(|p: (String, MattermostUser)| p.0@) =~= fb.map_values(|p: (String, MattermostUser)| p.0@).push(k));
                        assert(self@.users =~= after_lookups(old_users, idv.subrange(0, i + 1), now));
                    }
                },
                None => {
                    let ghost mb = missing@;
                    missing.push(ids[i].clone());
                    proof {
                        assert(views(missing@) =~= views(mb).push(k));
                        assert(self@.users =~= after_lookups(old_users, idv.subrange(0, i + 1), now));
                    }
                },
            }
            i = i + 1;
        }
        proof {
            assert(idv.subrange(0, ids@.len() as int) =~= idv);
        }
        (found, missing)
    }

    /// Finish a batch fetch of users: the users fetched from the server are
    /// kept in the user cache (in the order they came, from time `now`, when
    /// caching is on), and the result is, for each of `ids` in the order
    /// asked, a copy of its user, where a fetched user stands after the
    /// cached ones (see [`with_fetched`] and [`users_in_order`]).
    pub fn finish_cached_users(
        &mut self,
        ids: &Vec<String>,
        found: Vec<(String, MattermostUser)>,
        fetched: Vec<MattermostUser>,
        now: u64,
    ) -> (r: Vec<MattermostUser>)
        ensures
            r@.len() == users_in_order(views(ids@), with_fetched(found@, fetched@)).len(),
            forall|i: int| 0 <= i < r@.len()
                ==> user_copy(users_in_order(views(ids@), with_fetched(found@, fetched@))[i], #[trigger] r@[i]),
            final(self)@ == if old(self)@.cache_config.enable_cache {
                ClientView {
                    users: users_with(old(self)@.users, fetched@, expiry(now, old(self)@.cache_config.user_ttl)),
                    ..old(self)@
                }
            } else {
                old(self)@
            },
    {
        let ghost fv = fetched@;
        let ghost fg = found@;
        let ghost e = expiry(now, old(self)@.cache_config.user_ttl);
        let n0 = found.len();
        let mut all = found;
        let mut rest = fetched;
        let n = rest.len();
        while rest.len() > 0
            invariant
                n == fv.len(),
                n0 == fg.len(),
                rest@.len() <= n,
                rest@ == fv.subrange(n - rest@.len(), n as int),
                all@ == with_fetched(fg, fv.subrange(0, n - rest@.len())),
            decreases rest.len(),
        {
            let ghost k = n - rest@.len();
            let u = rest.remove(0);
            let key = u.id.clone();
            let ghost ab = all@;
            all.push((key, u));
            proof {
                assert(u == fv[k]);
                assert(fv.subrange(0, k + 1) =~= fv.subrange(0, k).push(fv[k]));
                assert(all@ =~= with_fetched(fg, fv.subrange(0, k + 1)));
                assert(rest@ =~= fv.subrange(n - rest@.len(), n as int));
            }
        }
        proof {
            assert(fv.subrange(0, n as int) =~= fv);
        }
        let r = order_users(ids, &all);
        proof {
            assert(users_with(old(self)@.users, fv.subrange(0, 0), e) == old(self)@.users);
        }
        while all.len() > n0
            invariant
                n == fv.len(),
                n0 == fg.len(),
                n0 <= all@.len() <= n0 + n,
                all@.subrange(n0 as int, all@.len() as int) == pairs_of(fv.subrange(n - (all@.len() - n0), n as int)),
                e == expiry(now, old(self)@.cache_config.user_ttl),
                self@ == if old(self)@.cache_config.enable_cache {
                    ClientView { users: users_with(old(self)@.users, fv.subrange(0, n - (all@.len() - n0)), e), ..old(self)@ }
                } else {
                    old(self)@
                },
            decreases all.len(),
        {
            let ghost k = n - (all@.len() - n0);
            let ghost ab = all@;
            let (key, u) = all.remove(n0);
            proof {
                assert(ab.subrange(n0 as int, ab.len() as int)[0] == (key, u));
                assert(pairs_of(fv.subrange(k, n as int))[0] == (fv[k].id, fv[k]));
                assert(all@.subrange(n0 as int, all@.len() as int) =~= ab.subrange(n0 as int, ab.len() as int).drop_first());
                assert(pairs_of(fv.subrange(k + 1, n as int)) =~= pairs_of(fv.subrange(k, n as int)).drop_first());
                assert(fv.subrange(0, k + 1).drop_last() =~= fv.subrange(0, k));
                assert(fv.subrange(0, k + 1).last() == fv[k]);
            }
            self.remember_user(key, u, now);
        }
        proof {
            assert(fv.subrange(0, n as int) =~= fv);
        }
        r
    }

    /// Let the caches take note of an event: see [`after_event`].
    pub fn invalidate_for_event(&mut self, event: &PlatformEvent)
        ensures
            final(self)@ == after_event(old(self)@, *event),
    {
        match event {
            PlatformEvent::UserUpdated { user_id } => self.invalidate_user_cache(user_id.as_str()),
            PlatformEvent::UserRoleUpdated { user_id } => self.invalidate_user_cache(user_id.as_str()),
            PlatformEvent::ChannelCreated(c) => self.invalidate_channel_cache(c.id.as_str()),
            PlatformEvent::ChannelUpdated(c) => self.invalidate_channel_cache(c.id.as_str()),
            PlatformEvent::ChannelDeleted { channel_id } => self.invalidate_channel_cache(channel_id.as_str()),
            PlatformEvent::AddedToTeam { team_id, .. } => self.invalidate_team_cache(team_id.as_str()),
            PlatformEvent::LeftTeam { team_id, .. } => self.invalidate_team_cache(team_id.as_str()),
            _ => {},
        }
    }

    /// Drop the cached user under `user_id`.
    pub fn invalidate_user_cache(&mut self, user_id: &str)
        ensures
            final(self)@ == (ClientView { users: old(self)@.users.remove(user_id@), ..old(self)@ }),
    {
        self.user_cache.invalidate(user_id);
    }

    /// Drop the cached channel under `channel_id`.
    pub fn invalidate_channel_cache(&mut self, channel_id: &str)
        ensures
            final(self)@ == (ClientView { channels: old(self)@.channels.remove(channel_id@), ..old(self)@ }),
    {
        self.channel_cache.invalidate(channel_id);
    }

    /// Drop the cached team under `team_id`.
    pub fn invalidate_team_cache(&mut self, team_id: &str)
        ensures
            final(self)@ == (ClientView { teams: old(self)@.teams.remove(team_id@), ..old(self)@ }),
    {
        self.team_cache.invalidate(team_id);
    }

    /// Cache a channel that was just created or changed, under its ID, from
    /// time `now` (whether or not lookups use the caches).
    pub fn update_channel_cache(&mut self, channel: &MattermostChannel, now: u64)
        ensures
            final(self)@ == (ClientView {
                channels: old(self)@.channels.insert(channel.id@, CacheEntry { value: *channel, expires_at: expiry(now, old(self)@.cache_config.channel_ttl) }),
                ..old(self)@
            }),
    {
        let copy = channel.duplicate();
        self.channel_cache.set_at(channel.id.clone(), copy, now);
    }

    /// Drop a deleted or archived channel from the cache.
    pub fn remove_channel_from_cache(&mut self, channel_id: &str)
        ensures
            final(self)@ == (ClientView { channels: old(self)@.channels.remove(channel_id@), ..old(self)@ }),
    {
        self.invalidate_channel_cache(channel_id);
    }

    /// Empty every cache.
    pub fn clear_all_caches(&mut self)
        ensures
            final(self)@ == (ClientView {
                users: Map::empty(),
                channels: Map::empty(),
                teams: Map::empty(),
                ..old(self)@
            }),
    {
        self.user_cache.clear();
        self.channel_cache.clear();
        self.team_cache.clear();
    }

    /// For each cache ("user", "channel", "team"), its number of entries and
    /// how many of them have expired at time `now`.
    pub fn get_cache_stats(&self, now: u64) -> (r: Vec<(&'static str, usize, usize)>)
        ensures
            r@.len() == 3,
            r@[0].0@ == "user"@ && r@[0].1 == self@.users.len() && r@[0].2 == self@.users.len() - live_part(self@.users, now).len(),
            r@[1].0@ == "channel"@ && r@[1].1 == self@.channels.len() && r@[1].2 == self@.channels.len() - live_part(self@.channels, now).len(),
            r@[2].0@ == "team"@ && r@[2].1 == self@.teams.len() && r@[2].2 == self@.teams.len() - live_part(self@.teams, now).len(),
    {
        let u = self.user_cache.stats_at(now);
        let c = self.channel_cache.stats_at(now);
        let t = self.team_cache.stats_at(now);
        let mut r: Vec<(&'static str, usize, usize)> = Vec::new();
        r.push(("user", u.0, u.1));
        r.push(("channel", c.0, c.1));
        r.push(("team", t.0, t.1));
        r
    }

    /// The error code that a Mattermost error ID suggests.
    pub fn map_mattermost_error_id(error_id: &str) -> (c: ErrorCode)
        ensures
            c == error_code_for_id(error_id@),
    {
        if contains_str(error_id, "mfa_required") || contains_str(error_id, "invalid_mfa") || contains_str(error_id, "mfa")
            || contains_str(error_id, "invalid_credentials") || contains_str(error_id, "login") {
            ErrorCode::AuthenticationFailed
        } else if contains_str(error_id, "not_found") {
            ErrorCode::NotFound
        } else if contains_str(error_id, "permission") || contains_str(error_id, "forbidden") {
            ErrorCode::PermissionDenied
        } else if contains_str(error_id, "rate_limit") {
            ErrorCode::RateLimited
        } else if contains_str(error_id, "timeout") {
            ErrorCode::Timeout
        } else if contains_str(error_id, "invalid_param") || contains_str(error_id, "invalid_") {
            ErrorCode::InvalidArgument
        } else {
            ErrorCode::Unknown
        }
    }

    /// The error code that an HTTP status alone suggests.
    pub fn status_error_code(status: u16) -> (c: ErrorCode)
        ensures
            c == error_code_for_status(status),
    {
        if status == 401 || status == 403 {
            ErrorCode::AuthenticationFailed
        } else if status == 404 {
            ErrorCode::NotFound
        } else if status == 429 {
            ErrorCode::RateLimited
        } else if 500 <= status && status <= 599 {
            ErrorCode::NetworkError
        } else {
            ErrorCode::Unknown
        }
    }

    /// The error for a failed reply with status `status`, body `error_text`,
    /// the body read as a Mattermost error where it is one, and the reply's
    /// request ID: see [`failed_response_view`]. The reason phrase of the
    /// status is the `http` crate's.
    pub fn response_error(
        status: u16,
        error_text: &str,
        parsed: Option<MattermostErrorResponse>,
        request_id: Option<String>,
    ) -> (e: Error)
        ensures
            e@ == failed_response_view(status, http_canonical_reason(status), error_text@, parsed, opt_view(request_id)),
    {
        let reason = canonical_reason(status);
        Self::response_error_with_reason(status, reason, error_text, parsed, request_id)
    }

    /// The error for a failed reply whose status has the reason phrase
    /// `reason`: see [`failed_response_view`].
    pub fn response_error_with_reason(
        status: u16,
        reason: Option<String>,
        error_text: &str,
        parsed: Option<MattermostErrorResponse>,
        request_id: Option<String>,
    ) -> (e: Error)
        ensures
            e@ == failed_response_view(status, opt_view(reason), error_text@, parsed, opt_view(request_id)),
    {
        let error = match parsed {
            Some(mm) => {
                let code = Self::map_mattermost_error_id(mm.id.as_str());
                Error::new(code, mm.message).with_mattermost_error_id(mm.id).with_http_status(status)
            },
            None => {
                let code = Self::status_error_code(status);
                let mut msg = owned("API request failed with status ");
                let num = u64_to_decimal(status as u64);
                msg.append(num.as_str());
                msg.append(" ");
                match &reason {
                    Some(r) => msg.append(r.as_str()),
                    None => msg.append("<unknown status code>"),
                }
                msg.append(": ");
                msg.append(error_text);
                proof {
                    reveal_strlit(" ");
                    reveal_strlit(": ");
                    reveal_strlit("<unknown status code>");
                    reveal_strlit("API request failed with status ");
                    assert(msg@ =~= "API request failed with status "@ + status_text(status, opt_view(reason)) + ": "@ + error_text@);
                }
                Error::new(code, msg).with_http_status(status)
            },
        };
        match request_id {
            Some(id) => error.with_request_id(id),
            None => error,
        }
    }
}

/// Whether a status code reports success (200 to 299).
pub open spec fn is_success(status: u16) -> bool {
    200 <= status <= 299
}

/// The error for a failed request, quoting `text`, with no other detail.
pub open spec fn plain_error(code: ErrorCode, text: Seq<char>) -> ErrorView {
    ErrorView { code, message: text, mattermost_error_id: None, request_id: None, http_status: None }
}

impl MattermostClient {
    /// How a status is written, with the `http` crate's reason phrase: see
    /// [`status_text`].
    pub fn status_phrase(status: u16) -> (r: String)
        ensures
            r@ == status_text(status, http_canonical_reason(status)),
    {
        let reason = canonical_reason(status);
        let mut msg = u64_to_decimal(status as u64);
        msg.append(" ");
        match &reason {
            Some(r) => msg.append(r.as_str()),
            None => msg.append("<unknown status code>"),
        }
        proof {
            reveal_strlit(" ");
            reveal_strlit("<unknown status code>");
            assert(msg@ =~= status_text(status, opt_view(reason)));
        }
        msg
    }

    /// The outcome of a request whose reply body does not matter: success on
    /// a successful status; otherwise a `NetworkError` saying what failed,
    /// with the status.
    pub fn require_success(status: u16, what: &str) -> (r: Result<(), Error>)
        ensures
            is_success(status) ==> r is Ok,
            !is_success(status) ==> (r matches Err(e)
                && e@ == plain_error(ErrorCode::NetworkError, "Failed to "@ + what@ + ": "@ + status_text(status, http_canonical_reason(status)))),
    {
        if 200 <= status && status <= 299 {
            return Ok(());
        }
        let mut msg = owned("Failed to ");
        msg.append(what);
        msg.append(": ");
        let phrase = Self::status_phrase(status);
        msg.append(phrase.as_str());
        proof {
            reveal_strlit("Failed to ");
            reveal_strlit(": ");
            assert(msg@ =~= "Failed to "@ + what@ + ": "@ + status_text(status, http_canonical_reason(status)));
        }
        Err(Error::new(ErrorCode::NetworkError, msg))
    }

    /// The outcome of a request whose failure is told by its reply body:
    /// success on a successful status; otherwise an `Unknown` error saying
    /// what failed, with the body.
    pub fn require_success_with_body(status: u16, what: &str, body: &str) -> (r: Result<(), Error>)
        ensures
            is_success(status) ==> r is Ok,
            !is_success(status) ==> (r matches Err(e) && e@ == plain_error(ErrorCode::Unknown, "Failed to "@ + what@ + ": "@ + body@)),
    {
        if 200 <= status && status <= 299 {
            return Ok(());
        }
        let mut msg = owned("Failed to ");
        msg.append(what);
        msg.append(": ");
        msg.append(body);
        proof {
            reveal_strlit("Failed to ");
            reveal_strlit(": ");
            assert(msg@ =~= "Failed to "@ + what@ + ": "@ + body@);
        }
        Err(Error::new(ErrorCode::Unknown, msg))
    }

    /// The error for a file transfer whose reply has a failed status: a
    /// `NetworkError` saying what failed, with the reply's body.
    pub fn transfer_failed(what: &str, body: &str) -> (e: Error)
        ensures
            e@ == plain_error(ErrorCode::NetworkError, "Failed to "@ + what@ + ": "@ + body@),
    {
        let mut msg = owned("Failed to ");
        msg.append(what);
        msg.append(": ");
        msg.append(body);
        proof {
            reveal_strlit("Failed to ");
            reveal_strlit(": ");
            assert(msg@ =~= "Failed to "@ + what@ + ": "@ + body@);
        }
        Error::new(ErrorCode::NetworkError, msg)
    }
}

/// Every server-side failure status (500 to 599) is a network error, and a
/// failed reply with such a status whose body is no Mattermost error is
/// reported as one, whatever its reason phrase and body.
pub proof fn law_server_errors_are_network_errors(
    status: u16,
    reason: Option<Seq<char>>,
    error_text: Seq<char>,
    request_id: Option<Seq<char>>,
)
    requires
        500 <= status <= 599,
    ensures
        error_code_for_status(status) == ErrorCode::NetworkError,
        failed_response_view(status, reason, error_text, None, request_id).code == ErrorCode::NetworkError,
{
}

} // verus!
