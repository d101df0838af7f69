//! Fan-out of events between server instances: the topics events travel on,
//! which local connections a received event is for, the reconnect policy of
//! the listener, presence marks and typing rate limits.
use vstd::prelude::*;
use vstd::string::*;
use crate::error::{AppError, AppResult};
use crate::gateway::{PresenceStatus, ServerEvent};
use crate::platform::{new_uuid_v4, random_up_to, uuid_hyphenated_chars, uuid_string};
use crate::text::{chars_of, join_texts, str_equals};

verus! {

/// The first reconnect delay of the listener.
pub const INITIAL_BACKOFF_MS: u64 = 250;

/// The longest reconnect delay of the listener, before jitter.
pub const MAX_BACKOFF_MS: u64 = 10_000;

/// The largest random delay added to a reconnect delay.
pub const MAX_JITTER_MS: u64 = 250;

/// The reconnect delay before jitter: it doubles with each failed attempt
/// from 250 ms, and stops growing at 10 s.
pub open spec fn backoff_ms(attempt: u32) -> int {
    let exponent: nat = if attempt <= 1 { 0 } else if attempt - 1 >= 7 { 7 } else { (attempt - 1) as nat };
    let base = INITIAL_BACKOFF_MS * vstd::arithmetic::power2::pow2(exponent);
    if base > MAX_BACKOFF_MS { MAX_BACKOFF_MS as int } else { base }
}

proof fn lemma_backoff_table(attempt: u32)
    ensures
        attempt <= 1 ==> backoff_ms(attempt) == 250,
        attempt == 2 ==> backoff_ms(attempt) == 500,
        attempt == 3 ==> backoff_ms(attempt) == 1000,
        attempt == 4 ==> backoff_ms(attempt) == 2000,
        attempt == 5 ==> backoff_ms(attempt) == 4000,
        attempt == 6 ==> backoff_ms(attempt) == 8000,
        attempt >= 7 ==> backoff_ms(attempt) == 10000,
{
    vstd::arithmetic::power2::lemma2_to64();
}

/// The listener never waits less after more failures in a row, and never
/// waits more than 10 s before jitter.
pub proof fn lemma_backoff_monotone(a: u32, b: u32)
    requires
        a <= b,
    ensures
        backoff_ms(a) <= backoff_ms(b),
        INITIAL_BACKOFF_MS <= backoff_ms(a) <= MAX_BACKOFF_MS,
{
    lemma_backoff_table(a);
    lemma_backoff_table(b);
}

/// The reconnect delay before jitter for the `attempt`-th reconnect.
pub fn capped_backoff_ms(attempt: u32) -> (ms: u64)
    ensures
        ms == backoff_ms(attempt),
{
    proof {
        lemma_backoff_table(attempt);
    }
    let exponent: u32 = if attempt <= 1 {
        0
    } else if attempt - 1 >= 7 {
        7
    } else {
        attempt - 1
    };
    let mut base: u64 = INITIAL_BACKOFF_MS;
    let mut k: u32 = 0;
    proof {
        vstd::arithmetic::power2::lemma2_to64();
    }
    while k < exponent
        invariant
            exponent <= 7,
            k <= exponent,
            base == INITIAL_BACKOFF_MS * vstd::arithmetic::power2::pow2(k as nat),
        decreases exponent - k,
    {
        proof {
            vstd::arithmetic::power2::lemma2_to64();
            vstd::arithmetic::power2::lemma_pow2_adds(k as nat, 1);
        }
        base = base * 2;
        k = k + 1;
    }
    if base > MAX_BACKOFF_MS {
        MAX_BACKOFF_MS
    } else {
        base
    }
}

/// The delay before the `attempt`-th reconnect of the listener: the capped
/// backoff plus a random jitter of at most 250 ms.
pub fn reconnect_delay(attempt: u32) -> (ms: u64)
    ensures
        backoff_ms(attempt) <= ms <= backoff_ms(attempt) + MAX_JITTER_MS,
{
    let capped = capped_backoff_ms(attempt);
    let jitter = random_up_to(MAX_JITTER_MS);
    capped + jitter
}

/// How a pub/sub session of the listener ended.
#[derive(Debug, Clone, Copy, PartialEq, Eq, Structural)]
pub enum SessionOutcome {
    /// The server is shutting down.
    Shutdown,
    /// The message stream ended.
    Disconnected,
    /// Connecting or subscribing failed.
    Failed,
}

/// What the listener does after a session.
#[derive(Debug, Clone, Copy, PartialEq, Eq, Structural)]
pub enum ListenerAction {
    /// Stop listening.
    Stop,
    /// Count a reconnect, wait `delay_ms` (unless shutdown comes first), and
    /// open a new session.
    Reconnect { attempt: u32, delay_ms: u64 },
}

/// The reconnect attempt after a session that ended with `outcome`: a lost
/// stream starts counting again, a failure counts one more (saturating).
pub open spec fn next_attempt(attempt: u32, outcome: SessionOutcome) -> u32 {
    match outcome {
        SessionOutcome::Disconnected => 1,
        _ => if attempt == u32::MAX { u32::MAX } else { (attempt + 1) as u32 },
    }
}

/// What the listener does after a session that ended with `outcome`, when
/// `attempt` reconnects have failed in a row before it.
pub fn after_session(attempt: u32, outcome: SessionOutcome) -> (a: ListenerAction)
    ensures
        outcome == SessionOutcome::Shutdown ==> a == ListenerAction::Stop,
        outcome != SessionOutcome::Shutdown ==> (a matches ListenerAction::Reconnect { attempt: n, delay_ms } && n == next_attempt(attempt, outcome) && backoff_ms(n) <= delay_ms <= backoff_ms(n) + MAX_JITTER_MS),
{
    match outcome {
        SessionOutcome::Shutdown => ListenerAction::Stop,
        SessionOutcome::Disconnected => {
            let n: u32 = 1;
            ListenerAction::Reconnect { attempt: n, delay_ms: reconnect_delay(n) }
        },
        SessionOutcome::Failed => {
            let n = attempt.saturating_add(1);
            ListenerAction::Reconnect { attempt: n, delay_ms: reconnect_delay(n) }
        },
    }
}

/// Which local connections an event is delivered to.
#[derive(Debug, Clone, Copy, PartialEq, Eq, Structural)]
pub enum Audience {
    /// The subscribers of a channel.
    Channel(u128),
    /// The subscribers of a thread.
    Thread(u128),
    /// The connections of a user.
    User(u128),
    /// Every connection.
    Everyone,
}

/// The audiences, in order, of an event received from another instance.
pub open spec fn audiences_of(e: ServerEvent) -> Seq<Audience> {
    match e {
        ServerEvent::MessageCreate { channel_id, .. } => seq![Audience::Channel(channel_id)],
        ServerEvent::MessageUpdate { channel_id, .. } => seq![Audience::Channel(channel_id)],
        ServerEvent::MessageDelete { channel_id, .. } => seq![Audience::Channel(channel_id)],
        ServerEvent::Typing { channel_id, .. } => seq![Audience::Channel(channel_id)],
        ServerEvent::ThreadMessageCreate { thread_id, .. } => seq![Audience::Thread(thread_id)],
        ServerEvent::ThreadMessageUpdate { thread_id, .. } => seq![Audience::Thread(thread_id)],
        ServerEvent::ThreadMessageDelete { thread_id, .. } => seq![Audience::Thread(thread_id)],
        ServerEvent::ThreadTyping { thread_id, .. } => seq![Audience::Thread(thread_id)],
        ServerEvent::ThreadRequestReceived { receiver_user_id, .. } => seq![Audience::User(receiver_user_id)],
        ServerEvent::ThreadAccepted { requester_user_id, receiver_user_id, .. } => if requester_user_id == receiver_user_id {
            seq![Audience::User(requester_user_id)]
        } else {
            seq![Audience::User(requester_user_id), Audience::User(receiver_user_id)]
        },
        ServerEvent::PresenceUpdate { .. } => seq![Audience::Everyone],
        _ => Seq::empty(),
    }
}

/// An event received from another instance reaches each audience at most
/// once; in particular both users of an accepted thread get it once each.
pub proof fn lemma_audiences_distinct(e: ServerEvent)
    ensures
        audiences_of(e).no_duplicates(),
{
}

/// The audiences, in order, that an event received from another instance is
/// delivered to on this instance.
pub fn dispatch_targets(event: &ServerEvent) -> (r: Vec<Audience>)
    ensures
        r@ == audiences_of(*event),
        *event matches ServerEvent::MessageCreate { channel_id, .. } ==> r@ == seq![Audience::Channel(channel_id)],
        *event matches ServerEvent::MessageUpdate { channel_id, .. } ==> r@ == seq![Audience::Channel(channel_id)],
        *event matches ServerEvent::MessageDelete { channel_id, .. } ==> r@ == seq![Audience::Channel(channel_id)],
        *event matches ServerEvent::Typing { channel_id, .. } ==> r@ == seq![Audience::Channel(channel_id)],
        *event matches ServerEvent::ThreadMessageCreate { thread_id, .. } ==> r@ == seq![Audience::Thread(thread_id)],
        *event matches ServerEvent::ThreadMessageUpdate { thread_id, .. } ==> r@ == seq![Audience::Thread(thread_id)],
        *event matches ServerEvent::ThreadMessageDelete { thread_id, .. } ==> r@ == seq![Audience::Thread(thread_id)],
        *event matches ServerEvent::ThreadTyping { thread_id, .. } ==> r@ == seq![Audience::Thread(thread_id)],
        *event matches ServerEvent::ThreadRequestReceived { receiver_user_id, .. } ==> r@ == seq![Audience::User(receiver_user_id)],
        *event matches ServerEvent::ThreadAccepted { requester_user_id, receiver_user_id, .. } ==> {
            &&& r@.len() >= 1
            &&& r@[0] == Audience::User(requester_user_id)
            &&& r@.contains(Audience::User(receiver_user_id))
            &&& forall|i: int| 0 <= i < r@.len() ==> (#[trigger] r@[i] == Audience::User(requester_user_id) || r@[i] == Audience::User(receiver_user_id))
            &&& r@.no_duplicates()
        },
        *event matches ServerEvent::PresenceUpdate { .. } ==> r@ == seq![Audience::Everyone],
        (*event is Ready || *event is HeartbeatAck || *event is ChannelSubscribeAck || *event is ThreadSubscribeAck || *event is Error) ==> r@.len() == 0,
{
    let mut r = Vec::new();
    match event {
        ServerEvent::MessageCreate { channel_id, .. } => r.push(Audience::Channel(*channel_id)),
        ServerEvent::MessageUpdate { channel_id, .. } => r.push(Audience::Channel(*channel_id)),
        ServerEvent::MessageDelete { channel_id, .. } => r.push(Audience::Channel(*channel_id)),
        ServerEvent::Typing { channel_id, .. } => r.push(Audience::Channel(*channel_id)),
        ServerEvent::ThreadMessageCreate { thread_id, .. } => r.push(Audience::Thread(*thread_id)),
        ServerEvent::ThreadMessageUpdate { thread_id, .. } => r.push(Audience::Thread(*thread_id)),
        ServerEvent::ThreadMessageDelete { thread_id, .. } => r.push(Audience::Thread(*thread_id)),
        ServerEvent::ThreadTyping { thread_id, .. } => r.push(Audience::Thread(*thread_id)),
        ServerEvent::ThreadRequestReceived { receiver_user_id, .. } => r.push(Audience::User(*receiver_user_id)),
        ServerEvent::ThreadAccepted { requester_user_id, receiver_user_id, .. } => {
            r.push(Audience::User(*requester_user_id));
            if *requester_user_id != *receiver_user_id {
                r.push(Audience::User(*receiver_user_id));
                assert(r@[1] == Audience::User(*receiver_user_id));
            } else {
                assert(r@[0] == Audience::User(*receiver_user_id));
            }
        },
        ServerEvent::PresenceUpdate { .. } => r.push(Audience::Everyone),
        _ => {},
    }
    r
}

/// An event that this instance published itself comes back to it on the
/// shared bus; it was delivered locally already and is skipped.
pub fn is_own_echo(origin_instance_id: &str, instance_id: &str) -> (b: bool)
    ensures
        b == (origin_instance_id@.len() > 0 && origin_instance_id@ == instance_id@),
{
    !origin_instance_id.is_empty() && str_equals(origin_instance_id, instance_id)
}

/// A fresh identity for this server instance: the text of a random UUID.
pub fn new_instance_id() -> (id: String)
    ensures
        exists|u: u128| id@ == uuid_hyphenated_chars(u),
{
    let u = new_uuid_v4();
    uuid_string(u)
}

/// The topic of the events of a channel.
pub open spec fn channel_topic_text(channel_id: u128) -> Seq<char> {
    "events:channel:"@ + uuid_hyphenated_chars(channel_id)
}

/// The topic of the events of a thread.
pub open spec fn thread_topic_text(thread_id: u128) -> Seq<char> {
    "events:thread:"@ + uuid_hyphenated_chars(thread_id)
}

/// The topic of the events addressed to a user.
pub open spec fn user_topic_text(user_id: u128) -> Seq<char> {
    "events:user:"@ + uuid_hyphenated_chars(user_id)
}

/// The topic that channel events are published on.
pub fn channel_topic(channel_id: u128) -> (t: String)
    ensures
        t@ == channel_topic_text(channel_id),
{
    join_texts("events:channel:", uuid_string(channel_id).as_str())
}

/// The topic that thread events are published on.
pub fn thread_topic(thread_id: u128) -> (t: String)
    ensures
        t@ == thread_topic_text(thread_id),
{
    join_texts("events:thread:", uuid_string(thread_id).as_str())
}

/// The topic that events addressed to a user are published on.
pub fn user_topic(user_id: u128) -> (t: String)
    ensures
        t@ == user_topic_text(user_id),
{
    join_texts("events:user:", uuid_string(user_id).as_str())
}

/// The topic that presence events are published on.
pub fn presence_topic() -> (t: &'static str)
    ensures
        t@ == "events:presence"@,
{
    "events:presence"
}

/// The key of a user's presence mark.
pub open spec fn presence_key_text(user_id: u128) -> Seq<char> {
    "presence:user:"@ + uuid_hyphenated_chars(user_id)
}

/// A change of a user's presence mark.
#[derive(Debug, Clone, PartialEq, Eq)]
pub enum PresenceWrite {
    /// Store `value` under `key` for `ttl_secs` seconds.
    Store { key: String, value: String, ttl_secs: u64 },
    /// Delete `key`.
    Clear { key: String },
}

/// How a presence status is recorded: an online user is marked `ONLINE` for
/// `ttl_secs` seconds, an offline user's mark is removed.
pub fn presence_write(user_id: u128, status: PresenceStatus, ttl_secs: u64) -> (w: PresenceWrite)
    ensures
        status == PresenceStatus::Online ==> (w matches PresenceWrite::Store { key, value, ttl_secs: t } && key@ == presence_key_text(user_id) && value@ == "ONLINE"@ && t == ttl_secs),
        status == PresenceStatus::Offline ==> (w matches PresenceWrite::Clear { key } && key@ == presence_key_text(user_id)),
{
    let key = join_texts("presence:user:", uuid_string(user_id).as_str());
    match status {
        PresenceStatus::Online => PresenceWrite::Store { key, value: String::from_str("ONLINE"), ttl_secs },
        PresenceStatus::Offline => PresenceWrite::Clear { key },
    }
}

/// What a counter-based rate limit does with the count reached in the
/// current window.
#[derive(Debug, Clone, Copy, PartialEq, Eq, Structural)]
pub struct RateDecision {
    /// The window starts now: the counter gets its expiry.
    pub start_window: bool,
    /// The action is allowed.
    pub allowed: bool,
}

/// The decision for the `count`-th action of a window with room for `limit`.
pub fn rate_decision(count: i64, limit: i64) -> (d: RateDecision)
    ensures
        d.start_window == (count == 1),
        d.allowed == (count <= limit),
{
    RateDecision { start_window: count == 1, allowed: count <= limit }
}

/// The error of a rate limit counter that could not be incremented.
pub fn rate_counter_failed(detail: &str) -> (e: AppError)
    ensures
        e.is(crate::error::ErrorKind::Internal, "rate limit increment failed: "@ + detail@),
{
    AppError::Internal(join_texts("rate limit increment failed: ", detail))
}

/// Whether an action passes the rate limit check: when the limiter itself
/// fails, the action is allowed.
pub fn rate_limit_verdict(checked: &AppResult<bool>) -> (allowed: bool)
    ensures
        allowed == (match *checked {
            Ok(v) => v,
            Err(_) => true,
        }),
{
    match checked {
        Ok(v) => *v,
        Err(_) => true,
    }
}

/// The index of the first `:` of `s` at or after `from`, or the length of
/// `s` when there is none.
pub open spec fn colon_from(s: Seq<char>, from: int) -> int
    decreases s.len() - from,
{
    if from >= s.len() {
        s.len() as int
    } else if s[from] == ':' {
        from
    } else {
        colon_from(s, from + 1)
    }
}

/// The first two `:`-separated parts of a rate limit key, which name the
/// kind of action it limits.
pub open spec fn scope_text(key: Seq<char>) -> Seq<char> {
    let first = colon_from(key, 0);
    if first >= key.len() {
        key
    } else {
        key.subrange(0, colon_from(key, first + 1))
    }
}

proof fn lemma_colon_from_bounds(s: Seq<char>, from: int)
    requires
        0 <= from <= s.len(),
    ensures
        from <= colon_from(s, from) <= s.len(),
        colon_from(s, from) < s.len() ==> s[colon_from(s, from)] == ':',
    decreases s.len() - from,
{
    if from < s.len() && s[from] != ':' {
        lemma_colon_from_bounds(s, from + 1);
    }
}

fn find_colon(v: &Vec<char>, from: usize) -> (i: usize)
    requires
        from <= v@.len(),
    ensures
        i == colon_from(v@, from as int),
{
    let n = v.len();
    let mut i = from;
    while i < n && v[i] != ':'
        invariant
            n == v@.len(),
            from <= i <= n,
            colon_from(v@, from as int) == colon_from(v@, i as int),
        decreases n - i,
    {
        i = i + 1;
    }
    i
}

/// The scope of a rate limit key that labels denied actions: its first two
/// `:`-separated parts (`rl:typing` for typing notices).
pub fn rate_limit_scope(key: &str) -> (scope: &str)
    ensures
        scope@ == scope_text(key@),
{
    let v = chars_of(key);
    let first = find_colon(&v, 0);
    proof {
        lemma_colon_from_bounds(key@, 0);
    }
    if first >= v.len() {
        return key;
    }
    let second = find_colon(&v, first + 1);
    proof {
        lemma_colon_from_bounds(key@, first + 1);
    }
    key.substring_char(0, second)
}

} // verus!
