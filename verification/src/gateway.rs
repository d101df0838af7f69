//! The websocket gateway protocol: the events the server pushes, the commands
//! clients send, and what the server does in answer to each command, to a new
//! session, to an oversized frame and to a closed session.
use vstd::prelude::*;
use crate::domain::{MessageDeleted, MessageRecord, ThreadMessageDeleted, ThreadMessageRecord};
use crate::error::{AppError, AppResult, ErrorKind};
use crate::hub::{RegisterResult, UnregisterResult};
use crate::permission::{PermissionBits, SEND_MESSAGES, VIEW_CHANNEL};
use crate::platform::{rfc3339, rfc3339_text, uuid_hyphenated_chars, uuid_string};
use crate::text::{strip_prefix, trim, trim_chars};

verus! {

/// How long a presence mark lives without being refreshed.
pub const PRESENCE_TTL_SECS: u64 = 90;

/// How long a connection may stay silent before it is closed.
pub const HEARTBEAT_TIMEOUT_SECS: u64 = 70;

/// How many typing notices a user may send to one channel or thread per window.
pub const TYPING_RATE_LIMIT: i64 = 8;

/// The length of the typing rate limit window.
pub const TYPING_RATE_WINDOW_SECS: u64 = 5;

/// Whether a user is connected.
#[derive(Debug, Clone, Copy, PartialEq, Eq, Structural)]
pub enum PresenceStatus {
    Online,
    Offline,
}

/// A channel message as pushed to clients.
#[derive(Debug, Clone, PartialEq, Eq)]
pub struct MessagePayload {
    pub id: u128,
    pub channel_id: u128,
    pub author_id: u128,
    pub content: String,
    pub created_at: String,
    pub edited_at: Option<String>,
}

/// A thread message as pushed to clients.
#[derive(Debug, Clone, PartialEq, Eq)]
pub struct ThreadMessagePayload {
    pub id: u128,
    pub thread_id: u128,
    pub author_id: u128,
    pub content: String,
    pub created_at: String,
    pub edited_at: Option<String>,
}

/// The events the server pushes over a websocket.
#[derive(Debug, Clone, PartialEq, Eq)]
pub enum ServerEvent {
    Ready { user_id: u128 },
    HeartbeatAck { ts: i64 },
    ChannelSubscribeAck { channel_id: u128 },
    ThreadSubscribeAck { thread_id: u128 },
    PresenceUpdate { user_id: u128, status: PresenceStatus },
    MessageCreate { channel_id: u128, message: MessagePayload },
    MessageUpdate { channel_id: u128, message: MessagePayload },
    MessageDelete { channel_id: u128, message_id: u128, deleted_at: String },
    ThreadMessageCreate { thread_id: u128, message: ThreadMessagePayload },
    ThreadMessageUpdate { thread_id: u128, message: ThreadMessagePayload },
    ThreadMessageDelete { thread_id: u128, message_id: u128, deleted_at: String },
    ThreadRequestReceived { thread_id: u128, requester_user_id: u128, receiver_user_id: u128 },
    ThreadAccepted {
        thread_id: u128,
        accepted_by_user_id: u128,
        requester_user_id: u128,
        receiver_user_id: u128,
    },
    Typing { channel_id: u128, user_id: u128 },
    ThreadTyping { thread_id: u128, user_id: u128 },
    Error { code: String, message: String },
}

/// The commands clients send over a websocket.
#[derive(Debug, Clone, PartialEq, Eq)]
pub enum ClientCommand {
    Identify { token: String },
    Heartbeat { ts: i64 },
    SubscribeChannel { channel_id: u128 },
    UnsubscribeChannel { channel_id: u128 },
    TypingStart { channel_id: u128 },
    SubscribeThread { thread_id: u128 },
    UnsubscribeThread { thread_id: u128 },
    ThreadTypingStart { thread_id: u128 },
}

/// The query parameters of the websocket upgrade.
pub struct WsAuthQuery {
    pub token: Option<String>,
}

/// The RFC 3339 text of an instant, or the empty text when it cannot be
/// written.
pub open spec fn timestamp_text(nanos: i128) -> Seq<char> {
    match rfc3339_text(nanos) {
        Some(t) => t,
        None => Seq::empty(),
    }
}

fn timestamp_or_empty(nanos: i128) -> (s: String)
    ensures
        s@ == timestamp_text(nanos),
{
    match rfc3339(nanos) {
        Some(s) => s,
        None => String::new(),
    }
}

fn optional_timestamp(nanos: Option<i128>) -> (s: Option<String>)
    ensures
        nanos is None ==> s is None,
        nanos matches Some(n) ==> match rfc3339_text(n) {
            Some(t) => s matches Some(x) && x@ == t,
            None => s is None,
        },
{
    match nanos {
        Some(n) => rfc3339(n),
        None => None,
    }
}

/// `p` carries the fields of `r`, with its instants written in RFC 3339.
pub open spec fn payload_of_message(p: MessagePayload, r: MessageRecord) -> bool {
    &&& p.id == r.id
    &&& p.channel_id == r.channel_id
    &&& p.author_id == r.author_id
    &&& p.content@ == r.content@
    &&& p.created_at@ == timestamp_text(r.created_at)
    &&& match r.edited_at {
        None => p.edited_at is None,
        Some(n) => match rfc3339_text(n) {
            Some(t) => p.edited_at matches Some(x) && x@ == t,
            None => p.edited_at is None,
        },
    }
}

/// `p` carries the fields of `r`, with its instants written in RFC 3339.
pub open spec fn payload_of_thread_message(p: ThreadMessagePayload, r: ThreadMessageRecord) -> bool {
    &&& p.id == r.id
    &&& p.thread_id == r.thread_id
    &&& p.author_id == r.author_id
    &&& p.content@ == r.content@
    &&& p.created_at@ == timestamp_text(r.created_at)
    &&& match r.edited_at {
        None => p.edited_at is None,
        Some(n) => match rfc3339_text(n) {
            Some(t) => p.edited_at matches Some(x) && x@ == t,
            None => p.edited_at is None,
        },
    }
}

impl MessagePayload {
    /// The payload of a channel message.
    pub fn from_record(value: MessageRecord) -> (p: Self)
        ensures
            payload_of_message(p, value),
    {
        let created_at = timestamp_or_empty(value.created_at);
        let edited_at = optional_timestamp(value.edited_at);
        MessagePayload {
            id: value.id,
            channel_id: value.channel_id,
            author_id: value.author_id,
            content: value.content,
            created_at,
            edited_at,
        }
    }
}

impl ThreadMessagePayload {
    /// The payload of a thread message.
    pub fn from_record(value: ThreadMessageRecord) -> (p: Self)
        ensures
            payload_of_thread_message(p, value),
    {
        let created_at = timestamp_or_empty(value.created_at);
        let edited_at = optional_timestamp(value.edited_at);
        ThreadMessagePayload {
            id: value.id,
            thread_id: value.thread_id,
            author_id: value.author_id,
            content: value.content,
            created_at,
            edited_at,
        }
    }
}

impl ServerEvent {
    /// The event announcing a deleted channel message.
    pub fn from_message_deleted(value: MessageDeleted) -> (e: Self)
        ensures
            e matches ServerEvent::MessageDelete { channel_id, message_id, deleted_at } && channel_id
                == value.channel_id && message_id == value.message_id && deleted_at@
                == timestamp_text(value.deleted_at),
    {
        ServerEvent::MessageDelete {
            channel_id: value.channel_id,
            message_id: value.message_id,
            deleted_at: timestamp_or_empty(value.deleted_at),
        }
    }

    /// The event announcing a deleted thread message.
    pub fn from_thread_message_deleted(value: ThreadMessageDeleted) -> (e: Self)
        ensures
            e matches ServerEvent::ThreadMessageDelete { thread_id, message_id, deleted_at }
                && thread_id == value.thread_id && message_id == value.message_id && deleted_at@
                == timestamp_text(value.deleted_at),
    {
        ServerEvent::ThreadMessageDelete {
            thread_id: value.thread_id,
            message_id: value.message_id,
            deleted_at: timestamp_or_empty(value.deleted_at),
        }
    }
}

/// The wire name of an event (its `t` tag).
pub open spec fn event_name(e: ServerEvent) -> Seq<char> {
    match e {
        ServerEvent::Ready { .. } => "READY"@,
        ServerEvent::HeartbeatAck { .. } => "HEARTBEAT_ACK"@,
        ServerEvent::ChannelSubscribeAck { .. } => "CHANNEL_SUBSCRIBE_ACK"@,
        ServerEvent::ThreadSubscribeAck { .. } => "THREAD_SUBSCRIBE_ACK"@,
        ServerEvent::PresenceUpdate { .. } => "PRESENCE_UPDATE"@,
        ServerEvent::MessageCreate { .. } => "MESSAGE_CREATE"@,
        ServerEvent::MessageUpdate { .. } => "MESSAGE_UPDATE"@,
        ServerEvent::MessageDelete { .. } => "MESSAGE_DELETE"@,
        ServerEvent::ThreadMessageCreate { .. } => "THREAD_MESSAGE_CREATE"@,
        ServerEvent::ThreadMessageUpdate { .. } => "THREAD_MESSAGE_UPDATE"@,
        ServerEvent::ThreadMessageDelete { .. } => "THREAD_MESSAGE_DELETE"@,
        ServerEvent::ThreadRequestReceived { .. } => "THREAD_REQUEST_RECEIVED"@,
        ServerEvent::ThreadAccepted { .. } => "THREAD_ACCEPTED"@,
        ServerEvent::Typing { .. } => "TYPING"@,
        ServerEvent::ThreadTyping { .. } => "THREAD_TYPING"@,
        ServerEvent::Error { .. } => "ERROR"@,
    }
}

/// The wire name of an event, used to label event metrics.
pub fn server_event_name(event: &ServerEvent) -> (name: &'static str)
    ensures
        name@ == event_name(*event),
{
    match event {
        ServerEvent::Ready { .. } => "READY",
        ServerEvent::HeartbeatAck { .. } => "HEARTBEAT_ACK",
        ServerEvent::ChannelSubscribeAck { .. } => "CHANNEL_SUBSCRIBE_ACK",
        ServerEvent::ThreadSubscribeAck { .. } => "THREAD_SUBSCRIBE_ACK",
        ServerEvent::PresenceUpdate { .. } => "PRESENCE_UPDATE",
        ServerEvent::MessageCreate { .. } => "MESSAGE_CREATE",
        ServerEvent::MessageUpdate { .. } => "MESSAGE_UPDATE",
        ServerEvent::MessageDelete { .. } => "MESSAGE_DELETE",
        ServerEvent::ThreadMessageCreate { .. } => "THREAD_MESSAGE_CREATE",
        ServerEvent::ThreadMessageUpdate { .. } => "THREAD_MESSAGE_UPDATE",
        ServerEvent::ThreadMessageDelete { .. } => "THREAD_MESSAGE_DELETE",
        ServerEvent::ThreadRequestReceived { .. } => "THREAD_REQUEST_RECEIVED",
        ServerEvent::ThreadAccepted { .. } => "THREAD_ACCEPTED",
        ServerEvent::Typing { .. } => "TYPING",
        ServerEvent::ThreadTyping { .. } => "THREAD_TYPING",
        ServerEvent::Error { .. } => "ERROR",
    }
}

/// What the gateway asks of the rest of the server before it can decide.
#[derive(Debug, Clone, PartialEq, Eq)]
pub enum GatewayQuery {
    /// The effective permissions of the user in the channel.
    ChannelPermissions { user_id: u128, channel_id: u128 },
    /// Whether the user is a member of the thread.
    ThreadAccess { thread_id: u128, user_id: u128 },
    /// Whether one more action under `key` fits the rate limit.
    RateLimit { key: String, limit: i64, window_secs: u64 },
}

/// The answers to `GatewayQuery`s, in the order they were asked.
#[derive(Debug)]
pub enum GatewayAnswer {
    Permissions(AppResult<PermissionBits>),
    Access(AppResult<bool>),
    Allowed(bool),
}

/// What the gateway does, in order.
#[derive(Debug, Clone, PartialEq, Eq)]
pub enum GatewayEffect {
    /// Sends an event to one connection of this instance.
    Send { connection_id: u128, event: ServerEvent },
    /// Records that the connection is alive.
    TouchHeartbeat { connection_id: u128 },
    /// Marks the user's presence (an online mark expires after `ttl_secs`;
    /// an offline one clears the mark).
    SetPresence { user_id: u128, status: PresenceStatus, ttl_secs: u64 },
    SubscribeChannel { connection_id: u128, channel_id: u128 },
    UnsubscribeChannel { connection_id: u128, channel_id: u128 },
    SubscribeThread { connection_id: u128, thread_id: u128 },
    UnsubscribeThread { connection_id: u128, thread_id: u128 },
    /// Delivers an event to the channel's subscribers on every instance.
    PublishChannelEvent { channel_id: u128, event: ServerEvent },
    /// Delivers an event to the thread's subscribers on every instance.
    PublishThreadEvent { thread_id: u128, event: ServerEvent },
    /// Delivers a presence event to every connection on every instance.
    PublishPresenceEvent { event: ServerEvent },
}

/// The next thing the gateway needs, or what it does in the end.
#[derive(Debug)]
pub enum CommandStep {
    Ask(GatewayQuery),
    Perform(Vec<GatewayEffect>),
}

/// The rate limit key of typing notices of a user in a channel.
pub open spec fn typing_key(user_id: u128, channel_id: u128) -> Seq<char> {
    "rl:typing:"@ + uuid_hyphenated_chars(user_id) + ":"@ + uuid_hyphenated_chars(channel_id)
}

/// The rate limit key of typing notices of a user in a thread.
pub open spec fn thread_typing_key(user_id: u128, thread_id: u128) -> Seq<char> {
    "rl:typing:thread:"@ + uuid_hyphenated_chars(user_id) + ":"@ + uuid_hyphenated_chars(
        thread_id,
    )
}

fn rate_key(scope: &str, user_id: u128, target_id: u128) -> (k: String)
    ensures
        k@ == scope@ + uuid_hyphenated_chars(user_id) + ":"@ + uuid_hyphenated_chars(target_id),
{
    let mut k = String::from_str(scope);
    let u = uuid_string(user_id);
    k.append(u.as_str());
    k.append(":");
    let t = uuid_string(target_id);
    k.append(t.as_str());
    k
}

/// `step` does exactly `effects`.
pub open spec fn performs(step: CommandStep, effects: Seq<GatewayEffect>) -> bool {
    step matches CommandStep::Perform(v) && v@ =~= effects
}

/// `effect` sends the connection an error event with `code` and `message`.
pub open spec fn is_error_to(effect: GatewayEffect, connection_id: u128, code: Seq<char>, message: Seq<char>) -> bool {
    effect matches GatewayEffect::Send { connection_id: c, event: ServerEvent::Error { code: k, message: m } }
        && c == connection_id && k@ == code && m@ == message
}

/// `step` only sends the connection an error event with `code` and `message`.
pub open spec fn reports(step: CommandStep, connection_id: u128, code: Seq<char>, message: Seq<char>) -> bool {
    step matches CommandStep::Perform(v) && v@.len() == 1 && is_error_to(v@[0], connection_id, code, message)
}

/// `step` asks whether an action under key `key` fits the typing rate limit.
pub open spec fn asks_typing_limit(step: CommandStep, key: Seq<char>) -> bool {
    step matches CommandStep::Ask(GatewayQuery::RateLimit { key: k, limit, window_secs }) && k@ == key
        && limit == TYPING_RATE_LIMIT && window_secs == TYPING_RATE_WINDOW_SECS
}

fn error_to(connection_id: u128, code: &str, message: String) -> (e: GatewayEffect)
    ensures
        is_error_to(e, connection_id, code@, message@),
{
    GatewayEffect::Send {
        connection_id,
        event: ServerEvent::Error { code: code.to_owned(), message },
    }
}

fn single(effect: GatewayEffect) -> (v: Vec<GatewayEffect>)
    ensures
        v@ == seq![effect],
{
    let mut v = Vec::new();
    v.push(effect);
    v
}

fn pair(first: GatewayEffect, second: GatewayEffect) -> (v: Vec<GatewayEffect>)
    ensures
        v@ == seq![first, second],
{
    let mut v = Vec::new();
    v.push(first);
    v.push(second);
    v
}

/// What subscribing a connection to a channel comes to: with the VIEW_CHANNEL
/// permission the connection is subscribed and told so; without it, or when
/// the permissions cannot be read, it is sent an error.
pub open spec fn subscribe_channel_outcome(connection_id: u128, user_id: u128, channel_id: u128, a: Seq<GatewayAnswer>, step: CommandStep) -> bool {
    &&& a.len() == 0 ==> step == CommandStep::Ask(GatewayQuery::ChannelPermissions { user_id, channel_id })
    &&& a.len() >= 1 ==> match a[0] {
        GatewayAnswer::Permissions(Ok(bits)) => if bits.spec_has(VIEW_CHANNEL) {
            performs(step, seq![
                GatewayEffect::SubscribeChannel { connection_id, channel_id },
                GatewayEffect::Send { connection_id, event: ServerEvent::ChannelSubscribeAck { channel_id } },
            ])
        } else {
            reports(step, connection_id, "FORBIDDEN"@, "missing VIEW_CHANNEL permission"@)
        },
        GatewayAnswer::Permissions(Err(e)) => reports(step, connection_id, "SUBSCRIBE_FAILED"@, e.msg()),
        _ => performs(step, Seq::empty()),
    }
}

/// What a typing notice in a channel comes to: a member allowed to send
/// messages, within the rate limit, has it delivered to the channel;
/// otherwise nothing happens.
pub open spec fn typing_outcome(user_id: u128, channel_id: u128, a: Seq<GatewayAnswer>, step: CommandStep) -> bool {
    let may_send = a.len() >= 1 && (a[0] matches GatewayAnswer::Permissions(Ok(bits)) && bits.spec_has(SEND_MESSAGES));
    &&& a.len() == 0 ==> step == CommandStep::Ask(GatewayQuery::ChannelPermissions { user_id, channel_id })
    &&& a.len() >= 1 && !may_send ==> performs(step, Seq::empty())
    &&& may_send && a.len() == 1 ==> asks_typing_limit(step, typing_key(user_id, channel_id))
    &&& may_send && a.len() >= 2 ==> if a[1] == GatewayAnswer::Allowed(true) {
        performs(step, seq![GatewayEffect::PublishChannelEvent { channel_id, event: ServerEvent::Typing { channel_id, user_id } }])
    } else {
        performs(step, Seq::empty())
    }
}

/// What subscribing a connection to a thread comes to: a member is
/// subscribed and told so; anyone else, or a failed check, is sent an error.
pub open spec fn subscribe_thread_outcome(connection_id: u128, user_id: u128, thread_id: u128, a: Seq<GatewayAnswer>, step: CommandStep) -> bool {
    &&& a.len() == 0 ==> step == CommandStep::Ask(GatewayQuery::ThreadAccess { thread_id, user_id })
    &&& a.len() >= 1 ==> match a[0] {
        GatewayAnswer::Access(Ok(true)) => performs(step, seq![
            GatewayEffect::SubscribeThread { connection_id, thread_id },
            GatewayEffect::Send { connection_id, event: ServerEvent::ThreadSubscribeAck { thread_id } },
        ]),
        GatewayAnswer::Access(Ok(false)) => reports(step, connection_id, "FORBIDDEN"@, "thread not accessible"@),
        GatewayAnswer::Access(Err(e)) => reports(step, connection_id, "SUBSCRIBE_FAILED"@, e.msg()),
        _ => performs(step, Seq::empty()),
    }
}

/// What a typing notice in a thread comes to: a member within the rate
/// limit has it delivered to the thread; otherwise nothing happens.
pub open spec fn thread_typing_outcome(user_id: u128, thread_id: u128, a: Seq<GatewayAnswer>, step: CommandStep) -> bool {
    let member = a.len() >= 1 && (a[0] matches GatewayAnswer::Access(Ok(true)));
    &&& a.len() == 0 ==> step == CommandStep::Ask(GatewayQuery::ThreadAccess { thread_id, user_id })
    &&& a.len() >= 1 && !member ==> performs(step, Seq::empty())
    &&& member && a.len() == 1 ==> asks_typing_limit(step, thread_typing_key(user_id, thread_id))
    &&& member && a.len() >= 2 ==> if a[1] == GatewayAnswer::Allowed(true) {
        performs(step, seq![GatewayEffect::PublishThreadEvent { thread_id, event: ServerEvent::ThreadTyping { thread_id, user_id } }])
    } else {
        performs(step, Seq::empty())
    }
}

/// What the gateway does for a command of an identified connection: the
/// queries it asks, one at a time, given the answers so far, and the effects
/// it performs in the end.
///
/// # Parameters
/// - `connection_id`: The connection the command came on.
/// - `user_id`: The user the connection belongs to.
/// - `cmd`: The command.
/// - `answers`: The answers to the queries asked so far.
pub fn handle_command(connection_id: u128, user_id: u128, cmd: &ClientCommand, answers: &Vec<GatewayAnswer>) -> (step: CommandStep)
    ensures
        *cmd is Identify ==> performs(step, seq![GatewayEffect::Send { connection_id, event: ServerEvent::Ready { user_id } }]),
        *cmd matches ClientCommand::Heartbeat { ts } ==> performs(step, seq![
            GatewayEffect::TouchHeartbeat { connection_id },
            GatewayEffect::SetPresence { user_id, status: PresenceStatus::Online, ttl_secs: PRESENCE_TTL_SECS },
            GatewayEffect::Send { connection_id, event: ServerEvent::HeartbeatAck { ts } },
        ]),
        *cmd matches ClientCommand::SubscribeChannel { channel_id } ==> subscribe_channel_outcome(connection_id, user_id, channel_id, answers@, step),
        *cmd matches ClientCommand::UnsubscribeChannel { channel_id } ==> performs(step, seq![GatewayEffect::UnsubscribeChannel { connection_id, channel_id }]),
        *cmd matches ClientCommand::TypingStart { channel_id } ==> typing_outcome(user_id, channel_id, answers@, step),
        *cmd matches ClientCommand::SubscribeThread { thread_id } ==> subscribe_thread_outcome(connection_id, user_id, thread_id, answers@, step),
        *cmd matches ClientCommand::UnsubscribeThread { thread_id } ==> performs(step, seq![GatewayEffect::UnsubscribeThread { connection_id, thread_id }]),
        *cmd matches ClientCommand::ThreadTypingStart { thread_id } ==> thread_typing_outcome(user_id, thread_id, answers@, step),
{
    match cmd {
        ClientCommand::Identify { .. } => {
            CommandStep::Perform(single(GatewayEffect::Send { connection_id, event: ServerEvent::Ready { user_id } }))
        },
        ClientCommand::Heartbeat { ts } => {
            let mut v = Vec::new();
            v.push(GatewayEffect::TouchHeartbeat { connection_id });
            v.push(GatewayEffect::SetPresence { user_id, status: PresenceStatus::Online, ttl_secs: PRESENCE_TTL_SECS });
            v.push(GatewayEffect::Send { connection_id, event: ServerEvent::HeartbeatAck { ts: *ts } });
            CommandStep::Perform(v)
        },
        ClientCommand::SubscribeChannel { channel_id } => {
            let channel_id = *channel_id;
            if answers.len() == 0 {
                return CommandStep::Ask(GatewayQuery::ChannelPermissions { user_id, channel_id });
            }
            match &answers[0] {
                GatewayAnswer::Permissions(Ok(bits)) => {
                    if bits.has(VIEW_CHANNEL) {
                        CommandStep::Perform(pair(
                            GatewayEffect::SubscribeChannel { connection_id, channel_id },
                            GatewayEffect::Send { connection_id, event: ServerEvent::ChannelSubscribeAck { channel_id } },
                        ))
                    } else {
                        CommandStep::Perform(single(error_to(connection_id, "FORBIDDEN", String::from_str("missing VIEW_CHANNEL permission"))))
                    }
                },
                GatewayAnswer::Permissions(Err(e)) => {
                    CommandStep::Perform(single(error_to(connection_id, "SUBSCRIBE_FAILED", e.message())))
                },
                _ => CommandStep::Perform(Vec::new()),
            }
        },
        ClientCommand::UnsubscribeChannel { channel_id } => {
            CommandStep::Perform(single(GatewayEffect::UnsubscribeChannel { connection_id, channel_id: *channel_id }))
        },
        ClientCommand::TypingStart { channel_id } => {
            let channel_id = *channel_id;
            if answers.len() == 0 {
                return CommandStep::Ask(GatewayQuery::ChannelPermissions { user_id, channel_id });
            }
            let may_send = match &answers[0] {
                GatewayAnswer::Permissions(Ok(bits)) => bits.has(SEND_MESSAGES),
                _ => false,
            };
            if !may_send {
                return CommandStep::Perform(Vec::new());
            }
            if answers.len() == 1 {
                return CommandStep::Ask(GatewayQuery::RateLimit {
                    key: rate_key("rl:typing:", user_id, channel_id),
                    limit: TYPING_RATE_LIMIT,
                    window_secs: TYPING_RATE_WINDOW_SECS,
                });
            }
            match &answers[1] {
                GatewayAnswer::Allowed(true) => CommandStep::Perform(single(GatewayEffect::PublishChannelEvent {
                    channel_id,
                    event: ServerEvent::Typing { channel_id, user_id },
                })),
                _ => CommandStep::Perform(Vec::new()),
            }
        },
        ClientCommand::SubscribeThread { thread_id } => {
            let thread_id = *thread_id;
            if answers.len() == 0 {
                return CommandStep::Ask(GatewayQuery::ThreadAccess { thread_id, user_id });
            }
            match &answers[0] {
                GatewayAnswer::Access(Ok(true)) => CommandStep::Perform(pair(
                    GatewayEffect::SubscribeThread { connection_id, thread_id },
                    GatewayEffect::Send { connection_id, event: ServerEvent::ThreadSubscribeAck { thread_id } },
                )),
                GatewayAnswer::Access(Ok(false)) => {
                    CommandStep::Perform(single(error_to(connection_id, "FORBIDDEN", String::from_str("thread not accessible"))))
                },
                GatewayAnswer::Access(Err(e)) => {
                    CommandStep::Perform(single(error_to(connection_id, "SUBSCRIBE_FAILED", e.message())))
                },
                _ => CommandStep::Perform(Vec::new()),
            }
        },
        ClientCommand::UnsubscribeThread { thread_id } => {
            CommandStep::Perform(single(GatewayEffect::UnsubscribeThread { connection_id, thread_id: *thread_id }))
        },
        ClientCommand::ThreadTypingStart { thread_id } => {
            let thread_id = *thread_id;
            if answers.len() == 0 {
                return CommandStep::Ask(GatewayQuery::ThreadAccess { thread_id, user_id });
            }
            let member = match &answers[0] {
                GatewayAnswer::Access(Ok(true)) => true,
                _ => false,
            };
            if !member {
                return CommandStep::Perform(Vec::new());
            }
            if answers.len() == 1 {
                return CommandStep::Ask(GatewayQuery::RateLimit {
                    key: rate_key("rl:typing:thread:", user_id, thread_id),
                    limit: TYPING_RATE_LIMIT,
                    window_secs: TYPING_RATE_WINDOW_SECS,
                });
            }
            match &answers[1] {
                GatewayAnswer::Allowed(true) => CommandStep::Perform(single(GatewayEffect::PublishThreadEvent {
                    thread_id,
                    event: ServerEvent::ThreadTyping { thread_id, user_id },
                })),
                _ => CommandStep::Perform(Vec::new()),
            }
        },
    }
}

/// What a new session does once its connection is registered: a user who
/// had no other connection comes online (marked and announced to everyone),
/// and the connection is told it is ready.
pub fn session_opened(user_id: u128, registration: &RegisterResult) -> (effects: Vec<GatewayEffect>)
    ensures
        registration.first_connection ==> effects@ == seq![
            GatewayEffect::SetPresence { user_id, status: PresenceStatus::Online, ttl_secs: PRESENCE_TTL_SECS },
            GatewayEffect::PublishPresenceEvent { event: ServerEvent::PresenceUpdate { user_id, status: PresenceStatus::Online } },
            GatewayEffect::Send { connection_id: registration.connection_id, event: ServerEvent::Ready { user_id } },
        ],
        !registration.first_connection ==> effects@ == seq![
            GatewayEffect::Send { connection_id: registration.connection_id, event: ServerEvent::Ready { user_id } },
        ],
{
    let mut v = Vec::new();
    if registration.first_connection {
        v.push(GatewayEffect::SetPresence { user_id, status: PresenceStatus::Online, ttl_secs: PRESENCE_TTL_SECS });
        v.push(GatewayEffect::PublishPresenceEvent { event: ServerEvent::PresenceUpdate { user_id, status: PresenceStatus::Online } });
    }
    v.push(GatewayEffect::Send { connection_id: registration.connection_id, event: ServerEvent::Ready { user_id } });
    v
}

/// The error a text frame longer than `max_bytes` is answered with (the
/// session then ends), or `None` when the frame may be read.
pub fn oversized_frame(connection_id: u128, payload_len: usize, max_bytes: usize) -> (r: Option<GatewayEffect>)
    ensures
        payload_len > max_bytes ==> (r matches Some(e) && is_error_to(e, connection_id, "FRAME_TOO_LARGE"@, "frame too large"@)),
        payload_len <= max_bytes ==> r is None,
{
    if payload_len > max_bytes {
        Some(error_to(connection_id, "FRAME_TOO_LARGE", String::from_str("frame too large")))
    } else {
        None
    }
}

/// The error a text frame that is no command is answered with (the session
/// goes on).
pub fn invalid_command(connection_id: u128) -> (e: GatewayEffect)
    ensures
        is_error_to(e, connection_id, "INVALID_COMMAND"@, "failed to parse command"@),
{
    error_to(connection_id, "INVALID_COMMAND", String::from_str("failed to parse command"))
}

/// What the end of a session does once its connection is unregistered: a
/// user whose last connection it was goes offline (mark cleared, and
/// announced to everyone).
pub fn session_closed(unregistered: Option<UnregisterResult>) -> (effects: Vec<GatewayEffect>)
    ensures
        (unregistered matches Some(u) && u.became_offline) ==> effects@ == seq![
            GatewayEffect::SetPresence { user_id: unregistered->Some_0.user_id, status: PresenceStatus::Offline, ttl_secs: PRESENCE_TTL_SECS },
            GatewayEffect::PublishPresenceEvent { event: ServerEvent::PresenceUpdate { user_id: unregistered->Some_0.user_id, status: PresenceStatus::Offline } },
        ],
        !(unregistered matches Some(u) && u.became_offline) ==> effects@.len() == 0,
{
    let mut v = Vec::new();
    if let Some(u) = unregistered {
        if u.became_offline {
            v.push(GatewayEffect::SetPresence { user_id: u.user_id, status: PresenceStatus::Offline, ttl_secs: PRESENCE_TTL_SECS });
            v.push(GatewayEffect::PublishPresenceEvent { event: ServerEvent::PresenceUpdate { user_id: u.user_id, status: PresenceStatus::Offline } });
        }
    }
    v
}

/// The access token of a websocket upgrade, which comes in the `token` query
/// parameter or else as a bearer `Authorization` header.
///
/// # Parameters
/// - `token_query`: The `token` query parameter, if any.
/// - `authorization`: The `Authorization` header, if any: its text, or
///   `None` when its value is not visible ASCII.
pub fn resolve_ws_token(token_query: Option<String>, authorization: Option<Option<String>>) -> (r: AppResult<String>)
    ensures
        ({
            let from_query = token_query matches Some(q) && trim_chars(q@).len() > 0;
            &&& from_query ==> (r matches Ok(t) && t@ == trim_chars(token_query->Some_0@))
            &&& !from_query ==> match authorization {
                None => r matches Err(e) && e.is(ErrorKind::Unauthorized, "authorization token is required"@),
                Some(None) => r matches Err(e) && e.is(ErrorKind::Unauthorized, "authorization header is invalid"@),
                Some(Some(h)) => if "Bearer "@.is_prefix_of(h@) && trim_chars(h@.subrange(7, h@.len() as int)).len() > 0 {
                    r matches Ok(t) && t@ == trim_chars(h@.subrange(7, h@.len() as int))
                } else {
                    r matches Err(e) && e.is(ErrorKind::Unauthorized, "bearer token is required"@)
                },
            }
        }),
{
    if let Some(token) = &token_query {
        let trimmed = trim(token.as_str());
        if !trimmed.is_empty() {
            return Ok(trimmed.to_owned());
        }
    }
    let header_value = match &authorization {
        None => return Err(AppError::unauthorized("authorization token is required")),
        Some(None) => return Err(AppError::unauthorized("authorization header is invalid")),
        Some(Some(h)) => h,
    };
    proof {
        reveal_strlit("Bearer ");
    }
    let token = match strip_prefix(header_value.as_str(), "Bearer ") {
        Some(t) => t,
        None => return Err(AppError::unauthorized("bearer token is required")),
    };
    let trimmed = trim(token);
    if trimmed.is_empty() {
        return Err(AppError::unauthorized("bearer token is required"));
    }
    Ok(trimmed.to_owned())
}

} // verus!
