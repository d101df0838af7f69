//! The HTTP surface's own rules: request bodies and queries, bearer tokens,
//! inbox filters, message rate limits, and the events that successful
//! requests publish.
use vstd::prelude::*;
use crate::domain::{
    DirectThreadTransition, DirectThreadUpsertResult, MessageRecord, SessionContext,
    ThreadMessageRecord,
};
use crate::error::{AppError, AppResult, ErrorKind};
use crate::gateway::{payload_of_message, payload_of_thread_message, MessagePayload, ServerEvent, ThreadMessagePayload};
use crate::platform::{uuid_hyphenated_chars, uuid_string};
use crate::text::{eq_ignore_ascii_case, equals_ignore_ascii_case, str_equals, strip_prefix, trim, trim_chars};
use crate::use_cases::conversation::DirectInboxFilter;
use crate::use_cases::friendship::FriendRequestInboxFilter;
use crate::validation::{normalize_limit, spec_normalize_limit};

verus! {

/// The body of a direct thread request.
pub struct CreateDirectThreadRequest {
    pub peer_user_id: u128,
}

/// The query of a direct thread listing.
pub struct ListDirectThreadsQuery {
    pub inbox: Option<String>,
}

/// The body of a group thread creation.
pub struct CreateGroupThreadRequest {
    pub name: String,
    pub member_user_ids: Vec<u128>,
}

/// The body of a group member addition.
pub struct AddGroupMemberRequest {
    pub user_id: u128,
}

/// The body of a group invite creation.
pub struct CreateGroupInviteRequest {
    pub expires_in_seconds: Option<u64>,
    pub max_uses: Option<i32>,
}

/// The body of a new thread message.
pub struct CreateThreadMessageRequest {
    pub content: String,
}

/// The body of a thread message edit.
pub struct UpdateThreadMessageRequest {
    pub content: String,
}

/// The query of a thread message listing.
pub struct ListThreadMessagesQuery {
    pub before: Option<u128>,
    pub limit: Option<i64>,
}

/// The body of a thread read marker.
pub struct MarkThreadReadRequest {
    pub last_read_message_id: Option<u128>,
}

/// The body of a friend request.
pub struct CreateFriendRequest {
    pub to_user_id: u128,
}

/// The query of a friend request listing.
pub struct ListFriendRequestsQuery {
    pub inbox: Option<String>,
}

/// The body of a guild creation.
pub struct CreateGuildRequest {
    pub name: String,
}

/// The body of a channel creation.
pub struct CreateChannelRequest {
    pub name: String,
}

/// The body of a guild invite creation.
pub struct CreateGuildInviteRequest {
    pub expires_in_seconds: Option<u64>,
    pub max_uses: Option<i32>,
}

/// The body of a new channel message.
pub struct CreateMessageRequest {
    pub content: String,
}

/// The body of a channel message edit.
pub struct UpdateMessageRequest {
    pub content: String,
}

/// The query of a channel message listing.
pub struct ListMessagesQuery {
    pub before: Option<u128>,
    pub limit: Option<i64>,
}

/// The body of a channel read marker.
pub struct MarkChannelReadRequest {
    pub last_read_message_id: Option<u128>,
}

/// The body of the health check.
pub struct HealthResponse {
    pub status: String,
    pub service: String,
    pub port: u16,
}

/// The `before` cursor of the page after a listing page, given the ids of
/// the page's messages (newest first) and the page size asked for: the id of
/// the page's last (oldest) message when the page is full, since more
/// messages may follow; none when the page is shorter or the size is invalid.
pub open spec fn next_cursor_of(page_ids: Seq<u128>, limit: Option<i64>) -> Option<u128> {
    match spec_normalize_limit(limit) {
        Some(n) => if page_ids.len() > 0 && page_ids.len() == n {
            Some(page_ids.last())
        } else {
            None
        },
        None => None,
    }
}

/// The `next_cursor` of a message listing page.
///
/// # Parameters
/// - `page_ids`: The ids of the page's messages, newest first.
/// - `limit`: The page size the listing was asked with.
pub fn next_cursor(page_ids: &Vec<u128>, limit: Option<i64>) -> (r: Option<u128>)
    ensures
        r == next_cursor_of(page_ids@, limit),
{
    match normalize_limit(limit) {
        Ok(n) => {
            let len = page_ids.len();
            if len > 0 && len == n as usize {
                Some(page_ids[len - 1])
            } else {
                None
            }
        },
        Err(_) => None,
    }
}

/// The health check answer of a server listening on `port`.
pub fn health_response(port: u16) -> (r: HealthResponse)
    ensures
        r.status@ == "ok"@,
        r.service@ == "sagiton-backend"@,
        r.port == port,
{
    HealthResponse { status: String::from_str("ok"), service: String::from_str("sagiton-backend"), port }
}

/// The filter a direct thread listing asks for: all threads without a value
/// (or with a blank one), the pending requests for `pending` in any case.
pub fn parse_inbox_filter(inbox: Option<&str>) -> (r: AppResult<DirectInboxFilter>)
    ensures
        ({
            let given = inbox matches Some(v) && trim_chars(v@).len() > 0;
            &&& !given ==> r == Ok::<DirectInboxFilter, AppError>(DirectInboxFilter::All)
            &&& given && eq_ignore_ascii_case(trim_chars(inbox->Some_0@), "pending"@) ==> r == Ok::<DirectInboxFilter, AppError>(DirectInboxFilter::Pending)
            &&& given && !eq_ignore_ascii_case(trim_chars(inbox->Some_0@), "pending"@) ==> (r matches Err(e) && e.is(ErrorKind::Validation, "invalid inbox filter"@))
        }),
{
    match inbox {
        None => Ok(DirectInboxFilter::All),
        Some(raw) => {
            let value = trim(raw);
            if value.is_empty() {
                return Ok(DirectInboxFilter::All);
            }
            if equals_ignore_ascii_case(value, "pending") {
                Ok(DirectInboxFilter::Pending)
            } else {
                Err(AppError::validation("invalid inbox filter"))
            }
        },
    }
}

/// The filter a friend request listing asks for: the pending inbox without a
/// value, `pending` or `outbox` in any case otherwise.
pub fn parse_friend_request_filter(raw: Option<&str>) -> (r: AppResult<FriendRequestInboxFilter>)
    ensures
        raw is None ==> r == Ok::<FriendRequestInboxFilter, AppError>(FriendRequestInboxFilter::Pending),
        raw matches Some(v) ==> {
            let value = trim_chars(v@);
            &&& eq_ignore_ascii_case(value, "pending"@) ==> r == Ok::<FriendRequestInboxFilter, AppError>(FriendRequestInboxFilter::Pending)
            &&& eq_ignore_ascii_case(value, "outbox"@) ==> r == Ok::<FriendRequestInboxFilter, AppError>(FriendRequestInboxFilter::Outbox)
            &&& !eq_ignore_ascii_case(value, "pending"@) && !eq_ignore_ascii_case(value, "outbox"@) ==> (r matches Err(e) && e.is(ErrorKind::Validation, "inbox must be one of: pending, outbox"@))
        },
{
    let value = match raw {
        None => return Ok(FriendRequestInboxFilter::Pending),
        Some(v) => trim(v),
    };
    proof {
        reveal_strlit("pending");
        reveal_strlit("outbox");
        assert("pending"@.len() != "outbox"@.len());
    }
    if equals_ignore_ascii_case(value, "pending") {
        Ok(FriendRequestInboxFilter::Pending)
    } else if equals_ignore_ascii_case(value, "outbox") {
        Ok(FriendRequestInboxFilter::Outbox)
    } else {
        Err(AppError::validation("inbox must be one of: pending, outbox"))
    }
}

/// The bearer token of an `Authorization` header (the text after `Bearer `,
/// which must not be blank).
///
/// # Parameters
/// - `authorization`: The header, if any: its text, or `None` when its value
///   is not visible ASCII.
pub fn extract_bearer_token(authorization: Option<Option<String>>) -> (r: AppResult<String>)
    ensures
        match authorization {
            None => r matches Err(e) && e.is(ErrorKind::Unauthorized, "authorization header is required"@),
            Some(None) => r matches Err(e) && e.is(ErrorKind::Unauthorized, "authorization header is invalid"@),
            Some(Some(h)) => if "Bearer "@.is_prefix_of(h@) && trim_chars(h@.subrange(7, h@.len() as int)).len() > 0 {
                r matches Ok(t) && t@ == h@.subrange(7, h@.len() as int)
            } else {
                r matches Err(e) && e.is(ErrorKind::Unauthorized, "bearer token is required"@)
            },
        },
{
    let header_value = match &authorization {
        None => return Err(AppError::unauthorized("authorization header is required")),
        Some(None) => return Err(AppError::unauthorized("authorization header is invalid")),
        Some(Some(h)) => h,
    };
    proof {
        reveal_strlit("Bearer ");
    }
    let token = match strip_prefix(header_value.as_str(), "Bearer ") {
        Some(t) => t,
        None => return Err(AppError::unauthorized("bearer token is required")),
    };
    if trim(token).is_empty() {
        return Err(AppError::unauthorized("bearer token is required"));
    }
    Ok(token.to_owned())
}

/// `r` is what a request keeps of a header: its trimmed text, or nothing
/// when it is missing, not visible ASCII, or blank.
pub open spec fn kept_header(value: Option<Option<String>>, r: Option<String>) -> bool {
    match value {
        Some(Some(v)) => if trim_chars(v@).len() > 0 {
            r matches Some(t) && t@ == trim_chars(v@)
        } else {
            r is None
        },
        _ => r is None,
    }
}

/// The trimmed text of a request header, or `None` when it is missing, not
/// visible ASCII, or blank.
pub fn header_text(value: Option<Option<String>>) -> (r: Option<String>)
    ensures
        kept_header(value, r),
{
    match value {
        Some(Some(v)) => {
            let t = trim(v.as_str());
            if t.is_empty() {
                None
            } else {
                Some(t.to_owned())
            }
        },
        _ => None,
    }
}

/// Where a session is opened from: the `User-Agent` and `X-Forwarded-For`
/// headers.
pub fn session_context(user_agent: Option<Option<String>>, forwarded_for: Option<Option<String>>) -> (c: SessionContext)
    ensures
        kept_header(user_agent, c.user_agent),
        kept_header(forwarded_for, c.ip),
{
    SessionContext { user_agent: header_text(user_agent), ip: header_text(forwarded_for) }
}

/// How many messages a user may post to one channel or thread per window.
pub const MESSAGE_RATE_LIMIT: i64 = 30;

/// The length of the message rate limit window.
pub const MESSAGE_RATE_WINDOW_SECS: u64 = 10;

/// The rate limit key of a user's messages in a channel.
pub open spec fn message_key_text(user_id: u128, channel_id: u128) -> Seq<char> {
    "rl:message:"@ + uuid_hyphenated_chars(user_id) + ":"@ + uuid_hyphenated_chars(channel_id)
}

/// The rate limit key of a user's messages in a thread.
pub open spec fn thread_message_key_text(user_id: u128, thread_id: u128) -> Seq<char> {
    "rl:thread-message:"@ + uuid_hyphenated_chars(user_id) + ":"@ + uuid_hyphenated_chars(thread_id)
}

fn key_of(scope: &str, user_id: u128, target_id: u128) -> (k: String)
    ensures
        k@ == scope@ + uuid_hyphenated_chars(user_id) + ":"@ + uuid_hyphenated_chars(target_id),
{
    let mut k = String::from_str(scope);
    let u = uuid_string(user_id);
    k.append(u.as_str());
    k.append(":");
    let t = uuid_string(target_id);
    k.append(t.as_str());
    k
}

/// The rate limit key of a user's messages in a channel.
pub fn message_rate_key(user_id: u128, channel_id: u128) -> (k: String)
    ensures
        k@ == message_key_text(user_id, channel_id),
{
    key_of("rl:message:", user_id, channel_id)
}

/// The rate limit key of a user's messages in a thread.
pub fn thread_message_rate_key(user_id: u128, thread_id: u128) -> (k: String)
    ensures
        k@ == thread_message_key_text(user_id, thread_id),
{
    key_of("rl:thread-message:", user_id, thread_id)
}

/// The error of a message refused by the rate limit.
pub fn message_rate_limited() -> (e: AppError)
    ensures
        e.is(ErrorKind::RateLimited, "message rate limit exceeded"@),
{
    AppError::rate_limited("message rate limit exceeded")
}

/// The event a new direct thread announces to its peer: only a thread that
/// was just created as a request of the user who opened it.
pub fn direct_thread_request_event(user_id: u128, result: &DirectThreadUpsertResult) -> (r: Option<(u128, ServerEvent)>)
    ensures
        ({
            let t = result.thread;
            let announced = result.created && t.status@ == "PENDING"@ && t.requested_by == Some(user_id);
            &&& announced ==> r == Some((t.peer_user_id, ServerEvent::ThreadRequestReceived { thread_id: t.id, requester_user_id: user_id, receiver_user_id: t.peer_user_id }))
            &&& !announced ==> r is None
        }),
{
    let t = &result.thread;
    let requested_by_user = match t.requested_by {
        Some(id) => id == user_id,
        None => false,
    };
    if result.created && str_equals(t.status.as_str(), "PENDING") && requested_by_user {
        Some((t.peer_user_id, ServerEvent::ThreadRequestReceived { thread_id: t.id, requester_user_id: user_id, receiver_user_id: t.peer_user_id }))
    } else {
        None
    }
}

/// The event an accepted direct thread announces to both its users, and the
/// users it goes to, requester first.
pub fn thread_accepted_event(thread_id: u128, user_id: u128, transition: &DirectThreadTransition) -> (r: (ServerEvent, u128, u128))
    ensures
        r == (ServerEvent::ThreadAccepted {
            thread_id,
            accepted_by_user_id: user_id,
            requester_user_id: transition.requester_user_id,
            receiver_user_id: transition.receiver_user_id,
        }, transition.requester_user_id, transition.receiver_user_id),
{
    (ServerEvent::ThreadAccepted {
        thread_id,
        accepted_by_user_id: user_id,
        requester_user_id: transition.requester_user_id,
        receiver_user_id: transition.receiver_user_id,
    }, transition.requester_user_id, transition.receiver_user_id)
}

/// The event announcing a new channel message to the channel.
pub fn message_created_event(message: MessageRecord) -> (r: (u128, ServerEvent))
    ensures
        r.0 == message.channel_id,
        r.1 matches ServerEvent::MessageCreate { channel_id, message: p } && channel_id == message.channel_id && payload_of_message(p, message),
{
    let channel_id = message.channel_id;
    (channel_id, ServerEvent::MessageCreate { channel_id, message: MessagePayload::from_record(message) })
}

/// The event announcing an edited channel message to the channel.
pub fn message_updated_event(message: MessageRecord) -> (r: (u128, ServerEvent))
    ensures
        r.0 == message.channel_id,
        r.1 matches ServerEvent::MessageUpdate { channel_id, message: p } && channel_id == message.channel_id && payload_of_message(p, message),
{
    let channel_id = message.channel_id;
    (channel_id, ServerEvent::MessageUpdate { channel_id, message: MessagePayload::from_record(message) })
}

/// The event announcing a new thread message to the thread.
pub fn thread_message_created_event(message: ThreadMessageRecord) -> (r: (u128, ServerEvent))
    ensures
        r.0 == message.thread_id,
        r.1 matches ServerEvent::ThreadMessageCreate { thread_id, message: p } && thread_id == message.thread_id && payload_of_thread_message(p, message),
{
    let thread_id = message.thread_id;
    (thread_id, ServerEvent::ThreadMessageCreate { thread_id, message: ThreadMessagePayload::from_record(message) })
}

/// The event announcing an edited thread message to the thread.
pub fn thread_message_updated_event(message: ThreadMessageRecord) -> (r: (u128, ServerEvent))
    ensures
        r.0 == message.thread_id,
        r.1 matches ServerEvent::ThreadMessageUpdate { thread_id, message: p } && thread_id == message.thread_id && payload_of_thread_message(p, message),
{
    let thread_id = message.thread_id;
    (thread_id, ServerEvent::ThreadMessageUpdate { thread_id, message: ThreadMessagePayload::from_record(message) })
}

} // verus!
