use sagiton::domain::{DirectThreadSummary, DirectThreadTransition, DirectThreadUpsertResult, MessageRecord};
use sagiton::error::AppError;
use sagiton::gateway::ServerEvent;
use sagiton::http::{
    direct_thread_request_event, extract_bearer_token, header_text, health_response, message_created_event, next_cursor,
    message_rate_key, message_rate_limited, parse_friend_request_filter, parse_inbox_filter,
    session_context, thread_accepted_event, thread_message_rate_key,
};
use sagiton::use_cases::conversation::DirectInboxFilter;
use sagiton::use_cases::friendship::FriendRequestInboxFilter;

#[test]
fn inbox_filters() {
    assert_eq!(parse_inbox_filter(None), Ok(DirectInboxFilter::All));
    assert_eq!(parse_inbox_filter(Some("  ")), Ok(DirectInboxFilter::All));
    assert_eq!(parse_inbox_filter(Some(" PENDING ")), Ok(DirectInboxFilter::Pending));
    assert_eq!(
        parse_inbox_filter(Some("all")),
        Err(AppError::Validation("invalid inbox filter".to_string()))
    );
    assert_eq!(parse_friend_request_filter(None), Ok(FriendRequestInboxFilter::Pending));
    assert_eq!(parse_friend_request_filter(Some("Outbox ")), Ok(FriendRequestInboxFilter::Outbox));
    assert_eq!(parse_friend_request_filter(Some("pending")), Ok(FriendRequestInboxFilter::Pending));
    assert_eq!(
        parse_friend_request_filter(Some("")),
        Err(AppError::Validation("inbox must be one of: pending, outbox".to_string()))
    );
}

#[test]
fn bearer_tokens() {
    assert_eq!(extract_bearer_token(Some(Some("Bearer abc".to_string()))), Ok("abc".to_string()));
    // the token itself is not trimmed
    assert_eq!(extract_bearer_token(Some(Some("Bearer  abc ".to_string()))), Ok(" abc ".to_string()));
    assert_eq!(
        extract_bearer_token(None),
        Err(AppError::Unauthorized("authorization header is required".to_string()))
    );
    assert_eq!(
        extract_bearer_token(Some(None)),
        Err(AppError::Unauthorized("authorization header is invalid".to_string()))
    );
    assert_eq!(
        extract_bearer_token(Some(Some("Bearer ".to_string()))),
        Err(AppError::Unauthorized("bearer token is required".to_string()))
    );
}

#[test]
fn session_headers() {
    assert_eq!(header_text(Some(Some("  Mozilla  ".to_string()))), Some("Mozilla".to_string()));
    assert_eq!(header_text(Some(Some("   ".to_string()))), None);
    assert_eq!(header_text(Some(None)), None);
    let c = session_context(Some(Some("ua".to_string())), None);
    assert_eq!((c.user_agent, c.ip), (Some("ua".to_string()), None));
}

#[test]
fn message_rate_keys() {
    assert_eq!(message_rate_key(1, 2), "rl:message:00000000-0000-0000-0000-000000000001:00000000-0000-0000-0000-000000000002");
    assert_eq!(thread_message_rate_key(1, 2), "rl:thread-message:00000000-0000-0000-0000-000000000001:00000000-0000-0000-0000-000000000002");
    assert_eq!(message_rate_limited(), AppError::RateLimited("message rate limit exceeded".to_string()));
}

fn upsert(status: &str, requested_by: Option<u128>, created: bool) -> DirectThreadUpsertResult {
    DirectThreadUpsertResult {
        thread: DirectThreadSummary {
            id: 70,
            peer_user_id: 2,
            peer_username: "bob".to_string(),
            status: status.to_string(),
            requested_by,
            accepted_at: None,
            created_at: 0,
            has_unread: false,
        },
        created,
    }
}

#[test]
fn only_new_requests_are_announced() {
    assert_eq!(
        direct_thread_request_event(1, &upsert("PENDING", Some(1), true)),
        Some((2, ServerEvent::ThreadRequestReceived { thread_id: 70, requester_user_id: 1, receiver_user_id: 2 }))
    );
    assert_eq!(direct_thread_request_event(1, &upsert("PENDING", Some(1), false)), None);
    assert_eq!(direct_thread_request_event(1, &upsert("ACTIVE", None, true)), None);
    assert_eq!(direct_thread_request_event(1, &upsert("PENDING", Some(2), true)), None);
}

#[test]
fn accepted_threads_tell_both_users() {
    let t = DirectThreadTransition { thread_id: 70, requester_user_id: 1, receiver_user_id: 2, accepted_at: Some(5) };
    assert_eq!(
        thread_accepted_event(70, 2, &t),
        (ServerEvent::ThreadAccepted { thread_id: 70, accepted_by_user_id: 2, requester_user_id: 1, receiver_user_id: 2 }, 1, 2)
    );
}

#[test]
fn created_messages_go_to_their_channel() {
    let m = MessageRecord { id: 1, channel_id: 9, author_id: 3, content: "hi".to_string(), created_at: 0, edited_at: None, deleted_at: None };
    let (channel, event) = message_created_event(m);
    assert_eq!(channel, 9);
    match event {
        ServerEvent::MessageCreate { channel_id, message } => {
            assert_eq!((channel_id, message.id, message.content.as_str(), message.edited_at), (9, 1, "hi", None));
        }
        other => panic!("unexpected {other:?}"),
    }
}

#[test]
fn health_response_names_service_and_port() {
    let h = health_response(8080);
    assert_eq!(h.status, "ok");
    assert_eq!(h.service, "sagiton-backend");
    assert_eq!(h.port, 8080);
}

#[test]
fn next_cursor_points_past_full_pages_only() {
    assert_eq!(next_cursor(&vec![9, 8, 7], Some(3)), Some(7));
    assert_eq!(next_cursor(&vec![9], Some(20)), None);
    assert_eq!(next_cursor(&Vec::new(), Some(50)), None);
    assert_eq!(next_cursor(&vec![9, 8], Some(0)), None);
    let fifty: Vec<u128> = (1..=50).rev().collect();
    assert_eq!(next_cursor(&fifty, None), Some(1));
    let hundred: Vec<u128> = (1..=100).rev().collect();
    assert_eq!(next_cursor(&hundred, Some(500)), Some(1));
}
