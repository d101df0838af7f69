use sagiton::domain::{MessageDeleted, MessageRecord};
use sagiton::error::AppError;
use sagiton::gateway::{
    handle_command, invalid_command, oversized_frame, resolve_ws_token, server_event_name,
    session_closed, session_opened, ClientCommand, CommandStep, GatewayAnswer, GatewayEffect,
    GatewayQuery, MessagePayload, PresenceStatus, ServerEvent,
};
use sagiton::hub::{RegisterResult, UnregisterResult};
use sagiton::permission::PermissionBits;

const CONN: u128 = 10;
const USER: u128 = 0x0123456789abcdef0123456789abcdef;
const CHANNEL: u128 = 0xfedcba9876543210fedcba9876543210;

fn performed(step: CommandStep) -> Vec<GatewayEffect> {
    match step {
        CommandStep::Perform(v) => v,
        CommandStep::Ask(q) => panic!("asked {q:?}"),
    }
}

fn error_event(code: &str, message: &str) -> GatewayEffect {
    GatewayEffect::Send { connection_id: CONN, event: ServerEvent::Error { code: code.to_string(), message: message.to_string() } }
}

#[test]
fn identify_and_heartbeat() {
    let cmd = ClientCommand::Identify { token: "t".to_string() };
    assert_eq!(
        performed(handle_command(CONN, USER, &cmd, &Vec::new())),
        vec![GatewayEffect::Send { connection_id: CONN, event: ServerEvent::Ready { user_id: USER } }]
    );
    let beat = ClientCommand::Heartbeat { ts: 42 };
    assert_eq!(
        performed(handle_command(CONN, USER, &beat, &Vec::new())),
        vec![
            GatewayEffect::TouchHeartbeat { connection_id: CONN },
            GatewayEffect::SetPresence { user_id: USER, status: PresenceStatus::Online, ttl_secs: 90 },
            GatewayEffect::Send { connection_id: CONN, event: ServerEvent::HeartbeatAck { ts: 42 } },
        ]
    );
}

#[test]
fn subscribing_to_a_channel_needs_view_permission() {
    let cmd = ClientCommand::SubscribeChannel { channel_id: CHANNEL };
    match handle_command(CONN, USER, &cmd, &Vec::new()) {
        CommandStep::Ask(q) => assert_eq!(q, GatewayQuery::ChannelPermissions { user_id: USER, channel_id: CHANNEL }),
        other => panic!("unexpected {other:?}"),
    }
    assert_eq!(
        performed(handle_command(CONN, USER, &cmd, &vec![GatewayAnswer::Permissions(Ok(PermissionBits(1)))])),
        vec![
            GatewayEffect::SubscribeChannel { connection_id: CONN, channel_id: CHANNEL },
            GatewayEffect::Send { connection_id: CONN, event: ServerEvent::ChannelSubscribeAck { channel_id: CHANNEL } },
        ]
    );
    assert_eq!(
        performed(handle_command(CONN, USER, &cmd, &vec![GatewayAnswer::Permissions(Ok(PermissionBits(2)))])),
        vec![error_event("FORBIDDEN", "missing VIEW_CHANNEL permission")]
    );
    assert_eq!(
        performed(handle_command(CONN, USER, &cmd, &vec![GatewayAnswer::Permissions(Err(AppError::not_found("channel not found")))])),
        vec![error_event("SUBSCRIBE_FAILED", "channel not found")]
    );
}

#[test]
fn typing_is_rate_limited_and_published() {
    let cmd = ClientCommand::TypingStart { channel_id: CHANNEL };
    let can_send = GatewayAnswer::Permissions(Ok(PermissionBits(3)));
    match handle_command(CONN, USER, &cmd, &vec![can_send]) {
        CommandStep::Ask(GatewayQuery::RateLimit { key, limit, window_secs }) => {
            assert_eq!(key, "rl:typing:01234567-89ab-cdef-0123-456789abcdef:fedcba98-7654-3210-fedc-ba9876543210");
            assert_eq!((limit, window_secs), (8, 5));
        }
        other => panic!("unexpected {other:?}"),
    }
    let answers = vec![GatewayAnswer::Permissions(Ok(PermissionBits(3))), GatewayAnswer::Allowed(true)];
    assert_eq!(
        performed(handle_command(CONN, USER, &cmd, &answers)),
        vec![GatewayEffect::PublishChannelEvent { channel_id: CHANNEL, event: ServerEvent::Typing { channel_id: CHANNEL, user_id: USER } }]
    );
    let denied = vec![GatewayAnswer::Permissions(Ok(PermissionBits(3))), GatewayAnswer::Allowed(false)];
    assert!(performed(handle_command(CONN, USER, &cmd, &denied)).is_empty());
    let mute = vec![GatewayAnswer::Permissions(Ok(PermissionBits(1)))];
    assert!(performed(handle_command(CONN, USER, &cmd, &mute)).is_empty());
}

#[test]
fn thread_subscription_and_typing() {
    let sub = ClientCommand::SubscribeThread { thread_id: 5 };
    assert_eq!(
        performed(handle_command(CONN, USER, &sub, &vec![GatewayAnswer::Access(Ok(false))])),
        vec![error_event("FORBIDDEN", "thread not accessible")]
    );
    assert_eq!(
        performed(handle_command(CONN, USER, &sub, &vec![GatewayAnswer::Access(Ok(true))])),
        vec![
            GatewayEffect::SubscribeThread { connection_id: CONN, thread_id: 5 },
            GatewayEffect::Send { connection_id: CONN, event: ServerEvent::ThreadSubscribeAck { thread_id: 5 } },
        ]
    );
    let typing = ClientCommand::ThreadTypingStart { thread_id: 5 };
    match handle_command(CONN, USER, &typing, &vec![GatewayAnswer::Access(Ok(true))]) {
        CommandStep::Ask(GatewayQuery::RateLimit { key, .. }) => {
            assert_eq!(key, "rl:typing:thread:01234567-89ab-cdef-0123-456789abcdef:00000000-0000-0000-0000-000000000005");
        }
        other => panic!("unexpected {other:?}"),
    }
    assert!(performed(handle_command(CONN, USER, &typing, &vec![GatewayAnswer::Access(Err(AppError::internal("x")))])).is_empty());
    let unsub = ClientCommand::UnsubscribeThread { thread_id: 5 };
    assert_eq!(
        performed(handle_command(CONN, USER, &unsub, &Vec::new())),
        vec![GatewayEffect::UnsubscribeThread { connection_id: CONN, thread_id: 5 }]
    );
}

#[test]
fn presence_follows_first_and_last_connection() {
    let first = RegisterResult { connection_id: CONN, first_connection: true };
    assert_eq!(
        session_opened(USER, &first),
        vec![
            GatewayEffect::SetPresence { user_id: USER, status: PresenceStatus::Online, ttl_secs: 90 },
            GatewayEffect::PublishPresenceEvent { event: ServerEvent::PresenceUpdate { user_id: USER, status: PresenceStatus::Online } },
            GatewayEffect::Send { connection_id: CONN, event: ServerEvent::Ready { user_id: USER } },
        ]
    );
    let second = RegisterResult { connection_id: CONN, first_connection: false };
    assert_eq!(session_opened(USER, &second).len(), 1);
    assert_eq!(
        session_closed(Some(UnregisterResult { user_id: USER, became_offline: true })),
        vec![
            GatewayEffect::SetPresence { user_id: USER, status: PresenceStatus::Offline, ttl_secs: 90 },
            GatewayEffect::PublishPresenceEvent { event: ServerEvent::PresenceUpdate { user_id: USER, status: PresenceStatus::Offline } },
        ]
    );
    assert!(session_closed(Some(UnregisterResult { user_id: USER, became_offline: false })).is_empty());
    assert!(session_closed(None).is_empty());
}

#[test]
fn frame_errors() {
    assert_eq!(oversized_frame(CONN, 16_385, 16_384), Some(error_event("FRAME_TOO_LARGE", "frame too large")));
    assert_eq!(oversized_frame(CONN, 16_384, 16_384), None);
    assert_eq!(invalid_command(CONN), error_event("INVALID_COMMAND", "failed to parse command"));
}

#[test]
fn websocket_token_sources() {
    assert_eq!(resolve_ws_token(Some(" q ".to_string()), None), Ok("q".to_string()));
    assert_eq!(resolve_ws_token(Some("  ".to_string()), Some(Some("Bearer h ".to_string()))), Ok("h".to_string()));
    assert_eq!(
        resolve_ws_token(None, None),
        Err(AppError::Unauthorized("authorization token is required".to_string()))
    );
    assert_eq!(
        resolve_ws_token(None, Some(None)),
        Err(AppError::Unauthorized("authorization header is invalid".to_string()))
    );
    assert_eq!(
        resolve_ws_token(None, Some(Some("Basic abc".to_string()))),
        Err(AppError::Unauthorized("bearer token is required".to_string()))
    );
    assert_eq!(
        resolve_ws_token(None, Some(Some("Bearer   ".to_string()))),
        Err(AppError::Unauthorized("bearer token is required".to_string()))
    );
}

#[test]
fn event_names_and_payload_times() {
    assert_eq!(server_event_name(&ServerEvent::Ready { user_id: 1 }), "READY");
    assert_eq!(server_event_name(&ServerEvent::Typing { channel_id: 1, user_id: 2 }), "TYPING");
    assert_eq!(
        server_event_name(&ServerEvent::Error { code: String::new(), message: String::new() }),
        "ERROR"
    );
    let record = MessageRecord {
        id: 1,
        channel_id: 2,
        author_id: 3,
        content: "hi".to_string(),
        created_at: 0,
        edited_at: Some(1_500_000_000),
        deleted_at: None,
    };
    let p = MessagePayload::from_record(record);
    assert_eq!(p.created_at, "1970-01-01T00:00:00Z");
    assert_eq!(p.edited_at, Some("1970-01-01T00:00:01.5Z".to_string()));
    let deleted = ServerEvent::from_message_deleted(MessageDeleted { channel_id: 2, message_id: 1, deleted_at: 86_400_000_000_000 });
    assert_eq!(deleted, ServerEvent::MessageDelete { channel_id: 2, message_id: 1, deleted_at: "1970-01-02T00:00:00Z".to_string() });
}
