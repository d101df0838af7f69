use sagiton::error::AppError;
use sagiton::gateway::{PresenceStatus, ServerEvent};
use sagiton::realtime::{
    after_session, capped_backoff_ms, channel_topic, dispatch_targets, is_own_echo,
    new_instance_id, presence_topic, presence_write, rate_counter_failed, rate_decision,
    rate_limit_scope, rate_limit_verdict, reconnect_delay, thread_topic, user_topic, Audience,
    ListenerAction, PresenceWrite, SessionOutcome,
};

#[test]
fn backoff_doubles_up_to_ten_seconds() {
    let expected = [(0u32, 250u64), (1, 250), (2, 500), (3, 1000), (4, 2000), (5, 4000), (6, 8000), (7, 10_000), (8, 10_000), (u32::MAX, 10_000)];
    for (attempt, ms) in expected {
        assert_eq!(capped_backoff_ms(attempt), ms);
        let d = reconnect_delay(attempt);
        assert!(ms <= d && d <= ms + 250);
    }
}

#[test]
fn listener_reconnects_until_shutdown() {
    assert_eq!(after_session(3, SessionOutcome::Shutdown), ListenerAction::Stop);
    match after_session(3, SessionOutcome::Disconnected) {
        ListenerAction::Reconnect { attempt, delay_ms } => {
            assert_eq!(attempt, 1);
            assert!((250..=500).contains(&delay_ms));
        }
        other => panic!("unexpected {other:?}"),
    }
    match after_session(3, SessionOutcome::Failed) {
        ListenerAction::Reconnect { attempt, delay_ms } => {
            assert_eq!(attempt, 4);
            assert!((2000..=2250).contains(&delay_ms));
        }
        other => panic!("unexpected {other:?}"),
    }
    match after_session(u32::MAX, SessionOutcome::Failed) {
        ListenerAction::Reconnect { attempt, .. } => assert_eq!(attempt, u32::MAX),
        other => panic!("unexpected {other:?}"),
    }
}

#[test]
fn received_events_reach_their_audiences() {
    assert_eq!(dispatch_targets(&ServerEvent::Typing { channel_id: 4, user_id: 1 }), vec![Audience::Channel(4)]);
    assert_eq!(dispatch_targets(&ServerEvent::ThreadTyping { thread_id: 5, user_id: 1 }), vec![Audience::Thread(5)]);
    assert_eq!(
        dispatch_targets(&ServerEvent::ThreadRequestReceived { thread_id: 5, requester_user_id: 1, receiver_user_id: 2 }),
        vec![Audience::User(2)]
    );
    assert_eq!(
        dispatch_targets(&ServerEvent::ThreadAccepted { thread_id: 5, accepted_by_user_id: 2, requester_user_id: 1, receiver_user_id: 2 }),
        vec![Audience::User(1), Audience::User(2)]
    );
    assert_eq!(
        dispatch_targets(&ServerEvent::ThreadAccepted { thread_id: 5, accepted_by_user_id: 1, requester_user_id: 1, receiver_user_id: 1 }),
        vec![Audience::User(1)]
    );
    assert_eq!(
        dispatch_targets(&ServerEvent::PresenceUpdate { user_id: 1, status: PresenceStatus::Online }),
        vec![Audience::Everyone]
    );
    assert!(dispatch_targets(&ServerEvent::Ready { user_id: 1 }).is_empty());
    assert!(dispatch_targets(&ServerEvent::HeartbeatAck { ts: 1 }).is_empty());
}

#[test]
fn own_events_are_skipped() {
    let me = new_instance_id();
    assert_eq!(me.len(), 36);
    assert!(is_own_echo(&me, &me));
    assert!(!is_own_echo("", ""));
    assert!(!is_own_echo("other", &me));
}

#[test]
fn topics_and_presence_keys() {
    let id = 0x0123456789abcdef0123456789abcdefu128;
    assert_eq!(channel_topic(id), "events:channel:01234567-89ab-cdef-0123-456789abcdef");
    assert_eq!(thread_topic(id), "events:thread:01234567-89ab-cdef-0123-456789abcdef");
    assert_eq!(user_topic(id), "events:user:01234567-89ab-cdef-0123-456789abcdef");
    assert_eq!(presence_topic(), "events:presence");
    assert_eq!(
        presence_write(id, PresenceStatus::Online, 90),
        PresenceWrite::Store {
            key: "presence:user:01234567-89ab-cdef-0123-456789abcdef".to_string(),
            value: "ONLINE".to_string(),
            ttl_secs: 90
        }
    );
    assert_eq!(
        presence_write(id, PresenceStatus::Offline, 90),
        PresenceWrite::Clear { key: "presence:user:01234567-89ab-cdef-0123-456789abcdef".to_string() }
    );
}

#[test]
fn rate_limit_rules() {
    let first = rate_decision(1, 8);
    assert!(first.start_window && first.allowed);
    let eighth = rate_decision(8, 8);
    assert!(!eighth.start_window && eighth.allowed);
    assert!(!rate_decision(9, 8).allowed);
    assert!(rate_limit_verdict(&Ok(true)));
    assert!(!rate_limit_verdict(&Ok(false)));
    assert!(rate_limit_verdict(&Err(AppError::internal("redis down"))));
    assert_eq!(
        rate_counter_failed("connection reset"),
        AppError::Internal("rate limit increment failed: connection reset".to_string())
    );
}

#[test]
fn rate_limit_scope_keeps_two_parts() {
    assert_eq!(rate_limit_scope("rl:typing:u:c"), "rl:typing");
    assert_eq!(rate_limit_scope("rl:typing:thread:u:t"), "rl:typing");
    assert_eq!(rate_limit_scope("rl:message"), "rl:message");
    assert_eq!(rate_limit_scope("plain"), "plain");
    assert_eq!(rate_limit_scope("a:"), "a:");
    assert_eq!(rate_limit_scope(""), "");
}
