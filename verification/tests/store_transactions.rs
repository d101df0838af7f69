use sagiton::domain::{DirectThreadSummary, FriendRequestRecord, FriendSummary, SessionContext, SessionRotate};
use sagiton::error::{AppError, AppResult};
use sagiton::store::conversation::{
    answer_direct_thread_request, check_anchor, check_last_read, create_or_get_direct_thread,
    join_group_via_invite, sort_pair, ConversationStoreCall, ConversationStoreReply,
    DirectThreadState, GroupInviteRow, RequestAnswer,
};
use sagiton::store::friendship::{
    accept_friend_request, create_friend_request, FriendshipStoreCall, FriendshipStoreReply,
};
use sagiton::store::guild::{
    join_guild_via_invite, resolve_channel_permissions, GuildInviteRow, GuildStoreCall,
    GuildStoreReply,
};
use sagiton::store::session::{rotate_refresh_session, SessionStoreCall, SessionStoreReply};
use sagiton::use_cases::flow::Step;

const NOW: i128 = 1_000;

fn invite(expires_at: i128, max_uses: Option<i32>, uses: i32, revoked: bool) -> GuildInviteRow {
    GuildInviteRow {
        guild_id: 50,
        guild_name: "g".to_string(),
        guild_owner_id: 1,
        guild_created_at: 0,
        expires_at,
        max_uses,
        uses_count: uses,
        revoked_at: if revoked { Some(1) } else { None },
    }
}

#[test]
fn guild_invite_lookup_and_refusals() {
    let mut r: Vec<AppResult<GuildStoreReply>> = Vec::new();
    assert!(matches!(
        join_guild_via_invite("tok", 7, NOW, &mut r),
        Step::Call(GuildStoreCall::FindInviteForUpdate { token }) if token == "tok"
    ));
    let mut none = vec![Ok(GuildStoreReply::MaybeInvite(None))];
    assert!(matches!(
        join_guild_via_invite("tok", 7, NOW, &mut none),
        Step::Done(Err(AppError::NotFound(m))) if m == "invite not found"
    ));
    let mut revoked = vec![Ok(GuildStoreReply::MaybeInvite(Some(invite(5_000, None, 0, true))))];
    assert!(matches!(
        join_guild_via_invite("tok", 7, NOW, &mut revoked),
        Step::Done(Err(AppError::NotFound(m))) if m == "invite not found"
    ));
    let mut expired = vec![Ok(GuildStoreReply::MaybeInvite(Some(invite(999, None, 0, false)))), Ok(GuildStoreReply::Flag(false))];
    assert!(matches!(
        join_guild_via_invite("tok", 7, NOW, &mut expired),
        Step::Done(Err(AppError::Validation(m))) if m == "invite token is expired"
    ));
    let mut used_up = vec![Ok(GuildStoreReply::MaybeInvite(Some(invite(5_000, Some(2), 2, false)))), Ok(GuildStoreReply::Flag(false))];
    assert!(matches!(
        join_guild_via_invite("tok", 7, NOW, &mut used_up),
        Step::Done(Err(AppError::Validation(m))) if m == "invite token usage limit exceeded"
    ));
}

#[test]
fn a_member_joining_again_is_not_counted() {
    // even an expired invite answers a member with the guild
    let mut replies = vec![
        Ok(GuildStoreReply::MaybeInvite(Some(invite(999, None, 0, false)))),
        Ok(GuildStoreReply::Flag(true)),
    ];
    assert!(matches!(join_guild_via_invite("tok", 7, NOW, &mut replies), Step::Call(GuildStoreCall::Commit)));
    let mut replies = vec![
        Ok(GuildStoreReply::MaybeInvite(Some(invite(999, None, 0, false)))),
        Ok(GuildStoreReply::Flag(true)),
        Ok(GuildStoreReply::Done),
    ];
    match join_guild_via_invite("tok", 7, NOW, &mut replies) {
        Step::Done(Ok(r)) => {
            assert!(!r.joined);
            assert_eq!((r.guild.id, r.guild.name.as_str()), (50, "g"));
        }
        other => panic!("unexpected {other:?}"),
    }
}

#[test]
fn a_new_member_gets_the_default_role_and_uses_the_invite() {
    let base = vec![
        Ok(GuildStoreReply::MaybeInvite(Some(invite(5_000, Some(3), 1, false)))),
        Ok(GuildStoreReply::Flag(false)),
    ];
    let mut r = base;
    assert!(matches!(
        join_guild_via_invite("tok", 7, NOW, &mut r),
        Step::Call(GuildStoreCall::InsertMemberIfAbsent { guild_id: 50, user_id: 7 })
    ));
    let full = |n: usize| -> Vec<AppResult<GuildStoreReply>> {
        let all = vec![
            Ok(GuildStoreReply::MaybeInvite(Some(invite(5_000, Some(3), 1, false)))),
            Ok(GuildStoreReply::Flag(false)),
            Ok(GuildStoreReply::Inserted(true)),
            Ok(GuildStoreReply::RoleId(33)),
            Ok(GuildStoreReply::Done),
            Ok(GuildStoreReply::Done),
            Ok(GuildStoreReply::Done),
        ];
        all.into_iter().take(n).collect()
    };
    assert!(matches!(join_guild_via_invite("tok", 7, NOW, &mut full(3)), Step::Call(GuildStoreCall::DefaultRoleId { guild_id: 50 })));
    assert!(matches!(
        join_guild_via_invite("tok", 7, NOW, &mut full(4)),
        Step::Call(GuildStoreCall::AttachRole { guild_id: 50, user_id: 7, role_id: 33 })
    ));
    assert!(matches!(
        join_guild_via_invite("tok", 7, NOW, &mut full(5)),
        Step::Call(GuildStoreCall::IncrementInviteUses { token }) if token == "tok"
    ));
    assert!(matches!(join_guild_via_invite("tok", 7, NOW, &mut full(6)), Step::Call(GuildStoreCall::Commit)));
    assert!(matches!(join_guild_via_invite("tok", 7, NOW, &mut full(7)), Step::Done(Ok(r)) if r.joined));
}

#[test]
fn channel_permissions_fold_overrides() {
    let mut r: Vec<AppResult<GuildStoreReply>> = vec![Ok(GuildStoreReply::MaybeGuildId(None))];
    assert!(matches!(resolve_channel_permissions(1, 2, &mut r), Step::Done(Ok(None))));
    let mut r = vec![
        Ok(GuildStoreReply::MaybeGuildId(Some(50))),
        Ok(GuildStoreReply::Bits(3)),
        Ok(GuildStoreReply::Bits(2)),
        Ok(GuildStoreReply::Bits(4)),
        Ok(GuildStoreReply::Bits(1)),
        Ok(GuildStoreReply::Bits(16)),
    ];
    // ((3 & !2) | 4) & !1 | 16 == 20
    assert!(matches!(resolve_channel_permissions(1, 2, &mut r), Step::Done(Ok(Some(20)))));
    let mut r = vec![Ok(GuildStoreReply::MaybeGuildId(Some(50))), Ok(GuildStoreReply::Bits(3))];
    assert!(matches!(
        resolve_channel_permissions(1, 2, &mut r),
        Step::Call(GuildStoreCall::RoleDeny { guild_id: 50, user_id: 1, channel_id: 2 })
    ));
}

fn summary() -> DirectThreadSummary {
    DirectThreadSummary {
        id: 70,
        peer_user_id: 2,
        peer_username: "bob".to_string(),
        status: "ACTIVE".to_string(),
        requested_by: None,
        accepted_at: Some(5),
        created_at: 0,
        has_unread: false,
    }
}

#[test]
fn direct_threads_between_friends_start_active() {
    assert_eq!(sort_pair(9, 3), (3, 9));
    assert_eq!(sort_pair(3, 9), (3, 9));
    let mut r: Vec<AppResult<ConversationStoreReply>> = Vec::new();
    assert!(matches!(
        create_or_get_direct_thread(9, 3, &mut r),
        Step::Call(ConversationStoreCall::AreFriends { user_id_a: 3, user_id_b: 9 })
    ));
    let mut friends = vec![Ok(ConversationStoreReply::Flag(true))];
    match create_or_get_direct_thread(9, 3, &mut friends) {
        Step::Call(ConversationStoreCall::InsertDirectThread { user_id_a, user_id_b, status, requested_by, accepted_at, .. }) => {
            assert_eq!((user_id_a, user_id_b, status.as_str(), requested_by), (3, 9, "ACTIVE", None));
            assert!(accepted_at.is_some());
        }
        other => panic!("unexpected {other:?}"),
    }
    let mut strangers = vec![Ok(ConversationStoreReply::Flag(false))];
    match create_or_get_direct_thread(9, 3, &mut strangers) {
        Step::Call(ConversationStoreCall::InsertDirectThread { status, requested_by, accepted_at, .. }) => {
            assert_eq!((status.as_str(), requested_by, accepted_at), ("PENDING", Some(9), None));
        }
        other => panic!("unexpected {other:?}"),
    }
    let mut existing = vec![
        Ok(ConversationStoreReply::Flag(false)),
        Ok(ConversationStoreReply::MaybeId(None)),
        Ok(ConversationStoreReply::Id(70)),
        Ok(ConversationStoreReply::Done),
        Ok(ConversationStoreReply::Summary(summary())),
        Ok(ConversationStoreReply::Done),
    ];
    match create_or_get_direct_thread(9, 3, &mut existing) {
        Step::Done(Ok(r)) => {
            assert!(!r.created);
            assert_eq!(r.thread, summary());
        }
        other => panic!("unexpected {other:?}"),
    }
}

fn state(status: &str, requested_by: Option<u128>) -> DirectThreadState {
    DirectThreadState { id: 70, direct_status: status.to_string(), requested_by }
}

#[test]
fn answering_direct_thread_requests() {
    let mut none = vec![Ok(ConversationStoreReply::MaybeState(None))];
    assert!(matches!(answer_direct_thread_request(70, 2, RequestAnswer::Accept, &mut none), Step::Done(Ok(None))));
    let mut active = vec![Ok(ConversationStoreReply::MaybeState(Some(state("ACTIVE", None))))];
    assert!(matches!(
        answer_direct_thread_request(70, 2, RequestAnswer::Accept, &mut active),
        Step::Done(Err(AppError::Validation(m))) if m == "direct thread is already active"
    ));
    let mut active = vec![Ok(ConversationStoreReply::MaybeState(Some(state("ACTIVE", None))))];
    assert!(matches!(
        answer_direct_thread_request(70, 2, RequestAnswer::Reject, &mut active),
        Step::Done(Err(AppError::Validation(m))) if m == "only pending direct thread can be rejected"
    ));
    let mut orphan = vec![Ok(ConversationStoreReply::MaybeState(Some(state("PENDING", None))))];
    assert!(matches!(
        answer_direct_thread_request(70, 2, RequestAnswer::Accept, &mut orphan),
        Step::Done(Err(AppError::Internal(m))) if m == "pending direct thread missing requester"
    ));
    let mut own = vec![Ok(ConversationStoreReply::MaybeState(Some(state("PENDING", Some(2)))))];
    assert!(matches!(
        answer_direct_thread_request(70, 2, RequestAnswer::Accept, &mut own),
        Step::Done(Err(AppError::Validation(m))) if m == "requester cannot accept own direct thread"
    ));
    let mut accepted = vec![
        Ok(ConversationStoreReply::MaybeState(Some(state("PENDING", Some(1))))),
        Ok(ConversationStoreReply::Instant(55)),
        Ok(ConversationStoreReply::Done),
    ];
    match answer_direct_thread_request(70, 2, RequestAnswer::Accept, &mut accepted) {
        Step::Done(Ok(Some(t))) => assert_eq!((t.requester_user_id, t.receiver_user_id, t.accepted_at), (1, 2, Some(55))),
        other => panic!("unexpected {other:?}"),
    }
    let mut rejected = vec![Ok(ConversationStoreReply::MaybeState(Some(state("PENDING", Some(1)))))];
    assert!(matches!(
        answer_direct_thread_request(70, 2, RequestAnswer::Reject, &mut rejected),
        Step::Call(ConversationStoreCall::DeleteThread { thread_id: 70 })
    ));
}

fn group_invite(expires_at: i128, max_uses: Option<i32>, used: i32) -> GroupInviteRow {
    GroupInviteRow { thread_id: 80, name: "team".to_string(), owner_id: 1, thread_created_at: 0, expires_at, max_uses, used_count: used, revoked_at: None }
}

#[test]
fn group_invites() {
    let mut expired = vec![Ok(ConversationStoreReply::MaybeGroupInvite(Some(group_invite(999, None, 0))))];
    assert!(matches!(
        join_group_via_invite("t", 7, NOW, &mut expired),
        Step::Done(Err(AppError::Validation(m))) if m == "invite token is expired"
    ));
    let mut full = vec![Ok(ConversationStoreReply::MaybeGroupInvite(Some(group_invite(5_000, Some(1), 1))))];
    assert!(matches!(
        join_group_via_invite("t", 7, NOW, &mut full),
        Step::Done(Err(AppError::Validation(m))) if m == "invite token usage limit exceeded"
    ));
    let mut joined = vec![
        Ok(ConversationStoreReply::MaybeGroupInvite(Some(group_invite(5_000, None, 0)))),
        Ok(ConversationStoreReply::Inserted(true)),
        Ok(ConversationStoreReply::Done),
        Ok(ConversationStoreReply::Done),
    ];
    match join_group_via_invite("t", 7, NOW, &mut joined) {
        Step::Done(Ok(g)) => assert_eq!((g.id, g.name.as_str(), g.has_unread), (80, "team", false)),
        other => panic!("unexpected {other:?}"),
    }
}

#[test]
fn cursors_and_read_markers() {
    assert_eq!(check_anchor(None, None), Ok(None));
    assert_eq!(check_anchor(Some(4), Some((10, 4))), Ok(Some((10, 4))));
    assert_eq!(check_anchor(Some(4), None), Err(AppError::Validation("invalid before cursor".to_string())));
    assert_eq!(check_last_read(None, None, Some(9)), Ok(Some(9)));
    assert_eq!(check_last_read(Some(4), Some(4), None), Ok(Some(4)));
    assert_eq!(check_last_read(Some(4), None, Some(9)), Err(AppError::Validation("invalid last_read_message_id".to_string())));
}

#[test]
fn friend_request_conflicts() {
    let mut friends = vec![Ok(FriendshipStoreReply::Flag(true))];
    assert!(matches!(
        create_friend_request(1, 2, &mut friends),
        Step::Done(Err(AppError::Conflict(m))) if m == "users are already friends"
    ));
    let mut incoming = vec![Ok(FriendshipStoreReply::Flag(false)), Ok(FriendshipStoreReply::Flag(true))];
    assert!(matches!(
        create_friend_request(1, 2, &mut incoming),
        Step::Done(Err(AppError::Conflict(m))) if m == "incoming friend request already exists from this user"
    ));
    let mut pending = vec![Ok(FriendshipStoreReply::Flag(false)), Ok(FriendshipStoreReply::Flag(false)), Ok(FriendshipStoreReply::MaybeRequest(None))];
    assert!(matches!(
        create_friend_request(1, 2, &mut pending),
        Step::Done(Err(AppError::Conflict(m))) if m == "friend request is already pending"
    ));
    let stored = FriendRequestRecord { from_user_id: 1, to_user_id: 2, status: "PENDING".to_string(), created_at: 0, responded_at: None };
    let mut sent = vec![Ok(FriendshipStoreReply::Flag(false)), Ok(FriendshipStoreReply::Flag(false)), Ok(FriendshipStoreReply::MaybeRequest(Some(stored.clone())))];
    assert!(matches!(create_friend_request(1, 2, &mut sent), Step::Done(Ok(r)) if r == stored));
}

#[test]
fn accepting_friend_requests() {
    let mut rejected = vec![Ok(FriendshipStoreReply::MaybeStatus(Some("REJECTED".to_string())))];
    assert!(matches!(
        accept_friend_request(1, 2, &mut rejected),
        Step::Done(Err(AppError::Validation(m))) if m == "friend request is already rejected"
    ));
    let mut pending = vec![Ok(FriendshipStoreReply::MaybeStatus(Some("PENDING".to_string())))];
    assert!(matches!(
        accept_friend_request(1, 2, &mut pending),
        Step::Call(FriendshipStoreCall::MarkRequestAccepted { from_user_id: 1, to_user_id: 2 })
    ));
    let mut accepted = vec![Ok(FriendshipStoreReply::MaybeStatus(Some("ACCEPTED".to_string())))];
    assert!(matches!(
        accept_friend_request(2, 1, &mut accepted),
        Step::Call(FriendshipStoreCall::InsertFriendship { user_id_a: 1, user_id_b: 2 })
    ));
    let friend = FriendSummary { user_id: 1, username: "a".to_string(), created_at: 0 };
    let mut done = vec![
        Ok(FriendshipStoreReply::MaybeStatus(Some("PENDING".to_string()))),
        Ok(FriendshipStoreReply::Done),
        Ok(FriendshipStoreReply::Done),
        Ok(FriendshipStoreReply::Done),
        Ok(FriendshipStoreReply::Friend(friend.clone())),
        Ok(FriendshipStoreReply::Done),
    ];
    assert!(matches!(accept_friend_request(1, 2, &mut done), Step::Done(Ok(Some(f))) if f == friend));
}

fn rotation() -> SessionRotate {
    SessionRotate {
        old_refresh_token_hash: "old-hash".to_string(),
        new_refresh_token_hash: "new-hash".to_string(),
        expires_at: 77,
        context: SessionContext { user_agent: Some("agent".to_string()), ip: None },
    }
}

#[test]
fn rotation_revokes_then_stores_the_new_session() {
    let payload = rotation();
    let mut replies: Vec<AppResult<SessionStoreReply>> = Vec::new();
    assert!(matches!(
        rotate_refresh_session(&payload, &mut replies),
        Step::Call(SessionStoreCall::RevokeLiveSession { ref refresh_token_hash }) if refresh_token_hash == "old-hash"
    ));
    replies.push(Ok(SessionStoreReply::MaybeUserId(Some(9))));
    match rotate_refresh_session(&payload, &mut replies) {
        Step::Call(SessionStoreCall::InsertSession(s)) => {
            assert_eq!(s.user_id, 9);
            assert_eq!(s.refresh_token_hash, "new-hash");
            assert_eq!(s.expires_at, 77);
            assert_eq!(s.context, payload.context);
        }
        other => panic!("unexpected step {other:?}"),
    }
    replies.push(Ok(SessionStoreReply::Done));
    assert!(matches!(rotate_refresh_session(&payload, &mut replies), Step::Call(SessionStoreCall::Commit)));
    replies.push(Ok(SessionStoreReply::Done));
    assert!(matches!(rotate_refresh_session(&payload, &mut replies), Step::Done(Ok(9))));
}

#[test]
fn rotating_a_revoked_token_is_refused() {
    let payload = rotation();
    let mut replies: Vec<AppResult<SessionStoreReply>> = vec![Ok(SessionStoreReply::MaybeUserId(None))];
    assert!(matches!(
        rotate_refresh_session(&payload, &mut replies),
        Step::Done(Err(AppError::Unauthorized(ref m))) if m == "invalid refresh token"
    ));
}
