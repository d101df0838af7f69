use sagiton::domain::{
    ChannelReadState, DirectThreadSummary, DirectThreadUpsertResult, GuildSummary, MessageRecord,
    ThreadAccessRecord, ThreadMessageRecord,
};
use sagiton::error::{AppError, AppResult};
use sagiton::permission::PermissionBits;
use sagiton::use_cases::conversation::{
    AddGroupMemberCommand, ConversationCall, ConversationReply, ConversationUseCase,
    CreateDirectThreadCommand, CreateGroupInviteCommand, CreateGroupThreadCommand,
    CreateThreadMessageCommand, DeleteThreadMessageCommand, DirectInboxFilter,
    LeaveGroupCommand,
};
use sagiton::use_cases::flow::Step;
use sagiton::use_cases::friendship::{
    CreateFriendRequestCommand, FriendRequestInboxFilter, FriendshipCall, FriendshipReply,
    FriendshipUseCase, RespondFriendRequestCommand,
};
use sagiton::use_cases::guild_channel::{
    CreateChannelCommand, CreateGuildCommand, CreateGuildInviteCommand, GuildCall,
    GuildChannelUseCase, GuildReply, JoinGuildInviteCommand, LeaveGuildCommand,
};
use sagiton::use_cases::message::{
    CreateMessageCommand, DeleteMessageCommand, EditMessageCommand, ListMessagesQuery,
    MarkChannelReadCommand, MessageCall, MessageReply, MessageUseCase,
};

fn message(id: u128, channel_id: u128, author_id: u128, deleted_at: Option<i128>) -> MessageRecord {
    MessageRecord {
        id,
        channel_id,
        author_id,
        content: "hi".to_string(),
        created_at: 0,
        edited_at: None,
        deleted_at,
    }
}

fn no_replies<R>() -> Vec<AppResult<R>> {
    Vec::new()
}

#[test]
fn create_message_checks_permission_then_stores_trimmed_content() {
    let uc = MessageUseCase::new();
    let cmd = CreateMessageCommand { user_id: 1, channel_id: 2, content: "  hello  ".to_string() };
    let mut replies = no_replies::<MessageReply>();
    assert!(matches!(
        uc.create_message(&cmd, &mut replies),
        Step::Call(MessageCall::ResolveChannelPermissions { user_id: 1, channel_id: 2 })
    ));
    let mut replies = vec![Ok(MessageReply::Permissions(Some(3)))];
    match uc.create_message(&cmd, &mut replies) {
        Step::Call(MessageCall::CreateMessage { channel_id, author_id, content }) => {
            assert_eq!((channel_id, author_id, content.as_str()), (2, 1, "hello"));
        }
        other => panic!("unexpected {other:?}"),
    }
    let mut replies = vec![Ok(MessageReply::Permissions(Some(3))), Ok(MessageReply::Message(message(9, 2, 1, None)))];
    match uc.create_message(&cmd, &mut replies) {
        Step::Done(Ok(m)) => assert_eq!(m.id, 9),
        other => panic!("unexpected {other:?}"),
    }
}

#[test]
fn create_message_refusals() {
    let uc = MessageUseCase::new();
    let blank = CreateMessageCommand { user_id: 1, channel_id: 2, content: "   ".to_string() };
    assert!(matches!(
        uc.create_message(&blank, &mut no_replies()),
        Step::Done(Err(AppError::Validation(m))) if m == "message content is required"
    ));
    let cmd = CreateMessageCommand { user_id: 1, channel_id: 2, content: "x".to_string() };
    let mut view_only = vec![Ok(MessageReply::Permissions(Some(1)))];
    assert!(matches!(
        uc.create_message(&cmd, &mut view_only),
        Step::Done(Err(AppError::Forbidden(m))) if m == "missing SEND_MESSAGES permission"
    ));
    let mut hidden = vec![Ok(MessageReply::Permissions(None))];
    assert!(matches!(
        uc.create_message(&cmd, &mut hidden),
        Step::Done(Err(AppError::NotFound(m))) if m == "channel not found"
    ));
    let mut failed: Vec<AppResult<MessageReply>> = vec![Err(AppError::internal("database error: down"))];
    assert!(matches!(
        uc.create_message(&cmd, &mut failed),
        Step::Done(Err(AppError::Internal(m))) if m == "database error: down"
    ));
    let mut wrong = vec![Ok(MessageReply::Messages(vec![]))];
    assert!(matches!(
        uc.create_message(&cmd, &mut wrong),
        Step::Done(Err(AppError::Internal(m))) if m == "unexpected repository reply"
    ));
}

#[test]
fn list_messages_normalizes_the_limit() {
    let uc = MessageUseCase::new();
    let q = ListMessagesQuery { user_id: 1, channel_id: 2, before: Some(8), limit: Some(500) };
    let mut replies = vec![Ok(MessageReply::Permissions(Some(1)))];
    assert!(matches!(
        uc.list_messages(&q, &mut replies),
        Step::Call(MessageCall::ListMessages { channel_id: 2, before_message_id: Some(8), limit: 100 })
    ));
    let bad = ListMessagesQuery { user_id: 1, channel_id: 2, before: None, limit: Some(0) };
    let mut replies = vec![Ok(MessageReply::Permissions(Some(1)))];
    assert!(matches!(
        uc.list_messages(&bad, &mut replies),
        Step::Done(Err(AppError::Validation(m))) if m == "limit must be positive"
    ));
    let mut denied = vec![Ok(MessageReply::Permissions(Some(2)))];
    assert!(matches!(
        uc.list_messages(&q, &mut denied),
        Step::Done(Err(AppError::Forbidden(m))) if m == "missing VIEW_CHANNEL permission"
    ));
}

#[test]
fn only_the_author_edits_or_deletes() {
    let uc = MessageUseCase::new();
    let edit = EditMessageCommand { user_id: 1, message_id: 9, content: "new".to_string() };
    let mut replies = vec![Ok(MessageReply::MaybeMessage(Some(message(9, 2, 5, None)))), Ok(MessageReply::Permissions(Some(3)))];
    assert!(matches!(
        uc.edit_message(&edit, &mut replies),
        Step::Done(Err(AppError::Forbidden(m))) if m == "only message author can edit message"
    ));
    let delete = DeleteMessageCommand { user_id: 1, message_id: 9 };
    let mut replies = vec![Ok(MessageReply::MaybeMessage(Some(message(9, 2, 5, None)))), Ok(MessageReply::Permissions(Some(3)))];
    assert!(matches!(
        uc.delete_message(&delete, &mut replies),
        Step::Done(Err(AppError::Forbidden(m))) if m == "only message author can delete message"
    ));
    let mut gone = vec![Ok(MessageReply::MaybeMessage(Some(message(9, 2, 1, Some(5)))))];
    assert!(matches!(
        uc.delete_message(&delete, &mut gone),
        Step::Done(Err(AppError::NotFound(m))) if m == "message not found"
    ));
}

#[test]
fn delete_reports_when_it_happened() {
    let uc = MessageUseCase::new();
    let delete = DeleteMessageCommand { user_id: 1, message_id: 9 };
    let mut replies = vec![
        Ok(MessageReply::MaybeMessage(Some(message(9, 2, 1, None)))),
        Ok(MessageReply::Permissions(Some(3))),
        Ok(MessageReply::MaybeMessage(Some(message(9, 2, 1, Some(77))))),
    ];
    match uc.delete_message(&delete, &mut replies) {
        Step::Done(Ok(d)) => assert_eq!((d.channel_id, d.message_id, d.deleted_at), (2, 9, 77)),
        other => panic!("unexpected {other:?}"),
    }
    let mut missing_time = vec![
        Ok(MessageReply::MaybeMessage(Some(message(9, 2, 1, None)))),
        Ok(MessageReply::Permissions(Some(3))),
        Ok(MessageReply::MaybeMessage(Some(message(9, 2, 1, None)))),
    ];
    assert!(matches!(
        uc.delete_message(&delete, &mut missing_time),
        Step::Done(Err(AppError::Internal(m))) if m == "deleted_at is missing after soft delete"
    ));
}

#[test]
fn channel_permissions_and_read_marker() {
    let uc = MessageUseCase::new();
    let mut replies = vec![Ok(MessageReply::Permissions(Some(7)))];
    assert!(matches!(uc.channel_permissions(1, 2, &mut replies), Step::Done(Ok(PermissionBits(7)))));
    let cmd = MarkChannelReadCommand { user_id: 1, channel_id: 2, last_read_message_id: Some(4) };
    let mut replies = vec![Ok(MessageReply::Permissions(Some(1)))];
    assert!(matches!(
        uc.mark_channel_read(&cmd, &mut replies),
        Step::Call(MessageCall::MarkChannelRead { channel_id: 2, user_id: 1, last_read_message_id: Some(4) })
    ));
    let state = ChannelReadState { user_id: 1, channel_id: 2, last_read_message_id: Some(4), updated_at: 3 };
    let mut replies = vec![Ok(MessageReply::Permissions(Some(1))), Ok(MessageReply::ReadState(state.clone()))];
    assert!(matches!(uc.mark_channel_read(&cmd, &mut replies), Step::Done(Ok(s)) if s == state));
}

fn guild() -> GuildSummary {
    GuildSummary { id: 50, name: "g".to_string(), owner_id: 1, created_at: 0 }
}

#[test]
fn guild_creation_and_channels() {
    let uc = GuildChannelUseCase::new();
    let short = CreateGuildCommand { user_id: 1, name: "a".to_string() };
    assert!(matches!(
        uc.create_guild(&short, &mut no_replies()),
        Step::Done(Err(AppError::Validation(m))) if m == "guild name must be at least 2 characters"
    ));
    let ok = CreateGuildCommand { user_id: 1, name: " Guild ".to_string() };
    assert!(matches!(
        uc.create_guild(&ok, &mut no_replies()),
        Step::Call(GuildCall::CreateGuild { owner_id: 1, name }) if name == "Guild"
    ));
    let ch = CreateChannelCommand { user_id: 1, guild_id: 50, name: "general".to_string() };
    let mut not_member = vec![Ok(GuildReply::MaybeGuild(None))];
    assert!(matches!(
        uc.create_channel(&ch, &mut not_member),
        Step::Done(Err(AppError::NotFound(m))) if m == "guild not found"
    ));
    let mut member = vec![Ok(GuildReply::MaybeGuild(Some(guild())))];
    assert!(matches!(
        uc.create_channel(&ch, &mut member),
        Step::Call(GuildCall::CreateChannel { guild_id: 50, name }) if name == "general"
    ));
}

#[test]
fn guild_owner_cannot_leave() {
    let uc = GuildChannelUseCase::new();
    let cmd = LeaveGuildCommand { user_id: 1, guild_id: 50 };
    let mut owner = vec![Ok(GuildReply::Flag(true))];
    assert!(matches!(
        uc.leave_guild(&cmd, &mut owner),
        Step::Done(Err(AppError::Validation(m))) if m == "guild owner cannot leave their own guild"
    ));
    let mut not_member = vec![Ok(GuildReply::Flag(false)), Ok(GuildReply::Flag(false))];
    assert!(matches!(
        uc.leave_guild(&cmd, &mut not_member),
        Step::Done(Err(AppError::NotFound(m))) if m == "guild membership not found"
    ));
    let mut left = vec![Ok(GuildReply::Flag(false)), Ok(GuildReply::Flag(true))];
    assert!(matches!(uc.leave_guild(&cmd, &mut left), Step::Done(Ok(()))));
}

#[test]
fn guild_invites_expire_in_the_requested_lifetime() {
    let uc = GuildChannelUseCase::new();
    let cmd = CreateGuildInviteCommand { actor_user_id: 1, guild_id: 50, expires_in_seconds: Some(10), max_uses: Some(3) };
    let mut member = vec![Ok(GuildReply::MaybeGuild(Some(guild())))];
    match uc.create_guild_invite_at(&cmd, 1_000_000_000, "tok".to_string(), &mut member) {
        Step::Call(GuildCall::CreateGuildInvite { guild_id, created_by, token, expires_at, max_uses }) => {
            assert_eq!((guild_id, created_by, token.as_str(), max_uses), (50, 1, "tok", Some(3)));
            // ten seconds are raised to the one minute minimum
            assert_eq!(expires_at, 61_000_000_000);
        }
        other => panic!("unexpected {other:?}"),
    }
    let bad = CreateGuildInviteCommand { actor_user_id: 1, guild_id: 50, expires_in_seconds: None, max_uses: Some(0) };
    let mut member = vec![Ok(GuildReply::MaybeGuild(Some(guild())))];
    assert!(matches!(
        uc.create_guild_invite(&bad, &mut member),
        Step::Done(Err(AppError::Validation(m))) if m == "max_uses must be positive"
    ));
    let mut member = vec![Ok(GuildReply::MaybeGuild(Some(guild())))];
    match uc.create_guild_invite(&cmd, &mut member) {
        Step::Call(GuildCall::CreateGuildInvite { token, .. }) => {
            assert_eq!(token.len(), 32);
            assert!(token.chars().all(|c| c.is_ascii_hexdigit() && !c.is_ascii_uppercase()));
        }
        other => panic!("unexpected {other:?}"),
    }
}

#[test]
fn joining_by_invite_needs_a_token() {
    let uc = GuildChannelUseCase::new();
    let blank = JoinGuildInviteCommand { user_id: 1, token: "  ".to_string() };
    assert!(matches!(
        uc.join_guild_invite(&blank, &mut no_replies()),
        Step::Done(Err(AppError::Validation(m))) if m == "invite token is required"
    ));
    let cmd = JoinGuildInviteCommand { user_id: 1, token: " abc ".to_string() };
    assert!(matches!(
        uc.join_guild_invite(&cmd, &mut no_replies()),
        Step::Call(GuildCall::JoinGuildViaInvite { token, user_id: 1 }) if token == "abc"
    ));
}

fn direct(status: &str, requested_by: Option<u128>) -> DirectThreadSummary {
    DirectThreadSummary {
        id: 70,
        peer_user_id: 2,
        peer_username: "bob".to_string(),
        status: status.to_string(),
        requested_by,
        accepted_at: None,
        created_at: 0,
        has_unread: false,
    }
}

#[test]
fn direct_threads() {
    let uc = ConversationUseCase::new();
    let me = CreateDirectThreadCommand { user_id: 1, peer_user_id: 1 };
    assert!(matches!(
        uc.create_direct_thread(&me, &mut no_replies()),
        Step::Done(Err(AppError::Validation(m))) if m == "cannot create direct thread with yourself"
    ));
    let cmd = CreateDirectThreadCommand { user_id: 1, peer_user_id: 2 };
    assert!(matches!(
        uc.create_direct_thread(&cmd, &mut no_replies()),
        Step::Call(ConversationCall::CreateOrGetDirectThread { user_id: 1, peer_user_id: 2 })
    ));
    let upsert = DirectThreadUpsertResult { thread: direct("PENDING", Some(1)), created: true };
    let mut replies = vec![Ok(ConversationReply::Upserted(upsert.clone()))];
    assert!(matches!(uc.create_direct_thread(&cmd, &mut replies), Step::Done(Ok(u)) if u == upsert));
    assert!(matches!(
        uc.list_direct_threads(1, DirectInboxFilter::Pending, &mut no_replies()),
        Step::Call(ConversationCall::ListPendingDirectInbox { receiver_user_id: 1 })
    ));
    let mut none = vec![Ok(ConversationReply::MaybeDirectThread(None))];
    assert!(matches!(
        uc.get_direct_thread(70, 1, &mut none),
        Step::Done(Err(AppError::NotFound(m))) if m == "direct thread not found"
    ));
}

#[test]
fn group_threads() {
    let uc = ConversationUseCase::new();
    let cmd = CreateGroupThreadCommand { owner_id: 1, name: " Team ".to_string(), member_user_ids: vec![3, 1, 2, 3] };
    match uc.create_group_thread(cmd, &mut no_replies()) {
        Step::Call(ConversationCall::CreateGroupThread { owner_id, name, member_user_ids }) => {
            assert_eq!((owner_id, name.as_str(), member_user_ids), (1, "Team", vec![2, 3]));
        }
        other => panic!("unexpected {other:?}"),
    }
    let add = AddGroupMemberCommand { actor_user_id: 2, thread_id: 80, user_id: 3 };
    let mut not_owner = vec![Ok(ConversationReply::Flag(false))];
    assert!(matches!(
        uc.add_group_member(&add, &mut not_owner),
        Step::Done(Err(AppError::Forbidden(m))) if m == "only group owner can add members"
    ));
    let leave = LeaveGroupCommand { user_id: 1, thread_id: 80 };
    let mut owner = vec![Ok(ConversationReply::Flag(true))];
    assert!(matches!(
        uc.leave_group(&leave, &mut owner),
        Step::Done(Err(AppError::Validation(m))) if m == "group owner cannot leave group"
    ));
    let invite = CreateGroupInviteCommand { actor_user_id: 2, thread_id: 80, expires_in_seconds: None, max_uses: None };
    let mut not_found = vec![Ok(ConversationReply::MaybeGroupThread(None))];
    assert!(matches!(
        uc.create_group_invite(&invite, &mut not_found),
        Step::Done(Err(AppError::NotFound(m))) if m == "group thread not found"
    ));
}

#[test]
fn pending_direct_thread_blocks_the_receiver() {
    let uc = ConversationUseCase::new();
    let access = ThreadAccessRecord { thread_id: 70, kind: "DIRECT".to_string(), direct_status: "PENDING".to_string(), requested_by: Some(1) };
    let receiver = CreateThreadMessageCommand { user_id: 2, thread_id: 70, content: "hi".to_string() };
    let mut replies = vec![Ok(ConversationReply::MaybeAccess(Some(access.clone())))];
    assert!(matches!(
        uc.create_thread_message(&receiver, &mut replies),
        Step::Done(Err(AppError::Forbidden(m))) if m == "direct thread request must be accepted before receiver can send messages"
    ));
    let requester = CreateThreadMessageCommand { user_id: 1, thread_id: 70, content: " hi ".to_string() };
    let mut replies = vec![Ok(ConversationReply::MaybeAccess(Some(access)))];
    assert!(matches!(
        uc.create_thread_message(&requester, &mut replies),
        Step::Call(ConversationCall::CreateThreadMessage { thread_id: 70, author_id: 1, content }) if content == "hi"
    ));
    let mut outsider = vec![Ok(ConversationReply::MaybeAccess(None))];
    assert!(matches!(
        uc.create_thread_message(&receiver, &mut outsider),
        Step::Done(Err(AppError::NotFound(m))) if m == "thread not found"
    ));
}

#[test]
fn thread_message_deletion_needs_membership_and_authorship() {
    let uc = ConversationUseCase::new();
    let record = ThreadMessageRecord { id: 5, thread_id: 70, author_id: 1, content: "x".to_string(), created_at: 0, edited_at: None, deleted_at: None };
    let cmd = DeleteThreadMessageCommand { user_id: 1, message_id: 5 };
    let mut not_member = vec![Ok(ConversationReply::MaybeThreadMessage(Some(record.clone()))), Ok(ConversationReply::Flag(false))];
    assert!(matches!(
        uc.delete_thread_message(&cmd, &mut not_member),
        Step::Done(Err(AppError::NotFound(m))) if m == "thread not found"
    ));
    let other = DeleteThreadMessageCommand { user_id: 2, message_id: 5 };
    let mut member = vec![Ok(ConversationReply::MaybeThreadMessage(Some(record.clone()))), Ok(ConversationReply::Flag(true))];
    assert!(matches!(
        uc.delete_thread_message(&other, &mut member),
        Step::Done(Err(AppError::Forbidden(m))) if m == "only message author can delete thread message"
    ));
    let mut deleted = record.clone();
    deleted.deleted_at = Some(9);
    let mut replies = vec![
        Ok(ConversationReply::MaybeThreadMessage(Some(record))),
        Ok(ConversationReply::Flag(true)),
        Ok(ConversationReply::MaybeThreadMessage(Some(deleted))),
    ];
    match uc.delete_thread_message(&cmd, &mut replies) {
        Step::Done(Ok(d)) => assert_eq!((d.thread_id, d.message_id, d.deleted_at), (70, 5, 9)),
        other => panic!("unexpected {other:?}"),
    }
}

#[test]
fn friend_requests() {
    let uc = FriendshipUseCase::new();
    let me = CreateFriendRequestCommand { from_user_id: 1, to_user_id: 1 };
    assert!(matches!(
        uc.create_friend_request(&me, &mut no_replies()),
        Step::Done(Err(AppError::Validation(m))) if m == "cannot send friend request to yourself"
    ));
    let respond = RespondFriendRequestCommand { user_id: 2, from_user_id: 1 };
    assert!(matches!(
        uc.accept_friend_request(&respond, &mut no_replies()),
        Step::Call(FriendshipCall::AcceptFriendRequest { from_user_id: 1, to_user_id: 2 })
    ));
    let mut none = vec![Ok(FriendshipReply::MaybeFriend(None))];
    assert!(matches!(
        uc.accept_friend_request(&respond, &mut none),
        Step::Done(Err(AppError::NotFound(m))) if m == "friend request not found"
    ));
    let mut not_rejected = vec![Ok(FriendshipReply::Flag(false))];
    assert!(matches!(
        uc.reject_friend_request(&respond, &mut not_rejected),
        Step::Done(Err(AppError::NotFound(m))) if m == "friend request not found"
    ));
    assert!(matches!(
        uc.list_friend_requests(2, FriendRequestInboxFilter::Outbox, &mut no_replies()),
        Step::Call(FriendshipCall::ListPendingOutboxRequests { user_id: 2 })
    ));
}
