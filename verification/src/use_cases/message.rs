//! Channel messages: creating, listing, editing and deleting messages and
//! read markers, each gated by the member's channel permissions.
use vstd::prelude::*;
use crate::domain::{ChannelReadState, MessageDeleted, MessageRecord};
use crate::error::{AppError, AppResult, ErrorKind};
use crate::permission::{PermissionBits, SEND_MESSAGES, VIEW_CHANNEL};
use crate::text::{trim, trim_chars};
use crate::use_cases::flow::{fails, is_unexpected, relays, take_error, take_reply, unexpected_reply, Step};
use crate::validation::{content_problem, normalize_limit, spec_normalize_limit, validate_message_content};

verus! {

pub struct CreateMessageCommand {
    pub user_id: u128,
    pub channel_id: u128,
    pub content: String,
}

pub struct ListMessagesQuery {
    pub user_id: u128,
    pub channel_id: u128,
    pub before: Option<u128>,
    pub limit: Option<i64>,
}

pub struct EditMessageCommand {
    pub user_id: u128,
    pub message_id: u128,
    pub content: String,
}

pub struct DeleteMessageCommand {
    pub user_id: u128,
    pub message_id: u128,
}

pub struct MarkChannelReadCommand {
    pub user_id: u128,
    pub channel_id: u128,
    pub last_read_message_id: Option<u128>,
}

/// The calls that the message use case makes to its repositories.
#[derive(Debug)]
pub enum MessageCall {
    /// Effective permissions of a user in a channel; `None` when the user
    /// cannot see the channel at all.
    ResolveChannelPermissions { user_id: u128, channel_id: u128 },
    CreateMessage { channel_id: u128, author_id: u128, content: String },
    ListMessages { channel_id: u128, before_message_id: Option<u128>, limit: i64 },
    FindMessageById { message_id: u128 },
    UpdateMessageContent { message_id: u128, content: String },
    SoftDeleteMessage { message_id: u128 },
    MarkChannelRead { channel_id: u128, user_id: u128, last_read_message_id: Option<u128> },
}

/// The answers to `MessageCall`s.
#[derive(Debug)]
pub enum MessageReply {
    Permissions(Option<i64>),
    Message(MessageRecord),
    MaybeMessage(Option<MessageRecord>),
    Messages(Vec<MessageRecord>),
    ReadState(ChannelReadState),
}

pub type MessageStep<T> = Step<MessageCall, T>;

/// A permission reply grants every bit of `required`.
pub open spec fn grants(r: AppResult<MessageReply>, required: i64) -> bool {
    r matches Ok(MessageReply::Permissions(Some(bits))) && PermissionBits(bits).spec_has(required)
}

/// How a run ends on a permission reply that does not grant `required`:
/// with the repository's error, `channel not found` when the channel is not
/// visible, or a forbidden error with message `missing`.
pub open spec fn denied<T>(r: AppResult<MessageReply>, missing: Seq<char>, step: MessageStep<T>) -> bool {
    match r {
        Err(e) => step == Step::<MessageCall, T>::Done(Err(e)),
        Ok(MessageReply::Permissions(None)) => fails(step, ErrorKind::NotFound, "channel not found"@),
        Ok(MessageReply::Permissions(Some(_))) => fails(step, ErrorKind::Forbidden, missing),
        _ => is_unexpected(step),
    }
}

/// An existing message that is not deleted, as found by id.
pub open spec fn live_message(r: AppResult<MessageReply>) -> Option<MessageRecord> {
    match r {
        Ok(MessageReply::MaybeMessage(Some(m))) => if m.deleted_at is None {
            Some(m)
        } else {
            None
        },
        _ => None,
    }
}

/// How a run ends on a lookup reply that holds no live message.
pub open spec fn not_live<T>(r: AppResult<MessageReply>, step: MessageStep<T>) -> bool {
    match r {
        Err(e) => step == Step::<MessageCall, T>::Done(Err(e)),
        Ok(MessageReply::MaybeMessage(_)) => fails(step, ErrorKind::NotFound, "message not found"@),
        _ => is_unexpected(step),
    }
}

enum PermissionCheck {
    Granted,
    Missing,
    NoChannel,
    Failed,
    Unexpected,
}

fn check_permissions(reply: &AppResult<MessageReply>, required: i64) -> (c: PermissionCheck)
    ensures
        c is Granted <==> grants(*reply, required),
        c is Missing <==> (*reply matches Ok(MessageReply::Permissions(Some(b))) && !PermissionBits(
            b,
        ).spec_has(required)),
        c is NoChannel <==> (*reply matches Ok(MessageReply::Permissions(None))),
        c is Failed <==> (*reply) is Err,
{
    match reply {
        Ok(MessageReply::Permissions(Some(bits))) => {
            if PermissionBits(*bits).has(required) {
                PermissionCheck::Granted
            } else {
                PermissionCheck::Missing
            }
        },
        Ok(MessageReply::Permissions(None)) => PermissionCheck::NoChannel,
        Ok(_) => PermissionCheck::Unexpected,
        Err(_) => PermissionCheck::Failed,
    }
}

fn deny<T>(replies: &mut Vec<AppResult<MessageReply>>, k: usize, check: PermissionCheck, missing: &str) -> (step: MessageStep<T>)
    requires
        k < old(replies)@.len(),
        !(check is Granted),
        check is Missing <==> (old(replies)@[k as int] matches Ok(MessageReply::Permissions(Some(b)))),
        check is NoChannel <==> (old(replies)@[k as int] matches Ok(MessageReply::Permissions(None))),
        check is Failed <==> old(replies)@[k as int] is Err,
    ensures
        denied(old(replies)@[k as int], missing@, step),
{
    match check {
        PermissionCheck::Missing => Step::Done(Err(AppError::forbidden(missing))),
        PermissionCheck::NoChannel => Step::Done(Err(AppError::not_found("channel not found"))),
        PermissionCheck::Failed => Step::Done(Err(take_error(replies, k))),
        _ => Step::Done(Err(unexpected_reply())),
    }
}

fn message_lookup(replies: &mut Vec<AppResult<MessageReply>>, k: usize) -> (r: Result<(u128, u128), MessageStep<()>>)
    requires
        k < old(replies)@.len(),
    ensures
        live_message(old(replies)@[k as int]) matches Some(m) ==> r == Ok::<(u128, u128), MessageStep<()>>((m.channel_id, m.author_id)) && final(replies)@ == old(replies)@,
        live_message(old(replies)@[k as int]) is None ==> (r matches Err(step) && not_live(old(replies)@[k as int], step)),
{
    match &replies[k] {
        Ok(MessageReply::MaybeMessage(Some(m))) => {
            if m.deleted_at.is_some() {
                Err(Step::Done(Err(AppError::not_found("message not found"))))
            } else {
                Ok((m.channel_id, m.author_id))
            }
        },
        Ok(MessageReply::MaybeMessage(None)) => Err(Step::Done(Err(AppError::not_found("message not found")))),
        Ok(_) => Err(Step::Done(Err(unexpected_reply()))),
        Err(_) => Err(Step::Done(Err(take_error(replies, k)))),
    }
}

fn retype<T>(step: MessageStep<()>) -> (r: MessageStep<T>)
    requires
        step is Done,
        step->Done_0 is Err,
    ensures
        r == Step::<MessageCall, T>::Done(Err(step->Done_0->Err_0)),
{
    match step {
        Step::Done(Err(e)) => Step::Done(Err(e)),
        _ => {
            proof {
                assert(false);
            }
            Step::Done(Err(unexpected_reply()))
        },
    }
}

/// How a run ends with an updated or deleted message reply: the message, or
/// `message not found` when there was none to change.
pub open spec fn changed_message(r: AppResult<MessageReply>, step: MessageStep<MessageRecord>) -> bool {
    match r {
        Err(e) => step == Step::<MessageCall, MessageRecord>::Done(Err(e)),
        Ok(MessageReply::MaybeMessage(Some(m))) => step == Step::<MessageCall, MessageRecord>::Done(Ok(m)),
        Ok(MessageReply::MaybeMessage(None)) => fails(step, ErrorKind::NotFound, "message not found"@),
        _ => is_unexpected(step),
    }
}

fn finish_changed_message(replies: &mut Vec<AppResult<MessageReply>>, k: usize) -> (step: MessageStep<MessageRecord>)
    requires
        k < old(replies)@.len(),
    ensures
        changed_message(old(replies)@[k as int], step),
{
    match take_reply(replies, k) {
        Ok(MessageReply::MaybeMessage(Some(m))) => Step::Done(Ok(m)),
        Ok(MessageReply::MaybeMessage(None)) => Step::Done(Err(AppError::not_found("message not found"))),
        Ok(_) => Step::Done(Err(unexpected_reply())),
        Err(e) => Step::Done(Err(e)),
    }
}

/// Channel message use case.
pub struct MessageUseCase {}

impl MessageUseCase {
    /// Builds the message use case.
    pub fn new() -> (u: Self) {
        MessageUseCase {  }
    }

    /// Creates message after channel SEND_MESSAGES authorization.
    ///
    /// # Parameters
    /// - `cmd`: Create command containing actor, channel and content.
    /// - `replies`: Answers to the calls made so far.
    pub fn create_message(&self, cmd: &CreateMessageCommand, replies: &mut Vec<AppResult<MessageReply>>) -> (step: MessageStep<MessageRecord>)
        ensures
            ({
                let rs = old(replies)@;
                &&& content_problem(cmd.content@) matches Some(m) ==> fails(step, ErrorKind::Validation, m)
                &&& content_problem(cmd.content@) is None && rs.len() == 0 ==> step == Step::<MessageCall, MessageRecord>::Call(MessageCall::ResolveChannelPermissions { user_id: cmd.user_id, channel_id: cmd.channel_id })
                &&& content_problem(cmd.content@) is None && rs.len() >= 1 && !grants(rs[0], SEND_MESSAGES) ==> denied(rs[0], "missing SEND_MESSAGES permission"@, step)
                &&& content_problem(cmd.content@) is None && rs.len() == 1 && grants(rs[0], SEND_MESSAGES) ==> (step matches Step::Call(MessageCall::CreateMessage { channel_id, author_id, content }) && channel_id == cmd.channel_id && author_id == cmd.user_id && content@ == trim_chars(cmd.content@))
                &&& content_problem(cmd.content@) is None && rs.len() >= 2 && grants(rs[0], SEND_MESSAGES) ==> relays(rs[1], step, |r: MessageReply| if let MessageReply::Message(m) = r { Some(m) } else { None })
            }),
    {
        if let Err(e) = validate_message_content(cmd.content.as_str()) {
            return Step::Done(Err(e));
        }
        if replies.len() == 0 {
            return Step::Call(MessageCall::ResolveChannelPermissions { user_id: cmd.user_id, channel_id: cmd.channel_id });
        }
        let check = check_permissions(&replies[0], SEND_MESSAGES);
        if !matches!(check, PermissionCheck::Granted) {
            return deny(replies, 0, check, "missing SEND_MESSAGES permission");
        }
        if replies.len() == 1 {
            return Step::Call(MessageCall::CreateMessage {
                channel_id: cmd.channel_id,
                author_id: cmd.user_id,
                content: trim(cmd.content.as_str()).to_owned(),
            });
        }
        match &replies[1] {
            Ok(MessageReply::Message(_)) => match take_reply(replies, 1) {
                Ok(MessageReply::Message(m)) => Step::Done(Ok(m)),
                _ => {
                    proof {
                        assert(false);
                    }
                    Step::Done(Err(unexpected_reply()))
                },
            },
            Ok(_) => Step::Done(Err(unexpected_reply())),
            Err(_) => Step::Done(Err(take_error(replies, 1))),
        }
    }

    /// Lists non-deleted messages with stable cursor pagination.
    ///
    /// # Parameters
    /// - `query`: Query containing actor, channel and pagination cursor.
    /// - `replies`: Answers to the calls made so far.
    pub fn list_messages(&self, query: &ListMessagesQuery, replies: &mut Vec<AppResult<MessageReply>>) -> (step: MessageStep<Vec<MessageRecord>>)
        ensures
            ({
                let rs = old(replies)@;
                &&& rs.len() == 0 ==> step == Step::<MessageCall, Vec<MessageRecord>>::Call(MessageCall::ResolveChannelPermissions { user_id: query.user_id, channel_id: query.channel_id })
                &&& rs.len() >= 1 && !grants(rs[0], VIEW_CHANNEL) ==> denied(rs[0], "missing VIEW_CHANNEL permission"@, step)
                &&& rs.len() >= 1 && grants(rs[0], VIEW_CHANNEL) && spec_normalize_limit(query.limit) is None ==> fails(step, ErrorKind::Validation, "limit must be positive"@)
                &&& rs.len() == 1 && grants(rs[0], VIEW_CHANNEL) ==> (spec_normalize_limit(query.limit) matches Some(l) ==> step == Step::<MessageCall, Vec<MessageRecord>>::Call(MessageCall::ListMessages { channel_id: query.channel_id, before_message_id: query.before, limit: l }))
                &&& rs.len() >= 2 && grants(rs[0], VIEW_CHANNEL) && spec_normalize_limit(query.limit) is Some ==> relays(rs[1], step, |r: MessageReply| if let MessageReply::Messages(v) = r { Some(v) } else { None })
            }),
    {
        if replies.len() == 0 {
            return Step::Call(MessageCall::ResolveChannelPermissions { user_id: query.user_id, channel_id: query.channel_id });
        }
        let check = check_permissions(&replies[0], VIEW_CHANNEL);
        if !matches!(check, PermissionCheck::Granted) {
            return deny(replies, 0, check, "missing VIEW_CHANNEL permission");
        }
        let limit = match normalize_limit(query.limit) {
            Ok(l) => l,
            Err(e) => return Step::Done(Err(e)),
        };
        if replies.len() == 1 {
            return Step::Call(MessageCall::ListMessages { channel_id: query.channel_id, before_message_id: query.before, limit });
        }
        match take_reply(replies, 1) {
            Ok(MessageReply::Messages(v)) => Step::Done(Ok(v)),
            Ok(_) => Step::Done(Err(unexpected_reply())),
            Err(e) => Step::Done(Err(e)),
        }
    }

    /// Edits author-owned message and marks edit timestamp.
    ///
    /// # Parameters
    /// - `cmd`: Edit command containing actor, message id and new content.
    /// - `replies`: Answers to the calls made so far.
    pub fn edit_message(&self, cmd: &EditMessageCommand, replies: &mut Vec<AppResult<MessageReply>>) -> (step: MessageStep<MessageRecord>)
        ensures
            ({
                let rs = old(replies)@;
                &&& content_problem(cmd.content@) matches Some(m) ==> fails(step, ErrorKind::Validation, m)
                &&& content_problem(cmd.content@) is None && rs.len() == 0 ==> step == Step::<MessageCall, MessageRecord>::Call(MessageCall::FindMessageById { message_id: cmd.message_id })
                &&& content_problem(cmd.content@) is None && rs.len() >= 1 && live_message(rs[0]) is None ==> not_live(rs[0], step)
                &&& content_problem(cmd.content@) is None && rs.len() >= 1 ==> (live_message(rs[0]) matches Some(m) ==> {
                    &&& rs.len() == 1 ==> step == Step::<MessageCall, MessageRecord>::Call(MessageCall::ResolveChannelPermissions { user_id: cmd.user_id, channel_id: m.channel_id })
                    &&& rs.len() >= 2 && !grants(rs[1], SEND_MESSAGES) ==> denied(rs[1], "missing SEND_MESSAGES permission"@, step)
                    &&& rs.len() >= 2 && grants(rs[1], SEND_MESSAGES) && m.author_id != cmd.user_id ==> fails(step, ErrorKind::Forbidden, "only message author can edit message"@)
                    &&& rs.len() == 2 && grants(rs[1], SEND_MESSAGES) && m.author_id == cmd.user_id ==> (step matches Step::Call(MessageCall::UpdateMessageContent { message_id, content }) && message_id == cmd.message_id && content@ == trim_chars(cmd.content@))
                    &&& rs.len() >= 3 && grants(rs[1], SEND_MESSAGES) && m.author_id == cmd.user_id ==> changed_message(rs[2], step)
                })
            }),
    {
        if let Err(e) = validate_message_content(cmd.content.as_str()) {
            return Step::Done(Err(e));
        }
        if replies.len() == 0 {
            return Step::Call(MessageCall::FindMessageById { message_id: cmd.message_id });
        }
        let (channel_id, author_id) = match message_lookup(replies, 0) {
            Ok(found) => found,
            Err(step) => return retype(step),
        };
        if replies.len() == 1 {
            return Step::Call(MessageCall::ResolveChannelPermissions { user_id: cmd.user_id, channel_id });
        }
        let check = check_permissions(&replies[1], SEND_MESSAGES);
        if !matches!(check, PermissionCheck::Granted) {
            return deny(replies, 1, check, "missing SEND_MESSAGES permission");
        }
        if author_id != cmd.user_id {
            return Step::Done(Err(AppError::forbidden("only message author can edit message")));
        }
        if replies.len() == 2 {
            return Step::Call(MessageCall::UpdateMessageContent {
                message_id: cmd.message_id,
                content: trim(cmd.content.as_str()).to_owned(),
            });
        }
        finish_changed_message(replies, 2)
    }

    /// Soft deletes author-owned message.
    ///
    /// # Parameters
    /// - `cmd`: Delete command containing actor and message id.
    /// - `replies`: Answers to the calls made so far.
    pub fn delete_message(&self, cmd: &DeleteMessageCommand, replies: &mut Vec<AppResult<MessageReply>>) -> (step: MessageStep<MessageDeleted>)
        ensures
            ({
                let rs = old(replies)@;
                &&& rs.len() == 0 ==> step == Step::<MessageCall, MessageDeleted>::Call(MessageCall::FindMessageById { message_id: cmd.message_id })
                &&& rs.len() >= 1 && live_message(rs[0]) is None ==> not_live(rs[0], step)
                &&& rs.len() >= 1 ==> (live_message(rs[0]) matches Some(m) ==> {
                    &&& rs.len() == 1 ==> step == Step::<MessageCall, MessageDeleted>::Call(MessageCall::ResolveChannelPermissions { user_id: cmd.user_id, channel_id: m.channel_id })
                    &&& rs.len() >= 2 && !grants(rs[1], SEND_MESSAGES) ==> denied(rs[1], "missing SEND_MESSAGES permission"@, step)
                    &&& rs.len() >= 2 && grants(rs[1], SEND_MESSAGES) && m.author_id != cmd.user_id ==> fails(step, ErrorKind::Forbidden, "only message author can delete message"@)
                    &&& rs.len() == 2 && grants(rs[1], SEND_MESSAGES) && m.author_id == cmd.user_id ==> step == Step::<MessageCall, MessageDeleted>::Call(MessageCall::SoftDeleteMessage { message_id: cmd.message_id })
                    &&& rs.len() >= 3 && grants(rs[1], SEND_MESSAGES) && m.author_id == cmd.user_id ==> match rs[2] {
                        Err(e) => step == Step::<MessageCall, MessageDeleted>::Done(Err(e)),
                        Ok(MessageReply::MaybeMessage(Some(d))) => match d.deleted_at {
                            Some(t) => step == Step::<MessageCall, MessageDeleted>::Done(Ok(MessageDeleted { channel_id: d.channel_id, message_id: d.id, deleted_at: t })),
                            None => fails(step, ErrorKind::Internal, "deleted_at is missing after soft delete"@),
                        },
                        Ok(MessageReply::MaybeMessage(None)) => fails(step, ErrorKind::NotFound, "message not found"@),
                        _ => is_unexpected(step),
                    }
                })
            }),
    {
        if replies.len() == 0 {
            return Step::Call(MessageCall::FindMessageById { message_id: cmd.message_id });
        }
        let (channel_id, author_id) = match message_lookup(replies, 0) {
            Ok(found) => found,
            Err(step) => return retype(step),
        };
        if replies.len() == 1 {
            return Step::Call(MessageCall::ResolveChannelPermissions { user_id: cmd.user_id, channel_id });
        }
        let check = check_permissions(&replies[1], SEND_MESSAGES);
        if !matches!(check, PermissionCheck::Granted) {
            return deny(replies, 1, check, "missing SEND_MESSAGES permission");
        }
        if author_id != cmd.user_id {
            return Step::Done(Err(AppError::forbidden("only message author can delete message")));
        }
        if replies.len() == 2 {
            return Step::Call(MessageCall::SoftDeleteMessage { message_id: cmd.message_id });
        }
        match take_reply(replies, 2) {
            Ok(MessageReply::MaybeMessage(Some(d))) => match d.deleted_at {
                Some(t) => Step::Done(Ok(MessageDeleted { channel_id: d.channel_id, message_id: d.id, deleted_at: t })),
                None => Step::Done(Err(AppError::internal("deleted_at is missing after soft delete"))),
            },
            Ok(MessageReply::MaybeMessage(None)) => Step::Done(Err(AppError::not_found("message not found"))),
            Ok(_) => Step::Done(Err(unexpected_reply())),
            Err(e) => Step::Done(Err(e)),
        }
    }

    /// Returns effective permissions for channel.
    ///
    /// # Parameters
    /// - `user_id`: Authenticated user id.
    /// - `channel_id`: Target channel id.
    /// - `replies`: Answers to the calls made so far.
    pub fn channel_permissions(&self, user_id: u128, channel_id: u128, replies: &mut Vec<AppResult<MessageReply>>) -> (step: MessageStep<PermissionBits>)
        ensures
            ({
                let rs = old(replies)@;
                &&& rs.len() == 0 ==> step == Step::<MessageCall, PermissionBits>::Call(MessageCall::ResolveChannelPermissions { user_id, channel_id })
                &&& rs.len() >= 1 ==> match rs[0] {
                    Err(e) => step == Step::<MessageCall, PermissionBits>::Done(Err(e)),
                    Ok(MessageReply::Permissions(Some(bits))) => step == Step::<MessageCall, PermissionBits>::Done(Ok(PermissionBits(bits))),
                    Ok(MessageReply::Permissions(None)) => fails(step, ErrorKind::NotFound, "channel not found"@),
                    _ => is_unexpected(step),
                }
            }),
    {
        if replies.len() == 0 {
            return Step::Call(MessageCall::ResolveChannelPermissions { user_id, channel_id });
        }
        match take_reply(replies, 0) {
            Ok(MessageReply::Permissions(Some(bits))) => Step::Done(Ok(PermissionBits(bits))),
            Ok(MessageReply::Permissions(None)) => Step::Done(Err(AppError::not_found("channel not found"))),
            Ok(_) => Step::Done(Err(unexpected_reply())),
            Err(e) => Step::Done(Err(e)),
        }
    }

    /// Persists channel read marker for channel member.
    ///
    /// # Parameters
    /// - `cmd`: Read marker command with actor, channel and optional message id.
    /// - `replies`: Answers to the calls made so far.
    pub fn mark_channel_read(&self, cmd: &MarkChannelReadCommand, replies: &mut Vec<AppResult<MessageReply>>) -> (step: MessageStep<ChannelReadState>)
        ensures
            ({
                let rs = old(replies)@;
                &&& rs.len() == 0 ==> step == Step::<MessageCall, ChannelReadState>::Call(MessageCall::ResolveChannelPermissions { user_id: cmd.user_id, channel_id: cmd.channel_id })
                &&& rs.len() >= 1 && !grants(rs[0], VIEW_CHANNEL) ==> denied(rs[0], "missing VIEW_CHANNEL permission"@, step)
                &&& rs.len() == 1 && grants(rs[0], VIEW_CHANNEL) ==> step == Step::<MessageCall, ChannelReadState>::Call(MessageCall::MarkChannelRead { channel_id: cmd.channel_id, user_id: cmd.user_id, last_read_message_id: cmd.last_read_message_id })
                &&& rs.len() >= 2 && grants(rs[0], VIEW_CHANNEL) ==> relays(rs[1], step, |r: MessageReply| if let MessageReply::ReadState(s) = r { Some(s) } else { None })
            }),
    {
        if replies.len() == 0 {
            return Step::Call(MessageCall::ResolveChannelPermissions { user_id: cmd.user_id, channel_id: cmd.channel_id });
        }
        let check = check_permissions(&replies[0], VIEW_CHANNEL);
        if !matches!(check, PermissionCheck::Granted) {
            return deny(replies, 0, check, "missing VIEW_CHANNEL permission");
        }
        if replies.len() == 1 {
            return Step::Call(MessageCall::MarkChannelRead {
                channel_id: cmd.channel_id,
                user_id: cmd.user_id,
                last_read_message_id: cmd.last_read_message_id,
            });
        }
        match take_reply(replies, 1) {
            Ok(MessageReply::ReadState(s)) => Step::Done(Ok(s)),
            Ok(_) => Step::Done(Err(unexpected_reply())),
            Err(e) => Step::Done(Err(e)),
        }
    }
}

} // verus!