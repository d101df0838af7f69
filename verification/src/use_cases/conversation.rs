//! Direct threads between two users, group threads, their invites and the
//! messages and read markers inside threads.
use vstd::prelude::*;
use crate::domain::{
    DirectThreadSummary, DirectThreadTransition, DirectThreadUpsertResult, GroupInviteRecord,
    GroupThreadSummary, ThreadAccessRecord, ThreadMessageDeleted, ThreadMessageRecord,
    ThreadReadState,
};
use crate::error::{AppError, AppResult, ErrorKind};
use crate::platform::{max_abs_unix_nanos, now_unix_nanos, uuid_simple_chars};
use crate::text::{str_equals, trim, trim_chars};
use crate::use_cases::flow::{fails, finds, is_unexpected, misses, relays, stop, stops, take_reply, unexpected_reply, Step};
use crate::use_cases::invite::{after_seconds, instant_after, new_invite_token};
use crate::validation::{
    content_problem, invited_members, normalize_invite_expiry, normalize_limit,
    normalize_member_ids, spec_invite_expiry, spec_normalize_limit, strictly_increasing,
    trimmed_len, validate_group_name, validate_max_uses, validate_message_content,
};
use crate::use_cases::guild_channel::max_uses_problem;

verus! {

/// Which direct threads an inbox lists.
#[derive(Debug, Clone, Copy, PartialEq, Eq)]
pub enum DirectInboxFilter {
    /// Every direct thread of the user.
    All,
    /// The requests that wait for the user to answer them.
    Pending,
}

pub struct CreateDirectThreadCommand {
    pub user_id: u128,
    pub peer_user_id: u128,
}

pub struct AcceptDirectThreadCommand {
    pub user_id: u128,
    pub thread_id: u128,
}

pub struct RejectDirectThreadCommand {
    pub user_id: u128,
    pub thread_id: u128,
}

pub struct CreateGroupThreadCommand {
    pub owner_id: u128,
    pub name: String,
    pub member_user_ids: Vec<u128>,
}

pub struct AddGroupMemberCommand {
    pub actor_user_id: u128,
    pub thread_id: u128,
    pub user_id: u128,
}

pub struct LeaveGroupCommand {
    pub user_id: u128,
    pub thread_id: u128,
}

pub struct CreateGroupInviteCommand {
    pub actor_user_id: u128,
    pub thread_id: u128,
    pub expires_in_seconds: Option<u64>,
    pub max_uses: Option<i32>,
}

pub struct JoinGroupInviteCommand {
    pub user_id: u128,
    pub token: String,
}

pub struct CreateThreadMessageCommand {
    pub user_id: u128,
    pub thread_id: u128,
    pub content: String,
}

pub struct ListThreadMessagesQuery {
    pub user_id: u128,
    pub thread_id: u128,
    pub before: Option<u128>,
    pub limit: Option<i64>,
}

pub struct EditThreadMessageCommand {
    pub user_id: u128,
    pub message_id: u128,
    pub content: String,
}

pub struct DeleteThreadMessageCommand {
    pub user_id: u128,
    pub message_id: u128,
}

pub struct MarkThreadReadCommand {
    pub user_id: u128,
    pub thread_id: u128,
    pub last_read_message_id: Option<u128>,
}

/// The calls that the conversation use case makes to its repository.
#[derive(Debug)]
pub enum ConversationCall {
    CreateOrGetDirectThread { user_id: u128, peer_user_id: u128 },
    ListDirectThreads { user_id: u128 },
    ListPendingDirectInbox { receiver_user_id: u128 },
    FindDirectThreadForMember { thread_id: u128, user_id: u128 },
    AcceptDirectThreadRequest { thread_id: u128, receiver_user_id: u128 },
    RejectDirectThreadRequest { thread_id: u128, receiver_user_id: u128 },
    CreateGroupThread { owner_id: u128, name: String, member_user_ids: Vec<u128> },
    ListGroupThreads { user_id: u128 },
    FindGroupThreadForMember { thread_id: u128, user_id: u128 },
    AddGroupMember { thread_id: u128, user_id: u128 },
    RemoveGroupMember { thread_id: u128, user_id: u128 },
    IsGroupOwner { thread_id: u128, user_id: u128 },
    IsThreadMember { thread_id: u128, user_id: u128 },
    FindThreadAccess { thread_id: u128, user_id: u128 },
    CreateThreadMessage { thread_id: u128, author_id: u128, content: String },
    ListThreadMessages { thread_id: u128, before_message_id: Option<u128>, limit: i64 },
    FindThreadMessageById { message_id: u128 },
    UpdateThreadMessageContent { message_id: u128, content: String },
    SoftDeleteThreadMessage { message_id: u128 },
    CreateGroupInvite {
        thread_id: u128,
        created_by: u128,
        token: String,
        expires_at: i128,
        max_uses: Option<i32>,
    },
    JoinGroupViaInvite { token: String, user_id: u128 },
    MarkThreadRead { thread_id: u128, user_id: u128, last_read_message_id: Option<u128> },
}

/// The answers to `ConversationCall`s.
#[derive(Debug)]
pub enum ConversationReply {
    Upserted(DirectThreadUpsertResult),
    DirectThreads(Vec<DirectThreadSummary>),
    MaybeDirectThread(Option<DirectThreadSummary>),
    MaybeTransition(Option<DirectThreadTransition>),
    GroupThread(GroupThreadSummary),
    GroupThreads(Vec<GroupThreadSummary>),
    MaybeGroupThread(Option<GroupThreadSummary>),
    Done,
    Flag(bool),
    MaybeAccess(Option<ThreadAccessRecord>),
    ThreadMessage(ThreadMessageRecord),
    ThreadMessages(Vec<ThreadMessageRecord>),
    MaybeThreadMessage(Option<ThreadMessageRecord>),
    GroupInvite(GroupInviteRecord),
    ReadState(ThreadReadState),
}

pub type ConversationStep<T> = Step<ConversationCall, T>;

/// The reply is the boolean `b`.
pub open spec fn flag_is(r: AppResult<ConversationReply>, b: bool) -> bool {
    r == Ok::<ConversationReply, AppError>(ConversationReply::Flag(b))
}

/// The reply is a boolean.
pub open spec fn is_flag(r: AppResult<ConversationReply>) -> bool {
    r matches Ok(ConversationReply::Flag(_))
}

/// How a run ends on a membership reply that does not say the user is a
/// member of the thread.
pub open spec fn not_member<T>(r: AppResult<ConversationReply>, step: ConversationStep<T>) -> bool {
    match r {
        Ok(ConversationReply::Flag(false)) => fails(step, ErrorKind::NotFound, "thread not found"@),
        _ => stops(r, step),
    }
}

/// What is wrong with a group name, if anything.
pub open spec fn group_name_problem(name: Seq<char>) -> Option<Seq<char>> {
    if trimmed_len(name) < 2 {
        Some("group name must be at least 2 characters"@)
    } else if trimmed_len(name) > 80 {
        Some("group name must be at most 80 characters"@)
    } else {
        None
    }
}

/// A thread member whose direct thread is still a request that someone else
/// made may not write in it yet.
pub open spec fn awaits_acceptance(access: ThreadAccessRecord, user_id: u128) -> bool {
    &&& access.kind@ == "DIRECT"@
    &&& access.direct_status@ == "PENDING"@
    &&& access.requested_by != Some(user_id)
}

/// Only a direct thread that is still a pending request holds back a member,
/// and never the member who made the request: once the request is accepted
/// (or in any group thread, or in a direct thread between friends) every
/// member may write; while it is pending the other member may not.
pub proof fn lemma_only_pending_requests_hold_back(access: ThreadAccessRecord, user_id: u128)
    ensures
        access.direct_status@ != "PENDING"@ ==> !awaits_acceptance(access, user_id),
        access.kind@ != "DIRECT"@ ==> !awaits_acceptance(access, user_id),
        access.requested_by == Some(user_id) ==> !awaits_acceptance(access, user_id),
        access.kind@ == "DIRECT"@ && access.direct_status@ == "PENDING"@ && access.requested_by != Some(user_id) ==> awaits_acceptance(access, user_id),
{
}

/// An existing thread message that is not deleted, as found by id.
pub open spec fn live_thread_message(r: AppResult<ConversationReply>) -> Option<ThreadMessageRecord> {
    match r {
        Ok(ConversationReply::MaybeThreadMessage(Some(m))) => if m.deleted_at is None {
            Some(m)
        } else {
            None
        },
        _ => None,
    }
}

/// How a run ends on a lookup reply that holds no live thread message.
pub open spec fn thread_message_gone<T>(r: AppResult<ConversationReply>, step: ConversationStep<T>) -> bool {
    match r {
        Err(e) => step == Step::<ConversationCall, T>::Done(Err(e)),
        Ok(ConversationReply::MaybeThreadMessage(_)) => fails(step, ErrorKind::NotFound, "thread message not found"@),
        _ => is_unexpected(step),
    }
}

fn require_member<T>(replies: &mut Vec<AppResult<ConversationReply>>, k: usize) -> (r: Option<ConversationStep<T>>)
    requires
        k < old(replies)@.len(),
    ensures
        flag_is(old(replies)@[k as int], true) ==> r is None && final(replies)@ == old(replies)@,
        !flag_is(old(replies)@[k as int], true) ==> (r matches Some(step) && not_member(old(replies)@[k as int], step)),
{
    match &replies[k] {
        Ok(ConversationReply::Flag(true)) => None,
        Ok(ConversationReply::Flag(false)) => Some(Step::Done(Err(AppError::not_found("thread not found")))),
        _ => Some(stop(replies, k)),
    }
}

fn thread_message_lookup(replies: &mut Vec<AppResult<ConversationReply>>, k: usize) -> (r: Result<(u128, u128), AppError>)
    requires
        k < old(replies)@.len(),
    ensures
        live_thread_message(old(replies)@[k as int]) matches Some(m) ==> r == Ok::<(u128, u128), AppError>((m.thread_id, m.author_id)) && final(replies)@ == old(replies)@,
        live_thread_message(old(replies)@[k as int]) is None ==> (r matches Err(e) && thread_message_gone(old(replies)@[k as int], Step::<ConversationCall, ()>::Done(Err(e)))),
{
    match &replies[k] {
        Ok(ConversationReply::MaybeThreadMessage(Some(m))) => {
            if m.deleted_at.is_some() {
                Err(AppError::not_found("thread message not found"))
            } else {
                Ok((m.thread_id, m.author_id))
            }
        },
        Ok(ConversationReply::MaybeThreadMessage(None)) => Err(AppError::not_found("thread message not found")),
        Ok(_) => Err(unexpected_reply()),
        Err(_) => match take_reply(replies, k) {
            Err(e) => Err(e),
            Ok(_) => {
                proof {
                    assert(false);
                }
                Err(unexpected_reply())
            },
        },
    }
}

fn awaits_acceptance_of(access: &ThreadAccessRecord, user_id: u128) -> (b: bool)
    ensures
        b == awaits_acceptance(*access, user_id),
        access.direct_status@ != "PENDING"@ ==> !b,
        access.kind@ != "DIRECT"@ ==> !b,
        access.requested_by == Some(user_id) ==> !b,
        access.kind@ == "DIRECT"@ && access.direct_status@ == "PENDING"@ && access.requested_by != Some(user_id) ==> b,
{
    let requested_by_user = match access.requested_by {
        Some(id) => id == user_id,
        None => false,
    };
    str_equals(access.kind.as_str(), "DIRECT") && str_equals(access.direct_status.as_str(), "PENDING") && !requested_by_user
}

/// Conversation use case: direct threads, group threads and thread messages.
pub struct ConversationUseCase {}

impl ConversationUseCase {
    /// Builds conversation use-case.
    pub fn new() -> (u: Self) {
        ConversationUseCase {  }
    }

    /// Creates or gets direct thread between two users.
    ///
    /// # Parameters
    /// - `cmd`: Command containing actor user and peer user ids.
    /// - `replies`: Answers to the calls made so far.
    pub fn create_direct_thread(&self, cmd: &CreateDirectThreadCommand, replies: &mut Vec<AppResult<ConversationReply>>) -> (step: ConversationStep<DirectThreadUpsertResult>)
        ensures
            cmd.user_id == cmd.peer_user_id ==> fails(step, ErrorKind::Validation, "cannot create direct thread with yourself"@),
            cmd.user_id != cmd.peer_user_id && old(replies)@.len() == 0 ==> step == Step::<ConversationCall, DirectThreadUpsertResult>::Call(ConversationCall::CreateOrGetDirectThread { user_id: cmd.user_id, peer_user_id: cmd.peer_user_id }),
            cmd.user_id != cmd.peer_user_id && old(replies)@.len() >= 1 ==> relays(old(replies)@[0], step, |r: ConversationReply| if let ConversationReply::Upserted(u) = r { Some(u) } else { None }),
    {
        if cmd.user_id == cmd.peer_user_id {
            return Step::Done(Err(AppError::validation("cannot create direct thread with yourself")));
        }
        if replies.len() == 0 {
            return Step::Call(ConversationCall::CreateOrGetDirectThread { user_id: cmd.user_id, peer_user_id: cmd.peer_user_id });
        }
        match take_reply(replies, 0) {
            Ok(ConversationReply::Upserted(u)) => Step::Done(Ok(u)),
            Ok(_) => Step::Done(Err(unexpected_reply())),
            Err(e) => Step::Done(Err(e)),
        }
    }

    /// Lists direct threads for a user.
    ///
    /// # Parameters
    /// - `user_id`: Authenticated user id.
    /// - `filter`: Inbox filter (`All` or `Pending`).
    /// - `replies`: Answers to the calls made so far.
    pub fn list_direct_threads(&self, user_id: u128, filter: DirectInboxFilter, replies: &mut Vec<AppResult<ConversationReply>>) -> (step: ConversationStep<Vec<DirectThreadSummary>>)
        ensures
            old(replies)@.len() == 0 && filter == DirectInboxFilter::All ==> step == Step::<ConversationCall, Vec<DirectThreadSummary>>::Call(ConversationCall::ListDirectThreads { user_id }),
            old(replies)@.len() == 0 && filter == DirectInboxFilter::Pending ==> step == Step::<ConversationCall, Vec<DirectThreadSummary>>::Call(ConversationCall::ListPendingDirectInbox { receiver_user_id: user_id }),
            old(replies)@.len() >= 1 ==> relays(old(replies)@[0], step, |r: ConversationReply| if let ConversationReply::DirectThreads(v) = r { Some(v) } else { None }),
    {
        if replies.len() == 0 {
            return match filter {
                DirectInboxFilter::All => Step::Call(ConversationCall::ListDirectThreads { user_id }),
                DirectInboxFilter::Pending => Step::Call(ConversationCall::ListPendingDirectInbox { receiver_user_id: user_id }),
            };
        }
        match take_reply(replies, 0) {
            Ok(ConversationReply::DirectThreads(v)) => Step::Done(Ok(v)),
            Ok(_) => Step::Done(Err(unexpected_reply())),
            Err(e) => Step::Done(Err(e)),
        }
    }

    /// Returns direct thread details for participant.
    ///
    /// # Parameters
    /// - `thread_id`: Direct thread id.
    /// - `user_id`: Authenticated user id.
    /// - `replies`: Answers to the calls made so far.
    pub fn get_direct_thread(&self, thread_id: u128, user_id: u128, replies: &mut Vec<AppResult<ConversationReply>>) -> (step: ConversationStep<DirectThreadSummary>)
        ensures
            old(replies)@.len() == 0 ==> step == Step::<ConversationCall, DirectThreadSummary>::Call(ConversationCall::FindDirectThreadForMember { thread_id, user_id }),
            old(replies)@.len() >= 1 ==> finds(old(replies)@[0], step, |r: ConversationReply| if let ConversationReply::MaybeDirectThread(t) = r { Some(t) } else { None }, "direct thread not found"@),
    {
        if replies.len() == 0 {
            return Step::Call(ConversationCall::FindDirectThreadForMember { thread_id, user_id });
        }
        match take_reply(replies, 0) {
            Ok(ConversationReply::MaybeDirectThread(Some(t))) => Step::Done(Ok(t)),
            Ok(ConversationReply::MaybeDirectThread(None)) => Step::Done(Err(AppError::not_found("direct thread not found"))),
            Ok(_) => Step::Done(Err(unexpected_reply())),
            Err(e) => Step::Done(Err(e)),
        }
    }

    /// Accepts pending direct thread request as receiver.
    ///
    /// # Parameters
    /// - `cmd`: Accept command containing receiver and thread ids.
    /// - `replies`: Answers to the calls made so far.
    pub fn accept_direct_thread(&self, cmd: &AcceptDirectThreadCommand, replies: &mut Vec<AppResult<ConversationReply>>) -> (step: ConversationStep<DirectThreadTransition>)
        ensures
            old(replies)@.len() == 0 ==> step == Step::<ConversationCall, DirectThreadTransition>::Call(ConversationCall::AcceptDirectThreadRequest { thread_id: cmd.thread_id, receiver_user_id: cmd.user_id }),
            old(replies)@.len() >= 1 ==> finds(old(replies)@[0], step, |r: ConversationReply| if let ConversationReply::MaybeTransition(t) = r { Some(t) } else { None }, "direct thread not found"@),
    {
        if replies.len() == 0 {
            return Step::Call(ConversationCall::AcceptDirectThreadRequest { thread_id: cmd.thread_id, receiver_user_id: cmd.user_id });
        }
        match take_reply(replies, 0) {
            Ok(ConversationReply::MaybeTransition(Some(t))) => Step::Done(Ok(t)),
            Ok(ConversationReply::MaybeTransition(None)) => Step::Done(Err(AppError::not_found("direct thread not found"))),
            Ok(_) => Step::Done(Err(unexpected_reply())),
            Err(e) => Step::Done(Err(e)),
        }
    }

    /// Rejects pending direct thread request as receiver.
    ///
    /// # Parameters
    /// - `cmd`: Reject command containing receiver and thread ids.
    /// - `replies`: Answers to the calls made so far.
    pub fn reject_direct_thread(&self, cmd: &RejectDirectThreadCommand, replies: &mut Vec<AppResult<ConversationReply>>) -> (step: ConversationStep<DirectThreadTransition>)
        ensures
            old(replies)@.len() == 0 ==> step == Step::<ConversationCall, DirectThreadTransition>::Call(ConversationCall::RejectDirectThreadRequest { thread_id: cmd.thread_id, receiver_user_id: cmd.user_id }),
            old(replies)@.len() >= 1 ==> finds(old(replies)@[0], step, |r: ConversationReply| if let ConversationReply::MaybeTransition(t) = r { Some(t) } else { None }, "direct thread not found"@),
    {
        if replies.len() == 0 {
            return Step::Call(ConversationCall::RejectDirectThreadRequest { thread_id: cmd.thread_id, receiver_user_id: cmd.user_id });
        }
        match take_reply(replies, 0) {
            Ok(ConversationReply::MaybeTransition(Some(t))) => Step::Done(Ok(t)),
            Ok(ConversationReply::MaybeTransition(None)) => Step::Done(Err(AppError::not_found("direct thread not found"))),
            Ok(_) => Step::Done(Err(unexpected_reply())),
            Err(e) => Step::Done(Err(e)),
        }
    }

    /// Creates group thread and initial members.
    ///
    /// # Parameters
    /// - `cmd`: Group creation command containing owner, name and member ids.
    /// - `replies`: Answers to the calls made so far.
    pub fn create_group_thread(&self, cmd: CreateGroupThreadCommand, replies: &mut Vec<AppResult<ConversationReply>>) -> (step: ConversationStep<GroupThreadSummary>)
        ensures
            ({
                let rs = old(replies)@;
                let members = invited_members(cmd.owner_id, cmd.member_user_ids@);
                &&& group_name_problem(cmd.name@) matches Some(m) ==> fails(step, ErrorKind::Validation, m)
                &&& group_name_problem(cmd.name@) is None && members.len() > 30 ==> fails(step, ErrorKind::Validation, "group member count must be at most 30"@)
                &&& group_name_problem(cmd.name@) is None && members.len() <= 30 && rs.len() == 0 ==> (step matches Step::Call(ConversationCall::CreateGroupThread { owner_id, name, member_user_ids }) && {
                    &&& owner_id == cmd.owner_id
                    &&& name@ == trim_chars(cmd.name@)
                    &&& strictly_increasing(member_user_ids@)
                    &&& member_user_ids@.to_set() == members
                })
                &&& group_name_problem(cmd.name@) is None && members.len() <= 30 && rs.len() >= 1 ==> relays(rs[0], step, |r: ConversationReply| if let ConversationReply::GroupThread(g) = r { Some(g) } else { None })
            }),
    {
        if let Err(e) = validate_group_name(cmd.name.as_str()) {
            return Step::Done(Err(e));
        }
        let owner_id = cmd.owner_id;
        let name = cmd.name;
        let members = match normalize_member_ids(owner_id, cmd.member_user_ids) {
            Ok(m) => m,
            Err(e) => return Step::Done(Err(e)),
        };
        if replies.len() == 0 {
            return Step::Call(ConversationCall::CreateGroupThread {
                owner_id,
                name: trim(name.as_str()).to_owned(),
                member_user_ids: members,
            });
        }
        match take_reply(replies, 0) {
            Ok(ConversationReply::GroupThread(g)) => Step::Done(Ok(g)),
            Ok(_) => Step::Done(Err(unexpected_reply())),
            Err(e) => Step::Done(Err(e)),
        }
    }

    /// Lists group threads where user is member.
    ///
    /// # Parameters
    /// - `user_id`: Authenticated user id.
    /// - `replies`: Answers to the calls made so far.
    pub fn list_group_threads(&self, user_id: u128, replies: &mut Vec<AppResult<ConversationReply>>) -> (step: ConversationStep<Vec<GroupThreadSummary>>)
        ensures
            old(replies)@.len() == 0 ==> step == Step::<ConversationCall, Vec<GroupThreadSummary>>::Call(ConversationCall::ListGroupThreads { user_id }),
            old(replies)@.len() >= 1 ==> relays(old(replies)@[0], step, |r: ConversationReply| if let ConversationReply::GroupThreads(v) = r { Some(v) } else { None }),
    {
        if replies.len() == 0 {
            return Step::Call(ConversationCall::ListGroupThreads { user_id });
        }
        match take_reply(replies, 0) {
            Ok(ConversationReply::GroupThreads(v)) => Step::Done(Ok(v)),
            Ok(_) => Step::Done(Err(unexpected_reply())),
            Err(e) => Step::Done(Err(e)),
        }
    }

    /// Returns group thread details for member.
    ///
    /// # Parameters
    /// - `thread_id`: Group thread id.
    /// - `user_id`: Authenticated user id.
    /// - `replies`: Answers to the calls made so far.
    pub fn get_group_thread(&self, thread_id: u128, user_id: u128, replies: &mut Vec<AppResult<ConversationReply>>) -> (step: ConversationStep<GroupThreadSummary>)
        ensures
            old(replies)@.len() == 0 ==> step == Step::<ConversationCall, GroupThreadSummary>::Call(ConversationCall::FindGroupThreadForMember { thread_id, user_id }),
            old(replies)@.len() >= 1 ==> finds(old(replies)@[0], step, |r: ConversationReply| if let ConversationReply::MaybeGroupThread(g) = r { Some(g) } else { None }, "group thread not found"@),
    {
        if replies.len() == 0 {
            return Step::Call(ConversationCall::FindGroupThreadForMember { thread_id, user_id });
        }
        match take_reply(replies, 0) {
            Ok(ConversationReply::MaybeGroupThread(Some(g))) => Step::Done(Ok(g)),
            Ok(ConversationReply::MaybeGroupThread(None)) => Step::Done(Err(AppError::not_found("group thread not found"))),
            Ok(_) => Step::Done(Err(unexpected_reply())),
            Err(e) => Step::Done(Err(e)),
        }
    }

    /// Adds member to group, only owner can perform operation.
    ///
    /// # Parameters
    /// - `cmd`: Add group member command.
    /// - `replies`: Answers to the calls made so far.
    pub fn add_group_member(&self, cmd: &AddGroupMemberCommand, replies: &mut Vec<AppResult<ConversationReply>>) -> (step: ConversationStep<()>)
        ensures
            ({
                let rs = old(replies)@;
                &&& rs.len() == 0 ==> step == Step::<ConversationCall, ()>::Call(ConversationCall::IsGroupOwner { thread_id: cmd.thread_id, user_id: cmd.actor_user_id })
                &&& rs.len() >= 1 && !is_flag(rs[0]) ==> stops(rs[0], step)
                &&& rs.len() >= 1 && flag_is(rs[0], false) ==> fails(step, ErrorKind::Forbidden, "only group owner can add members"@)
                &&& rs.len() == 1 && flag_is(rs[0], true) ==> step == Step::<ConversationCall, ()>::Call(ConversationCall::AddGroupMember { thread_id: cmd.thread_id, user_id: cmd.user_id })
                &&& rs.len() >= 2 && flag_is(rs[0], true) ==> relays(rs[1], step, |r: ConversationReply| if let ConversationReply::Done = r { Some(()) } else { None })
            }),
    {
        if replies.len() == 0 {
            return Step::Call(ConversationCall::IsGroupOwner { thread_id: cmd.thread_id, user_id: cmd.actor_user_id });
        }
        match &replies[0] {
            Ok(ConversationReply::Flag(true)) => {},
            Ok(ConversationReply::Flag(false)) => return Step::Done(Err(AppError::forbidden("only group owner can add members"))),
            _ => return stop(replies, 0),
        }
        if replies.len() == 1 {
            return Step::Call(ConversationCall::AddGroupMember { thread_id: cmd.thread_id, user_id: cmd.user_id });
        }
        match take_reply(replies, 1) {
            Ok(ConversationReply::Done) => Step::Done(Ok(())),
            Ok(_) => Step::Done(Err(unexpected_reply())),
            Err(e) => Step::Done(Err(e)),
        }
    }

    /// Removes caller membership from group.
    ///
    /// # Parameters
    /// - `cmd`: Leave group command.
    /// - `replies`: Answers to the calls made so far.
    pub fn leave_group(&self, cmd: &LeaveGroupCommand, replies: &mut Vec<AppResult<ConversationReply>>) -> (step: ConversationStep<()>)
        ensures
            ({
                let rs = old(replies)@;
                &&& rs.len() == 0 ==> step == Step::<ConversationCall, ()>::Call(ConversationCall::IsGroupOwner { thread_id: cmd.thread_id, user_id: cmd.user_id })
                &&& rs.len() >= 1 && !is_flag(rs[0]) ==> stops(rs[0], step)
                &&& rs.len() >= 1 && flag_is(rs[0], true) ==> fails(step, ErrorKind::Validation, "group owner cannot leave group"@)
                &&& rs.len() == 1 && flag_is(rs[0], false) ==> step == Step::<ConversationCall, ()>::Call(ConversationCall::RemoveGroupMember { thread_id: cmd.thread_id, user_id: cmd.user_id })
                &&& rs.len() >= 2 && flag_is(rs[0], false) ==> {
                    &&& !is_flag(rs[1]) ==> stops(rs[1], step)
                    &&& flag_is(rs[1], false) ==> fails(step, ErrorKind::NotFound, "group membership not found"@)
                    &&& flag_is(rs[1], true) ==> step == Step::<ConversationCall, ()>::Done(Ok(()))
                }
            }),
    {
        if replies.len() == 0 {
            return Step::Call(ConversationCall::IsGroupOwner { thread_id: cmd.thread_id, user_id: cmd.user_id });
        }
        match &replies[0] {
            Ok(ConversationReply::Flag(false)) => {},
            Ok(ConversationReply::Flag(true)) => return Step::Done(Err(AppError::validation("group owner cannot leave group"))),
            _ => return stop(replies, 0),
        }
        if replies.len() == 1 {
            return Step::Call(ConversationCall::RemoveGroupMember { thread_id: cmd.thread_id, user_id: cmd.user_id });
        }
        match &replies[1] {
            Ok(ConversationReply::Flag(true)) => Step::Done(Ok(())),
            Ok(ConversationReply::Flag(false)) => Step::Done(Err(AppError::not_found("group membership not found"))),
            _ => stop(replies, 1),
        }
    }

    /// Creates group invite token for group owner, at instant `now` and with
    /// token `token`.
    ///
    /// # Parameters
    /// - `cmd`: Group invite create command.
    /// - `now`: The current instant, in nanoseconds since the epoch.
    /// - `token`: The invite token to persist.
    /// - `replies`: Answers to the calls made so far.
    pub fn create_group_invite_at(&self, cmd: &CreateGroupInviteCommand, now: i128, token: String, replies: &mut Vec<AppResult<ConversationReply>>) -> (step: ConversationStep<GroupInviteRecord>)
        requires
            -max_abs_unix_nanos() <= now <= max_abs_unix_nanos(),
        ensures
            ({
                let rs = old(replies)@;
                let found = rs.len() >= 1 && (rs[0] matches Ok(ConversationReply::MaybeGroupThread(Some(_))));
                let owner = found && rs.len() >= 2 && flag_is(rs[1], true);
                &&& rs.len() == 0 ==> step == Step::<ConversationCall, GroupInviteRecord>::Call(ConversationCall::FindGroupThreadForMember { thread_id: cmd.thread_id, user_id: cmd.actor_user_id })
                &&& rs.len() >= 1 && !found ==> misses(rs[0], step, |r: ConversationReply| r is MaybeGroupThread, "group thread not found"@)
                &&& found && rs.len() == 1 ==> step == Step::<ConversationCall, GroupInviteRecord>::Call(ConversationCall::IsGroupOwner { thread_id: cmd.thread_id, user_id: cmd.actor_user_id })
                &&& found && rs.len() >= 2 && !is_flag(rs[1]) ==> stops(rs[1], step)
                &&& found && rs.len() >= 2 && flag_is(rs[1], false) ==> fails(step, ErrorKind::Forbidden, "only group owner can create invite"@)
                &&& owner && max_uses_problem(cmd.max_uses) ==> fails(step, ErrorKind::Validation, "max_uses must be positive"@)
                &&& owner && !max_uses_problem(cmd.max_uses) && rs.len() == 2 ==> step == Step::<ConversationCall, GroupInviteRecord>::Call(ConversationCall::CreateGroupInvite {
                    thread_id: cmd.thread_id,
                    created_by: cmd.actor_user_id,
                    token,
                    expires_at: instant_after(now, spec_invite_expiry(cmd.expires_in_seconds)) as i128,
                    max_uses: cmd.max_uses,
                })
                &&& owner && !max_uses_problem(cmd.max_uses) && rs.len() >= 3 ==> relays(rs[2], step, |r: ConversationReply| if let ConversationReply::GroupInvite(i) = r { Some(i) } else { None })
            }),
    {
        if replies.len() == 0 {
            return Step::Call(ConversationCall::FindGroupThreadForMember { thread_id: cmd.thread_id, user_id: cmd.actor_user_id });
        }
        match &replies[0] {
            Ok(ConversationReply::MaybeGroupThread(Some(_))) => {},
            Ok(ConversationReply::MaybeGroupThread(None)) => return Step::Done(Err(AppError::not_found("group thread not found"))),
            _ => return stop(replies, 0),
        }
        if replies.len() == 1 {
            return Step::Call(ConversationCall::IsGroupOwner { thread_id: cmd.thread_id, user_id: cmd.actor_user_id });
        }
        match &replies[1] {
            Ok(ConversationReply::Flag(true)) => {},
            Ok(ConversationReply::Flag(false)) => return Step::Done(Err(AppError::forbidden("only group owner can create invite"))),
            _ => return stop(replies, 1),
        }
        if let Err(e) = validate_max_uses(cmd.max_uses) {
            return Step::Done(Err(e));
        }
        if replies.len() == 2 {
            let expires_in = normalize_invite_expiry(cmd.expires_in_seconds);
            let expires_at = after_seconds(now, expires_in);
            return Step::Call(ConversationCall::CreateGroupInvite {
                thread_id: cmd.thread_id,
                created_by: cmd.actor_user_id,
                token,
                expires_at,
                max_uses: cmd.max_uses,
            });
        }
        match take_reply(replies, 2) {
            Ok(ConversationReply::GroupInvite(i)) => Step::Done(Ok(i)),
            Ok(_) => Step::Done(Err(unexpected_reply())),
            Err(e) => Step::Done(Err(e)),
        }
    }

    /// Creates group invite token for group owner, expiring after the
    /// requested lifetime from now, with a fresh random token.
    ///
    /// # Parameters
    /// - `cmd`: Group invite create command.
    /// - `replies`: Answers to the calls made so far.
    pub fn create_group_invite(&self, cmd: &CreateGroupInviteCommand, replies: &mut Vec<AppResult<ConversationReply>>) -> (step: ConversationStep<GroupInviteRecord>)
        ensures
            ({
                let rs = old(replies)@;
                let found = rs.len() >= 1 && (rs[0] matches Ok(ConversationReply::MaybeGroupThread(Some(_))));
                let owner = found && rs.len() >= 2 && flag_is(rs[1], true);
                &&& rs.len() == 0 ==> step == Step::<ConversationCall, GroupInviteRecord>::Call(ConversationCall::FindGroupThreadForMember { thread_id: cmd.thread_id, user_id: cmd.actor_user_id })
                &&& rs.len() >= 1 && !found ==> misses(rs[0], step, |r: ConversationReply| r is MaybeGroupThread, "group thread not found"@)
                &&& found && rs.len() == 1 ==> step == Step::<ConversationCall, GroupInviteRecord>::Call(ConversationCall::IsGroupOwner { thread_id: cmd.thread_id, user_id: cmd.actor_user_id })
                &&& found && rs.len() >= 2 && !is_flag(rs[1]) ==> stops(rs[1], step)
                &&& found && rs.len() >= 2 && flag_is(rs[1], false) ==> fails(step, ErrorKind::Forbidden, "only group owner can create invite"@)
                &&& owner && max_uses_problem(cmd.max_uses) ==> fails(step, ErrorKind::Validation, "max_uses must be positive"@)
                &&& owner && !max_uses_problem(cmd.max_uses) && rs.len() == 2 ==> (step matches Step::Call(ConversationCall::CreateGroupInvite { thread_id, created_by, token, expires_at, max_uses }) && {
                    &&& thread_id == cmd.thread_id
                    &&& created_by == cmd.actor_user_id
                    &&& max_uses == cmd.max_uses
                    &&& exists|id: u128| token@ == uuid_simple_chars(id)
                    &&& exists|now: i128| -max_abs_unix_nanos() <= now <= max_abs_unix_nanos() && expires_at == instant_after(now, spec_invite_expiry(cmd.expires_in_seconds))
                })
                &&& owner && !max_uses_problem(cmd.max_uses) && rs.len() >= 3 ==> relays(rs[2], step, |r: ConversationReply| if let ConversationReply::GroupInvite(i) = r { Some(i) } else { None })
            }),
    {
        let now = now_unix_nanos();
        let token = new_invite_token();
        self.create_group_invite_at(cmd, now, token, replies)
    }

    /// Joins group thread through invite token.
    ///
    /// # Parameters
    /// - `cmd`: Invite join command.
    /// - `replies`: Answers to the calls made so far.
    pub fn join_group_invite(&self, cmd: &JoinGroupInviteCommand, replies: &mut Vec<AppResult<ConversationReply>>) -> (step: ConversationStep<GroupThreadSummary>)
        ensures
            ({
                let rs = old(replies)@;
                let token = trim_chars(cmd.token@);
                &&& token.len() == 0 ==> fails(step, ErrorKind::Validation, "invite token is required"@)
                &&& token.len() > 0 && rs.len() == 0 ==> (step matches Step::Call(ConversationCall::JoinGroupViaInvite { token: t, user_id }) && t@ == token && user_id == cmd.user_id)
                &&& token.len() > 0 && rs.len() >= 1 ==> relays(rs[0], step, |r: ConversationReply| if let ConversationReply::GroupThread(g) = r { Some(g) } else { None })
            }),
    {
        let token = trim(cmd.token.as_str());
        if token.is_empty() {
            return Step::Done(Err(AppError::validation("invite token is required")));
        }
        if replies.len() == 0 {
            return Step::Call(ConversationCall::JoinGroupViaInvite { token: token.to_owned(), user_id: cmd.user_id });
        }
        match take_reply(replies, 0) {
            Ok(ConversationReply::GroupThread(g)) => Step::Done(Ok(g)),
            Ok(_) => Step::Done(Err(unexpected_reply())),
            Err(e) => Step::Done(Err(e)),
        }
    }

    /// Persists thread read marker for thread member.
    ///
    /// # Parameters
    /// - `cmd`: Read marker command with actor, thread and optional message id.
    /// - `replies`: Answers to the calls made so far.
    pub fn mark_thread_read(&self, cmd: &MarkThreadReadCommand, replies: &mut Vec<AppResult<ConversationReply>>) -> (step: ConversationStep<ThreadReadState>)
        ensures
            ({
                let rs = old(replies)@;
                &&& rs.len() == 0 ==> step == Step::<ConversationCall, ThreadReadState>::Call(ConversationCall::IsThreadMember { thread_id: cmd.thread_id, user_id: cmd.user_id })
                &&& rs.len() >= 1 && !flag_is(rs[0], true) ==> not_member(rs[0], step)
                &&& rs.len() == 1 && flag_is(rs[0], true) ==> step == Step::<ConversationCall, ThreadReadState>::Call(ConversationCall::MarkThreadRead { thread_id: cmd.thread_id, user_id: cmd.user_id, last_read_message_id: cmd.last_read_message_id })
                &&& rs.len() >= 2 && flag_is(rs[0], true) ==> relays(rs[1], step, |r: ConversationReply| if let ConversationReply::ReadState(s) = r { Some(s) } else { None })
            }),
    {
        if replies.len() == 0 {
            return Step::Call(ConversationCall::IsThreadMember { thread_id: cmd.thread_id, user_id: cmd.user_id });
        }
        if let Some(step) = require_member(replies, 0) {
            return step;
        }
        if replies.len() == 1 {
            return Step::Call(ConversationCall::MarkThreadRead {
                thread_id: cmd.thread_id,
                user_id: cmd.user_id,
                last_read_message_id: cmd.last_read_message_id,
            });
        }
        match take_reply(replies, 1) {
            Ok(ConversationReply::ReadState(s)) => Step::Done(Ok(s)),
            Ok(_) => Step::Done(Err(unexpected_reply())),
            Err(e) => Step::Done(Err(e)),
        }
    }

    /// Creates thread message for thread participant.
    ///
    /// # Parameters
    /// - `cmd`: Thread message create command.
    /// - `replies`: Answers to the calls made so far.
    pub fn create_thread_message(&self, cmd: &CreateThreadMessageCommand, replies: &mut Vec<AppResult<ConversationReply>>) -> (step: ConversationStep<ThreadMessageRecord>)
        ensures
            ({
                let rs = old(replies)@;
                let ok = content_problem(cmd.content@) is None;
                &&& content_problem(cmd.content@) matches Some(m) ==> fails(step, ErrorKind::Validation, m)
                &&& ok && rs.len() == 0 ==> step == Step::<ConversationCall, ThreadMessageRecord>::Call(ConversationCall::FindThreadAccess { thread_id: cmd.thread_id, user_id: cmd.user_id })
                &&& ok && rs.len() >= 1 && !(rs[0] matches Ok(ConversationReply::MaybeAccess(Some(_)))) ==> misses(rs[0], step, |r: ConversationReply| r is MaybeAccess, "thread not found"@)
                &&& ok && rs.len() >= 1 ==> (rs[0] matches Ok(ConversationReply::MaybeAccess(Some(access))) ==> {
                    &&& awaits_acceptance(access, cmd.user_id) ==> fails(step, ErrorKind::Forbidden, "direct thread request must be accepted before receiver can send messages"@)
                    &&& !awaits_acceptance(access, cmd.user_id) && rs.len() == 1 ==> (step matches Step::Call(ConversationCall::CreateThreadMessage { thread_id, author_id, content }) && thread_id == cmd.thread_id && author_id == cmd.user_id && content@ == trim_chars(cmd.content@))
                    &&& !awaits_acceptance(access, cmd.user_id) && rs.len() >= 2 ==> relays(rs[1], step, |r: ConversationReply| if let ConversationReply::ThreadMessage(m) = r { Some(m) } else { None })
                    &&& (access.kind@ != "DIRECT"@ || access.direct_status@ != "PENDING"@ || access.requested_by == Some(cmd.user_id)) && rs.len() == 1 ==> (step matches Step::Call(ConversationCall::CreateThreadMessage { thread_id, author_id, .. }) && thread_id == cmd.thread_id && author_id == cmd.user_id)
                    &&& access.kind@ == "DIRECT"@ && access.direct_status@ == "PENDING"@ && access.requested_by != Some(cmd.user_id) ==> fails(step, ErrorKind::Forbidden, "direct thread request must be accepted before receiver can send messages"@)
                })
            }),
    {
        if let Err(e) = validate_message_content(cmd.content.as_str()) {
            return Step::Done(Err(e));
        }
        if replies.len() == 0 {
            return Step::Call(ConversationCall::FindThreadAccess { thread_id: cmd.thread_id, user_id: cmd.user_id });
        }
        match &replies[0] {
            Ok(ConversationReply::MaybeAccess(Some(access))) => {
                if awaits_acceptance_of(access, cmd.user_id) {
                    return Step::Done(Err(AppError::forbidden("direct thread request must be accepted before receiver can send messages")));
                }
            },
            Ok(ConversationReply::MaybeAccess(None)) => return Step::Done(Err(AppError::not_found("thread not found"))),
            _ => return stop(replies, 0),
        }
        if replies.len() == 1 {
            return Step::Call(ConversationCall::CreateThreadMessage {
                thread_id: cmd.thread_id,
                author_id: cmd.user_id,
                content: trim(cmd.content.as_str()).to_owned(),
            });
        }
        match take_reply(replies, 1) {
            Ok(ConversationReply::ThreadMessage(m)) => Step::Done(Ok(m)),
            Ok(_) => Step::Done(Err(unexpected_reply())),
            Err(e) => Step::Done(Err(e)),
        }
    }

    /// Lists thread messages for thread participant.
    ///
    /// # Parameters
    /// - `query`: Thread message list query.
    /// - `replies`: Answers to the calls made so far.
    pub fn list_thread_messages(&self, query: &ListThreadMessagesQuery, replies: &mut Vec<AppResult<ConversationReply>>) -> (step: ConversationStep<Vec<ThreadMessageRecord>>)
        ensures
            ({
                let rs = old(replies)@;
                &&& rs.len() == 0 ==> step == Step::<ConversationCall, Vec<ThreadMessageRecord>>::Call(ConversationCall::IsThreadMember { thread_id: query.thread_id, user_id: query.user_id })
                &&& rs.len() >= 1 && !flag_is(rs[0], true) ==> not_member(rs[0], step)
                &&& rs.len() >= 1 && flag_is(rs[0], true) && spec_normalize_limit(query.limit) is None ==> fails(step, ErrorKind::Validation, "limit must be positive"@)
                &&& rs.len() == 1 && flag_is(rs[0], true) ==> (spec_normalize_limit(query.limit) matches Some(l) ==> step == Step::<ConversationCall, Vec<ThreadMessageRecord>>::Call(ConversationCall::ListThreadMessages { thread_id: query.thread_id, before_message_id: query.before, limit: l }))
                &&& rs.len() >= 2 && flag_is(rs[0], true) && spec_normalize_limit(query.limit) is Some ==> relays(rs[1], step, |r: ConversationReply| if let ConversationReply::ThreadMessages(v) = r { Some(v) } else { None })
            }),
    {
        if replies.len() == 0 {
            return Step::Call(ConversationCall::IsThreadMember { thread_id: query.thread_id, user_id: query.user_id });
        }
        if let Some(step) = require_member(replies, 0) {
            return step;
        }
        let limit = match normalize_limit(query.limit) {
            Ok(l) => l,
            Err(e) => return Step::Done(Err(e)),
        };
        if replies.len() == 1 {
            return Step::Call(ConversationCall::ListThreadMessages { thread_id: query.thread_id, before_message_id: query.before, limit });
        }
        match take_reply(replies, 1) {
            Ok(ConversationReply::ThreadMessages(v)) => Step::Done(Ok(v)),
            Ok(_) => Step::Done(Err(unexpected_reply())),
            Err(e) => Step::Done(Err(e)),
        }
    }

    /// Edits author-owned thread message.
    ///
    /// # Parameters
    /// - `cmd`: Thread message edit command.
    /// - `replies`: Answers to the calls made so far.
    pub fn edit_thread_message(&self, cmd: &EditThreadMessageCommand, replies: &mut Vec<AppResult<ConversationReply>>) -> (step: ConversationStep<ThreadMessageRecord>)
        ensures
            ({
                let rs = old(replies)@;
                let ok = content_problem(cmd.content@) is None;
                &&& content_problem(cmd.content@) matches Some(m) ==> fails(step, ErrorKind::Validation, m)
                &&& ok && rs.len() == 0 ==> step == Step::<ConversationCall, ThreadMessageRecord>::Call(ConversationCall::FindThreadMessageById { message_id: cmd.message_id })
                &&& ok && rs.len() >= 1 && live_thread_message(rs[0]) is None ==> thread_message_gone(rs[0], step)
                &&& ok && rs.len() >= 1 ==> (live_thread_message(rs[0]) matches Some(m) ==> {
                    &&& rs.len() == 1 ==> step == Step::<ConversationCall, ThreadMessageRecord>::Call(ConversationCall::IsThreadMember { thread_id: m.thread_id, user_id: cmd.user_id })
                    &&& rs.len() >= 2 && !flag_is(rs[1], true) ==> not_member(rs[1], step)
                    &&& rs.len() >= 2 && flag_is(rs[1], true) && m.author_id != cmd.user_id ==> fails(step, ErrorKind::Forbidden, "only message author can edit thread message"@)
                    &&& rs.len() == 2 && flag_is(rs[1], true) && m.author_id == cmd.user_id ==> (step matches Step::Call(ConversationCall::UpdateThreadMessageContent { message_id, content }) && message_id == cmd.message_id && content@ == trim_chars(cmd.content@))
                    &&& rs.len() >= 3 && flag_is(rs[1], true) && m.author_id == cmd.user_id ==> finds(rs[2], step, |r: ConversationReply| if let ConversationReply::MaybeThreadMessage(t) = r { Some(t) } else { None }, "thread message not found"@)
                })
            }),
    {
        if let Err(e) = validate_message_content(cmd.content.as_str()) {
            return Step::Done(Err(e));
        }
        if replies.len() == 0 {
            return Step::Call(ConversationCall::FindThreadMessageById { message_id: cmd.message_id });
        }
        let (thread_id, author_id) = match thread_message_lookup(replies, 0) {
            Ok(found) => found,
            Err(e) => return Step::Done(Err(e)),
        };
        if replies.len() == 1 {
            return Step::Call(ConversationCall::IsThreadMember { thread_id, user_id: cmd.user_id });
        }
        if let Some(step) = require_member(replies, 1) {
            return step;
        }
        if author_id != cmd.user_id {
            return Step::Done(Err(AppError::forbidden("only message author can edit thread message")));
        }
        if replies.len() == 2 {
            return Step::Call(ConversationCall::UpdateThreadMessageContent {
                message_id: cmd.message_id,
                content: trim(cmd.content.as_str()).to_owned(),
            });
        }
        match take_reply(replies, 2) {
            Ok(ConversationReply::MaybeThreadMessage(Some(m))) => Step::Done(Ok(m)),
            Ok(ConversationReply::MaybeThreadMessage(None)) => Step::Done(Err(AppError::not_found("thread message not found"))),
            Ok(_) => Step::Done(Err(unexpected_reply())),
            Err(e) => Step::Done(Err(e)),
        }
    }

    /// Soft deletes author-owned thread message.
    ///
    /// # Parameters
    /// - `cmd`: Thread message delete command.
    /// - `replies`: Answers to the calls made so far.
    pub fn delete_thread_message(&self, cmd: &DeleteThreadMessageCommand, replies: &mut Vec<AppResult<ConversationReply>>) -> (step: ConversationStep<ThreadMessageDeleted>)
        ensures
            ({
                let rs = old(replies)@;
                &&& rs.len() == 0 ==> step == Step::<ConversationCall, ThreadMessageDeleted>::Call(ConversationCall::FindThreadMessageById { message_id: cmd.message_id })
                &&& rs.len() >= 1 && live_thread_message(rs[0]) is None ==> thread_message_gone(rs[0], step)
                &&& rs.len() >= 1 ==> (live_thread_message(rs[0]) matches Some(m) ==> {
                    &&& rs.len() == 1 ==> step == Step::<ConversationCall, ThreadMessageDeleted>::Call(ConversationCall::IsThreadMember { thread_id: m.thread_id, user_id: cmd.user_id })
                    &&& rs.len() >= 2 && !flag_is(rs[1], true) ==> not_member(rs[1], step)
                    &&& rs.len() >= 2 && flag_is(rs[1], true) && m.author_id != cmd.user_id ==> fails(step, ErrorKind::Forbidden, "only message author can delete thread message"@)
                    &&& rs.len() == 2 && flag_is(rs[1], true) && m.author_id == cmd.user_id ==> step == Step::<ConversationCall, ThreadMessageDeleted>::Call(ConversationCall::SoftDeleteThreadMessage { message_id: cmd.message_id })
                    &&& rs.len() >= 3 && flag_is(rs[1], true) && m.author_id == cmd.user_id ==> match rs[2] {
                        Err(e) => step == Step::<ConversationCall, ThreadMessageDeleted>::Done(Err(e)),
                        Ok(ConversationReply::MaybeThreadMessage(Some(d))) => match d.deleted_at {
                            Some(t) => step == Step::<ConversationCall, ThreadMessageDeleted>::Done(Ok(ThreadMessageDeleted { thread_id: d.thread_id, message_id: d.id, deleted_at: t })),
                            None => fails(step, ErrorKind::Internal, "deleted_at is missing after thread soft delete"@),
                        },
                        Ok(ConversationReply::MaybeThreadMessage(None)) => fails(step, ErrorKind::NotFound, "thread message not found"@),
                        _ => is_unexpected(step),
                    }
                })
            }),
    {
        if replies.len() == 0 {
            return Step::Call(ConversationCall::FindThreadMessageById { message_id: cmd.message_id });
        }
        let (thread_id, author_id) = match thread_message_lookup(replies, 0) {
            Ok(found) => found,
            Err(e) => return Step::Done(Err(e)),
        };
        if replies.len() == 1 {
            return Step::Call(ConversationCall::IsThreadMember { thread_id, user_id: cmd.user_id });
        }
        if let Some(step) = require_member(replies, 1) {
            return step;
        }
        if author_id != cmd.user_id {
            return Step::Done(Err(AppError::forbidden("only message author can delete thread message")));
        }
        if replies.len() == 2 {
            return Step::Call(ConversationCall::SoftDeleteThreadMessage { message_id: cmd.message_id });
        }
        match take_reply(replies, 2) {
            Ok(ConversationReply::MaybeThreadMessage(Some(d))) => match d.deleted_at {
                Some(t) => Step::Done(Ok(ThreadMessageDeleted { thread_id: d.thread_id, message_id: d.id, deleted_at: t })),
                None => Step::Done(Err(AppError::internal("deleted_at is missing after thread soft delete"))),
            },
            Ok(ConversationReply::MaybeThreadMessage(None)) => Step::Done(Err(AppError::not_found("thread message not found"))),
            Ok(_) => Step::Done(Err(unexpected_reply())),
            Err(e) => Step::Done(Err(e)),
        }
    }

    /// Returns true when user is thread member.
    ///
    /// # Parameters
    /// - `thread_id`: Thread id.
    /// - `user_id`: User id.
    /// - `replies`: Answers to the calls made so far.
    pub fn can_access_thread(&self, thread_id: u128, user_id: u128, replies: &mut Vec<AppResult<ConversationReply>>) -> (step: ConversationStep<bool>)
        ensures
            old(replies)@.len() == 0 ==> step == Step::<ConversationCall, bool>::Call(ConversationCall::IsThreadMember { thread_id, user_id }),
            old(replies)@.len() >= 1 ==> relays(old(replies)@[0], step, |r: ConversationReply| if let ConversationReply::Flag(b) = r { Some(b) } else { None }),
    {
        if replies.len() == 0 {
            return Step::Call(ConversationCall::IsThreadMember { thread_id, user_id });
        }
        match take_reply(replies, 0) {
            Ok(ConversationReply::Flag(b)) => Step::Done(Ok(b)),
            Ok(_) => Step::Done(Err(unexpected_reply())),
            Err(e) => Step::Done(Err(e)),
        }
    }
}

} // verus!
