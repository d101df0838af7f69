//! The decisions inside the conversation store's transactions: opening a
//! direct thread, answering a direct thread request, joining a group through
//! an invite, and checking message cursors.
use vstd::prelude::*;
use crate::domain::{DirectThreadSummary, DirectThreadTransition, DirectThreadUpsertResult, GroupThreadSummary};
use crate::error::{AppError, AppResult, ErrorKind};
use crate::platform::{max_abs_unix_nanos, new_uuid_v4, now_unix_nanos};
use crate::store::guild::invite_refusal;
use crate::text::str_equals;
use crate::use_cases::flow::{fails, misses, stop, stops, Step};

verus! {

/// The two users of a direct thread in the order the store keys it by: the
/// smaller id first.
pub open spec fn ordered_pair(a: u128, b: u128) -> (u128, u128) {
    if a < b { (a, b) } else { (b, a) }
}

/// A pair of users has one direct thread whoever opens it: both orders of
/// the pair are keyed alike.
pub proof fn lemma_direct_pair_symmetric(a: u128, b: u128)
    ensures
        ordered_pair(a, b) == ordered_pair(b, a),
        ordered_pair(a, b).0 <= ordered_pair(a, b).1,
{
}

/// The two users of a direct thread, smaller id first.
pub fn sort_pair(a: u128, b: u128) -> (p: (u128, u128))
    ensures
        p == ordered_pair(a, b),
        p.0 <= p.1,
        (p.0 == a && p.1 == b) || (p.0 == b && p.1 == a),
{
    if a < b {
        (a, b)
    } else {
        (b, a)
    }
}

/// The state of a direct thread as locked for an answer to its request.
#[derive(Debug, Clone, PartialEq, Eq)]
pub struct DirectThreadState {
    pub id: u128,
    pub direct_status: String,
    pub requested_by: Option<u128>,
}

/// A group invite row as locked for a join, with the thread it leads to.
#[derive(Debug, Clone, PartialEq, Eq)]
pub struct GroupInviteRow {
    pub thread_id: u128,
    pub name: String,
    pub owner_id: u128,
    pub thread_created_at: i128,
    pub expires_at: i128,
    pub max_uses: Option<i32>,
    pub used_count: i32,
    pub revoked_at: Option<i128>,
}

/// The statements the conversation store runs inside one transaction.
#[derive(Debug)]
pub enum ConversationStoreCall {
    AreFriends { user_id_a: u128, user_id_b: u128 },
    /// Inserts the direct thread of the pair unless it exists; answers the id
    /// of the new thread. A foreign key violation is reported as
    /// `referenced user or thread not found`.
    InsertDirectThread {
        thread_id: u128,
        user_id_a: u128,
        user_id_b: u128,
        status: String,
        requested_by: Option<u128>,
        accepted_at: Option<i128>,
    },
    FindDirectThreadId { user_id_a: u128, user_id_b: u128 },
    EnsureDirectMembership { thread_id: u128, user_id_a: u128, user_id_b: u128 },
    DirectSummaryForMember { thread_id: u128, user_id: u128 },
    LockDirectThreadForMember { thread_id: u128, user_id: u128 },
    /// Marks the thread active; answers when it was accepted.
    ActivateDirectThread { thread_id: u128 },
    DeleteThread { thread_id: u128 },
    FindGroupInviteForUpdate { token: String },
    /// Adds the membership unless it exists; answers whether a row was added.
    /// A foreign key violation is reported as `referenced user or thread not
    /// found`.
    InsertThreadMemberIfAbsent { thread_id: u128, user_id: u128 },
    IncrementGroupInviteUses { token: String },
    Commit,
}

/// The answers to `ConversationStoreCall`s.
#[derive(Debug)]
pub enum ConversationStoreReply {
    Flag(bool),
    MaybeId(Option<u128>),
    Id(u128),
    Summary(DirectThreadSummary),
    MaybeState(Option<DirectThreadState>),
    Instant(i128),
    MaybeGroupInvite(Option<GroupInviteRow>),
    Inserted(bool),
    Done,
}

pub type ConversationStoreStep<T> = Step<ConversationStoreCall, T>;

/// The reply is `v`.
pub open spec fn reply_is(r: AppResult<ConversationStoreReply>, v: ConversationStoreReply) -> bool {
    r == Ok::<ConversationStoreReply, AppError>(v)
}

/// How the transaction ends once it commits: the commit's failure, or
/// `value`.
pub open spec fn commits<T>(r: AppResult<ConversationStoreReply>, step: ConversationStoreStep<T>, value: T) -> bool {
    if reply_is(r, ConversationStoreReply::Done) {
        step == Step::<ConversationStoreCall, T>::Done(Ok(value))
    } else {
        stops(r, step)
    }
}

fn commit_with<T>(replies: &mut Vec<AppResult<ConversationStoreReply>>, k: usize, value: T) -> (step: ConversationStoreStep<T>)
    requires
        k < old(replies)@.len(),
    ensures
        commits(old(replies)@[k as int], step, value),
{
    match &replies[k] {
        Ok(ConversationStoreReply::Done) => Step::Done(Ok(value)),
        _ => stop(replies, k),
    }
}

fn expect_done<T>(replies: &mut Vec<AppResult<ConversationStoreReply>>, k: usize) -> (r: Option<ConversationStoreStep<T>>)
    requires
        k < old(replies)@.len(),
    ensures
        reply_is(old(replies)@[k as int], ConversationStoreReply::Done) ==> r is None && final(replies)@ == old(replies)@,
        !reply_is(old(replies)@[k as int], ConversationStoreReply::Done) ==> (r matches Some(step) && stops(old(replies)@[k as int], step)),
{
    match &replies[k] {
        Ok(ConversationStoreReply::Done) => None,
        _ => Some(stop(replies, k)),
    }
}

/// The id a direct thread insertion answered: the new thread's, or `None`
/// when the pair already had one.
pub open spec fn inserted_id(r: AppResult<ConversationStoreReply>) -> Option<Option<u128>> {
    match r {
        Ok(ConversationStoreReply::MaybeId(id)) => Some(id),
        _ => None,
    }
}

/// `call` inserts the direct thread of `user_id` and `peer_user_id`, active
/// (accepted at a current instant) when they are friends, otherwise pending
/// and requested by `user_id`.
pub open spec fn inserts_direct_thread(call: ConversationStoreCall, user_id: u128, peer_user_id: u128, friends: bool) -> bool {
    let (a, b) = ordered_pair(user_id, peer_user_id);
    call matches ConversationStoreCall::InsertDirectThread { thread_id, user_id_a, user_id_b, status, requested_by, accepted_at } && {
        &&& user_id_a == a && user_id_b == b
        &&& friends ==> status@ == "ACTIVE"@ && requested_by is None && (accepted_at matches Some(t) && -max_abs_unix_nanos() <= t <= max_abs_unix_nanos())
        &&& !friends ==> status@ == "PENDING"@ && requested_by == Some(user_id) && accepted_at is None
    }
}

/// The steps of opening a direct thread once its id is known: membership of
/// both users, the summary as `user_id` sees it, and the commit.
pub open spec fn opens_thread(thread_id: u128, user_id: u128, peer_user_id: u128, created: bool, rs: Seq<AppResult<ConversationStoreReply>>, k: int, step: ConversationStoreStep<DirectThreadUpsertResult>) -> bool {
    let (a, b) = ordered_pair(user_id, peer_user_id);
    &&& rs.len() == k ==> step == Step::<ConversationStoreCall, DirectThreadUpsertResult>::Call(ConversationStoreCall::EnsureDirectMembership { thread_id, user_id_a: a, user_id_b: b })
    &&& rs.len() > k && !reply_is(rs[k], ConversationStoreReply::Done) ==> stops(rs[k], step)
    &&& rs.len() == k + 1 && reply_is(rs[k], ConversationStoreReply::Done) ==> step == Step::<ConversationStoreCall, DirectThreadUpsertResult>::Call(ConversationStoreCall::DirectSummaryForMember { thread_id, user_id })
    &&& rs.len() > k + 1 && reply_is(rs[k], ConversationStoreReply::Done) && !(rs[k + 1] matches Ok(ConversationStoreReply::Summary(_))) ==> stops(rs[k + 1], step)
    &&& rs.len() > k + 1 && reply_is(rs[k], ConversationStoreReply::Done) ==> (rs[k + 1] matches Ok(ConversationStoreReply::Summary(summary)) ==> {
        &&& rs.len() == k + 2 ==> step == Step::<ConversationStoreCall, DirectThreadUpsertResult>::Call(ConversationStoreCall::Commit)
        &&& rs.len() > k + 2 ==> commits(rs[k + 2], step, DirectThreadUpsertResult { thread: summary, created })
    })
}

fn open_thread(thread_id: u128, user_id: u128, peer_user_id: u128, created: bool, replies: &mut Vec<AppResult<ConversationStoreReply>>, k: usize) -> (step: ConversationStoreStep<DirectThreadUpsertResult>)
    requires
        k <= old(replies)@.len(),
        k < usize::MAX - 2,
    ensures
        opens_thread(thread_id, user_id, peer_user_id, created, old(replies)@, k as int, step),
{
    let (a, b) = sort_pair(user_id, peer_user_id);
    if replies.len() == k {
        return Step::Call(ConversationStoreCall::EnsureDirectMembership { thread_id, user_id_a: a, user_id_b: b });
    }
    if let Some(step) = expect_done(replies, k) {
        return step;
    }
    if replies.len() == k + 1 {
        return Step::Call(ConversationStoreCall::DirectSummaryForMember { thread_id, user_id });
    }
    match &replies[k + 1] {
        Ok(ConversationStoreReply::Summary(_)) => {},
        _ => return stop(replies, k + 1),
    }
    if replies.len() == k + 2 {
        return Step::Call(ConversationStoreCall::Commit);
    }
    let summary = match &replies[k + 1] {
        Ok(ConversationStoreReply::Summary(s)) => copy_summary(s),
        _ => {
            proof {
                assert(false);
            }
            return stop(replies, k + 1);
        },
    };
    commit_with(replies, k + 2, DirectThreadUpsertResult { thread: summary, created })
}

fn copy_summary(s: &DirectThreadSummary) -> (r: DirectThreadSummary)
    ensures
        r == *s,
{
    DirectThreadSummary {
        id: s.id,
        peer_user_id: s.peer_user_id,
        peer_username: s.peer_username.clone(),
        status: s.status.clone(),
        requested_by: s.requested_by,
        accepted_at: s.accepted_at,
        created_at: s.created_at,
        has_unread: s.has_unread,
    }
}

/// Creates the direct thread of two users, or finds the one they have: it is
/// active at once when they are friends, otherwise a request of `user_id`
/// that waits for the peer; both users are members; the result is the thread
/// as `user_id` sees it and whether it was created.
///
/// # Parameters
/// - `user_id`: The user who opens the thread.
/// - `peer_user_id`: The other user.
/// - `replies`: Answers to the statements run so far.
pub fn create_or_get_direct_thread(user_id: u128, peer_user_id: u128, replies: &mut Vec<AppResult<ConversationStoreReply>>) -> (step: ConversationStoreStep<DirectThreadUpsertResult>)
    ensures
        ({
            let rs = old(replies)@;
            let (a, b) = ordered_pair(user_id, peer_user_id);
            &&& rs.len() == 0 ==> step == Step::<ConversationStoreCall, DirectThreadUpsertResult>::Call(ConversationStoreCall::AreFriends { user_id_a: a, user_id_b: b })
            &&& rs.len() >= 1 && !(rs[0] matches Ok(ConversationStoreReply::Flag(_))) ==> stops(rs[0], step)
            &&& rs.len() >= 1 ==> (rs[0] matches Ok(ConversationStoreReply::Flag(friends)) ==> {
                &&& rs.len() == 1 ==> (step matches Step::Call(call) && inserts_direct_thread(call, user_id, peer_user_id, friends))
                &&& rs.len() >= 2 && inserted_id(rs[1]) is None ==> stops(rs[1], step)
                &&& rs.len() >= 2 ==> (inserted_id(rs[1]) matches Some(Some(id)) ==> opens_thread(id, user_id, peer_user_id, true, rs, 2, step))
                &&& rs.len() >= 2 && inserted_id(rs[1]) == Some(None::<u128>) ==> {
                    &&& rs.len() == 2 ==> step == Step::<ConversationStoreCall, DirectThreadUpsertResult>::Call(ConversationStoreCall::FindDirectThreadId { user_id_a: a, user_id_b: b })
                    &&& rs.len() >= 3 && !(rs[2] matches Ok(ConversationStoreReply::Id(_))) ==> stops(rs[2], step)
                    &&& rs.len() >= 3 ==> (rs[2] matches Ok(ConversationStoreReply::Id(id)) ==> opens_thread(id, user_id, peer_user_id, false, rs, 3, step))
                }
            })
        }),
{
    let (a, b) = sort_pair(user_id, peer_user_id);
    if replies.len() == 0 {
        return Step::Call(ConversationStoreCall::AreFriends { user_id_a: a, user_id_b: b });
    }
    let friends = match &replies[0] {
        Ok(ConversationStoreReply::Flag(f)) => *f,
        _ => return stop(replies, 0),
    };
    if replies.len() == 1 {
        let thread_id = new_uuid_v4();
        if friends {
            let now = now_unix_nanos();
            return Step::Call(ConversationStoreCall::InsertDirectThread {
                thread_id,
                user_id_a: a,
                user_id_b: b,
                status: String::from_str("ACTIVE"),
                requested_by: None,
                accepted_at: Some(now),
            });
        }
        return Step::Call(ConversationStoreCall::InsertDirectThread {
            thread_id,
            user_id_a: a,
            user_id_b: b,
            status: String::from_str("PENDING"),
            requested_by: Some(user_id),
            accepted_at: None,
        });
    }
    let created_id = match &replies[1] {
        Ok(ConversationStoreReply::MaybeId(id)) => *id,
        _ => return stop(replies, 1),
    };
    match created_id {
        Some(id) => open_thread(id, user_id, peer_user_id, true, replies, 2),
        None => {
            if replies.len() == 2 {
                return Step::Call(ConversationStoreCall::FindDirectThreadId { user_id_a: a, user_id_b: b });
            }
            let id = match &replies[2] {
                Ok(ConversationStoreReply::Id(id)) => *id,
                _ => return stop(replies, 2),
            };
            open_thread(id, user_id, peer_user_id, false, replies, 3)
        },
    }
}

/// Which answer to a direct thread request is given.
#[derive(Debug, Clone, Copy, PartialEq, Eq, Structural)]
pub enum RequestAnswer {
    Accept,
    Reject,
}

/// Why the receiver cannot give `answer` to the request in `state`, as the
/// category and message of the error, if it cannot.
pub open spec fn answer_refusal(state: DirectThreadState, receiver_user_id: u128, answer: RequestAnswer) -> Option<(ErrorKind, Seq<char>)> {
    if state.direct_status@ != "PENDING"@ {
        Some((ErrorKind::Validation, if answer == RequestAnswer::Accept { "direct thread is already active"@ } else { "only pending direct thread can be rejected"@ }))
    } else if state.requested_by is None {
        Some((ErrorKind::Internal, "pending direct thread missing requester"@))
    } else if state.requested_by == Some(receiver_user_id) {
        Some((ErrorKind::Validation, if answer == RequestAnswer::Accept { "requester cannot accept own direct thread"@ } else { "requester cannot reject own direct thread"@ }))
    } else {
        None
    }
}

/// Only the other member can answer a pending request, and accepting and
/// rejecting are refused on the same states: a request that the answering
/// user made is refused as invalid whatever the answer, as is a thread that
/// is no longer pending; a pending request without a requester is an
/// internal fault.
pub proof fn lemma_only_the_receiver_answers(state: DirectThreadState, user_id: u128, answer: RequestAnswer)
    ensures
        state.requested_by == Some(user_id) ==> (answer_refusal(state, user_id, answer) matches Some((kind, _)) && kind == ErrorKind::Validation),
        state.requested_by == Some(user_id) && state.direct_status@ == "PENDING"@ ==> answer_refusal(state, user_id, answer) == Some((ErrorKind::Validation, if answer == RequestAnswer::Accept { "requester cannot accept own direct thread"@ } else { "requester cannot reject own direct thread"@ })),
        answer_refusal(state, user_id, answer) is None <==> (state.direct_status@ == "PENDING"@ && state.requested_by is Some && state.requested_by != Some(user_id)),
        answer_refusal(state, user_id, RequestAnswer::Accept) is None <==> answer_refusal(state, user_id, RequestAnswer::Reject) is None,
        state.direct_status@ != "PENDING"@ ==> (answer_refusal(state, user_id, answer) matches Some((kind, _)) && kind == ErrorKind::Validation),
{
}

/// The state of the thread that the lock found.
pub open spec fn locked_state(r: AppResult<ConversationStoreReply>) -> Option<Option<DirectThreadState>> {
    match r {
        Ok(ConversationStoreReply::MaybeState(s)) => Some(s),
        _ => None,
    }
}

fn refuse_answer(state: &DirectThreadState, receiver_user_id: u128, answer: RequestAnswer) -> (r: Option<AppError>)
    ensures
        answer_refusal(*state, receiver_user_id, answer) is None ==> r is None,
        answer_refusal(*state, receiver_user_id, answer) matches Some((kind, msg)) ==> (r matches Some(e) && e.is(kind, msg)),
        state.requested_by == Some(receiver_user_id) ==> (r matches Some(e) && e.kind() == ErrorKind::Validation),
        r is None <==> (state.direct_status@ == "PENDING"@ && state.requested_by is Some && state.requested_by != Some(receiver_user_id)),
{
    if !str_equals(state.direct_status.as_str(), "PENDING") {
        return match answer {
            RequestAnswer::Accept => Some(AppError::validation("direct thread is already active")),
            RequestAnswer::Reject => Some(AppError::validation("only pending direct thread can be rejected")),
        };
    }
    match state.requested_by {
        None => Some(AppError::internal("pending direct thread missing requester")),
        Some(requester) => {
            if requester == receiver_user_id {
                match answer {
                    RequestAnswer::Accept => Some(AppError::validation("requester cannot accept own direct thread")),
                    RequestAnswer::Reject => Some(AppError::validation("requester cannot reject own direct thread")),
                }
            } else {
                None
            }
        },
    }
}

/// Answers a pending direct thread request as its receiver: accepting
/// activates the thread, rejecting deletes it. `None` when the receiver has
/// no such direct thread.
///
/// # Parameters
/// - `thread_id`: The direct thread.
/// - `receiver_user_id`: The user who answers.
/// - `answer`: Accept or reject.
/// - `replies`: Answers to the statements run so far.
pub fn answer_direct_thread_request(thread_id: u128, receiver_user_id: u128, answer: RequestAnswer, replies: &mut Vec<AppResult<ConversationStoreReply>>) -> (step: ConversationStoreStep<Option<DirectThreadTransition>>)
    ensures
        ({
            let rs = old(replies)@;
            &&& rs.len() == 0 ==> step == Step::<ConversationStoreCall, Option<DirectThreadTransition>>::Call(ConversationStoreCall::LockDirectThreadForMember { thread_id, user_id: receiver_user_id })
            &&& rs.len() >= 1 && locked_state(rs[0]) is None ==> stops(rs[0], step)
            &&& rs.len() >= 1 && locked_state(rs[0]) == Some(None::<DirectThreadState>) ==> step == Step::<ConversationStoreCall, Option<DirectThreadTransition>>::Done(Ok(None))
            &&& rs.len() >= 1 ==> (locked_state(rs[0]) matches Some(Some(state)) ==> (state.requested_by == Some(receiver_user_id) ==> (step matches Step::Done(Err(e)) && e.kind() == ErrorKind::Validation)))
            &&& rs.len() >= 1 ==> (locked_state(rs[0]) matches Some(Some(state)) ==> (state.direct_status@ != "PENDING"@ ==> (step matches Step::Done(Err(e)) && e.kind() == ErrorKind::Validation)))
            &&& rs.len() >= 1 ==> (locked_state(rs[0]) matches Some(Some(state)) ==> match answer_refusal(state, receiver_user_id, answer) {
                Some((kind, msg)) => fails(step, kind, msg),
                None => {
                    let requester = state.requested_by->Some_0;
                    &&& rs.len() == 1 && answer == RequestAnswer::Accept ==> step == Step::<ConversationStoreCall, Option<DirectThreadTransition>>::Call(ConversationStoreCall::ActivateDirectThread { thread_id: state.id })
                    &&& rs.len() == 1 && answer == RequestAnswer::Reject ==> step == Step::<ConversationStoreCall, Option<DirectThreadTransition>>::Call(ConversationStoreCall::DeleteThread { thread_id: state.id })
                    &&& rs.len() >= 2 && answer == RequestAnswer::Accept && !(rs[1] matches Ok(ConversationStoreReply::Instant(_))) ==> stops(rs[1], step)
                    &&& rs.len() >= 2 && answer == RequestAnswer::Reject && !reply_is(rs[1], ConversationStoreReply::Done) ==> stops(rs[1], step)
                    &&& rs.len() == 2 && (rs[1] matches Ok(ConversationStoreReply::Instant(_)) && answer == RequestAnswer::Accept || reply_is(rs[1], ConversationStoreReply::Done) && answer == RequestAnswer::Reject) ==> step == Step::<ConversationStoreCall, Option<DirectThreadTransition>>::Call(ConversationStoreCall::Commit)
                    &&& rs.len() >= 3 && answer == RequestAnswer::Accept ==> (rs[1] matches Ok(ConversationStoreReply::Instant(t)) ==> commits(rs[2], step, Some(DirectThreadTransition { thread_id, requester_user_id: requester, receiver_user_id, accepted_at: Some(t) })))
                    &&& rs.len() >= 3 && answer == RequestAnswer::Reject && reply_is(rs[1], ConversationStoreReply::Done) ==> commits(rs[2], step, Some(DirectThreadTransition { thread_id, requester_user_id: requester, receiver_user_id, accepted_at: None }))
                },
            })
        }),
{
    if replies.len() == 0 {
        return Step::Call(ConversationStoreCall::LockDirectThreadForMember { thread_id, user_id: receiver_user_id });
    }
    let (locked_id, requester) = match &replies[0] {
        Ok(ConversationStoreReply::MaybeState(Some(state))) => {
            if let Some(e) = refuse_answer(state, receiver_user_id, answer) {
                return Step::Done(Err(e));
            }
            match state.requested_by {
                Some(r) => (state.id, r),
                None => {
                    proof {
                        assert(false);
                    }
                    return Step::Done(Err(AppError::internal("pending direct thread missing requester")));
                },
            }
        },
        Ok(ConversationStoreReply::MaybeState(None)) => return Step::Done(Ok(None)),
        _ => return stop(replies, 0),
    };
    if replies.len() == 1 {
        return match answer {
            RequestAnswer::Accept => Step::Call(ConversationStoreCall::ActivateDirectThread { thread_id: locked_id }),
            RequestAnswer::Reject => Step::Call(ConversationStoreCall::DeleteThread { thread_id: locked_id }),
        };
    }
    let accepted_at = match answer {
        RequestAnswer::Accept => match &replies[1] {
            Ok(ConversationStoreReply::Instant(t)) => Some(*t),
            _ => return stop(replies, 1),
        },
        RequestAnswer::Reject => match &replies[1] {
            Ok(ConversationStoreReply::Done) => None,
            _ => return stop(replies, 1),
        },
    };
    if replies.len() == 2 {
        return Step::Call(ConversationStoreCall::Commit);
    }
    commit_with(replies, 2, Some(DirectThreadTransition { thread_id, requester_user_id: requester, receiver_user_id, accepted_at }))
}

/// The invite that the lookup found, unless it was revoked.
pub open spec fn live_group_invite(r: AppResult<ConversationStoreReply>) -> Option<GroupInviteRow> {
    match r {
        Ok(ConversationStoreReply::MaybeGroupInvite(Some(inv))) => if inv.revoked_at is None {
            Some(inv)
        } else {
            None
        },
        _ => None,
    }
}

/// The group thread an invite leads to.
pub open spec fn group_of(inv: GroupInviteRow) -> GroupThreadSummary {
    GroupThreadSummary {
        id: inv.thread_id,
        name: inv.name,
        owner_id: inv.owner_id,
        created_at: inv.thread_created_at,
        has_unread: false,
    }
}

fn group_of_invite(replies: &Vec<AppResult<ConversationStoreReply>>) -> (g: GroupThreadSummary)
    requires
        replies@.len() >= 1,
        live_group_invite(replies@[0]) is Some,
    ensures
        g == group_of(live_group_invite(replies@[0])->Some_0),
{
    match &replies[0] {
        Ok(ConversationStoreReply::MaybeGroupInvite(Some(inv))) => GroupThreadSummary {
            id: inv.thread_id,
            name: inv.name.clone(),
            owner_id: inv.owner_id,
            created_at: inv.thread_created_at,
            has_unread: false,
        },
        _ => {
            proof {
                assert(false);
            }
            GroupThreadSummary { id: 0, name: String::new(), owner_id: 0, created_at: 0, has_unread: false }
        },
    }
}

/// Joins a group thread through an invite token, as of instant `now`: a
/// missing or revoked invite is not found, an expired or used up one is
/// refused; a new member uses the invite once, a member stays one.
///
/// # Parameters
/// - `token`: The invite token.
/// - `user_id`: The user who joins.
/// - `now`: The current instant, in nanoseconds since the epoch.
/// - `replies`: Answers to the statements run so far.
pub fn join_group_via_invite(token: &str, user_id: u128, now: i128, replies: &mut Vec<AppResult<ConversationStoreReply>>) -> (step: ConversationStoreStep<GroupThreadSummary>)
    ensures
        ({
            let rs = old(replies)@;
            &&& rs.len() == 0 ==> (step matches Step::Call(ConversationStoreCall::FindGroupInviteForUpdate { token: t }) && t@ == token@)
            &&& rs.len() >= 1 && live_group_invite(rs[0]) is None ==> misses(rs[0], step, |r: ConversationStoreReply| r is MaybeGroupInvite, "invite not found"@)
            &&& rs.len() >= 1 ==> (live_group_invite(rs[0]) matches Some(inv) ==> (inv.expires_at < now ==> fails(step, ErrorKind::Validation, "invite token is expired"@)))
            &&& rs.len() >= 1 ==> (live_group_invite(rs[0]) matches Some(inv) ==> (inv.expires_at >= now && (inv.max_uses matches Some(cap) && inv.used_count >= cap) ==> fails(step, ErrorKind::Validation, "invite token usage limit exceeded"@)))
            &&& rs.len() >= 1 ==> (live_group_invite(rs[0]) matches Some(inv) ==> match invite_refusal(inv.expires_at, inv.max_uses, inv.used_count, now) {
                Some(m) => fails(step, ErrorKind::Validation, m),
                None => {
                    &&& rs.len() == 1 ==> step == Step::<ConversationStoreCall, GroupThreadSummary>::Call(ConversationStoreCall::InsertThreadMemberIfAbsent { thread_id: inv.thread_id, user_id })
                    &&& rs.len() >= 2 && !(rs[1] matches Ok(ConversationStoreReply::Inserted(_))) ==> stops(rs[1], step)
                    &&& rs.len() >= 2 && reply_is(rs[1], ConversationStoreReply::Inserted(false)) ==> {
                        &&& rs.len() == 2 ==> step == Step::<ConversationStoreCall, GroupThreadSummary>::Call(ConversationStoreCall::Commit)
                        &&& rs.len() >= 3 ==> commits(rs[2], step, group_of(inv))
                    }
                    &&& rs.len() >= 2 && reply_is(rs[1], ConversationStoreReply::Inserted(true)) ==> {
                        &&& rs.len() == 2 ==> (step matches Step::Call(ConversationStoreCall::IncrementGroupInviteUses { token: t }) && t@ == token@)
                        &&& rs.len() >= 3 && !reply_is(rs[2], ConversationStoreReply::Done) ==> stops(rs[2], step)
                        &&& rs.len() == 3 && reply_is(rs[2], ConversationStoreReply::Done) ==> step == Step::<ConversationStoreCall, GroupThreadSummary>::Call(ConversationStoreCall::Commit)
                        &&& rs.len() >= 4 && reply_is(rs[2], ConversationStoreReply::Done) ==> commits(rs[3], step, group_of(inv))
                    }
                },
            })
        }),
{
    if replies.len() == 0 {
        return Step::Call(ConversationStoreCall::FindGroupInviteForUpdate { token: token.to_owned() });
    }
    let (thread_id, expires_at, max_uses, used) = match &replies[0] {
        Ok(ConversationStoreReply::MaybeGroupInvite(Some(inv))) => {
            if inv.revoked_at.is_some() {
                return Step::Done(Err(AppError::not_found("invite not found")));
            }
            (inv.thread_id, inv.expires_at, inv.max_uses, inv.used_count)
        },
        Ok(ConversationStoreReply::MaybeGroupInvite(None)) => return Step::Done(Err(AppError::not_found("invite not found"))),
        _ => return stop(replies, 0),
    };
    if expires_at < now {
        return Step::Done(Err(AppError::validation("invite token is expired")));
    }
    if let Some(m) = max_uses {
        if used >= m {
            return Step::Done(Err(AppError::validation("invite token usage limit exceeded")));
        }
    }
    if replies.len() == 1 {
        return Step::Call(ConversationStoreCall::InsertThreadMemberIfAbsent { thread_id, user_id });
    }
    let inserted = match &replies[1] {
        Ok(ConversationStoreReply::Inserted(b)) => *b,
        _ => return stop(replies, 1),
    };
    if !inserted {
        if replies.len() == 2 {
            return Step::Call(ConversationStoreCall::Commit);
        }
        let group = group_of_invite(replies);
        return commit_with(replies, 2, group);
    }
    if replies.len() == 2 {
        return Step::Call(ConversationStoreCall::IncrementGroupInviteUses { token: token.to_owned() });
    }
    if let Some(step) = expect_done(replies, 2) {
        return step;
    }
    if replies.len() == 3 {
        return Step::Call(ConversationStoreCall::Commit);
    }
    let group = group_of_invite(replies);
    commit_with(replies, 3, group)
}

/// A cursor message as found in its thread or channel: `(created_at, id)`.
pub type Anchor = (i128, u128);

/// The anchor of a `before` cursor: no cursor means no anchor, and a cursor
/// that names no message of the thread or channel is refused.
pub fn check_anchor(before_message_id: Option<u128>, found: Option<Anchor>) -> (r: AppResult<Option<Anchor>>)
    ensures
        before_message_id is None ==> r == Ok::<Option<Anchor>, AppError>(None),
        before_message_id is Some && found is Some ==> r == Ok::<Option<Anchor>, AppError>(found),
        before_message_id is Some && found is None ==> (r matches Err(e) && e.is(ErrorKind::Validation, "invalid before cursor"@)),
{
    if before_message_id.is_none() {
        return Ok(None);
    }
    match found {
        Some(a) => Ok(Some(a)),
        None => Err(AppError::validation("invalid before cursor")),
    }
}

/// The read marker to store: the requested message when it is a live
/// message of the thread or channel, refused when it is not; without a
/// request, the newest live message (`latest`), if any.
pub fn check_last_read(requested_message_id: Option<u128>, valid: Option<u128>, latest: Option<u128>) -> (r: AppResult<Option<u128>>)
    ensures
        requested_message_id is None ==> r == Ok::<Option<u128>, AppError>(latest),
        requested_message_id is Some && valid is Some ==> r == Ok::<Option<u128>, AppError>(valid),
        requested_message_id is Some && valid is None ==> (r matches Err(e) && e.is(ErrorKind::Validation, "invalid last_read_message_id"@)),
{
    if requested_message_id.is_none() {
        return Ok(latest);
    }
    match valid {
        Some(id) => Ok(Some(id)),
        None => Err(AppError::validation("invalid last_read_message_id")),
    }
}

} // verus!
