//! The decisions inside the friendship store: sending a friend request and
//! accepting one.
use vstd::prelude::*;
use crate::domain::{FriendRequestRecord, FriendSummary};
use crate::error::{AppError, AppResult, ErrorKind};
use crate::store::conversation::{ordered_pair, sort_pair};
use crate::text::str_equals;
use crate::use_cases::flow::{fails, stop, stops, Step};

verus! {

/// The statements the friendship store runs.
#[derive(Debug)]
pub enum FriendshipStoreCall {
    AreFriends { user_id_a: u128, user_id_b: u128 },
    PendingRequestExists { from_user_id: u128, to_user_id: u128 },
    /// Stores a pending request unless one is pending already; answers the
    /// stored request. A foreign key violation is reported as `referenced
    /// user not found`.
    UpsertPendingRequest { from_user_id: u128, to_user_id: u128 },
    /// Reads and locks the status of the request.
    LockRequestStatus { from_user_id: u128, to_user_id: u128 },
    MarkRequestAccepted { from_user_id: u128, to_user_id: u128 },
    InsertFriendship { user_id_a: u128, user_id_b: u128 },
    /// Activates the pair's direct thread if it waits for an answer.
    ActivatePendingDirectThread { user_id_a: u128, user_id_b: u128 },
    /// The friend `friend_id` as `user_id` sees them.
    FriendSummaryForUser { user_id: u128, friend_id: u128 },
    Commit,
}

/// The answers to `FriendshipStoreCall`s.
#[derive(Debug)]
pub enum FriendshipStoreReply {
    Flag(bool),
    MaybeRequest(Option<FriendRequestRecord>),
    MaybeStatus(Option<String>),
    Friend(FriendSummary),
    Done,
}

pub type FriendshipStoreStep<T> = Step<FriendshipStoreCall, T>;

/// The reply is `v`.
pub open spec fn reply_is(r: AppResult<FriendshipStoreReply>, v: FriendshipStoreReply) -> bool {
    r == Ok::<FriendshipStoreReply, AppError>(v)
}

/// Sends a friend request: refused between friends, and when the other user
/// already sent one that waits; a request that waits already is not sent
/// twice.
///
/// # Parameters
/// - `from_user_id`: The sender.
/// - `to_user_id`: The receiver.
/// - `replies`: Answers to the statements run so far.
pub fn create_friend_request(from_user_id: u128, to_user_id: u128, replies: &mut Vec<AppResult<FriendshipStoreReply>>) -> (step: FriendshipStoreStep<FriendRequestRecord>)
    ensures
        ({
            let rs = old(replies)@;
            let (a, b) = ordered_pair(from_user_id, to_user_id);
            &&& rs.len() == 0 ==> step == Step::<FriendshipStoreCall, FriendRequestRecord>::Call(FriendshipStoreCall::AreFriends { user_id_a: a, user_id_b: b })
            &&& rs.len() >= 1 && !(rs[0] matches Ok(FriendshipStoreReply::Flag(_))) ==> stops(rs[0], step)
            &&& rs.len() >= 1 && reply_is(rs[0], FriendshipStoreReply::Flag(true)) ==> fails(step, ErrorKind::Conflict, "users are already friends"@)
            &&& rs.len() >= 1 && reply_is(rs[0], FriendshipStoreReply::Flag(false)) ==> {
                &&& rs.len() == 1 ==> step == Step::<FriendshipStoreCall, FriendRequestRecord>::Call(FriendshipStoreCall::PendingRequestExists { from_user_id: to_user_id, to_user_id: from_user_id })
                &&& rs.len() >= 2 && !(rs[1] matches Ok(FriendshipStoreReply::Flag(_))) ==> stops(rs[1], step)
                &&& rs.len() >= 2 && reply_is(rs[1], FriendshipStoreReply::Flag(true)) ==> fails(step, ErrorKind::Conflict, "incoming friend request already exists from this user"@)
                &&& rs.len() == 2 && reply_is(rs[1], FriendshipStoreReply::Flag(false)) ==> step == Step::<FriendshipStoreCall, FriendRequestRecord>::Call(FriendshipStoreCall::UpsertPendingRequest { from_user_id, to_user_id })
                &&& rs.len() >= 3 && reply_is(rs[1], FriendshipStoreReply::Flag(false)) ==> match rs[2] {
                    Ok(FriendshipStoreReply::MaybeRequest(Some(request))) => step == Step::<FriendshipStoreCall, FriendRequestRecord>::Done(Ok(request)),
                    Ok(FriendshipStoreReply::MaybeRequest(None)) => fails(step, ErrorKind::Conflict, "friend request is already pending"@),
                    r => stops(r, step),
                }
            }
        }),
{
    let (a, b) = sort_pair(from_user_id, to_user_id);
    if replies.len() == 0 {
        return Step::Call(FriendshipStoreCall::AreFriends { user_id_a: a, user_id_b: b });
    }
    match &replies[0] {
        Ok(FriendshipStoreReply::Flag(false)) => {},
        Ok(FriendshipStoreReply::Flag(true)) => return Step::Done(Err(AppError::conflict("users are already friends"))),
        _ => return stop(replies, 0),
    }
    if replies.len() == 1 {
        return Step::Call(FriendshipStoreCall::PendingRequestExists { from_user_id: to_user_id, to_user_id: from_user_id });
    }
    match &replies[1] {
        Ok(FriendshipStoreReply::Flag(false)) => {},
        Ok(FriendshipStoreReply::Flag(true)) => return Step::Done(Err(AppError::conflict("incoming friend request already exists from this user"))),
        _ => return stop(replies, 1),
    }
    if replies.len() == 2 {
        return Step::Call(FriendshipStoreCall::UpsertPendingRequest { from_user_id, to_user_id });
    }
    match &replies[2] {
        Ok(FriendshipStoreReply::MaybeRequest(None)) => Step::Done(Err(AppError::conflict("friend request is already pending"))),
        Ok(FriendshipStoreReply::MaybeRequest(Some(_))) => match replies.remove(2) {
            Ok(FriendshipStoreReply::MaybeRequest(Some(request))) => Step::Done(Ok(request)),
            _ => {
                proof {
                    assert(false);
                }
                Step::Done(Err(AppError::conflict("friend request is already pending")))
            },
        },
        _ => stop(replies, 2),
    }
}

/// The status that the lock read.
pub open spec fn locked_status(r: AppResult<FriendshipStoreReply>) -> Option<Option<String>> {
    match r {
        Ok(FriendshipStoreReply::MaybeStatus(s)) => Some(s),
        _ => None,
    }
}

/// The steps of accepting a request once its status is settled: the
/// friendship, the pair's waiting direct thread made active, the new friend
/// as the receiver sees them, and the commit; `k` is where they start.
pub open spec fn befriends(from_user_id: u128, to_user_id: u128, rs: Seq<AppResult<FriendshipStoreReply>>, k: int, step: FriendshipStoreStep<Option<FriendSummary>>) -> bool {
    let (a, b) = ordered_pair(from_user_id, to_user_id);
    &&& rs.len() == k ==> step == Step::<FriendshipStoreCall, Option<FriendSummary>>::Call(FriendshipStoreCall::InsertFriendship { user_id_a: a, user_id_b: b })
    &&& rs.len() > k && !reply_is(rs[k], FriendshipStoreReply::Done) ==> stops(rs[k], step)
    &&& rs.len() == k + 1 && reply_is(rs[k], FriendshipStoreReply::Done) ==> step == Step::<FriendshipStoreCall, Option<FriendSummary>>::Call(FriendshipStoreCall::ActivatePendingDirectThread { user_id_a: a, user_id_b: b })
    &&& rs.len() > k + 1 && reply_is(rs[k], FriendshipStoreReply::Done) && !reply_is(rs[k + 1], FriendshipStoreReply::Done) ==> stops(rs[k + 1], step)
    &&& rs.len() == k + 2 && reply_is(rs[k], FriendshipStoreReply::Done) && reply_is(rs[k + 1], FriendshipStoreReply::Done) ==> step == Step::<FriendshipStoreCall, Option<FriendSummary>>::Call(FriendshipStoreCall::FriendSummaryForUser { user_id: to_user_id, friend_id: from_user_id })
    &&& rs.len() > k + 2 && reply_is(rs[k], FriendshipStoreReply::Done) && reply_is(rs[k + 1], FriendshipStoreReply::Done) ==> match rs[k + 2] {
        Ok(FriendshipStoreReply::Friend(friend)) => {
            &&& rs.len() == k + 3 ==> step == Step::<FriendshipStoreCall, Option<FriendSummary>>::Call(FriendshipStoreCall::Commit)
            &&& rs.len() > k + 3 && reply_is(rs[k + 3], FriendshipStoreReply::Done) ==> step == Step::<FriendshipStoreCall, Option<FriendSummary>>::Done(Ok(Some(friend)))
            &&& rs.len() > k + 3 && !reply_is(rs[k + 3], FriendshipStoreReply::Done) ==> stops(rs[k + 3], step)
        },
        r => stops(r, step),
    }
}

fn expect_done<T>(replies: &mut Vec<AppResult<FriendshipStoreReply>>, k: usize) -> (r: Option<FriendshipStoreStep<T>>)
    requires
        k < old(replies)@.len(),
    ensures
        reply_is(old(replies)@[k as int], FriendshipStoreReply::Done) ==> r is None && final(replies)@ == old(replies)@,
        !reply_is(old(replies)@[k as int], FriendshipStoreReply::Done) ==> (r matches Some(step) && stops(old(replies)@[k as int], step)),
{
    match &replies[k] {
        Ok(FriendshipStoreReply::Done) => None,
        _ => Some(stop(replies, k)),
    }
}

fn befriend(from_user_id: u128, to_user_id: u128, replies: &mut Vec<AppResult<FriendshipStoreReply>>, k: usize) -> (step: FriendshipStoreStep<Option<FriendSummary>>)
    requires
        k <= old(replies)@.len(),
        k < usize::MAX - 3,
    ensures
        befriends(from_user_id, to_user_id, old(replies)@, k as int, step),
{
    let (a, b) = sort_pair(from_user_id, to_user_id);
    if replies.len() == k {
        return Step::Call(FriendshipStoreCall::InsertFriendship { user_id_a: a, user_id_b: b });
    }
    if let Some(step) = expect_done(replies, k) {
        return step;
    }
    if replies.len() == k + 1 {
        return Step::Call(FriendshipStoreCall::ActivatePendingDirectThread { user_id_a: a, user_id_b: b });
    }
    if let Some(step) = expect_done(replies, k + 1) {
        return step;
    }
    if replies.len() == k + 2 {
        return Step::Call(FriendshipStoreCall::FriendSummaryForUser { user_id: to_user_id, friend_id: from_user_id });
    }
    match &replies[k + 2] {
        Ok(FriendshipStoreReply::Friend(_)) => {},
        _ => return stop(replies, k + 2),
    }
    if replies.len() == k + 3 {
        return Step::Call(FriendshipStoreCall::Commit);
    }
    match &replies[k + 3] {
        Ok(FriendshipStoreReply::Done) => {},
        _ => return stop(replies, k + 3),
    }
    match replies.remove(k + 2) {
        Ok(FriendshipStoreReply::Friend(friend)) => Step::Done(Ok(Some(friend))),
        _ => {
            proof {
                assert(false);
            }
            Step::Done(Ok(None))
        },
    }
}

/// Accepts a friend request as its receiver: `None` when there is no such
/// request, refused when it was rejected; a pending request becomes
/// accepted, and the users become friends (again accepting an accepted
/// request only settles the friendship).
///
/// # Parameters
/// - `from_user_id`: The sender of the request.
/// - `to_user_id`: The receiver, who accepts.
/// - `replies`: Answers to the statements run so far.
pub fn accept_friend_request(from_user_id: u128, to_user_id: u128, replies: &mut Vec<AppResult<FriendshipStoreReply>>) -> (step: FriendshipStoreStep<Option<FriendSummary>>)
    ensures
        ({
            let rs = old(replies)@;
            &&& rs.len() == 0 ==> step == Step::<FriendshipStoreCall, Option<FriendSummary>>::Call(FriendshipStoreCall::LockRequestStatus { from_user_id, to_user_id })
            &&& rs.len() >= 1 && locked_status(rs[0]) is None ==> stops(rs[0], step)
            &&& rs.len() >= 1 && locked_status(rs[0]) == Some(None::<String>) ==> step == Step::<FriendshipStoreCall, Option<FriendSummary>>::Done(Ok(None))
            &&& rs.len() >= 1 ==> (locked_status(rs[0]) matches Some(Some(status)) ==> {
                &&& status@ == "REJECTED"@ ==> fails(step, ErrorKind::Validation, "friend request is already rejected"@)
                &&& status@ == "PENDING"@ ==> {
                    &&& rs.len() == 1 ==> step == Step::<FriendshipStoreCall, Option<FriendSummary>>::Call(FriendshipStoreCall::MarkRequestAccepted { from_user_id, to_user_id })
                    &&& rs.len() >= 2 && !reply_is(rs[1], FriendshipStoreReply::Done) ==> stops(rs[1], step)
                    &&& rs.len() >= 2 && reply_is(rs[1], FriendshipStoreReply::Done) ==> befriends(from_user_id, to_user_id, rs, 2, step)
                }
                &&& status@ != "REJECTED"@ && status@ != "PENDING"@ ==> befriends(from_user_id, to_user_id, rs, 1, step)
            })
        }),
{
    if replies.len() == 0 {
        return Step::Call(FriendshipStoreCall::LockRequestStatus { from_user_id, to_user_id });
    }
    let (rejected, pending) = match &replies[0] {
        Ok(FriendshipStoreReply::MaybeStatus(Some(status))) => (str_equals(status.as_str(), "REJECTED"), str_equals(status.as_str(), "PENDING")),
        Ok(FriendshipStoreReply::MaybeStatus(None)) => return Step::Done(Ok(None)),
        _ => return stop(replies, 0),
    };
    proof {
        reveal_strlit("REJECTED");
        reveal_strlit("PENDING");
        assert("REJECTED"@.len() != "PENDING"@.len());
    }
    if rejected {
        return Step::Done(Err(AppError::validation("friend request is already rejected")));
    }
    if pending {
        if replies.len() == 1 {
            return Step::Call(FriendshipStoreCall::MarkRequestAccepted { from_user_id, to_user_id });
        }
        if let Some(step) = expect_done(replies, 1) {
            return step;
        }
        return befriend(from_user_id, to_user_id, replies, 2);
    }
    befriend(from_user_id, to_user_id, replies, 1)
}

} // verus!
