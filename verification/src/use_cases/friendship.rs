//! Friend requests between users and the friendships they lead to.
use vstd::prelude::*;
use crate::domain::{FriendRequestRecord, FriendRequestSummary, FriendSummary};
use crate::error::{AppError, AppResult, ErrorKind};
use crate::use_cases::flow::{fails, finds, relays, stop, stops, take_reply, unexpected_reply, Step};

verus! {

pub struct CreateFriendRequestCommand {
    pub from_user_id: u128,
    pub to_user_id: u128,
}

pub struct RespondFriendRequestCommand {
    pub user_id: u128,
    pub from_user_id: u128,
}

/// Which pending friend requests a listing shows.
#[derive(Debug, Clone, Copy, PartialEq, Eq)]
pub enum FriendRequestInboxFilter {
    /// Requests sent to the user.
    Pending,
    /// Requests the user sent.
    Outbox,
}

/// The calls that the friendship use case makes to its repository.
#[derive(Debug)]
pub enum FriendshipCall {
    CreateFriendRequest { from_user_id: u128, to_user_id: u128 },
    AcceptFriendRequest { from_user_id: u128, to_user_id: u128 },
    RejectFriendRequest { from_user_id: u128, to_user_id: u128 },
    ListPendingInboxRequests { user_id: u128 },
    ListPendingOutboxRequests { user_id: u128 },
    ListFriends { user_id: u128 },
}

/// The answers to `FriendshipCall`s.
#[derive(Debug)]
pub enum FriendshipReply {
    Request(FriendRequestRecord),
    MaybeFriend(Option<FriendSummary>),
    Flag(bool),
    Requests(Vec<FriendRequestSummary>),
    Friends(Vec<FriendSummary>),
}

pub type FriendshipStep<T> = Step<FriendshipCall, T>;

/// Friendship use case.
pub struct FriendshipUseCase {}

impl FriendshipUseCase {
    /// Builds friendship use-case.
    pub fn new() -> (u: Self) {
        FriendshipUseCase {  }
    }

    /// Sends friend request to another user.
    ///
    /// # Parameters
    /// - `cmd`: Friend request creation command.
    /// - `replies`: Answers to the calls made so far.
    pub fn create_friend_request(&self, cmd: &CreateFriendRequestCommand, replies: &mut Vec<AppResult<FriendshipReply>>) -> (step: FriendshipStep<FriendRequestRecord>)
        ensures
            cmd.from_user_id == cmd.to_user_id ==> fails(step, ErrorKind::Validation, "cannot send friend request to yourself"@),
            cmd.from_user_id != cmd.to_user_id && old(replies)@.len() == 0 ==> step == Step::<FriendshipCall, FriendRequestRecord>::Call(FriendshipCall::CreateFriendRequest { from_user_id: cmd.from_user_id, to_user_id: cmd.to_user_id }),
            cmd.from_user_id != cmd.to_user_id && old(replies)@.len() >= 1 ==> relays(old(replies)@[0], step, |r: FriendshipReply| if let FriendshipReply::Request(q) = r { Some(q) } else { None }),
    {
        if cmd.from_user_id == cmd.to_user_id {
            return Step::Done(Err(AppError::validation("cannot send friend request to yourself")));
        }
        if replies.len() == 0 {
            return Step::Call(FriendshipCall::CreateFriendRequest { from_user_id: cmd.from_user_id, to_user_id: cmd.to_user_id });
        }
        match take_reply(replies, 0) {
            Ok(FriendshipReply::Request(q)) => Step::Done(Ok(q)),
            Ok(_) => Step::Done(Err(unexpected_reply())),
            Err(e) => Step::Done(Err(e)),
        }
    }

    /// Accepts incoming friend request and returns friend summary.
    ///
    /// # Parameters
    /// - `cmd`: Friend request response command.
    /// - `replies`: Answers to the calls made so far.
    pub fn accept_friend_request(&self, cmd: &RespondFriendRequestCommand, replies: &mut Vec<AppResult<FriendshipReply>>) -> (step: FriendshipStep<FriendSummary>)
        ensures
            old(replies)@.len() == 0 ==> step == Step::<FriendshipCall, FriendSummary>::Call(FriendshipCall::AcceptFriendRequest { from_user_id: cmd.from_user_id, to_user_id: cmd.user_id }),
            old(replies)@.len() >= 1 ==> finds(old(replies)@[0], step, |r: FriendshipReply| if let FriendshipReply::MaybeFriend(f) = r { Some(f) } else { None }, "friend request not found"@),
    {
        if replies.len() == 0 {
            return Step::Call(FriendshipCall::AcceptFriendRequest { from_user_id: cmd.from_user_id, to_user_id: cmd.user_id });
        }
        match take_reply(replies, 0) {
            Ok(FriendshipReply::MaybeFriend(Some(f))) => Step::Done(Ok(f)),
            Ok(FriendshipReply::MaybeFriend(None)) => Step::Done(Err(AppError::not_found("friend request not found"))),
            Ok(_) => Step::Done(Err(unexpected_reply())),
            Err(e) => Step::Done(Err(e)),
        }
    }

    /// Rejects incoming friend request.
    ///
    /// # Parameters
    /// - `cmd`: Friend request response command.
    /// - `replies`: Answers to the calls made so far.
    pub fn reject_friend_request(&self, cmd: &RespondFriendRequestCommand, replies: &mut Vec<AppResult<FriendshipReply>>) -> (step: FriendshipStep<()>)
        ensures
            old(replies)@.len() == 0 ==> step == Step::<FriendshipCall, ()>::Call(FriendshipCall::RejectFriendRequest { from_user_id: cmd.from_user_id, to_user_id: cmd.user_id }),
            old(replies)@.len() >= 1 ==> match old(replies)@[0] {
                Ok(FriendshipReply::Flag(true)) => step == Step::<FriendshipCall, ()>::Done(Ok(())),
                Ok(FriendshipReply::Flag(false)) => fails(step, ErrorKind::NotFound, "friend request not found"@),
                r => stops(r, step),
            },
    {
        if replies.len() == 0 {
            return Step::Call(FriendshipCall::RejectFriendRequest { from_user_id: cmd.from_user_id, to_user_id: cmd.user_id });
        }
        match &replies[0] {
            Ok(FriendshipReply::Flag(true)) => Step::Done(Ok(())),
            Ok(FriendshipReply::Flag(false)) => Step::Done(Err(AppError::not_found("friend request not found"))),
            _ => stop(replies, 0),
        }
    }

    /// Lists pending friend requests for inbox or outbox.
    ///
    /// # Parameters
    /// - `user_id`: Authenticated user id.
    /// - `filter`: Pending inbox or outbox selector.
    /// - `replies`: Answers to the calls made so far.
    pub fn list_friend_requests(&self, user_id: u128, filter: FriendRequestInboxFilter, replies: &mut Vec<AppResult<FriendshipReply>>) -> (step: FriendshipStep<Vec<FriendRequestSummary>>)
        ensures
            old(replies)@.len() == 0 && filter == FriendRequestInboxFilter::Pending ==> step == Step::<FriendshipCall, Vec<FriendRequestSummary>>::Call(FriendshipCall::ListPendingInboxRequests { user_id }),
            old(replies)@.len() == 0 && filter == FriendRequestInboxFilter::Outbox ==> step == Step::<FriendshipCall, Vec<FriendRequestSummary>>::Call(FriendshipCall::ListPendingOutboxRequests { user_id }),
            old(replies)@.len() >= 1 ==> relays(old(replies)@[0], step, |r: FriendshipReply| if let FriendshipReply::Requests(v) = r { Some(v) } else { None }),
    {
        if replies.len() == 0 {
            return match filter {
                FriendRequestInboxFilter::Pending => Step::Call(FriendshipCall::ListPendingInboxRequests { user_id }),
                FriendRequestInboxFilter::Outbox => Step::Call(FriendshipCall::ListPendingOutboxRequests { user_id }),
            };
        }
        match take_reply(replies, 0) {
            Ok(FriendshipReply::Requests(v)) => Step::Done(Ok(v)),
            Ok(_) => Step::Done(Err(unexpected_reply())),
            Err(e) => Step::Done(Err(e)),
        }
    }

    /// Lists all accepted friends for user.
    ///
    /// # Parameters
    /// - `user_id`: Authenticated user id.
    /// - `replies`: Answers to the calls made so far.
    pub fn list_friends(&self, user_id: u128, replies: &mut Vec<AppResult<FriendshipReply>>) -> (step: FriendshipStep<Vec<FriendSummary>>)
        ensures
            old(replies)@.len() == 0 ==> step == Step::<FriendshipCall, Vec<FriendSummary>>::Call(FriendshipCall::ListFriends { user_id }),
            old(replies)@.len() >= 1 ==> relays(old(replies)@[0], step, |r: FriendshipReply| if let FriendshipReply::Friends(v) = r { Some(v) } else { None }),
    {
        if replies.len() == 0 {
            return Step::Call(FriendshipCall::ListFriends { user_id });
        }
        match take_reply(replies, 0) {
            Ok(FriendshipReply::Friends(v)) => Step::Done(Ok(v)),
            Ok(_) => Step::Done(Err(unexpected_reply())),
            Err(e) => Step::Done(Err(e)),
        }
    }
}

} // verus!
