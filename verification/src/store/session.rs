//! The refresh session store's decisions: rotating a session revokes the
//! live session of the old token and opens one for the new token, in one
//! transaction.
use vstd::prelude::*;
use crate::domain::{SessionContext, SessionCreate, SessionRotate};
use crate::error::{AppError, AppResult, ErrorKind};
use crate::use_cases::flow::{fails, stop, stops, Step};

verus! {

/// The statements the session store runs inside one transaction.
#[derive(Debug)]
pub enum SessionStoreCall {
    /// Revokes the session with this refresh token hash if it is neither
    /// revoked nor expired; answers the user of the revoked session, if any.
    RevokeLiveSession { refresh_token_hash: String },
    /// Stores a new session.
    InsertSession(SessionCreate),
    Commit,
}

/// The answers to `SessionStoreCall`s.
#[derive(Debug)]
pub enum SessionStoreReply {
    MaybeUserId(Option<u128>),
    Done,
}

pub type SessionStoreStep<T> = Step<SessionStoreCall, T>;

/// The reply is `v`.
pub open spec fn session_reply_is(r: AppResult<SessionStoreReply>, v: SessionStoreReply) -> bool {
    r == Ok::<SessionStoreReply, AppError>(v)
}

fn copy_text(s: &Option<String>) -> (r: Option<String>)
    ensures
        r == *s,
{
    match s {
        Some(v) => Some(v.clone()),
        None => None,
    }
}

/// Rotates a refresh session: the live session of the old token hash is
/// revoked, a session for the new token hash is stored for the same user,
/// and the user is the result. When no live session has the old hash (it was
/// revoked by a logout or an earlier rotation, it expired, or it never
/// existed), the rotation is refused as an invalid refresh token and nothing
/// is stored.
///
/// # Parameters
/// - `payload`: The old and new token hashes, expiry and session context.
/// - `replies`: Answers to the statements run so far.
pub fn rotate_refresh_session(payload: &SessionRotate, replies: &mut Vec<AppResult<SessionStoreReply>>) -> (step: SessionStoreStep<u128>)
    ensures
        ({
            let rs = old(replies)@;
            &&& rs.len() == 0 ==> (step matches Step::Call(SessionStoreCall::RevokeLiveSession { refresh_token_hash: h })
                && h@ == payload.old_refresh_token_hash@)
            &&& rs.len() >= 1 && !(rs[0] matches Ok(SessionStoreReply::MaybeUserId(_))) ==> stops(rs[0], step)
            &&& rs.len() >= 1 && session_reply_is(rs[0], SessionStoreReply::MaybeUserId(None)) ==> fails(
                step,
                ErrorKind::Unauthorized,
                "invalid refresh token"@,
            )
            &&& rs.len() >= 1 ==> (rs[0] matches Ok(SessionStoreReply::MaybeUserId(Some(u))) ==> {
                &&& rs.len() == 1 ==> (step matches Step::Call(SessionStoreCall::InsertSession(s)) && {
                    &&& s.user_id == u
                    &&& s.refresh_token_hash@ == payload.new_refresh_token_hash@
                    &&& s.expires_at == payload.expires_at
                    &&& s.context == payload.context
                })
                &&& rs.len() >= 2 && !session_reply_is(rs[1], SessionStoreReply::Done) ==> stops(rs[1], step)
                &&& rs.len() == 2 && session_reply_is(rs[1], SessionStoreReply::Done) ==> step
                    == Step::<SessionStoreCall, u128>::Call(SessionStoreCall::Commit)
                &&& rs.len() >= 3 && session_reply_is(rs[1], SessionStoreReply::Done) && !session_reply_is(
                    rs[2],
                    SessionStoreReply::Done,
                ) ==> stops(rs[2], step)
                &&& rs.len() >= 3 && session_reply_is(rs[1], SessionStoreReply::Done) && session_reply_is(
                    rs[2],
                    SessionStoreReply::Done,
                ) ==> step == Step::<SessionStoreCall, u128>::Done(Ok(u))
            })
        }),
{
    if replies.len() == 0 {
        return Step::Call(SessionStoreCall::RevokeLiveSession { refresh_token_hash: payload.old_refresh_token_hash.clone() });
    }
    let user_id = match &replies[0] {
        Ok(SessionStoreReply::MaybeUserId(Some(u))) => *u,
        Ok(SessionStoreReply::MaybeUserId(None)) => return Step::Done(Err(AppError::unauthorized("invalid refresh token"))),
        _ => return stop(replies, 0),
    };
    if replies.len() == 1 {
        return Step::Call(SessionStoreCall::InsertSession(SessionCreate {
            user_id,
            refresh_token_hash: payload.new_refresh_token_hash.clone(),
            expires_at: payload.expires_at,
            context: SessionContext {
                user_agent: copy_text(&payload.context.user_agent),
                ip: copy_text(&payload.context.ip),
            },
        }));
    }
    match &replies[1] {
        Ok(SessionStoreReply::Done) => {},
        _ => return stop(replies, 1),
    }
    if replies.len() == 2 {
        return Step::Call(SessionStoreCall::Commit);
    }
    match &replies[2] {
        Ok(SessionStoreReply::Done) => Step::Done(Ok(user_id)),
        _ => stop(replies, 2),
    }
}

} // verus!
