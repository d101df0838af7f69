//! The shape in which a use case drives its repositories: given the command
//! and the replies to the calls it made so far, it names the next call or
//! finishes with its result.
use vstd::prelude::*;
use crate::error::{AppError, ErrorKind};

verus! {

/// The next repository call to make, or the result of the use case.
#[derive(Debug)]
pub enum Step<C, T> {
    Call(C),
    Done(Result<T, AppError>),
}

/// The message of the error that a reply of the wrong kind is reported as.
pub open spec fn unexpected_reply_message() -> Seq<char> {
    "unexpected repository reply"@
}

/// The internal error for a reply that does not answer the call made.
pub fn unexpected_reply() -> (e: AppError)
    ensures
        e.is(ErrorKind::Internal, unexpected_reply_message()),
{
    AppError::internal("unexpected repository reply")
}

/// `step` finishes with the error reported for a reply of the wrong kind.
pub open spec fn is_unexpected<C, T>(step: Step<C, T>) -> bool {
    step matches Step::Done(Err(e)) && e.is(ErrorKind::Internal, unexpected_reply_message())
}

/// `step` finishes with an error of category `kind` and message `msg`.
pub open spec fn fails<C, T>(step: Step<C, T>, kind: ErrorKind, msg: Seq<char>) -> bool {
    step matches Step::Done(Err(e)) && e.is(kind, msg)
}

/// How a run ends with the reply that carries its result: the repository's
/// error, or the value that `pick` finds in the reply.
pub open spec fn relays<C, R, T>(r: Result<R, AppError>, step: Step<C, T>, pick: spec_fn(R) -> Option<T>) -> bool {
    match r {
        Err(e) => step == Step::<C, T>::Done(Err(e)),
        Ok(rep) => match pick(rep) {
            Some(v) => step == Step::<C, T>::Done(Ok(v)),
            None => is_unexpected(step),
        },
    }
}

/// How a run ends with a lookup reply: the repository's error, the value
/// found, or a not found error with message `missing`.
pub open spec fn finds<C, R, T>(r: Result<R, AppError>, step: Step<C, T>, pick: spec_fn(R) -> Option<Option<T>>, missing: Seq<char>) -> bool {
    match r {
        Err(e) => step == Step::<C, T>::Done(Err(e)),
        Ok(rep) => match pick(rep) {
            Some(Some(v)) => step == Step::<C, T>::Done(Ok(v)),
            Some(None) => fails(step, ErrorKind::NotFound, missing),
            None => is_unexpected(step),
        },
    }
}

/// How a run ends on a lookup reply that found nothing: the repository's
/// error, a not found error with message `missing` when the reply is of the
/// kind `is_lookup` recognizes, or the error for a reply of the wrong kind.
pub open spec fn misses<C, R, T>(r: Result<R, AppError>, step: Step<C, T>, is_lookup: spec_fn(R) -> bool, missing: Seq<char>) -> bool {
    match r {
        Err(e) => step == Step::<C, T>::Done(Err(e)),
        Ok(rep) => if is_lookup(rep) {
            fails(step, ErrorKind::NotFound, missing)
        } else {
            is_unexpected(step)
        },
    }
}

/// How a run ends on a reply that is not the successful answer `pick`
/// recognizes: the repository's error or the error for a reply of the wrong
/// kind.
pub open spec fn stops<C, R, T>(r: Result<R, AppError>, step: Step<C, T>) -> bool {
    match r {
        Err(e) => step == Step::<C, T>::Done(Err(e)),
        Ok(_) => is_unexpected(step),
    }
}

/// Moves the error of reply `k` out of `replies`.
pub fn take_error<R>(replies: &mut Vec<Result<R, AppError>>, k: usize) -> (e: AppError)
    requires
        k < old(replies)@.len(),
        old(replies)@[k as int] is Err,
    ensures
        Err::<R, AppError>(e) == old(replies)@[k as int],
{
    match replies.remove(k) {
        Err(e) => e,
        Ok(_) => {
            proof {
                assert(false);
            }
            unexpected_reply()
        },
    }
}

/// Ends a run on reply `k`, which is not the answer the run expected: with
/// the repository's error, or the error for a reply of the wrong kind.
pub fn stop<C, R, T>(replies: &mut Vec<Result<R, AppError>>, k: usize) -> (step: Step<C, T>)
    requires
        k < old(replies)@.len(),
    ensures
        stops(old(replies)@[k as int], step),
{
    match replies.remove(k) {
        Err(e) => Step::Done(Err(e)),
        Ok(_) => Step::Done(Err(unexpected_reply())),
    }
}

/// Moves reply `k` out of `replies`.
pub fn take_reply<R>(replies: &mut Vec<Result<R, AppError>>, k: usize) -> (r: Result<R, AppError>)
    requires
        k < old(replies)@.len(),
    ensures
        r == old(replies)@[k as int],
{
    replies.remove(k)
}

} // verus!
