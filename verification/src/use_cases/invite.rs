//! Invite tokens and their expiry instants, shared by guild and group invites.
use vstd::prelude::*;
use crate::platform::{max_abs_unix_nanos, new_uuid_v4, uuid_simple_chars, uuid_simple_string};
use crate::validation::MAX_INVITE_EXPIRES_SECS;

verus! {

pub const NANOS_PER_SECOND: i128 = 1_000_000_000;

/// The instant `secs` seconds after `now` (both in nanoseconds).
pub open spec fn instant_after(now: i128, secs: u64) -> int {
    now + secs * NANOS_PER_SECOND
}

/// The instant `secs` seconds after `now`, where `now` is an instant that
/// `time` represents and `secs` at most 30 days.
pub fn after_seconds(now: i128, secs: u64) -> (t: i128)
    requires
        -max_abs_unix_nanos() <= now <= max_abs_unix_nanos(),
        secs <= MAX_INVITE_EXPIRES_SECS,
    ensures
        t == instant_after(now, secs),
{
    now + (secs as i128) * NANOS_PER_SECOND
}

/// A fresh random invite token: the simple text form of a random UUID.
pub fn new_invite_token() -> (t: String)
    ensures
        exists|id: u128| t@ == uuid_simple_chars(id),
        t@.len() == 32,
{
    let id = new_uuid_v4();
    let t = uuid_simple_string(id);
    assert(t@ == uuid_simple_chars(id));
    t
}

} // verus!
