//! The decisions inside the guild store's transactions: joining a guild
//! through an invite, and resolving a member's permissions in a channel.
use vstd::prelude::*;
use crate::domain::{GuildInviteJoinResult, GuildSummary};
use crate::error::{AppError, AppResult, ErrorKind};
use crate::permission::{effective_permissions, spec_effective_permissions};
use crate::use_cases::flow::{fails, misses, stop, stops, take_reply, Step};

verus! {

/// An invite row as locked for a join, with the guild it leads to.
#[derive(Debug, Clone, PartialEq, Eq)]
pub struct GuildInviteRow {
    pub guild_id: u128,
    pub guild_name: String,
    pub guild_owner_id: u128,
    pub guild_created_at: i128,
    pub expires_at: i128,
    pub max_uses: Option<i32>,
    pub uses_count: i32,
    pub revoked_at: Option<i128>,
}

/// The statements the guild store runs inside one transaction.
#[derive(Debug)]
pub enum GuildStoreCall {
    /// Reads and locks the invite with this token.
    FindInviteForUpdate { token: String },
    IsMember { guild_id: u128, user_id: u128 },
    /// Adds the membership unless it exists; answers whether a row was added.
    InsertMemberIfAbsent { guild_id: u128, user_id: u128 },
    DefaultRoleId { guild_id: u128 },
    AttachRole { guild_id: u128, user_id: u128, role_id: u128 },
    IncrementInviteUses { token: String },
    /// The guild of a channel, when the user is a member of that guild.
    FindChannelGuild { channel_id: u128, user_id: u128 },
    /// The union of the permissions of the member's roles.
    RolePermissions { guild_id: u128, user_id: u128 },
    /// The union of the channel's deny overrides for the member's roles.
    RoleDeny { guild_id: u128, user_id: u128, channel_id: u128 },
    /// The union of the channel's allow overrides for the member's roles.
    RoleAllow { guild_id: u128, user_id: u128, channel_id: u128 },
    /// The channel's deny override for the member.
    MemberDeny { channel_id: u128, user_id: u128 },
    /// The channel's allow override for the member.
    MemberAllow { channel_id: u128, user_id: u128 },
    Commit,
}

/// The answers to `GuildStoreCall`s.
#[derive(Debug)]
pub enum GuildStoreReply {
    MaybeInvite(Option<GuildInviteRow>),
    Flag(bool),
    Inserted(bool),
    RoleId(u128),
    MaybeGuildId(Option<u128>),
    Bits(i64),
    Done,
}

pub type GuildStoreStep<T> = Step<GuildStoreCall, T>;

/// The invite that the lookup found, unless it was revoked.
pub open spec fn live_invite(r: AppResult<GuildStoreReply>) -> Option<GuildInviteRow> {
    match r {
        Ok(GuildStoreReply::MaybeInvite(Some(inv))) => if inv.revoked_at is None {
            Some(inv)
        } else {
            None
        },
        _ => None,
    }
}

/// Why an invite cannot admit a new member at instant `now`, if it cannot.
pub open spec fn invite_refusal(expires_at: i128, max_uses: Option<i32>, uses: i32, now: i128) -> Option<Seq<char>> {
    if expires_at < now {
        Some("invite token is expired"@)
    } else if max_uses matches Some(m) && uses >= m {
        Some("invite token usage limit exceeded"@)
    } else {
        None
    }
}

/// An invite past its expiry never admits a new member, whatever its usage
/// cap; a live invite is refused once its uses reach the cap, and admits
/// otherwise (an invite without a cap is never used up).
pub proof fn lemma_invite_refusal_rules(expires_at: i128, max_uses: Option<i32>, uses: i32, now: i128)
    ensures
        expires_at < now ==> invite_refusal(expires_at, max_uses, uses, now) == Some("invite token is expired"@),
        expires_at >= now && (max_uses matches Some(cap) && uses >= cap) ==> invite_refusal(expires_at, max_uses, uses, now) == Some("invite token usage limit exceeded"@),
        invite_refusal(expires_at, max_uses, uses, now) is None <==> (expires_at >= now && !(max_uses matches Some(cap) && uses >= cap)),
        expires_at >= now && max_uses is None ==> invite_refusal(expires_at, max_uses, uses, now) is None,
{
}

/// The outcome of joining through `inv`.
pub open spec fn join_result(inv: GuildInviteRow, joined: bool) -> GuildInviteJoinResult {
    GuildInviteJoinResult {
        guild: GuildSummary {
            id: inv.guild_id,
            name: inv.guild_name,
            owner_id: inv.guild_owner_id,
            created_at: inv.guild_created_at,
        },
        joined,
    }
}

/// The reply is `r`.
pub open spec fn reply_is(r: AppResult<GuildStoreReply>, v: GuildStoreReply) -> bool {
    r == Ok::<GuildStoreReply, AppError>(v)
}

/// How the transaction ends once it commits: the commit's failure, or
/// `value`.
pub open spec fn commits<T>(r: AppResult<GuildStoreReply>, step: GuildStoreStep<T>, value: T) -> bool {
    if reply_is(r, GuildStoreReply::Done) {
        step == Step::<GuildStoreCall, T>::Done(Ok(value))
    } else {
        stops(r, step)
    }
}

/// The steps of joining through a live invite `inv` after the membership
/// check, for a user who is not a member yet.
pub open spec fn admits(inv: GuildInviteRow, token: Seq<char>, user_id: u128, rs: Seq<AppResult<GuildStoreReply>>, step: GuildStoreStep<GuildInviteJoinResult>) -> bool {
    &&& rs.len() == 2 ==> step == Step::<GuildStoreCall, GuildInviteJoinResult>::Call(GuildStoreCall::InsertMemberIfAbsent { guild_id: inv.guild_id, user_id })
    &&& rs.len() >= 3 && !(rs[2] matches Ok(GuildStoreReply::Inserted(_))) ==> stops(rs[2], step)
    &&& rs.len() >= 3 && reply_is(rs[2], GuildStoreReply::Inserted(false)) ==> {
        &&& rs.len() == 3 ==> step == Step::<GuildStoreCall, GuildInviteJoinResult>::Call(GuildStoreCall::Commit)
        &&& rs.len() >= 4 ==> commits(rs[3], step, join_result(inv, false))
    }
    &&& rs.len() >= 3 && reply_is(rs[2], GuildStoreReply::Inserted(true)) ==> {
        &&& rs.len() == 3 ==> step == Step::<GuildStoreCall, GuildInviteJoinResult>::Call(GuildStoreCall::DefaultRoleId { guild_id: inv.guild_id })
        &&& rs.len() >= 4 && !(rs[3] matches Ok(GuildStoreReply::RoleId(_))) ==> stops(rs[3], step)
        &&& rs.len() >= 4 ==> (rs[3] matches Ok(GuildStoreReply::RoleId(role_id)) ==> {
            &&& rs.len() == 4 ==> step == Step::<GuildStoreCall, GuildInviteJoinResult>::Call(GuildStoreCall::AttachRole { guild_id: inv.guild_id, user_id, role_id })
            &&& rs.len() >= 5 && !reply_is(rs[4], GuildStoreReply::Done) ==> stops(rs[4], step)
            &&& rs.len() == 5 && reply_is(rs[4], GuildStoreReply::Done) ==> (step matches Step::Call(GuildStoreCall::IncrementInviteUses { token: t }) && t@ == token)
            &&& rs.len() >= 6 && reply_is(rs[4], GuildStoreReply::Done) && !reply_is(rs[5], GuildStoreReply::Done) ==> stops(rs[5], step)
            &&& rs.len() == 6 && reply_is(rs[4], GuildStoreReply::Done) && reply_is(rs[5], GuildStoreReply::Done) ==> step == Step::<GuildStoreCall, GuildInviteJoinResult>::Call(GuildStoreCall::Commit)
            &&& rs.len() >= 7 && reply_is(rs[4], GuildStoreReply::Done) && reply_is(rs[5], GuildStoreReply::Done) ==> commits(rs[6], step, join_result(inv, true))
        })
    }
}

fn commit_with<T>(replies: &mut Vec<AppResult<GuildStoreReply>>, k: usize, value: T) -> (step: GuildStoreStep<T>)
    requires
        k < old(replies)@.len(),
    ensures
        commits(old(replies)@[k as int], step, value),
{
    match &replies[k] {
        Ok(GuildStoreReply::Done) => Step::Done(Ok(value)),
        _ => stop(replies, k),
    }
}

fn expect_done<T>(replies: &mut Vec<AppResult<GuildStoreReply>>, k: usize) -> (r: Option<GuildStoreStep<T>>)
    requires
        k < old(replies)@.len(),
    ensures
        reply_is(old(replies)@[k as int], GuildStoreReply::Done) ==> r is None && final(replies)@ == old(replies)@,
        !reply_is(old(replies)@[k as int], GuildStoreReply::Done) ==> (r matches Some(step) && stops(old(replies)@[k as int], step)),
{
    match &replies[k] {
        Ok(GuildStoreReply::Done) => None,
        _ => Some(stop(replies, k)),
    }
}

fn refusal(expires_at: i128, max_uses: Option<i32>, uses: i32, now: i128) -> (r: Option<&'static str>)
    ensures
        r matches Some(m) ==> invite_refusal(expires_at, max_uses, uses, now) == Some(m@),
        r is None ==> invite_refusal(expires_at, max_uses, uses, now) is None,
        expires_at < now ==> (r matches Some(m) && m@ == "invite token is expired"@),
        expires_at >= now && (max_uses matches Some(cap) && uses >= cap) ==> (r matches Some(m) && m@ == "invite token usage limit exceeded"@),
        r is None <==> (expires_at >= now && !(max_uses matches Some(cap) && uses >= cap)),
{
    if expires_at < now {
        return Some("invite token is expired");
    }
    if let Some(m) = max_uses {
        if uses >= m {
            return Some("invite token usage limit exceeded");
        }
    }
    None
}

/// Joins a guild through an invite token, as of instant `now`: a missing or
/// revoked invite is not found; a member stays a member (`joined` is false);
/// otherwise an expired or used up invite is refused, and a new member gets
/// the guild's default role and uses the invite once.
///
/// # Parameters
/// - `token`: The invite token.
/// - `user_id`: The user who joins.
/// - `now`: The current instant, in nanoseconds since the epoch.
/// - `replies`: Answers to the statements run so far.
pub fn join_guild_via_invite(token: &str, user_id: u128, now: i128, replies: &mut Vec<AppResult<GuildStoreReply>>) -> (step: GuildStoreStep<GuildInviteJoinResult>)
    ensures
        ({
            let rs = old(replies)@;
            &&& rs.len() == 0 ==> (step matches Step::Call(GuildStoreCall::FindInviteForUpdate { token: t }) && t@ == token@)
            &&& rs.len() >= 1 && live_invite(rs[0]) is None ==> misses(rs[0], step, |r: GuildStoreReply| r is MaybeInvite, "invite not found"@)
            &&& rs.len() >= 1 ==> (live_invite(rs[0]) matches Some(inv) ==> {
                &&& rs.len() == 1 ==> step == Step::<GuildStoreCall, GuildInviteJoinResult>::Call(GuildStoreCall::IsMember { guild_id: inv.guild_id, user_id })
                &&& rs.len() >= 2 && !(rs[1] matches Ok(GuildStoreReply::Flag(_))) ==> stops(rs[1], step)
                &&& rs.len() >= 2 && reply_is(rs[1], GuildStoreReply::Flag(true)) ==> {
                    &&& rs.len() == 2 ==> step == Step::<GuildStoreCall, GuildInviteJoinResult>::Call(GuildStoreCall::Commit)
                    &&& rs.len() >= 3 ==> commits(rs[2], step, join_result(inv, false))
                }
                &&& rs.len() >= 2 && reply_is(rs[1], GuildStoreReply::Flag(false)) && inv.expires_at < now ==> fails(step, ErrorKind::Validation, "invite token is expired"@)
                &&& rs.len() >= 2 && reply_is(rs[1], GuildStoreReply::Flag(false)) && inv.expires_at >= now && (inv.max_uses matches Some(cap) && inv.uses_count >= cap) ==> fails(step, ErrorKind::Validation, "invite token usage limit exceeded"@)
                &&& rs.len() >= 2 && reply_is(rs[1], GuildStoreReply::Flag(false)) ==> match invite_refusal(inv.expires_at, inv.max_uses, inv.uses_count, now) {
                    Some(m) => fails(step, ErrorKind::Validation, m),
                    None => admits(inv, token@, user_id, rs, step),
                }
            })
        }),
{
    if replies.len() == 0 {
        return Step::Call(GuildStoreCall::FindInviteForUpdate { token: token.to_owned() });
    }
    let (guild_id, expires_at, max_uses, uses) = match &replies[0] {
        Ok(GuildStoreReply::MaybeInvite(Some(inv))) => {
            if inv.revoked_at.is_some() {
                return Step::Done(Err(AppError::not_found("invite not found")));
            }
            (inv.guild_id, inv.expires_at, inv.max_uses, inv.uses_count)
        },
        Ok(GuildStoreReply::MaybeInvite(None)) => return Step::Done(Err(AppError::not_found("invite not found"))),
        _ => return stop(replies, 0),
    };
    let ghost inv = live_invite(replies@[0])->Some_0;
    if replies.len() == 1 {
        return Step::Call(GuildStoreCall::IsMember { guild_id, user_id });
    }
    let already_member = match &replies[1] {
        Ok(GuildStoreReply::Flag(b)) => *b,
        _ => return stop(replies, 1),
    };
    if already_member {
        if replies.len() == 2 {
            return Step::Call(GuildStoreCall::Commit);
        }
        let result = joined_result(replies, false);
        return commit_with(replies, 2, result);
    }
    if let Some(m) = refusal(expires_at, max_uses, uses, now) {
        return Step::Done(Err(AppError::validation(m)));
    }
    if replies.len() == 2 {
        return Step::Call(GuildStoreCall::InsertMemberIfAbsent { guild_id, user_id });
    }
    let inserted = match &replies[2] {
        Ok(GuildStoreReply::Inserted(b)) => *b,
        _ => return stop(replies, 2),
    };
    if !inserted {
        if replies.len() == 3 {
            return Step::Call(GuildStoreCall::Commit);
        }
        let result = joined_result(replies, false);
        return commit_with(replies, 3, result);
    }
    if replies.len() == 3 {
        return Step::Call(GuildStoreCall::DefaultRoleId { guild_id });
    }
    let role_id = match &replies[3] {
        Ok(GuildStoreReply::RoleId(r)) => *r,
        _ => return stop(replies, 3),
    };
    if replies.len() == 4 {
        return Step::Call(GuildStoreCall::AttachRole { guild_id, user_id, role_id });
    }
    if let Some(step) = expect_done(replies, 4) {
        return step;
    }
    if replies.len() == 5 {
        return Step::Call(GuildStoreCall::IncrementInviteUses { token: token.to_owned() });
    }
    if let Some(step) = expect_done(replies, 5) {
        return step;
    }
    if replies.len() == 6 {
        return Step::Call(GuildStoreCall::Commit);
    }
    let result = joined_result(replies, true);
    commit_with(replies, 6, result)
}

fn joined_result(replies: &Vec<AppResult<GuildStoreReply>>, joined: bool) -> (r: GuildInviteJoinResult)
    requires
        replies@.len() >= 1,
        live_invite(replies@[0]) is Some,
    ensures
        r == join_result(live_invite(replies@[0])->Some_0, joined),
{
    match &replies[0] {
        Ok(GuildStoreReply::MaybeInvite(Some(inv))) => GuildInviteJoinResult {
            guild: GuildSummary {
                id: inv.guild_id,
                name: inv.guild_name.clone(),
                owner_id: inv.guild_owner_id,
                created_at: inv.guild_created_at,
            },
            joined,
        },
        _ => {
            proof {
                assert(false);
            }
            GuildInviteJoinResult {
                guild: GuildSummary { id: 0, name: String::new(), owner_id: 0, created_at: 0 },
                joined,
            }
        },
    }
}

/// The bits that a reply carries.
pub open spec fn bits_of(r: AppResult<GuildStoreReply>) -> Option<i64> {
    match r {
        Ok(GuildStoreReply::Bits(b)) => Some(b),
        _ => None,
    }
}

fn read_bits<T>(replies: &mut Vec<AppResult<GuildStoreReply>>, k: usize) -> (r: Result<i64, GuildStoreStep<T>>)
    requires
        k < old(replies)@.len(),
    ensures
        bits_of(old(replies)@[k as int]) matches Some(b) ==> r == Ok::<i64, GuildStoreStep<T>>(b) && final(replies)@ == old(replies)@,
        bits_of(old(replies)@[k as int]) is None ==> (r matches Err(step) && stops(old(replies)@[k as int], step)),
{
    match &replies[k] {
        Ok(GuildStoreReply::Bits(b)) => Ok(*b),
        _ => Err(stop(replies, k)),
    }
}

/// Resolves the effective permissions of a user in a channel: `None` when
/// the user is not a member of the channel's guild; otherwise the union of
/// the member's role permissions with the channel's role overrides applied
/// (deny, then allow), and then the member's own overrides (deny, then
/// allow).
///
/// # Parameters
/// - `user_id`: The member.
/// - `channel_id`: The channel.
/// - `replies`: Answers to the statements run so far.
pub fn resolve_channel_permissions(user_id: u128, channel_id: u128, replies: &mut Vec<AppResult<GuildStoreReply>>) -> (step: GuildStoreStep<Option<i64>>)
    ensures
        ({
            let rs = old(replies)@;
            &&& rs.len() == 0 ==> step == Step::<GuildStoreCall, Option<i64>>::Call(GuildStoreCall::FindChannelGuild { channel_id, user_id })
            &&& rs.len() >= 1 && !(rs[0] matches Ok(GuildStoreReply::MaybeGuildId(_))) ==> stops(rs[0], step)
            &&& rs.len() >= 1 && reply_is(rs[0], GuildStoreReply::MaybeGuildId(None)) ==> step == Step::<GuildStoreCall, Option<i64>>::Done(Ok(None))
            &&& rs.len() >= 1 ==> (rs[0] matches Ok(GuildStoreReply::MaybeGuildId(Some(guild_id))) ==> {
                &&& rs.len() == 1 ==> step == Step::<GuildStoreCall, Option<i64>>::Call(GuildStoreCall::RolePermissions { guild_id, user_id })
                &&& rs.len() >= 2 && bits_of(rs[1]) is None ==> stops(rs[1], step)
                &&& rs.len() == 2 && bits_of(rs[1]) is Some ==> step == Step::<GuildStoreCall, Option<i64>>::Call(GuildStoreCall::RoleDeny { guild_id, user_id, channel_id })
                &&& rs.len() >= 3 && bits_of(rs[1]) is Some && bits_of(rs[2]) is None ==> stops(rs[2], step)
                &&& rs.len() == 3 && bits_of(rs[1]) is Some && bits_of(rs[2]) is Some ==> step == Step::<GuildStoreCall, Option<i64>>::Call(GuildStoreCall::RoleAllow { guild_id, user_id, channel_id })
                &&& rs.len() >= 4 && bits_of(rs[1]) is Some && bits_of(rs[2]) is Some && bits_of(rs[3]) is None ==> stops(rs[3], step)
                &&& rs.len() == 4 && bits_of(rs[1]) is Some && bits_of(rs[2]) is Some && bits_of(rs[3]) is Some ==> step == Step::<GuildStoreCall, Option<i64>>::Call(GuildStoreCall::MemberDeny { channel_id, user_id })
                &&& rs.len() >= 5 && bits_of(rs[1]) is Some && bits_of(rs[2]) is Some && bits_of(rs[3]) is Some && bits_of(rs[4]) is None ==> stops(rs[4], step)
                &&& rs.len() == 5 && bits_of(rs[1]) is Some && bits_of(rs[2]) is Some && bits_of(rs[3]) is Some && bits_of(rs[4]) is Some ==> step == Step::<GuildStoreCall, Option<i64>>::Call(GuildStoreCall::MemberAllow { channel_id, user_id })
                &&& rs.len() >= 6 && bits_of(rs[1]) is Some && bits_of(rs[2]) is Some && bits_of(rs[3]) is Some && bits_of(rs[4]) is Some && bits_of(rs[5]) is None ==> stops(rs[5], step)
                &&& rs.len() >= 6 && bits_of(rs[1]) is Some && bits_of(rs[2]) is Some && bits_of(rs[3]) is Some && bits_of(rs[4]) is Some && bits_of(rs[5]) is Some ==> step == Step::<GuildStoreCall, Option<i64>>::Done(Ok(Some(spec_effective_permissions(
                    bits_of(rs[1])->Some_0,
                    bits_of(rs[2])->Some_0,
                    bits_of(rs[3])->Some_0,
                    bits_of(rs[4])->Some_0,
                    bits_of(rs[5])->Some_0,
                ))))
            })
        }),
{
    if replies.len() == 0 {
        return Step::Call(GuildStoreCall::FindChannelGuild { channel_id, user_id });
    }
    let guild_id = match &replies[0] {
        Ok(GuildStoreReply::MaybeGuildId(Some(g))) => *g,
        Ok(GuildStoreReply::MaybeGuildId(None)) => return Step::Done(Ok(None)),
        _ => return stop(replies, 0),
    };
    if replies.len() == 1 {
        return Step::Call(GuildStoreCall::RolePermissions { guild_id, user_id });
    }
    let base = match read_bits(replies, 1) {
        Ok(b) => b,
        Err(step) => return step,
    };
    if replies.len() == 2 {
        return Step::Call(GuildStoreCall::RoleDeny { guild_id, user_id, channel_id });
    }
    let role_deny = match read_bits(replies, 2) {
        Ok(b) => b,
        Err(step) => return step,
    };
    if replies.len() == 3 {
        return Step::Call(GuildStoreCall::RoleAllow { guild_id, user_id, channel_id });
    }
    let role_allow = match read_bits(replies, 3) {
        Ok(b) => b,
        Err(step) => return step,
    };
    if replies.len() == 4 {
        return Step::Call(GuildStoreCall::MemberDeny { channel_id, user_id });
    }
    let member_deny = match read_bits(replies, 4) {
        Ok(b) => b,
        Err(step) => return step,
    };
    if replies.len() == 5 {
        return Step::Call(GuildStoreCall::MemberAllow { channel_id, user_id });
    }
    let member_allow = match read_bits(replies, 5) {
        Ok(b) => b,
        Err(step) => return step,
    };
    Step::Done(Ok(Some(effective_permissions(base, role_deny, role_allow, member_deny, member_allow))))
}

} // verus!
