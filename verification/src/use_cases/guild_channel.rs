//! Guilds, their membership, channels and invite tokens.
use vstd::prelude::*;
use crate::domain::{ChannelRecord, GuildInviteJoinResult, GuildInviteRecord, GuildSummary};
use crate::error::{AppError, AppResult, ErrorKind, fails_with};
use crate::platform::{max_abs_unix_nanos, now_unix_nanos, uuid_simple_chars};
use crate::text::{trim, trim_chars};
use crate::use_cases::flow::{fails, finds, relays, stop, stops, take_reply, unexpected_reply, Step};
use crate::use_cases::invite::{after_seconds, instant_after, new_invite_token};
use crate::validation::{
    normalize_invite_expiry, spec_invite_expiry, too_long_message, too_short_message, trimmed_len,
    validate_max_uses, validate_name,
};

verus! {

pub struct CreateGuildCommand {
    pub user_id: u128,
    pub name: String,
}

pub struct JoinGuildCommand {
    pub user_id: u128,
    pub guild_id: u128,
}

pub struct LeaveGuildCommand {
    pub user_id: u128,
    pub guild_id: u128,
}

pub struct CreateChannelCommand {
    pub user_id: u128,
    pub guild_id: u128,
    pub name: String,
}

pub struct CreateGuildInviteCommand {
    pub actor_user_id: u128,
    pub guild_id: u128,
    pub expires_in_seconds: Option<u64>,
    pub max_uses: Option<i32>,
}

pub struct JoinGuildInviteCommand {
    pub user_id: u128,
    pub token: String,
}

/// The calls that the guild use case makes to its repository.
#[derive(Debug)]
pub enum GuildCall {
    CreateGuild { owner_id: u128, name: String },
    ListGuildsForUser { user_id: u128 },
    FindGuildForMember { guild_id: u128, user_id: u128 },
    GuildExists { guild_id: u128 },
    AddMember { guild_id: u128, user_id: u128 },
    RemoveMember { guild_id: u128, user_id: u128 },
    IsGuildOwner { guild_id: u128, user_id: u128 },
    CreateChannel { guild_id: u128, name: String },
    ListChannelsForMember { guild_id: u128, user_id: u128 },
    FindChannelForMember { channel_id: u128, user_id: u128 },
    CreateGuildInvite {
        guild_id: u128,
        created_by: u128,
        token: String,
        expires_at: i128,
        max_uses: Option<i32>,
    },
    JoinGuildViaInvite { token: String, user_id: u128 },
}

/// The answers to `GuildCall`s.
#[derive(Debug)]
pub enum GuildReply {
    Guild(GuildSummary),
    Guilds(Vec<GuildSummary>),
    MaybeGuild(Option<GuildSummary>),
    Flag(bool),
    Done,
    Channel(ChannelRecord),
    Channels(Vec<ChannelRecord>),
    MaybeChannel(Option<ChannelRecord>),
    Invite(GuildInviteRecord),
    Joined(GuildInviteJoinResult),
}

pub type GuildStep<T> = Step<GuildCall, T>;

/// The reply says the user is a member of the guild.
pub open spec fn guild_found(r: AppResult<GuildReply>) -> bool {
    r matches Ok(GuildReply::MaybeGuild(Some(_)))
}

/// How a run ends on a membership lookup that found no guild.
pub open spec fn guild_missing<T>(r: AppResult<GuildReply>, step: GuildStep<T>) -> bool {
    match r {
        Ok(GuildReply::MaybeGuild(None)) => fails(step, ErrorKind::NotFound, "guild not found"@),
        _ => stops(r, step),
    }
}

/// The reply is the boolean `b`.
pub open spec fn flag_is(r: AppResult<GuildReply>, b: bool) -> bool {
    r == Ok::<GuildReply, AppError>(GuildReply::Flag(b))
}

/// The reply is a boolean.
pub open spec fn is_flag(r: AppResult<GuildReply>) -> bool {
    r matches Ok(GuildReply::Flag(_))
}

/// What is wrong with a name of `field` that must be `min` to `max` bytes.
pub open spec fn name_problem(field: Seq<char>, value: Seq<char>, min: nat, max: nat) -> Option<Seq<char>> {
    if trimmed_len(value) < min {
        Some(too_short_message(field, min))
    } else if trimmed_len(value) > max {
        Some(too_long_message(field, max))
    } else {
        None
    }
}

/// What is wrong with an invite usage cap, if anything.
pub open spec fn max_uses_problem(max_uses: Option<i32>) -> bool {
    max_uses matches Some(v) && v <= 0
}

fn require_guild<T>(replies: &mut Vec<AppResult<GuildReply>>, k: usize) -> (r: Option<GuildStep<T>>)
    requires
        k < old(replies)@.len(),
    ensures
        guild_found(old(replies)@[k as int]) ==> r is None && final(replies)@ == old(replies)@,
        !guild_found(old(replies)@[k as int]) ==> (r matches Some(step) && guild_missing(old(replies)@[k as int], step)),
{
    match &replies[k] {
        Ok(GuildReply::MaybeGuild(Some(_))) => None,
        Ok(GuildReply::MaybeGuild(None)) => Some(Step::Done(Err(AppError::not_found("guild not found")))),
        _ => Some(stop(replies, k)),
    }
}

fn name_check(field: &str, value: &str, min: usize, max: usize) -> (r: AppResult<()>)
    ensures
        name_problem(field@, value@, min as nat, max as nat) matches Some(m) ==> fails_with(r, ErrorKind::Validation, m),
        name_problem(field@, value@, min as nat, max as nat) is None ==> r is Ok,
{
    validate_name(field, value, min, max)
}

/// Guild and channel use case.
pub struct GuildChannelUseCase {}

impl GuildChannelUseCase {
    /// Builds the guild/channel use case.
    pub fn new() -> (u: Self) {
        GuildChannelUseCase {  }
    }

    /// Creates guild and owner membership.
    ///
    /// # Parameters
    /// - `cmd`: Command containing owner id and guild name.
    /// - `replies`: Answers to the calls made so far.
    pub fn create_guild(&self, cmd: &CreateGuildCommand, replies: &mut Vec<AppResult<GuildReply>>) -> (step: GuildStep<GuildSummary>)
        ensures
            ({
                let rs = old(replies)@;
                let problem = name_problem("guild name"@, cmd.name@, 2, 80);
                &&& problem matches Some(m) ==> fails(step, ErrorKind::Validation, m)
                &&& problem is None && rs.len() == 0 ==> (step matches Step::Call(GuildCall::CreateGuild { owner_id, name }) && owner_id == cmd.user_id && name@ == trim_chars(cmd.name@))
                &&& problem is None && rs.len() >= 1 ==> relays(rs[0], step, |r: GuildReply| if let GuildReply::Guild(g) = r { Some(g) } else { None })
            }),
    {
        if let Err(e) = name_check("guild name", cmd.name.as_str(), 2, 80) {
            return Step::Done(Err(e));
        }
        if replies.len() == 0 {
            return Step::Call(GuildCall::CreateGuild { owner_id: cmd.user_id, name: trim(cmd.name.as_str()).to_owned() });
        }
        match take_reply(replies, 0) {
            Ok(GuildReply::Guild(g)) => Step::Done(Ok(g)),
            Ok(_) => Step::Done(Err(unexpected_reply())),
            Err(e) => Step::Done(Err(e)),
        }
    }

    /// Lists guilds that the user belongs to.
    ///
    /// # Parameters
    /// - `user_id`: Authenticated user id.
    /// - `replies`: Answers to the calls made so far.
    pub fn list_guilds(&self, user_id: u128, replies: &mut Vec<AppResult<GuildReply>>) -> (step: GuildStep<Vec<GuildSummary>>)
        ensures
            old(replies)@.len() == 0 ==> step == Step::<GuildCall, Vec<GuildSummary>>::Call(GuildCall::ListGuildsForUser { user_id }),
            old(replies)@.len() >= 1 ==> relays(old(replies)@[0], step, |r: GuildReply| if let GuildReply::Guilds(g) = r { Some(g) } else { None }),
    {
        if replies.len() == 0 {
            return Step::Call(GuildCall::ListGuildsForUser { user_id });
        }
        match take_reply(replies, 0) {
            Ok(GuildReply::Guilds(g)) => Step::Done(Ok(g)),
            Ok(_) => Step::Done(Err(unexpected_reply())),
            Err(e) => Step::Done(Err(e)),
        }
    }

    /// Returns guild details when user is a member.
    ///
    /// # Parameters
    /// - `guild_id`: Target guild id.
    /// - `user_id`: Authenticated user id.
    /// - `replies`: Answers to the calls made so far.
    pub fn get_guild(&self, guild_id: u128, user_id: u128, replies: &mut Vec<AppResult<GuildReply>>) -> (step: GuildStep<GuildSummary>)
        ensures
            old(replies)@.len() == 0 ==> step == Step::<GuildCall, GuildSummary>::Call(GuildCall::FindGuildForMember { guild_id, user_id }),
            old(replies)@.len() >= 1 ==> finds(old(replies)@[0], step, |r: GuildReply| if let GuildReply::MaybeGuild(g) = r { Some(g) } else { None }, "guild not found"@),
    {
        if replies.len() == 0 {
            return Step::Call(GuildCall::FindGuildForMember { guild_id, user_id });
        }
        match take_reply(replies, 0) {
            Ok(GuildReply::MaybeGuild(Some(g))) => Step::Done(Ok(g)),
            Ok(GuildReply::MaybeGuild(None)) => Step::Done(Err(AppError::not_found("guild not found"))),
            Ok(_) => Step::Done(Err(unexpected_reply())),
            Err(e) => Step::Done(Err(e)),
        }
    }

    /// Adds user to guild membership list.
    ///
    /// # Parameters
    /// - `cmd`: Command containing user id and guild id.
    /// - `replies`: Answers to the calls made so far.
    pub fn join_guild(&self, cmd: &JoinGuildCommand, replies: &mut Vec<AppResult<GuildReply>>) -> (step: GuildStep<()>)
        ensures
            ({
                let rs = old(replies)@;
                &&& rs.len() == 0 ==> step == Step::<GuildCall, ()>::Call(GuildCall::GuildExists { guild_id: cmd.guild_id })
                &&& rs.len() >= 1 && !is_flag(rs[0]) ==> stops(rs[0], step)
                &&& rs.len() >= 1 && flag_is(rs[0], false) ==> fails(step, ErrorKind::NotFound, "guild not found"@)
                &&& rs.len() == 1 && flag_is(rs[0], true) ==> step == Step::<GuildCall, ()>::Call(GuildCall::AddMember { guild_id: cmd.guild_id, user_id: cmd.user_id })
                &&& rs.len() >= 2 && flag_is(rs[0], true) ==> relays(rs[1], step, |r: GuildReply| if let GuildReply::Done = r { Some(()) } else { None })
            }),
    {
        if replies.len() == 0 {
            return Step::Call(GuildCall::GuildExists { guild_id: cmd.guild_id });
        }
        match &replies[0] {
            Ok(GuildReply::Flag(true)) => {},
            Ok(GuildReply::Flag(false)) => return Step::Done(Err(AppError::not_found("guild not found"))),
            _ => return stop(replies, 0),
        }
        if replies.len() == 1 {
            return Step::Call(GuildCall::AddMember { guild_id: cmd.guild_id, user_id: cmd.user_id });
        }
        match take_reply(replies, 1) {
            Ok(GuildReply::Done) => Step::Done(Ok(())),
            Ok(_) => Step::Done(Err(unexpected_reply())),
            Err(e) => Step::Done(Err(e)),
        }
    }

    /// Removes user from guild memberships.
    ///
    /// # Parameters
    /// - `cmd`: Command containing user id and guild id.
    /// - `replies`: Answers to the calls made so far.
    pub fn leave_guild(&self, cmd: &LeaveGuildCommand, replies: &mut Vec<AppResult<GuildReply>>) -> (step: GuildStep<()>)
        ensures
            ({
                let rs = old(replies)@;
                &&& rs.len() == 0 ==> step == Step::<GuildCall, ()>::Call(GuildCall::IsGuildOwner { guild_id: cmd.guild_id, user_id: cmd.user_id })
                &&& rs.len() >= 1 && !is_flag(rs[0]) ==> stops(rs[0], step)
                &&& rs.len() >= 1 && flag_is(rs[0], true) ==> fails(step, ErrorKind::Validation, "guild owner cannot leave their own guild"@)
                &&& rs.len() == 1 && flag_is(rs[0], false) ==> step == Step::<GuildCall, ()>::Call(GuildCall::RemoveMember { guild_id: cmd.guild_id, user_id: cmd.user_id })
                &&& rs.len() >= 2 && flag_is(rs[0], false) ==> {
                    &&& !is_flag(rs[1]) ==> stops(rs[1], step)
                    &&& flag_is(rs[1], false) ==> fails(step, ErrorKind::NotFound, "guild membership not found"@)
                    &&& flag_is(rs[1], true) ==> step == Step::<GuildCall, ()>::Done(Ok(()))
                }
            }),
    {
        if replies.len() == 0 {
            return Step::Call(GuildCall::IsGuildOwner { guild_id: cmd.guild_id, user_id: cmd.user_id });
        }
        match &replies[0] {
            Ok(GuildReply::Flag(false)) => {},
            Ok(GuildReply::Flag(true)) => return Step::Done(Err(AppError::validation("guild owner cannot leave their own guild"))),
            _ => return stop(replies, 0),
        }
        if replies.len() == 1 {
            return Step::Call(GuildCall::RemoveMember { guild_id: cmd.guild_id, user_id: cmd.user_id });
        }
        match &replies[1] {
            Ok(GuildReply::Flag(true)) => Step::Done(Ok(())),
            Ok(GuildReply::Flag(false)) => Step::Done(Err(AppError::not_found("guild membership not found"))),
            _ => stop(replies, 1),
        }
    }

    /// Creates a text channel in a guild for a member.
    ///
    /// # Parameters
    /// - `cmd`: Command containing actor, guild and channel name.
    /// - `replies`: Answers to the calls made so far.
    pub fn create_channel(&self, cmd: &CreateChannelCommand, replies: &mut Vec<AppResult<GuildReply>>) -> (step: GuildStep<ChannelRecord>)
        ensures
            ({
                let rs = old(replies)@;
                let problem = name_problem("channel name"@, cmd.name@, 1, 80);
                &&& problem matches Some(m) ==> fails(step, ErrorKind::Validation, m)
                &&& problem is None && rs.len() == 0 ==> step == Step::<GuildCall, ChannelRecord>::Call(GuildCall::FindGuildForMember { guild_id: cmd.guild_id, user_id: cmd.user_id })
                &&& problem is None && rs.len() >= 1 && !guild_found(rs[0]) ==> guild_missing(rs[0], step)
                &&& problem is None && rs.len() == 1 && guild_found(rs[0]) ==> (step matches Step::Call(GuildCall::CreateChannel { guild_id, name }) && guild_id == cmd.guild_id && name@ == trim_chars(cmd.name@))
                &&& problem is None && rs.len() >= 2 && guild_found(rs[0]) ==> relays(rs[1], step, |r: GuildReply| if let GuildReply::Channel(c) = r { Some(c) } else { None })
            }),
    {
        if let Err(e) = name_check("channel name", cmd.name.as_str(), 1, 80) {
            return Step::Done(Err(e));
        }
        if replies.len() == 0 {
            return Step::Call(GuildCall::FindGuildForMember { guild_id: cmd.guild_id, user_id: cmd.user_id });
        }
        if let Some(step) = require_guild(replies, 0) {
            return step;
        }
        if replies.len() == 1 {
            return Step::Call(GuildCall::CreateChannel { guild_id: cmd.guild_id, name: trim(cmd.name.as_str()).to_owned() });
        }
        match take_reply(replies, 1) {
            Ok(GuildReply::Channel(c)) => Step::Done(Ok(c)),
            Ok(_) => Step::Done(Err(unexpected_reply())),
            Err(e) => Step::Done(Err(e)),
        }
    }

    /// Lists channels from guild visible to user.
    ///
    /// # Parameters
    /// - `guild_id`: Target guild id.
    /// - `user_id`: Authenticated user id.
    /// - `replies`: Answers to the calls made so far.
    pub fn list_channels(&self, guild_id: u128, user_id: u128, replies: &mut Vec<AppResult<GuildReply>>) -> (step: GuildStep<Vec<ChannelRecord>>)
        ensures
            ({
                let rs = old(replies)@;
                &&& rs.len() == 0 ==> step == Step::<GuildCall, Vec<ChannelRecord>>::Call(GuildCall::FindGuildForMember { guild_id, user_id })
                &&& rs.len() >= 1 && !guild_found(rs[0]) ==> guild_missing(rs[0], step)
                &&& rs.len() == 1 && guild_found(rs[0]) ==> step == Step::<GuildCall, Vec<ChannelRecord>>::Call(GuildCall::ListChannelsForMember { guild_id, user_id })
                &&& rs.len() >= 2 && guild_found(rs[0]) ==> relays(rs[1], step, |r: GuildReply| if let GuildReply::Channels(c) = r { Some(c) } else { None })
            }),
    {
        if replies.len() == 0 {
            return Step::Call(GuildCall::FindGuildForMember { guild_id, user_id });
        }
        if let Some(step) = require_guild(replies, 0) {
            return step;
        }
        if replies.len() == 1 {
            return Step::Call(GuildCall::ListChannelsForMember { guild_id, user_id });
        }
        match take_reply(replies, 1) {
            Ok(GuildReply::Channels(c)) => Step::Done(Ok(c)),
            Ok(_) => Step::Done(Err(unexpected_reply())),
            Err(e) => Step::Done(Err(e)),
        }
    }

    /// Returns channel details when user belongs to parent guild.
    ///
    /// # Parameters
    /// - `channel_id`: Target channel id.
    /// - `user_id`: Authenticated user id.
    /// - `replies`: Answers to the calls made so far.
    pub fn get_channel(&self, channel_id: u128, user_id: u128, replies: &mut Vec<AppResult<GuildReply>>) -> (step: GuildStep<ChannelRecord>)
        ensures
            old(replies)@.len() == 0 ==> step == Step::<GuildCall, ChannelRecord>::Call(GuildCall::FindChannelForMember { channel_id, user_id }),
            old(replies)@.len() >= 1 ==> finds(old(replies)@[0], step, |r: GuildReply| if let GuildReply::MaybeChannel(c) = r { Some(c) } else { None }, "channel not found"@),
    {
        if replies.len() == 0 {
            return Step::Call(GuildCall::FindChannelForMember { channel_id, user_id });
        }
        match take_reply(replies, 0) {
            Ok(GuildReply::MaybeChannel(Some(c))) => Step::Done(Ok(c)),
            Ok(GuildReply::MaybeChannel(None)) => Step::Done(Err(AppError::not_found("channel not found"))),
            Ok(_) => Step::Done(Err(unexpected_reply())),
            Err(e) => Step::Done(Err(e)),
        }
    }

    /// Creates guild invite token for guild member, at instant `now` and with
    /// token `token`.
    ///
    /// # Parameters
    /// - `cmd`: Invite create command with actor, guild and optional expiry/usage cap.
    /// - `now`: The current instant, in nanoseconds since the epoch.
    /// - `token`: The invite token to persist.
    /// - `replies`: Answers to the calls made so far.
    pub fn create_guild_invite_at(&self, cmd: &CreateGuildInviteCommand, now: i128, token: String, replies: &mut Vec<AppResult<GuildReply>>) -> (step: GuildStep<GuildInviteRecord>)
        requires
            -max_abs_unix_nanos() <= now <= max_abs_unix_nanos(),
        ensures
            ({
                let rs = old(replies)@;
                &&& rs.len() == 0 ==> step == Step::<GuildCall, GuildInviteRecord>::Call(GuildCall::FindGuildForMember { guild_id: cmd.guild_id, user_id: cmd.actor_user_id })
                &&& rs.len() >= 1 && !guild_found(rs[0]) ==> guild_missing(rs[0], step)
                &&& rs.len() >= 1 && guild_found(rs[0]) && max_uses_problem(cmd.max_uses) ==> fails(step, ErrorKind::Validation, "max_uses must be positive"@)
                &&& rs.len() == 1 && guild_found(rs[0]) && !max_uses_problem(cmd.max_uses) ==> step == Step::<GuildCall, GuildInviteRecord>::Call(GuildCall::CreateGuildInvite {
                    guild_id: cmd.guild_id,
                    created_by: cmd.actor_user_id,
                    token,
                    expires_at: instant_after(now, spec_invite_expiry(cmd.expires_in_seconds)) as i128,
                    max_uses: cmd.max_uses,
                })
                &&& rs.len() >= 2 && guild_found(rs[0]) && !max_uses_problem(cmd.max_uses) ==> relays(rs[1], step, |r: GuildReply| if let GuildReply::Invite(i) = r { Some(i) } else { None })
            }),
    {
        if replies.len() == 0 {
            return Step::Call(GuildCall::FindGuildForMember { guild_id: cmd.guild_id, user_id: cmd.actor_user_id });
        }
        if let Some(step) = require_guild(replies, 0) {
            return step;
        }
        if let Err(e) = validate_max_uses(cmd.max_uses) {
            return Step::Done(Err(e));
        }
        if replies.len() == 1 {
            let expires_in = normalize_invite_expiry(cmd.expires_in_seconds);
            let expires_at = after_seconds(now, expires_in);
            return Step::Call(GuildCall::CreateGuildInvite {
                guild_id: cmd.guild_id,
                created_by: cmd.actor_user_id,
                token,
                expires_at,
                max_uses: cmd.max_uses,
            });
        }
        match take_reply(replies, 1) {
            Ok(GuildReply::Invite(i)) => Step::Done(Ok(i)),
            Ok(_) => Step::Done(Err(unexpected_reply())),
            Err(e) => Step::Done(Err(e)),
        }
    }

    /// Creates guild invite token for guild member, expiring after the
    /// requested lifetime from now, with a fresh random token.
    ///
    /// # Parameters
    /// - `cmd`: Invite create command with actor, guild and optional expiry/usage cap.
    /// - `replies`: Answers to the calls made so far.
    pub fn create_guild_invite(&self, cmd: &CreateGuildInviteCommand, replies: &mut Vec<AppResult<GuildReply>>) -> (step: GuildStep<GuildInviteRecord>)
        ensures
            ({
                let rs = old(replies)@;
                &&& rs.len() == 0 ==> step == Step::<GuildCall, GuildInviteRecord>::Call(GuildCall::FindGuildForMember { guild_id: cmd.guild_id, user_id: cmd.actor_user_id })
                &&& rs.len() >= 1 && !guild_found(rs[0]) ==> guild_missing(rs[0], step)
                &&& rs.len() >= 1 && guild_found(rs[0]) && max_uses_problem(cmd.max_uses) ==> fails(step, ErrorKind::Validation, "max_uses must be positive"@)
                &&& rs.len() == 1 && guild_found(rs[0]) && !max_uses_problem(cmd.max_uses) ==> (step matches Step::Call(GuildCall::CreateGuildInvite { guild_id, created_by, token, expires_at, max_uses }) && {
                    &&& guild_id == cmd.guild_id
                    &&& created_by == cmd.actor_user_id
                    &&& max_uses == cmd.max_uses
                    &&& exists|id: u128| token@ == uuid_simple_chars(id)
                    &&& exists|now: i128| -max_abs_unix_nanos() <= now <= max_abs_unix_nanos() && expires_at == instant_after(now, spec_invite_expiry(cmd.expires_in_seconds))
                })
                &&& rs.len() >= 2 && guild_found(rs[0]) && !max_uses_problem(cmd.max_uses) ==> relays(rs[1], step, |r: GuildReply| if let GuildReply::Invite(i) = r { Some(i) } else { None })
            }),
    {
        let now = now_unix_nanos();
        let token = new_invite_token();
        self.create_guild_invite_at(cmd, now, token, replies)
    }

    /// Joins guild via invite token.
    ///
    /// # Parameters
    /// - `cmd`: Invite join command with actor and invite token.
    /// - `replies`: Answers to the calls made so far.
    pub fn join_guild_invite(&self, cmd: &JoinGuildInviteCommand, replies: &mut Vec<AppResult<GuildReply>>) -> (step: GuildStep<GuildInviteJoinResult>)
        ensures
            ({
                let rs = old(replies)@;
                let token = trim_chars(cmd.token@);
                &&& token.len() == 0 ==> fails(step, ErrorKind::Validation, "invite token is required"@)
                &&& token.len() > 0 && rs.len() == 0 ==> (step matches Step::Call(GuildCall::JoinGuildViaInvite { token: t, user_id }) && t@ == token && user_id == cmd.user_id)
                &&& token.len() > 0 && rs.len() >= 1 ==> relays(rs[0], step, |r: GuildReply| if let GuildReply::Joined(j) = r { Some(j) } else { None })
            }),
    {
        let token = trim(cmd.token.as_str());
        if token.is_empty() {
            return Step::Done(Err(AppError::validation("invite token is required")));
        }
        if replies.len() == 0 {
            return Step::Call(GuildCall::JoinGuildViaInvite { token: token.to_owned(), user_id: cmd.user_id });
        }
        match take_reply(replies, 0) {
            Ok(GuildReply::Joined(j)) => Step::Done(Ok(j)),
            Ok(_) => Step::Done(Err(unexpected_reply())),
            Err(e) => Step::Done(Err(e)),
        }
    }
}

} // verus!
