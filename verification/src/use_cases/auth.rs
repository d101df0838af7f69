//! Accounts and sessions: registration, sign-in with refresh sessions,
//! refresh token rotation, sign-out and the current user.
use vstd::prelude::*;
use crate::crypto::{
    argon2_accepts, hex_chars, refresh_token_hash, Argon2PasswordAdapter, PasswordPort,
    RefreshTokenAdapter, RefreshTokenPort, MAX_PASSWORD_BYTES,
};
use crate::domain::{SessionContext, SessionCreate, SessionRotate, TokenPair, UserProfile, UserRecord};
use crate::error::{AppError, AppResult, ErrorKind};
use crate::platform::{max_abs_unix_nanos, now_unix_nanos};
use crate::text::{trim, trim_chars, utf8_len};
use crate::use_cases::flow::{fails, finds, relays, stop, stops, take_reply, unexpected_reply, Step};
use crate::validation::{
    normalize_optional_email, normalized_email, trimmed_len, validate_password,
    validate_username,
};

verus! {

/// How long a refresh session lives, in nanoseconds (30 days).
pub const REFRESH_TOKEN_TTL_NANOS: i128 = 2_592_000_000_000_000;

/// When a refresh session opened at `now` expires.
pub open spec fn refresh_expiry(now: i128) -> int {
    now + REFRESH_TOKEN_TTL_NANOS
}

pub struct RegisterCommand {
    pub username: String,
    pub email: Option<String>,
    pub password: String,
}

pub struct LoginCommand {
    pub username_or_email: String,
    pub password: String,
    pub context: SessionContext,
}

pub struct RefreshCommand {
    pub refresh_token: String,
    pub context: SessionContext,
}

pub struct LogoutCommand {
    pub refresh_token: String,
}

/// The fresh values that opening a refresh session takes: a new refresh
/// token and the instant the session starts at.
pub struct FreshSession {
    pub refresh_token: String,
    pub now: i128,
}

/// The calls that the auth use case makes to its repositories and to the
/// access token signer.
#[derive(Debug)]
pub enum AuthCall {
    /// Stores a user; a taken username or email is reported as the conflict
    /// `username or email already exists`.
    CreateUser { username: String, email: Option<String>, password_hash: String },
    /// The user whose username or email is `identity`.
    FindUserByLoginIdentity { identity: String },
    FindUserProfileById { user_id: u128 },
    /// Signs an access token for the user.
    IssueAccessToken { user_id: u128 },
    /// Checks an access token's signature and expiry and reads its user.
    VerifyAccessToken { token: String },
    CreateSession(SessionCreate),
    /// Revokes the live session of the old hash and stores the new one;
    /// answers the session's user. An unknown, revoked or expired session is
    /// the unauthorized error `invalid refresh token`.
    RotateRefreshSession(SessionRotate),
    RevokeByRefreshHash { refresh_token_hash: String },
}

/// The answers to `AuthCall`s.
#[derive(Debug)]
pub enum AuthReply {
    Profile(UserProfile),
    MaybeUser(Option<UserRecord>),
    MaybeProfile(Option<UserProfile>),
    AccessToken(String),
    UserId(u128),
    Done,
}

pub type AuthStep<T> = Step<AuthCall, T>;

/// What is wrong with a registration, if anything, in the order the checks
/// are made: username, password, email.
pub open spec fn registration_problem(username: Seq<char>, password: Seq<char>, email: Option<String>) -> Option<Seq<char>> {
    if trimmed_len(username) < 3 {
        Some("username must be at least 3 characters"@)
    } else if trimmed_len(username) > 32 {
        Some("username must be at most 32 characters"@)
    } else if trimmed_len(password) < 8 {
        Some("password must be at least 8 characters"@)
    } else if email matches Some(raw) && normalized_email(raw@).len() > 0 && !normalized_email(raw@).contains('@') {
        Some("email format is invalid"@)
    } else {
        None
    }
}

/// The email a registration stores: the normalized one, or none when it is
/// missing or blank.
pub open spec fn stored_email(email: Option<String>) -> Option<Seq<char>> {
    match email {
        Some(raw) => if normalized_email(raw@).len() > 0 {
            Some(normalized_email(raw@))
        } else {
            None
        },
        None => None,
    }
}

/// The text of an optional string.
pub open spec fn text_of(s: Option<String>) -> Option<Seq<char>> {
    match s {
        Some(v) => Some(v@),
        None => None,
    }
}

fn copy_context(c: &SessionContext) -> (r: SessionContext)
    ensures
        r == *c,
{
    SessionContext {
        user_agent: match &c.user_agent {
            Some(v) => Some(v.clone()),
            None => None,
        },
        ip: match &c.ip {
            Some(v) => Some(v.clone()),
            None => None,
        },
    }
}

fn copy_email(e: &Option<String>) -> (r: Option<String>)
    ensures
        r == *e,
{
    match e {
        Some(v) => Some(v.clone()),
        None => None,
    }
}

fn session_expiry(now: i128) -> (t: i128)
    requires
        -max_abs_unix_nanos() <= now <= max_abs_unix_nanos(),
    ensures
        t == refresh_expiry(now),
{
    now + REFRESH_TOKEN_TTL_NANOS
}

/// Auth use case: accounts, sessions and access tokens.
pub struct AuthUseCase {
    passwords: Argon2PasswordAdapter,
    refresh_tokens: RefreshTokenAdapter,
}

impl AuthUseCase {
    /// The pepper refresh tokens are hashed with.
    pub closed spec fn pepper(&self) -> Seq<char> {
        self.refresh_tokens.pepper_text()
    }

    /// Builds auth use-case with its password and refresh token adapters.
    pub fn new(passwords: Argon2PasswordAdapter, refresh_tokens: RefreshTokenAdapter) -> (u: Self)
        ensures
            u.pepper() == refresh_tokens.pepper_text(),
    {
        AuthUseCase { passwords, refresh_tokens }
    }

    /// A new refresh token and the current instant, for a sign-in or a
    /// refresh.
    pub fn fresh_session(&self) -> (f: FreshSession)
        ensures
            exists|bytes: Seq<u8>| bytes.len() == 48 && f.refresh_token@ == hex_chars(bytes),
            -max_abs_unix_nanos() <= f.now <= max_abs_unix_nanos(),
    {
        let refresh_token = self.refresh_tokens.generate_refresh_token();
        let now = now_unix_nanos();
        FreshSession { refresh_token, now }
    }

    /// Registers a new user with hashed password.
    ///
    /// # Parameters
    /// - `cmd`: Registration command.
    /// - `replies`: Answers to the calls made so far.
    pub fn register(&self, cmd: &RegisterCommand, replies: &mut Vec<AppResult<AuthReply>>) -> (step: AuthStep<UserProfile>)
        ensures
            ({
                let rs = old(replies)@;
                let problem = registration_problem(cmd.username@, cmd.password@, cmd.email);
                &&& problem matches Some(m) ==> fails(step, ErrorKind::Validation, m)
                &&& problem is None && rs.len() == 0 && utf8_len(trim_chars(cmd.password@)) <= MAX_PASSWORD_BYTES ==> (step matches Step::Call(AuthCall::CreateUser { username, email, password_hash }) && {
                    &&& username@ == trim_chars(cmd.username@)
                    &&& text_of(email) == stored_email(cmd.email)
                    &&& argon2_accepts(trim_chars(cmd.password@), password_hash@)
                })
                &&& problem is None && rs.len() == 0 && utf8_len(trim_chars(cmd.password@)) > MAX_PASSWORD_BYTES ==> (step matches Step::Done(Err(e)) && e.kind() == ErrorKind::Internal)
                &&& problem is None && rs.len() >= 1 ==> relays(rs[0], step, |r: AuthReply| if let AuthReply::Profile(p) = r { Some(p) } else { None })
            }),
    {
        if let Err(e) = validate_username(cmd.username.as_str()) {
            return Step::Done(Err(e));
        }
        if let Err(e) = validate_password(cmd.password.as_str()) {
            return Step::Done(Err(e));
        }
        let email = match normalize_optional_email(copy_email(&cmd.email)) {
            Ok(e) => e,
            Err(e) => return Step::Done(Err(e)),
        };
        if replies.len() == 0 {
            let password_hash = match self.passwords.hash_password(trim(cmd.password.as_str())) {
                Ok(h) => h,
                Err(e) => return Step::Done(Err(e)),
            };
            return Step::Call(AuthCall::CreateUser {
                username: trim(cmd.username.as_str()).to_owned(),
                email,
                password_hash,
            });
        }
        match take_reply(replies, 0) {
            Ok(AuthReply::Profile(p)) => Step::Done(Ok(p)),
            Ok(_) => Step::Done(Err(unexpected_reply())),
            Err(e) => Step::Done(Err(e)),
        }
    }

    /// Logs in user and creates refresh session.
    ///
    /// # Parameters
    /// - `cmd`: Login command with credentials and session context.
    /// - `fresh`: The refresh token and instant of the new session.
    /// - `replies`: Answers to the calls made so far.
    pub fn login(&self, cmd: &LoginCommand, fresh: &FreshSession, replies: &mut Vec<AppResult<AuthReply>>) -> (step: AuthStep<TokenPair>)
        requires
            -max_abs_unix_nanos() <= fresh.now <= max_abs_unix_nanos(),
        ensures
            ({
                let rs = old(replies)@;
                let identity = trim_chars(cmd.username_or_email@);
                &&& identity.len() == 0 ==> fails(step, ErrorKind::Validation, "username_or_email is required"@)
                &&& identity.len() > 0 && rs.len() == 0 ==> (step matches Step::Call(AuthCall::FindUserByLoginIdentity { identity: i }) && i@ == identity)
                &&& identity.len() > 0 && rs.len() >= 1 && !(rs[0] matches Ok(AuthReply::MaybeUser(Some(_)))) ==> match rs[0] {
                    Ok(AuthReply::MaybeUser(None)) => fails(step, ErrorKind::Unauthorized, "invalid credentials"@),
                    r => stops(r, step),
                }
                &&& identity.len() > 0 && rs.len() >= 1 ==> (rs[0] matches Ok(AuthReply::MaybeUser(Some(user))) ==> {
                    &&& !argon2_accepts(trim_chars(cmd.password@), user.password_hash@) ==> fails(step, ErrorKind::Unauthorized, "invalid credentials"@)
                    &&& argon2_accepts(trim_chars(cmd.password@), user.password_hash@) ==> {
                        &&& rs.len() == 1 ==> step == Step::<AuthCall, TokenPair>::Call(AuthCall::IssueAccessToken { user_id: user.id })
                        &&& rs.len() >= 2 && !(rs[1] matches Ok(AuthReply::AccessToken(_))) ==> stops(rs[1], step)
                        &&& rs.len() == 2 && (rs[1] matches Ok(AuthReply::AccessToken(_))) ==> (step matches Step::Call(AuthCall::CreateSession(s)) && {
                            &&& s.user_id == user.id
                            &&& s.refresh_token_hash@ == refresh_token_hash(self.pepper(), fresh.refresh_token@)
                            &&& s.expires_at == refresh_expiry(fresh.now)
                            &&& s.context == cmd.context
                        })
                        &&& rs.len() >= 3 ==> (rs[1] matches Ok(AuthReply::AccessToken(access_token)) ==> match rs[2] {
                            Ok(AuthReply::Done) => step matches Step::Done(Ok(pair)) && pair.access_token == access_token && pair.refresh_token == fresh.refresh_token,
                            r => stops(r, step),
                        })
                    }
                })
            }),
    {
        let identity = trim(cmd.username_or_email.as_str());
        if identity.is_empty() {
            return Step::Done(Err(AppError::validation("username_or_email is required")));
        }
        if replies.len() == 0 {
            return Step::Call(AuthCall::FindUserByLoginIdentity { identity: identity.to_owned() });
        }
        let user_id = match &replies[0] {
            Ok(AuthReply::MaybeUser(Some(user))) => {
                let password_ok = match self.passwords.verify_password(trim(cmd.password.as_str()), user.password_hash.as_str()) {
                    Ok(v) => v,
                    Err(e) => return Step::Done(Err(e)),
                };
                if !password_ok {
                    return Step::Done(Err(AppError::unauthorized("invalid credentials")));
                }
                user.id
            },
            Ok(AuthReply::MaybeUser(None)) => return Step::Done(Err(AppError::unauthorized("invalid credentials"))),
            _ => return stop(replies, 0),
        };
        if replies.len() == 1 {
            return Step::Call(AuthCall::IssueAccessToken { user_id });
        }
        match &replies[1] {
            Ok(AuthReply::AccessToken(_)) => {},
            _ => return stop(replies, 1),
        }
        if replies.len() == 2 {
            return Step::Call(AuthCall::CreateSession(SessionCreate {
                user_id,
                refresh_token_hash: self.refresh_tokens.hash_refresh_token(fresh.refresh_token.as_str()),
                expires_at: session_expiry(fresh.now),
                context: copy_context(&cmd.context),
            }));
        }
        match &replies[2] {
            Ok(AuthReply::Done) => {},
            _ => return stop(replies, 2),
        }
        let access_token = match &replies[1] {
            Ok(AuthReply::AccessToken(t)) => t.clone(),
            _ => {
                proof {
                    assert(false);
                }
                return stop(replies, 1);
            },
        };
        Step::Done(Ok(TokenPair { access_token, refresh_token: fresh.refresh_token.clone() }))
    }

    /// Rotates refresh token and issues a fresh access token.
    ///
    /// # Parameters
    /// - `cmd`: Refresh command with the current refresh token.
    /// - `fresh`: The refresh token and instant of the new session.
    /// - `replies`: Answers to the calls made so far.
    pub fn refresh(&self, cmd: &RefreshCommand, fresh: &FreshSession, replies: &mut Vec<AppResult<AuthReply>>) -> (step: AuthStep<TokenPair>)
        requires
            -max_abs_unix_nanos() <= fresh.now <= max_abs_unix_nanos(),
        ensures
            ({
                let rs = old(replies)@;
                let token = trim_chars(cmd.refresh_token@);
                &&& token.len() == 0 ==> fails(step, ErrorKind::Validation, "refresh_token is required"@)
                &&& token.len() > 0 && rs.len() == 0 ==> (step matches Step::Call(AuthCall::RotateRefreshSession(s)) && {
                    &&& s.old_refresh_token_hash@ == refresh_token_hash(self.pepper(), token)
                    &&& s.new_refresh_token_hash@ == refresh_token_hash(self.pepper(), fresh.refresh_token@)
                    &&& s.expires_at == refresh_expiry(fresh.now)
                    &&& s.context == cmd.context
                })
                &&& token.len() > 0 && rs.len() >= 1 && !(rs[0] matches Ok(AuthReply::UserId(_))) ==> stops(rs[0], step)
                &&& token.len() > 0 && rs.len() >= 1 ==> (rs[0] matches Ok(AuthReply::UserId(user_id)) ==> {
                    &&& rs.len() == 1 ==> step == Step::<AuthCall, TokenPair>::Call(AuthCall::IssueAccessToken { user_id })
                    &&& rs.len() >= 2 ==> match rs[1] {
                        Ok(AuthReply::AccessToken(access_token)) => step matches Step::Done(Ok(pair)) && pair.access_token == access_token && pair.refresh_token == fresh.refresh_token,
                        r => stops(r, step),
                    }
                })
            }),
    {
        let token = trim(cmd.refresh_token.as_str());
        if token.is_empty() {
            return Step::Done(Err(AppError::validation("refresh_token is required")));
        }
        if replies.len() == 0 {
            let old_hash = self.refresh_tokens.hash_refresh_token(token);
            let new_hash = self.refresh_tokens.hash_refresh_token(fresh.refresh_token.as_str());
            return Step::Call(AuthCall::RotateRefreshSession(SessionRotate {
                old_refresh_token_hash: old_hash,
                new_refresh_token_hash: new_hash,
                expires_at: session_expiry(fresh.now),
                context: copy_context(&cmd.context),
            }));
        }
        let user_id = match &replies[0] {
            Ok(AuthReply::UserId(id)) => *id,
            _ => return stop(replies, 0),
        };
        if replies.len() == 1 {
            return Step::Call(AuthCall::IssueAccessToken { user_id });
        }
        match take_reply(replies, 1) {
            Ok(AuthReply::AccessToken(access_token)) => Step::Done(Ok(TokenPair { access_token, refresh_token: fresh.refresh_token.clone() })),
            Ok(_) => Step::Done(Err(unexpected_reply())),
            Err(e) => Step::Done(Err(e)),
        }
    }

    /// Revokes active session represented by refresh token.
    ///
    /// # Parameters
    /// - `cmd`: Logout command with the refresh token.
    /// - `replies`: Answers to the calls made so far.
    pub fn logout(&self, cmd: &LogoutCommand, replies: &mut Vec<AppResult<AuthReply>>) -> (step: AuthStep<()>)
        ensures
            ({
                let rs = old(replies)@;
                let token = trim_chars(cmd.refresh_token@);
                &&& token.len() == 0 ==> fails(step, ErrorKind::Validation, "refresh_token is required"@)
                &&& token.len() > 0 && rs.len() == 0 ==> (step matches Step::Call(AuthCall::RevokeByRefreshHash { refresh_token_hash: h }) && h@ == refresh_token_hash(self.pepper(), token))
                &&& token.len() > 0 && rs.len() >= 1 ==> relays(rs[0], step, |r: AuthReply| if let AuthReply::Done = r { Some(()) } else { None })
            }),
    {
        let token = trim(cmd.refresh_token.as_str());
        if token.is_empty() {
            return Step::Done(Err(AppError::validation("refresh_token is required")));
        }
        if replies.len() == 0 {
            return Step::Call(AuthCall::RevokeByRefreshHash { refresh_token_hash: self.refresh_tokens.hash_refresh_token(token) });
        }
        match take_reply(replies, 0) {
            Ok(AuthReply::Done) => Step::Done(Ok(())),
            Ok(_) => Step::Done(Err(unexpected_reply())),
            Err(e) => Step::Done(Err(e)),
        }
    }

    /// Retrieves current user profile for authorized user id.
    ///
    /// # Parameters
    /// - `user_id`: The authenticated user.
    /// - `replies`: Answers to the calls made so far.
    pub fn me(&self, user_id: u128, replies: &mut Vec<AppResult<AuthReply>>) -> (step: AuthStep<UserProfile>)
        ensures
            old(replies)@.len() == 0 ==> step == Step::<AuthCall, UserProfile>::Call(AuthCall::FindUserProfileById { user_id }),
            old(replies)@.len() >= 1 ==> finds(old(replies)@[0], step, |r: AuthReply| if let AuthReply::MaybeProfile(p) = r { Some(p) } else { None }, "user not found"@),
    {
        if replies.len() == 0 {
            return Step::Call(AuthCall::FindUserProfileById { user_id });
        }
        match take_reply(replies, 0) {
            Ok(AuthReply::MaybeProfile(Some(p))) => Step::Done(Ok(p)),
            Ok(AuthReply::MaybeProfile(None)) => Step::Done(Err(AppError::not_found("user not found"))),
            Ok(_) => Step::Done(Err(unexpected_reply())),
            Err(e) => Step::Done(Err(e)),
        }
    }

    /// Validates and decodes access token from bearer header.
    ///
    /// # Parameters
    /// - `token`: The access token.
    /// - `replies`: Answers to the calls made so far.
    pub fn verify_access_token(&self, token: &str, replies: &mut Vec<AppResult<AuthReply>>) -> (step: AuthStep<u128>)
        ensures
            old(replies)@.len() == 0 ==> (step matches Step::Call(AuthCall::VerifyAccessToken { token: t }) && t@ == token@),
            old(replies)@.len() >= 1 ==> relays(old(replies)@[0], step, |r: AuthReply| if let AuthReply::UserId(u) = r { Some(u) } else { None }),
    {
        if replies.len() == 0 {
            return Step::Call(AuthCall::VerifyAccessToken { token: token.to_owned() });
        }
        match take_reply(replies, 0) {
            Ok(AuthReply::UserId(u)) => Step::Done(Ok(u)),
            Ok(_) => Step::Done(Err(unexpected_reply())),
            Err(e) => Step::Done(Err(e)),
        }
    }
}

} // verus!
