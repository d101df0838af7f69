use sagiton::crypto::{
    access_token_claims, access_token_subject, to_hex, unix_now,
    Argon2PasswordAdapter, PasswordPort, RefreshTokenAdapter, RefreshTokenPort,
};
use sagiton::domain::{SessionContext, UserProfile, UserRecord};
use sagiton::error::{AppError, AppResult};
use sagiton::use_cases::auth::{
    AuthCall, AuthReply, AuthUseCase, FreshSession, LoginCommand, LogoutCommand, RefreshCommand,
    RegisterCommand,
};
use sagiton::use_cases::flow::Step;

const PEPPER: &str = "0123456789abcdef-pepper";

fn auth() -> AuthUseCase {
    AuthUseCase::new(Argon2PasswordAdapter::new(), RefreshTokenAdapter::new(PEPPER).unwrap())
}

#[test]
fn hex_encoding() {
    assert_eq!(to_hex(&[]), "");
    assert_eq!(to_hex(&[0x00, 0x0f, 0xa5, 0xff]), "000fa5ff");
}

#[test]
fn pepper_must_be_long_enough() {
    assert_eq!(
        RefreshTokenAdapter::new("   short pepper   ").err(),
        Some("REFRESH_TOKEN_PEPPER must be at least 16 characters long".to_string())
    );
    assert!(RefreshTokenAdapter::new("sixteen-chars-ok").is_ok());
}

#[test]
fn refresh_token_hash_is_the_hmac_in_hex() {
    let adapter = RefreshTokenAdapter::new(PEPPER).unwrap();
    assert_eq!(
        adapter.hash_refresh_token("token-abc"),
        "60c7522ca9466be93ea1f58a6254c87774457f95dd6b497205043a8232ba3da3"
    );
    assert_ne!(adapter.hash_refresh_token("token-abc"), adapter.hash_refresh_token("token-abd"));
}

#[test]
fn refresh_tokens_are_96_hex_digits_and_fresh() {
    let adapter = RefreshTokenAdapter::new(PEPPER).unwrap();
    let a = adapter.generate_refresh_token();
    let b = adapter.generate_refresh_token();
    assert_eq!(a.len(), 96);
    assert!(a.chars().all(|c| c.is_ascii_hexdigit() && !c.is_ascii_uppercase()));
    assert_ne!(a, b);
}

#[test]
fn argon2_hash_verifies_only_its_password() {
    let adapter = Argon2PasswordAdapter::new();
    let hash = adapter.hash_password("correct horse").unwrap();
    assert!(hash.starts_with("$argon2id$"));
    assert_eq!(adapter.verify_password("correct horse", &hash), Ok(true));
    assert_eq!(adapter.verify_password("wrong horse", &hash), Ok(false));
    assert_eq!(adapter.verify_password("correct horse", "not a phc string"), Ok(false));
}

#[test]
fn access_token_claims_and_subject() {
    let user = 0x0123456789abcdef0123456789abcdefu128;
    let claims = access_token_claims(user, 1_000);
    assert_eq!(claims.sub, "01234567-89ab-cdef-0123-456789abcdef");
    assert_eq!((claims.iat, claims.exp), (1_000, 1_900));
    assert_eq!(claims.jti.len(), 36);
    assert_eq!(access_token_subject(Some(&claims)), Ok(user));
    assert_eq!(
        access_token_subject(None),
        Err(AppError::Unauthorized("invalid access token".to_string()))
    );
    let mut bad = claims.clone();
    bad.sub = "nobody".to_string();
    assert_eq!(
        access_token_subject(Some(&bad)),
        Err(AppError::Unauthorized("invalid access token subject".to_string()))
    );
    let mut simple = claims.clone();
    simple.sub = "0123456789abcdef0123456789abcdef".to_string();
    assert_eq!(access_token_subject(Some(&simple)), Ok(user));
}

#[test]
fn clock_reads_after_the_epoch() {
    assert!(unix_now().unwrap() > 1_600_000_000);
}

#[test]
fn registration_hashes_the_trimmed_password() {
    let uc = auth();
    let cmd = RegisterCommand {
        username: "  alice ".to_string(),
        email: Some(" Alice@Example.com ".to_string()),
        password: "  secret-password  ".to_string(),
    };
    let mut replies: Vec<AppResult<AuthReply>> = Vec::new();
    match uc.register(&cmd, &mut replies) {
        Step::Call(AuthCall::CreateUser { username, email, password_hash }) => {
            assert_eq!(username, "alice");
            assert_eq!(email, Some("alice@example.com".to_string()));
            assert_eq!(Argon2PasswordAdapter::new().verify_password("secret-password", &password_hash), Ok(true));
        }
        other => panic!("unexpected {other:?}"),
    }
    let profile = UserProfile { id: 1, username: "alice".to_string(), email: None };
    let mut replies = vec![Ok(AuthReply::Profile(profile.clone()))];
    assert!(matches!(uc.register(&cmd, &mut replies), Step::Done(Ok(p)) if p == profile));
    let short = RegisterCommand { username: "al".to_string(), email: None, password: "x".to_string() };
    assert!(matches!(
        uc.register(&short, &mut Vec::new()),
        Step::Done(Err(AppError::Validation(m))) if m == "username must be at least 3 characters"
    ));
}

fn context() -> SessionContext {
    SessionContext { user_agent: Some("ua".to_string()), ip: None }
}

#[test]
fn login_flow() {
    let uc = auth();
    let hash = Argon2PasswordAdapter::new().hash_password("secret-password").unwrap();
    let user = UserRecord { id: 7, username: "alice".to_string(), email: None, password_hash: hash };
    let fresh = FreshSession { refresh_token: "r".repeat(96), now: 1_000 };
    let cmd = LoginCommand { username_or_email: " alice ".to_string(), password: "secret-password".to_string(), context: context() };

    assert!(matches!(
        uc.login(&cmd, &fresh, &mut Vec::new()),
        Step::Call(AuthCall::FindUserByLoginIdentity { identity }) if identity == "alice"
    ));
    let mut replies = vec![Ok(AuthReply::MaybeUser(Some(user.clone())))];
    assert!(matches!(uc.login(&cmd, &fresh, &mut replies), Step::Call(AuthCall::IssueAccessToken { user_id: 7 })));
    let mut replies = vec![Ok(AuthReply::MaybeUser(Some(user.clone()))), Ok(AuthReply::AccessToken("jwt".to_string()))];
    match uc.login(&cmd, &fresh, &mut replies) {
        Step::Call(AuthCall::CreateSession(s)) => {
            assert_eq!(s.user_id, 7);
            assert_eq!(s.refresh_token_hash, RefreshTokenAdapter::new(PEPPER).unwrap().hash_refresh_token(&fresh.refresh_token));
            assert_eq!(s.expires_at, 1_000 + 30 * 24 * 3600 * 1_000_000_000i128);
            assert_eq!(s.context, context());
        }
        other => panic!("unexpected {other:?}"),
    }
    let mut replies = vec![
        Ok(AuthReply::MaybeUser(Some(user.clone()))),
        Ok(AuthReply::AccessToken("jwt".to_string())),
        Ok(AuthReply::Done),
    ];
    match uc.login(&cmd, &fresh, &mut replies) {
        Step::Done(Ok(pair)) => {
            assert_eq!(pair.access_token, "jwt");
            assert_eq!(pair.refresh_token, fresh.refresh_token);
        }
        other => panic!("unexpected {other:?}"),
    }
    let wrong = LoginCommand { username_or_email: "alice".to_string(), password: "nope-nope".to_string(), context: context() };
    let mut replies = vec![Ok(AuthReply::MaybeUser(Some(user)))];
    assert!(matches!(
        uc.login(&wrong, &fresh, &mut replies),
        Step::Done(Err(AppError::Unauthorized(m))) if m == "invalid credentials"
    ));
    let mut unknown = vec![Ok(AuthReply::MaybeUser(None))];
    assert!(matches!(
        uc.login(&cmd, &fresh, &mut unknown),
        Step::Done(Err(AppError::Unauthorized(m))) if m == "invalid credentials"
    ));
    let blank = LoginCommand { username_or_email: "  ".to_string(), password: "x".to_string(), context: context() };
    assert!(matches!(
        uc.login(&blank, &fresh, &mut Vec::new()),
        Step::Done(Err(AppError::Validation(m))) if m == "username_or_email is required"
    ));
}

#[test]
fn refresh_rotates_and_logout_revokes() {
    let uc = auth();
    let adapter = RefreshTokenAdapter::new(PEPPER).unwrap();
    let fresh = uc.fresh_session();
    let cmd = RefreshCommand { refresh_token: " old-token ".to_string(), context: context() };
    match uc.refresh(&cmd, &fresh, &mut Vec::new()) {
        Step::Call(AuthCall::RotateRefreshSession(s)) => {
            assert_eq!(s.old_refresh_token_hash, adapter.hash_refresh_token("old-token"));
            assert_eq!(s.new_refresh_token_hash, adapter.hash_refresh_token(&fresh.refresh_token));
        }
        other => panic!("unexpected {other:?}"),
    }
    let mut replies = vec![Ok(AuthReply::UserId(7)), Ok(AuthReply::AccessToken("jwt".to_string()))];
    assert!(matches!(uc.refresh(&cmd, &fresh, &mut replies), Step::Done(Ok(p)) if p.refresh_token == fresh.refresh_token));
    let mut invalid: Vec<AppResult<AuthReply>> = vec![Err(AppError::unauthorized("invalid refresh token"))];
    assert!(matches!(
        uc.refresh(&cmd, &fresh, &mut invalid),
        Step::Done(Err(AppError::Unauthorized(m))) if m == "invalid refresh token"
    ));
    let blank = LogoutCommand { refresh_token: "".to_string() };
    assert!(matches!(
        uc.logout(&blank, &mut Vec::new()),
        Step::Done(Err(AppError::Validation(m))) if m == "refresh_token is required"
    ));
    let out = LogoutCommand { refresh_token: "old-token".to_string() };
    assert!(matches!(
        uc.logout(&out, &mut Vec::new()),
        Step::Call(AuthCall::RevokeByRefreshHash { refresh_token_hash }) if refresh_token_hash == adapter.hash_refresh_token("old-token")
    ));
    let mut missing = vec![Ok(AuthReply::MaybeProfile(None))];
    assert!(matches!(
        uc.me(7, &mut missing),
        Step::Done(Err(AppError::NotFound(m))) if m == "user not found"
    ));
}
