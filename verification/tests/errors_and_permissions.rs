use sagiton::error::{
    is_foreign_key_violation, is_unique_violation, map_foreign_key_as_not_found,
    map_unique_as_conflict, AppError, ErrorKind,
};
use sagiton::permission::{
    default_role_permissions, effective_permissions, PermissionBits, KICK_MEMBERS,
    MANAGE_CHANNELS, MANAGE_ROLES, SEND_MESSAGES, VIEW_CHANNEL,
};

#[test]
fn constructors_status_and_codes() {
    let cases = vec![
        (AppError::validation("v"), ErrorKind::Validation, 400u16, "VALIDATION_ERROR"),
        (AppError::conflict("c"), ErrorKind::Conflict, 409, "CONFLICT"),
        (AppError::unauthorized("u"), ErrorKind::Unauthorized, 401, "UNAUTHORIZED"),
        (AppError::forbidden("f"), ErrorKind::Forbidden, 403, "FORBIDDEN"),
        (AppError::rate_limited("r"), ErrorKind::RateLimited, 429, "RATE_LIMITED"),
        (AppError::not_found("n"), ErrorKind::NotFound, 404, "NOT_FOUND"),
        (AppError::internal("i"), ErrorKind::Internal, 500, "INTERNAL_ERROR"),
    ];
    for (e, kind, status, code) in cases {
        assert_eq!(e.error_kind(), kind);
        assert_eq!(e.status_code(), status);
        assert_eq!(e.code(), code);
        assert_eq!(e.duplicate(), e);
    }
    assert_eq!(AppError::not_found("guild not found").message(), "guild not found");
}

#[test]
fn database_errors_are_mapped_by_sqlstate() {
    assert!(is_unique_violation(Some("23505")));
    assert!(!is_unique_violation(Some("23503")));
    assert!(!is_unique_violation(None));
    assert!(is_foreign_key_violation(Some("23503")));
    assert_eq!(
        map_unique_as_conflict(Some("23505"), "dup", "user is already a guild member"),
        AppError::Conflict("user is already a guild member".to_string())
    );
    assert_eq!(
        map_unique_as_conflict(Some("40001"), "serialization failure", "x"),
        AppError::Internal("database error: serialization failure".to_string())
    );
    assert_eq!(
        map_foreign_key_as_not_found(Some("23503"), "fk", "referenced user or thread not found"),
        AppError::NotFound("referenced user or thread not found".to_string())
    );
    assert_eq!(
        AppError::from_database_error("pool timed out"),
        AppError::Internal("database error: pool timed out".to_string())
    );
}

#[test]
fn permission_bits_are_distinct_flags() {
    assert_eq!(
        (VIEW_CHANNEL, SEND_MESSAGES, MANAGE_CHANNELS, MANAGE_ROLES, KICK_MEMBERS),
        (1, 2, 4, 8, 16)
    );
    assert_eq!(default_role_permissions(), 3);
    assert!(PermissionBits(3).has(VIEW_CHANNEL | SEND_MESSAGES));
    assert!(!PermissionBits(1).has(SEND_MESSAGES));
    assert!(PermissionBits(0).has(0));
}

#[test]
fn overrides_apply_role_then_member() {
    // no overrides: the role union stays
    assert_eq!(effective_permissions(3, 0, 0, 0, 0), 3);
    // a role deny removes, a role allow adds back
    assert_eq!(effective_permissions(3, SEND_MESSAGES, 0, 0, 0), 1);
    assert_eq!(effective_permissions(1, 0, MANAGE_CHANNELS, 0, 0), 5);
    // a member deny beats a role allow
    assert_eq!(effective_permissions(1, 0, SEND_MESSAGES, SEND_MESSAGES, 0), 1);
    // a member allow is always granted
    assert_eq!(effective_permissions(0, VIEW_CHANNEL, 0, VIEW_CHANNEL, VIEW_CHANNEL), 1);
}
