use sagiton::error::AppError;
use sagiton::validation::{
    decimal, normalize_invite_expiry, normalize_limit, normalize_member_ids,
    normalize_optional_email, validate_group_name, validate_max_uses, validate_message_content,
    validate_name, validate_password, validate_username,
};

#[test]
fn username_length_is_checked_after_trimming() {
    assert_eq!(
        validate_username("  ab  "),
        Err(AppError::Validation("username must be at least 3 characters".to_string()))
    );
    assert_eq!(validate_username(" abc "), Ok(()));
    assert_eq!(validate_username(&"a".repeat(32)), Ok(()));
    assert_eq!(
        validate_username(&"a".repeat(33)),
        Err(AppError::Validation("username must be at most 32 characters".to_string()))
    );
}

#[test]
fn username_length_counts_bytes() {
    // eleven two-byte characters are 22 bytes
    assert_eq!(validate_username(&"é".repeat(11)), Ok(()));
    // seventeen two-byte characters are 34 bytes
    assert_eq!(
        validate_username(&"é".repeat(17)),
        Err(AppError::Validation("username must be at most 32 characters".to_string()))
    );
}

#[test]
fn password_needs_eight_bytes() {
    assert_eq!(
        validate_password("  1234567  "),
        Err(AppError::Validation("password must be at least 8 characters".to_string()))
    );
    assert_eq!(validate_password("12345678"), Ok(()));
}

#[test]
fn email_is_trimmed_and_lowercased() {
    assert_eq!(
        normalize_optional_email(Some("  Alice@Example.COM ".to_string())),
        Ok(Some("alice@example.com".to_string()))
    );
    assert_eq!(normalize_optional_email(Some("   ".to_string())), Ok(None));
    assert_eq!(normalize_optional_email(None), Ok(None));
    assert_eq!(
        normalize_optional_email(Some("not-an-email".to_string())),
        Err(AppError::Validation("email format is invalid".to_string()))
    );
}

#[test]
fn group_name_bounds() {
    assert_eq!(
        validate_group_name(" a "),
        Err(AppError::Validation("group name must be at least 2 characters".to_string()))
    );
    assert_eq!(validate_group_name("ab"), Ok(()));
    assert_eq!(
        validate_group_name(&"x".repeat(81)),
        Err(AppError::Validation("group name must be at most 80 characters".to_string()))
    );
}

#[test]
fn name_messages_carry_field_and_bounds() {
    assert_eq!(
        validate_name("guild name", "a", 2, 80),
        Err(AppError::Validation("guild name must be at least 2 characters".to_string()))
    );
    assert_eq!(
        validate_name("channel name", &"c".repeat(81), 1, 80),
        Err(AppError::Validation("channel name must be at most 80 characters".to_string()))
    );
    assert_eq!(validate_name("channel name", "general", 1, 80), Ok(()));
}

#[test]
fn decimal_writes_numbers() {
    assert_eq!(decimal(0), "0");
    assert_eq!(decimal(7), "7");
    assert_eq!(decimal(80), "80");
    assert_eq!(decimal(4000), "4000");
}

#[test]
fn message_content_rules() {
    assert_eq!(
        validate_message_content("   "),
        Err(AppError::Validation("message content is required".to_string()))
    );
    assert_eq!(validate_message_content(&"m".repeat(4000)), Ok(()));
    assert_eq!(
        validate_message_content(&"m".repeat(4001)),
        Err(AppError::Validation("message content must be at most 4000 characters".to_string()))
    );
}

#[test]
fn page_size_defaults_and_caps() {
    assert_eq!(normalize_limit(None), Ok(50));
    assert_eq!(normalize_limit(Some(1)), Ok(1));
    assert_eq!(normalize_limit(Some(100)), Ok(100));
    assert_eq!(normalize_limit(Some(1000)), Ok(100));
    assert_eq!(
        normalize_limit(Some(0)),
        Err(AppError::Validation("limit must be positive".to_string()))
    );
    assert_eq!(
        normalize_limit(Some(-5)),
        Err(AppError::Validation("limit must be positive".to_string()))
    );
}

#[test]
fn invite_caps_and_lifetimes() {
    assert_eq!(validate_max_uses(None), Ok(()));
    assert_eq!(validate_max_uses(Some(1)), Ok(()));
    assert_eq!(
        validate_max_uses(Some(0)),
        Err(AppError::Validation("max_uses must be positive".to_string()))
    );
    assert_eq!(normalize_invite_expiry(None), 604_800);
    assert_eq!(normalize_invite_expiry(Some(1)), 60);
    assert_eq!(normalize_invite_expiry(Some(3600)), 3600);
    assert_eq!(normalize_invite_expiry(Some(u64::MAX)), 2_592_000);
}

#[test]
fn member_ids_drop_owner_and_duplicates_in_order() {
    let r = normalize_member_ids(5, vec![9, 5, 3, 9, 7]).unwrap();
    assert_eq!(r, vec![3, 7, 9]);
    assert_eq!(normalize_member_ids(5, vec![5, 5]).unwrap(), Vec::<u128>::new());
}

#[test]
fn member_ids_are_capped_at_thirty() {
    let thirty: Vec<u128> = (1..=30).collect();
    assert_eq!(normalize_member_ids(0, thirty.clone()).unwrap().len(), 30);
    let mut thirty_one = thirty.clone();
    thirty_one.push(31);
    assert_eq!(
        normalize_member_ids(0, thirty_one),
        Err(AppError::Validation("group member count must be at most 30".to_string()))
    );
    // the owner does not count
    let mut with_owner = thirty;
    with_owner.push(99);
    assert_eq!(normalize_member_ids(99, with_owner).unwrap().len(), 30);
}
