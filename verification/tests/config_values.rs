use sagiton::config::{AppConfig, ConfigValues};

fn required_only() -> ConfigValues {
    ConfigValues {
        app_port: None,
        app_env: None,
        rust_log: None,
        db_max_connections: None,
        http_body_limit_bytes: None,
        ws_max_message_bytes: None,
        database_url: Some("postgres://db".to_string()),
        redis_url: Some("redis://cache".to_string()),
        jwt_secret: Some("jwt-secret".to_string()),
        refresh_token_pepper: None,
        docs_enabled: None,
    }
}

#[test]
fn defaults_apply_to_missing_settings() {
    let c = AppConfig::from_values(required_only()).unwrap();
    assert_eq!(c.port, 8080);
    assert_eq!(c.app_env, "development");
    assert_eq!(c.log_level, "info");
    assert_eq!(c.db_max_connections, 20);
    assert_eq!(c.http_body_limit_bytes, 1_048_576);
    assert_eq!(c.ws_max_message_bytes, 16_384);
    assert_eq!(c.refresh_token_pepper, "jwt-secret");
    assert!(!c.docs_enabled);
}

#[test]
fn given_settings_are_parsed() {
    let mut v = required_only();
    v.app_port = Some("+0443".to_string());
    v.app_env = Some("production".to_string());
    v.db_max_connections = Some("5".to_string());
    v.refresh_token_pepper = Some("pepper".to_string());
    v.docs_enabled = Some(" Yes ".to_string());
    let c = AppConfig::from_values(v).unwrap();
    assert_eq!(c.port, 443);
    assert_eq!(c.app_env, "production");
    assert_eq!(c.db_max_connections, 5);
    assert_eq!(c.refresh_token_pepper, "pepper");
    assert!(c.docs_enabled);
}

#[test]
fn bad_numbers_are_reported_first() {
    let mut v = required_only();
    v.app_port = Some("70000".to_string());
    v.database_url = None;
    assert_eq!(AppConfig::from_values(v).unwrap_err(), "APP_PORT must be a valid u16");
    let mut v = required_only();
    v.app_port = Some(" 80".to_string());
    assert_eq!(AppConfig::from_values(v).unwrap_err(), "APP_PORT must be a valid u16");
    let mut v = required_only();
    v.db_max_connections = Some("-1".to_string());
    assert_eq!(AppConfig::from_values(v).unwrap_err(), "APP_DB_MAX_CONNECTIONS must be a valid u32");
    let mut v = required_only();
    v.http_body_limit_bytes = Some("".to_string());
    assert_eq!(AppConfig::from_values(v).unwrap_err(), "APP_HTTP_BODY_LIMIT_BYTES must be a valid usize");
    let mut v = required_only();
    v.ws_max_message_bytes = Some("+".to_string());
    assert_eq!(AppConfig::from_values(v).unwrap_err(), "APP_WS_MAX_MESSAGE_BYTES must be a valid usize");
}

#[test]
fn required_settings_are_checked_in_order() {
    let mut v = required_only();
    v.database_url = None;
    v.redis_url = None;
    assert_eq!(AppConfig::from_values(v).unwrap_err(), "DATABASE_URL is required in environment");
    let mut v = required_only();
    v.redis_url = None;
    v.jwt_secret = None;
    assert_eq!(AppConfig::from_values(v).unwrap_err(), "REDIS_URL is required in environment");
    let mut v = required_only();
    v.jwt_secret = None;
    assert_eq!(AppConfig::from_values(v).unwrap_err(), "JWT_SECRET is required in environment");
}
