//! Runtime configuration and the switches read from it.
use vstd::prelude::*;
use crate::text::{eq_ignore_ascii_case, equals_ignore_ascii_case, trim, trim_chars};
use crate::platform::{lemma_unsigned_value_nonneg, parse_u16, parse_u32, parse_usize, unsigned_value};

verus! {

/// Runtime configuration of the server.
#[derive(Debug, Clone, PartialEq, Eq)]
pub struct AppConfig {
    pub port: u16,
    pub app_env: String,
    pub log_level: String,
    pub db_max_connections: u32,
    pub http_body_limit_bytes: usize,
    pub ws_max_message_bytes: usize,
    pub database_url: String,
    pub redis_url: String,
    pub jwt_secret: String,
    pub refresh_token_pepper: String,
    pub docs_enabled: bool,
}

/// The raw settings the configuration is read from, each the text of its
/// environment variable (`None` when the variable is unset or not Unicode).
pub struct ConfigValues {
    /// `APP_PORT`
    pub app_port: Option<String>,
    /// `APP_ENV`
    pub app_env: Option<String>,
    /// `RUST_LOG`
    pub rust_log: Option<String>,
    /// `APP_DB_MAX_CONNECTIONS`
    pub db_max_connections: Option<String>,
    /// `APP_HTTP_BODY_LIMIT_BYTES`
    pub http_body_limit_bytes: Option<String>,
    /// `APP_WS_MAX_MESSAGE_BYTES`
    pub ws_max_message_bytes: Option<String>,
    /// `DATABASE_URL`
    pub database_url: Option<String>,
    /// `REDIS_URL`
    pub redis_url: Option<String>,
    /// `JWT_SECRET`
    pub jwt_secret: Option<String>,
    /// `REFRESH_TOKEN_PEPPER`
    pub refresh_token_pepper: Option<String>,
    /// `APP_DOCS_ENABLED`
    pub docs_enabled: Option<String>,
}

/// A setting's text, or `default` when it is missing.
pub open spec fn text_or(v: Option<String>, default: Seq<char>) -> Seq<char> {
    match v {
        Some(s) => s@,
        None => default,
    }
}

/// The port setting, `8080` when missing.
pub open spec fn port_text(v: ConfigValues) -> Seq<char> {
    text_or(v.app_port, "8080"@)
}

/// The database pool size setting, `20` when missing.
pub open spec fn db_max_text(v: ConfigValues) -> Seq<char> {
    text_or(v.db_max_connections, "20"@)
}

/// The HTTP body limit setting, `1048576` when missing.
pub open spec fn body_limit_text(v: ConfigValues) -> Seq<char> {
    text_or(v.http_body_limit_bytes, "1048576"@)
}

/// The websocket frame limit setting, `16384` when missing.
pub open spec fn ws_limit_text(v: ConfigValues) -> Seq<char> {
    text_or(v.ws_max_message_bytes, "16384"@)
}

/// The first setting that is wrong, as the error it is reported with, in
/// the order the settings are read.
pub open spec fn config_problem(v: ConfigValues) -> Option<Seq<char>> {
    if unsigned_value(port_text(v), u16::MAX as int) is None {
        Some("APP_PORT must be a valid u16"@)
    } else if unsigned_value(db_max_text(v), u32::MAX as int) is None {
        Some("APP_DB_MAX_CONNECTIONS must be a valid u32"@)
    } else if unsigned_value(body_limit_text(v), usize::MAX as int) is None {
        Some("APP_HTTP_BODY_LIMIT_BYTES must be a valid usize"@)
    } else if unsigned_value(ws_limit_text(v), usize::MAX as int) is None {
        Some("APP_WS_MAX_MESSAGE_BYTES must be a valid usize"@)
    } else if v.database_url is None {
        Some("DATABASE_URL is required in environment"@)
    } else if v.redis_url is None {
        Some("REDIS_URL is required in environment"@)
    } else if v.jwt_secret is None {
        Some("JWT_SECRET is required in environment"@)
    } else {
        None
    }
}

fn setting_or<'a>(v: &'a Option<String>, default: &'a str) -> (r: &'a str)
    ensures
        r@ == text_or(*v, default@),
{
    match v {
        Some(s) => s.as_str(),
        None => default,
    }
}

fn owned_or(v: Option<String>, default: &str) -> (r: String)
    ensures
        r@ == text_or(v, default@),
{
    match v {
        Some(s) => s,
        None => String::from_str(default),
    }
}

impl AppConfig {
    /// Reads the configuration from its raw settings: the defaults (port
    /// 8080, environment `development`, log level `info`, 20 database
    /// connections, a 1 MiB body limit, 16 KiB websocket frames), the number
    /// parses, the required URLs and secret, the refresh token pepper falling
    /// back to the JWT secret, and the docs switch.
    pub fn from_values(v: ConfigValues) -> (r: Result<AppConfig, String>)
        ensures
            config_problem(v) matches Some(m) ==> (r matches Err(e) && e@ == m),
            config_problem(v) is None ==> (r matches Ok(c) && {
                &&& c.port as int == unsigned_value(port_text(v), u16::MAX as int)->Some_0
                &&& c.app_env@ == text_or(v.app_env, "development"@)
                &&& c.log_level@ == text_or(v.rust_log, "info"@)
                &&& c.db_max_connections as int == unsigned_value(db_max_text(v), u32::MAX as int)->Some_0
                &&& c.http_body_limit_bytes as int == unsigned_value(body_limit_text(v), usize::MAX as int)->Some_0
                &&& c.ws_max_message_bytes as int == unsigned_value(ws_limit_text(v), usize::MAX as int)->Some_0
                &&& c.database_url@ == v.database_url->Some_0@
                &&& c.redis_url@ == v.redis_url->Some_0@
                &&& c.jwt_secret@ == v.jwt_secret->Some_0@
                &&& c.refresh_token_pepper@ == text_or(v.refresh_token_pepper, v.jwt_secret->Some_0@)
                &&& c.docs_enabled == (v.docs_enabled matches Some(d) && flag_on(d@))
            }),
    {
        proof {
            lemma_unsigned_value_nonneg(port_text(v), u16::MAX as int);
            lemma_unsigned_value_nonneg(db_max_text(v), u32::MAX as int);
            lemma_unsigned_value_nonneg(body_limit_text(v), usize::MAX as int);
            lemma_unsigned_value_nonneg(ws_limit_text(v), usize::MAX as int);
        }
        let port = match parse_u16(setting_or(&v.app_port, "8080")) {
            Some(p) => p,
            None => return Err(String::from_str("APP_PORT must be a valid u16")),
        };
        let db_max_connections = match parse_u32(setting_or(&v.db_max_connections, "20")) {
            Some(n) => n,
            None => return Err(String::from_str("APP_DB_MAX_CONNECTIONS must be a valid u32")),
        };
        let http_body_limit_bytes = match parse_usize(setting_or(&v.http_body_limit_bytes, "1048576")) {
            Some(n) => n,
            None => return Err(String::from_str("APP_HTTP_BODY_LIMIT_BYTES must be a valid usize")),
        };
        let ws_max_message_bytes = match parse_usize(setting_or(&v.ws_max_message_bytes, "16384")) {
            Some(n) => n,
            None => return Err(String::from_str("APP_WS_MAX_MESSAGE_BYTES must be a valid usize")),
        };
        let docs_enabled = match &v.docs_enabled {
            Some(d) => parse_docs_flag(Some(d.as_str())),
            None => parse_docs_flag(None),
        };
        let ConfigValues {
            app_port: _,
            app_env,
            rust_log,
            db_max_connections: _,
            http_body_limit_bytes: _,
            ws_max_message_bytes: _,
            database_url,
            redis_url,
            jwt_secret,
            refresh_token_pepper,
            docs_enabled: _,
        } = v;
        let database_url = match database_url {
            Some(s) => s,
            None => return Err(String::from_str("DATABASE_URL is required in environment")),
        };
        let redis_url = match redis_url {
            Some(s) => s,
            None => return Err(String::from_str("REDIS_URL is required in environment")),
        };
        let jwt_secret = match jwt_secret {
            Some(s) => s,
            None => return Err(String::from_str("JWT_SECRET is required in environment")),
        };
        let refresh_token_pepper = match refresh_token_pepper {
            Some(p) => p,
            None => jwt_secret.clone(),
        };
        Ok(AppConfig {
            port,
            app_env: owned_or(app_env, "development"),
            log_level: owned_or(rust_log, "info"),
            db_max_connections,
            http_body_limit_bytes,
            ws_max_message_bytes,
            database_url,
            redis_url,
            jwt_secret,
            refresh_token_pepper,
            docs_enabled,
        })
    }
}

/// A docs switch is on for `1`, `true` or `yes` in any case, around blanks.
pub open spec fn flag_on(raw: Seq<char>) -> bool {
    let v = trim_chars(raw);
    eq_ignore_ascii_case(v, "1"@) || eq_ignore_ascii_case(v, "true"@) || eq_ignore_ascii_case(v, "yes"@)
}

/// Reads the `APP_DOCS_ENABLED` switch; it is off when unset.
pub fn parse_docs_flag(raw: Option<&str>) -> (on: bool)
    ensures
        on == (raw matches Some(v) && flag_on(v@)),
{
    match raw {
        None => false,
        Some(v) => {
            let t = trim(v);
            equals_ignore_ascii_case(t, "1") || equals_ignore_ascii_case(t, "true") || equals_ignore_ascii_case(t, "yes")
        },
    }
}

/// The API documentation is served only in development, when switched on.
pub fn docs_served(config: &AppConfig) -> (on: bool)
    ensures
        on == (eq_ignore_ascii_case(config.app_env@, "development"@) && config.docs_enabled),
{
    equals_ignore_ascii_case(config.app_env.as_str(), "development") && config.docs_enabled
}

/// Logs are written as JSON in production.
pub fn logs_as_json(app_env: &str) -> (json: bool)
    ensures
        json == eq_ignore_ascii_case(app_env@, "production"@),
{
    equals_ignore_ascii_case(app_env, "production")
}

} // verus!
