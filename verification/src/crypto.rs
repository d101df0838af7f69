//! Credentials: password hashes, refresh tokens and their hashes, and the
//! claims of access tokens.
use vstd::prelude::*;
use hmac::Mac;
use argon2::password_hash::{PasswordHasher, PasswordVerifier};
use crate::error::{AppError, AppResult, ErrorKind};
use crate::platform::{hex_digit, new_uuid_v4, uuid_hyphenated_chars, uuid_string};
use crate::text::join_texts;
use crate::validation::trimmed_len;
use crate::text::{byte_len, trim, utf8_len};

verus! {

/// The two lower-case hexadecimal digits of a byte, high nibble first.
pub open spec fn hex_pair(b: u8) -> Seq<char> {
    seq![hex_digit((b / 16) as int), hex_digit((b % 16) as int)]
}

/// The lower-case hexadecimal text of `bytes`, two digits per byte.
pub open spec fn hex_chars(bytes: Seq<u8>) -> Seq<char>
    decreases bytes.len(),
{
    if bytes.len() == 0 {
        Seq::empty()
    } else {
        hex_chars(bytes.drop_last()) + hex_pair(bytes.last())
    }
}

proof fn lemma_hex_chars_len(bytes: Seq<u8>)
    ensures
        hex_chars(bytes).len() == 2 * bytes.len(),
    decreases bytes.len(),
{
    if bytes.len() > 0 {
        lemma_hex_chars_len(bytes.drop_last());
    }
}

proof fn lemma_hex_digit_injective(x: int, y: int)
    requires
        0 <= x < 16,
        0 <= y < 16,
        hex_digit(x) == hex_digit(y),
    ensures
        x == y,
{
}

/// Different byte strings have different hexadecimal texts, so distinct
/// digests are stored as distinct hashes.
pub proof fn lemma_hex_injective(a: Seq<u8>, b: Seq<u8>)
    requires
        hex_chars(a) == hex_chars(b),
    ensures
        a == b,
    decreases a.len(),
{
    lemma_hex_chars_len(a);
    lemma_hex_chars_len(b);
    if a.len() > 0 {
        let n = hex_chars(a).len() as int;
        let pa = hex_chars(a.drop_last());
        let pb = hex_chars(b.drop_last());
        lemma_hex_chars_len(a.drop_last());
        lemma_hex_chars_len(b.drop_last());
        assert(hex_chars(a) == pa + hex_pair(a.last()));
        assert(hex_chars(b) == pb + hex_pair(b.last()));
        assert(hex_chars(a)[n - 2] == hex_digit((a.last() / 16) as int));
        assert(hex_chars(b)[n - 2] == hex_digit((b.last() / 16) as int));
        assert(hex_chars(a)[n - 1] == hex_digit((a.last() % 16) as int));
        assert(hex_chars(b)[n - 1] == hex_digit((b.last() % 16) as int));
        lemma_hex_digit_injective((a.last() / 16) as int, (b.last() / 16) as int);
        lemma_hex_digit_injective((a.last() % 16) as int, (b.last() % 16) as int);
        assert(a.last() == b.last());
        assert(pa =~= hex_chars(a).subrange(0, n - 2));
        assert(pb =~= hex_chars(b).subrange(0, n - 2));
        lemma_hex_injective(a.drop_last(), b.drop_last());
        assert(a =~= a.drop_last().push(a.last()));
        assert(b =~= b.drop_last().push(b.last()));
    }
}

fn hex_digit_str(n: u8) -> (s: &'static str)
    requires
        n < 16,
    ensures
        s@ == seq![hex_digit(n as int)],
{
    proof {
        reveal_strlit("0");
        reveal_strlit("1");
        reveal_strlit("2");
        reveal_strlit("3");
        reveal_strlit("4");
        reveal_strlit("5");
        reveal_strlit("6");
        reveal_strlit("7");
        reveal_strlit("8");
        reveal_strlit("9");
        reveal_strlit("a");
        reveal_strlit("b");
        reveal_strlit("c");
        reveal_strlit("d");
        reveal_strlit("e");
        reveal_strlit("f");
    }
    match n {
        0 => "0",
        1 => "1",
        2 => "2",
        3 => "3",
        4 => "4",
        5 => "5",
        6 => "6",
        7 => "7",
        8 => "8",
        9 => "9",
        10 => "a",
        11 => "b",
        12 => "c",
        13 => "d",
        14 => "e",
        _ => "f",
    }
}

/// Encodes `bytes` as lower-case hexadecimal text, two digits per byte.
pub fn to_hex(bytes: &[u8]) -> (s: String)
    ensures
        s@ == hex_chars(bytes@),
        s@.len() == 2 * bytes@.len(),
{
    let mut out = String::new();
    let n = bytes.len();
    let mut i: usize = 0;
    proof {
        assert(bytes@.subrange(0, 0) =~= Seq::<u8>::empty());
    }
    while i < n
        invariant
            n == bytes@.len(),
            i <= n,
            out@ == hex_chars(bytes@.subrange(0, i as int)),
        decreases n - i,
    {
        let b = bytes[i];
        let high = b >> 4;
        let low = b & 0x0f;
        assert(high == b / 16 && low == b % 16) by (bit_vector)
            requires
                high == b >> 4,
                low == b & 0x0f,
        ;
        out.append(hex_digit_str(high));
        out.append(hex_digit_str(low));
        proof {
            let pre = bytes@.subrange(0, i as int);
            let next = bytes@.subrange(0, i + 1);
            assert(next.drop_last() =~= pre);
            assert(next.last() == b);
        }
        i = i + 1;
    }
    proof {
        assert(bytes@.subrange(0, n as int) =~= bytes@);
        lemma_hex_chars_len(bytes@);
    }
    out
}

/// HMAC-SHA256 of the UTF-8 bytes of `msg` under the UTF-8 bytes of `key`;
/// a function of the two texts alone.
pub uninterp spec fn hmac_sha256_digest(key: Seq<char>, msg: Seq<char>) -> Seq<u8>;

/// Computes HMAC-SHA256 with the `hmac` and `sha2` crates
/// (`Hmac::<Sha256>::new_from_slice`, `update`, `finalize`). Trusted to
/// return `hmac_sha256_digest(key, msg)`, 32 bytes long; `new_from_slice`
/// accepts keys of any length in `hmac` 0.12, so the key error does not
/// happen.
#[verifier::external_body]
fn hmac_sha256(key: &str, msg: &str) -> (d: Vec<u8>)
    ensures
        d@ == hmac_sha256_digest(key@, msg@),
        d@.len() == 32,
{
    match hmac::Hmac::<sha2::Sha256>::new_from_slice(key.as_bytes()) {
        Ok(mut mac) => {
            mac.update(msg.as_bytes());
            mac.finalize().into_bytes().to_vec()
        },
        Err(_) => Vec::new(),
    }
}

/// Calls `rand::random::<[u8; 48]>()`; the bytes are random, 48 of them.
#[verifier::external_body]
fn random_token_bytes() -> (b: Vec<u8>)
    ensures
        b@.len() == 48,
{
    let bytes: [u8; 48] = rand::random();
    bytes.to_vec()
}

/// The shortest accepted refresh token pepper, in bytes once trimmed.
pub const MIN_PEPPER_LENGTH: usize = 16;

/// What the hash of a refresh token is under a pepper: the hexadecimal text
/// of the HMAC-SHA256 of the token keyed by the pepper.
pub open spec fn refresh_token_hash(pepper: Seq<char>, token: Seq<char>) -> Seq<char> {
    hex_chars(hmac_sha256_digest(pepper, token))
}

/// Issues and hashes refresh tokens.
pub trait RefreshTokenPort {
    /// Generates a high-entropy refresh token string.
    fn generate_refresh_token(&self) -> String;

    /// Produces deterministic hash value for refresh token persistence.
    fn hash_refresh_token(&self, token: &str) -> String;
}

/// Refresh tokens: 48 random bytes in hexadecimal, stored as their HMAC
/// under a server-side pepper.
pub struct RefreshTokenAdapter {
    pepper: String,
}

impl RefreshTokenAdapter {
    /// The pepper the adapter hashes with.
    pub closed spec fn pepper_text(&self) -> Seq<char> {
        self.pepper@
    }

    /// Creates refresh token adapter for random token generation.
    ///
    /// # Parameters
    /// - `pepper`: Server-side secret used in refresh token hash derivation.
    pub fn new(pepper: &str) -> (r: Result<Self, String>)
        ensures
            trimmed_len(pepper@) < MIN_PEPPER_LENGTH ==> (r matches Err(m) && m@ == "REFRESH_TOKEN_PEPPER must be at least 16 characters long"@),
            trimmed_len(pepper@) >= MIN_PEPPER_LENGTH ==> (r matches Ok(a) && a.pepper_text() == pepper@),
    {
        if byte_len(trim(pepper)) < MIN_PEPPER_LENGTH {
            return Err(String::from_str("REFRESH_TOKEN_PEPPER must be at least 16 characters long"));
        }
        Ok(RefreshTokenAdapter { pepper: String::from_str(pepper) })
    }
}

impl RefreshTokenPort for RefreshTokenAdapter {
    fn generate_refresh_token(&self) -> (t: String)
        ensures
            exists|bytes: Seq<u8>| bytes.len() == 48 && t@ == hex_chars(bytes),
            t@.len() == 96,
    {
        let bytes = random_token_bytes();
        to_hex(bytes.as_slice())
    }

    fn hash_refresh_token(&self, token: &str) -> (h: String)
        ensures
            h@ == refresh_token_hash(self.pepper_text(), token@),
            h@.len() == 64,
    {
        let digest = hmac_sha256(self.pepper.as_str(), token);
        to_hex(digest.as_slice())
    }
}

/// Whether `argon2` accepts `password` against the PHC string `hash`: the
/// hash parses (`PasswordHash::new`) and `Argon2::verify_password` succeeds.
/// A function of the two texts alone.
pub uninterp spec fn argon2_accepts(password: Seq<char>, hash: Seq<char>) -> bool;

/// The largest password, in bytes, that argon2 hashes.
pub const MAX_PASSWORD_BYTES: usize = 0xFFFF_FFFF;

/// Fills 16 bytes from the operating system's generator
/// (`OsRng::fill_bytes`), as `SaltString::generate` does for its salt; the
/// bytes are random, 16 of them.
#[verifier::external_body]
fn random_salt_bytes() -> (b: Vec<u8>)
    ensures
        b@.len() == 16,
{
    let mut bytes = [0u8; 16];
    argon2::password_hash::rand_core::RngCore::fill_bytes(&mut argon2::password_hash::rand_core::OsRng, &mut bytes);
    bytes.to_vec()
}

/// Encodes `salt` as a B64 `SaltString` (`SaltString::encode_b64`) and
/// calls `Argon2::default().hash_password` with it, writing the hash as a PHC
/// string; an error is returned as its text. Trusted to give a hash that
/// `argon2` accepts for the same password (verification reads the algorithm,
/// parameters and salt back from the PHC string and recomputes the same
/// output), and, for a salt of 8 to 48 bytes, to fail exactly when the
/// password is longer than `MAX_PASSWORD_BYTES`: the salt encodes within
/// `SaltString`'s 64 characters, the default parameters and 32-byte output
/// are valid, and `verify_inputs` refuses only a too long password or a salt
/// under 8 bytes.
#[verifier::external_body]
fn argon2_hash(password: &str, salt: &[u8]) -> (r: Result<String, String>)
    ensures
        r matches Ok(h) ==> argon2_accepts(password@, h@),
        8 <= salt@.len() <= 48 ==> (r is Ok <==> utf8_len(password@) <= MAX_PASSWORD_BYTES),
{
    let salt = match argon2::password_hash::SaltString::encode_b64(salt) {
        Ok(s) => s,
        Err(e) => return Err(e.to_string()),
    };
    match argon2::Argon2::default().hash_password(password.as_bytes(), &salt) {
        Ok(hash) => Ok(hash.to_string()),
        Err(e) => Err(e.to_string()),
    }
}

/// Parses `hash` with `PasswordHash::new` and checks `password` against it
/// with `Argon2::default().verify_password`; an unparsable hash is not
/// accepted. Trusted to return `argon2_accepts(password, hash)`.
#[verifier::external_body]
fn argon2_verify(password: &str, hash: &str) -> (ok: bool)
    ensures
        ok == argon2_accepts(password@, hash@),
{
    match argon2::password_hash::PasswordHash::new(hash) {
        Ok(parsed) => argon2::Argon2::default().verify_password(password.as_bytes(), &parsed).is_ok(),
        Err(_) => false,
    }
}

/// Hashes and verifies passwords.
pub trait PasswordPort {
    /// Hashes plaintext password using a memory-hard algorithm.
    fn hash_password(&self, password: &str) -> AppResult<String>;

    /// Verifies plaintext password against stored hash.
    fn verify_password(&self, password: &str, password_hash: &str) -> AppResult<bool>;
}

/// Password hashing with Argon2id and its default parameters.
pub struct Argon2PasswordAdapter {}

impl Argon2PasswordAdapter {
    /// Creates Argon2id password adapter with default safe profile.
    pub fn new() -> (a: Self) {
        Argon2PasswordAdapter {  }
    }
}

impl PasswordPort for Argon2PasswordAdapter {
    fn hash_password(&self, password: &str) -> (r: AppResult<String>)
        ensures
            r matches Ok(h) ==> argon2_accepts(password@, h@),
            r is Ok <==> utf8_len(password@) <= MAX_PASSWORD_BYTES,
            r matches Err(e) ==> e.kind() == ErrorKind::Internal && "failed to hash password: "@.is_prefix_of(e.msg()),
    {
        let salt = random_salt_bytes();
        match argon2_hash(password, salt.as_slice()) {
            Ok(h) => Ok(h),
            Err(detail) => {
                let m = join_texts("failed to hash password: ", detail.as_str());
                proof {
                    assert(m@.subrange(0, "failed to hash password: "@.len() as int) =~= "failed to hash password: "@);
                }
                Err(AppError::Internal(m))
            },
        }
    }

    fn verify_password(&self, password: &str, password_hash: &str) -> (r: AppResult<bool>)
        ensures
            r == Ok::<bool, AppError>(argon2_accepts(password@, password_hash@)),
    {
        Ok(argon2_verify(password, password_hash))
    }
}

/// How long an access token is valid.
pub const ACCESS_TOKEN_TTL_SECONDS: u64 = 900;

/// The claims of an access token.
#[derive(Debug, Clone, PartialEq, Eq)]
pub struct AccessTokenClaims {
    /// The user id, in hyphenated UUID text.
    pub sub: String,
    /// When the token expires, in seconds since the epoch.
    pub exp: u64,
    /// When the token was issued, in seconds since the epoch.
    pub iat: u64,
    /// A unique token id, in hyphenated UUID text.
    pub jti: String,
}

/// The claims of an access token for `user_id` issued at `now` (seconds
/// since the epoch): it expires 15 minutes later and carries a fresh random
/// id.
pub fn access_token_claims(user_id: u128, now: u64) -> (c: AccessTokenClaims)
    requires
        now + ACCESS_TOKEN_TTL_SECONDS <= u64::MAX,
    ensures
        c.sub@ == uuid_hyphenated_chars(user_id),
        c.iat == now,
        c.exp == now + ACCESS_TOKEN_TTL_SECONDS,
        exists|j: u128| c.jti@ == uuid_hyphenated_chars(j),
{
    let jti = new_uuid_v4();
    AccessTokenClaims {
        sub: uuid_string(user_id),
        exp: now + ACCESS_TOKEN_TTL_SECONDS,
        iat: now,
        jti: uuid_string(jti),
    }
}

/// What `uuid::Uuid::parse_str` makes of a text: the id as its 128-bit
/// value, or `None` when the text is no UUID. A function of the text alone.
pub uninterp spec fn uuid_parse(s: Seq<char>) -> Option<u128>;

/// Calls `Uuid::parse_str` and returns the id as its 128-bit value. Trusted
/// to return `uuid_parse(s)`, and to read the hyphenated text of an id back
/// as that id (the parser accepts the 36-character hyphenated form).
#[verifier::external_body]
pub(crate) fn parse_uuid(s: &str) -> (r: Option<u128>)
    ensures
        r == uuid_parse(s@),
        forall|id: u128| s@ == uuid_hyphenated_chars(id) ==> r == Some(id),
{
    match uuid::Uuid::parse_str(s) {
        Ok(u) => Some(u.as_u128()),
        Err(_) => None,
    }
}

/// The user an access token is for, given its claims when the token's
/// signature and expiry were valid (`None` otherwise).
pub fn access_token_subject(claims: Option<&AccessTokenClaims>) -> (r: AppResult<u128>)
    ensures
        claims is None ==> (r matches Err(e) && e.is(ErrorKind::Unauthorized, "invalid access token"@)),
        claims matches Some(c) ==> match uuid_parse(c.sub@) {
            Some(id) => r == Ok::<u128, AppError>(id),
            None => r matches Err(e) && e.is(ErrorKind::Unauthorized, "invalid access token subject"@),
        },
        claims matches Some(c) ==> forall|id: u128| c.sub@ == uuid_hyphenated_chars(id) ==> r == Ok::<u128, AppError>(id),
{
    match claims {
        None => Err(AppError::unauthorized("invalid access token")),
        Some(c) => match parse_uuid(c.sub.as_str()) {
            Some(id) => Ok(id),
            None => Err(AppError::unauthorized("invalid access token subject")),
        },
    }
}

/// `std::time::SystemTime`, a reading of the system clock; opaque here.
#[verifier::external_type_specification]
#[verifier::external_body]
pub struct ExSystemTime(std::time::SystemTime);

/// `std::time::SystemTimeError`, a clock reading before the epoch; opaque
/// here.
#[verifier::external_type_specification]
#[verifier::external_body]
pub struct ExSystemTimeError(std::time::SystemTimeError);

/// Calls `SystemTime::now`; the reading is not described.
#[verifier::external_body]
fn system_time_now() -> std::time::SystemTime {
    std::time::SystemTime::now()
}

/// Calls `SystemTime::duration_since(UNIX_EPOCH)`; whether it fails depends
/// on the clock, and nothing is said of the duration.
#[verifier::external_body]
fn duration_since_epoch(t: std::time::SystemTime) -> Result<core::time::Duration, std::time::SystemTimeError> {
    t.duration_since(std::time::UNIX_EPOCH)
}

/// Calls `Duration::as_secs`; nothing is said of the duration.
#[verifier::external_body]
fn whole_seconds(d: core::time::Duration) -> u64 {
    d.as_secs()
}

/// Writes a clock error as text (its `Display`).
#[verifier::external_body]
fn clock_error_text(e: std::time::SystemTimeError) -> String {
    e.to_string()
}

/// The current time in whole seconds since the epoch; a clock set before
/// the epoch is an internal error.
pub fn unix_now() -> (r: AppResult<u64>)
    ensures
        r matches Err(e) ==> e.kind() == ErrorKind::Internal && "system clock error: "@.is_prefix_of(e.msg()),
{
    match duration_since_epoch(system_time_now()) {
        Ok(d) => Ok(whole_seconds(d)),
        Err(e) => {
            let text = clock_error_text(e);
            let m = join_texts("system clock error: ", text.as_str());
            proof {
                assert(m@.subrange(0, "system clock error: "@.len() as int) =~= "system clock error: "@);
            }
            Err(AppError::Internal(m))
        },
    }
}

} // verus!
