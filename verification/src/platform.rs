//! The calls that the library makes into std functions that vstd does not
//! specify and into outside crates, each with the contract it is trusted for.
use vstd::prelude::*;
use vstd::arithmetic::power::pow;
use crate::text::ascii_lower;

verus! {

/// What `str::to_lowercase` makes of a character sequence: the full Unicode
/// lower-case mapping, which is a function of the characters alone.
pub uninterp spec fn unicode_lowercase(s: Seq<char>) -> Seq<char>;

/// Calls `str::to_lowercase`; trusted to return the Unicode lower-case
/// mapping of `s`, a deterministic function of its characters. As std
/// documents, the empty text stays empty, and a character without a
/// lower-case form (every ASCII character but `A`..`Z`) is kept, so ASCII text
/// is lowered letter by letter, `A`..`Z` to `a`..`z`.
#[verifier::external_body]
pub(crate) fn to_lowercase(s: &str) -> (r: String)
    ensures
        r@ == unicode_lowercase(s@),
        s@.len() == 0 ==> r@.len() == 0,
        (forall|i: int| 0 <= i < s@.len() ==> (#[trigger] s@[i] as u32) < 128) ==> {
            &&& r@.len() == s@.len()
            &&& forall|i: int| 0 <= i < s@.len() ==> (#[trigger] r@[i] as u32) == ascii_lower(s@[i])
        },
{
    s.to_lowercase()
}

/// An ASCII decimal digit.
pub open spec fn is_ascii_digit(c: char) -> bool {
    '0' <= c && c <= '9'
}

/// The value of a text of ASCII decimal digits.
pub open spec fn digits_value(s: Seq<char>) -> int
    decreases s.len(),
{
    if s.len() == 0 {
        0
    } else {
        10 * digits_value(s.drop_last()) + ((s.last() as u32) - 48)
    }
}

/// A text of ASCII decimal digits only.
pub open spec fn all_digits(d: Seq<char>) -> bool {
    forall|i: int| 0 <= i < d.len() ==> is_ascii_digit(#[trigger] d[i])
}

/// A text without its leading `+`, if it has one.
pub open spec fn unsigned_digits(s: Seq<char>) -> Seq<char> {
    if s.len() > 0 && s[0] == '+' {
        s.drop_first()
    } else {
        s
    }
}

/// What std's integer parsing reads from a text, for an unsigned type whose
/// largest value is `max`: an optional `+` followed by at least one ASCII
/// digit and nothing else, with a value of at most `max`.
pub open spec fn unsigned_value(s: Seq<char>, max: int) -> Option<int> {
    let d = unsigned_digits(s);
    if d.len() > 0 && all_digits(d) && digits_value(d) <= max {
        Some(digits_value(d))
    } else {
        None
    }
}

proof fn lemma_digits_value_nonneg(s: Seq<char>)
    requires
        all_digits(s),
    ensures
        digits_value(s) >= 0,
    decreases s.len(),
{
    if s.len() > 0 {
        let d = s.drop_last();
        assert forall|i: int| 0 <= i < d.len() implies is_ascii_digit(#[trigger] d[i]) by {
            assert(d[i] == s[i]);
        }
        lemma_digits_value_nonneg(d);
        assert(is_ascii_digit(s[s.len() - 1]));
    }
}

/// A parsed unsigned value is never negative.
pub(crate) proof fn lemma_unsigned_value_nonneg(s: Seq<char>, max: int)
    ensures
        unsigned_value(s, max) matches Some(v) ==> 0 <= v <= max,
{
    let d = unsigned_digits(s);
    if d.len() > 0 && all_digits(d) {
        lemma_digits_value_nonneg(d);
    }
}

/// Calls `str::parse::<u16>`; as std documents for `from_str_radix`, the
/// text must be an optional `+` and ASCII digits only, in range.
#[verifier::external_body]
pub(crate) fn parse_u16(s: &str) -> (r: Option<u16>)
    ensures
        unsigned_value(s@, u16::MAX as int) matches Some(v) ==> r == Some(v as u16),
        unsigned_value(s@, u16::MAX as int) is None ==> r is None,
{
    s.parse::<u16>().ok()
}

/// Calls `str::parse::<u32>`; as std documents for `from_str_radix`, the
/// text must be an optional `+` and ASCII digits only, in range.
#[verifier::external_body]
pub(crate) fn parse_u32(s: &str) -> (r: Option<u32>)
    ensures
        unsigned_value(s@, u32::MAX as int) matches Some(v) ==> r == Some(v as u32),
        unsigned_value(s@, u32::MAX as int) is None ==> r is None,
{
    s.parse::<u32>().ok()
}

/// Calls `str::parse::<usize>`; as std documents for `from_str_radix`, the
/// text must be an optional `+` and ASCII digits only, in range.
#[verifier::external_body]
pub(crate) fn parse_usize(s: &str) -> (r: Option<usize>)
    ensures
        unsigned_value(s@, usize::MAX as int) matches Some(v) ==> r == Some(v as usize),
        unsigned_value(s@, usize::MAX as int) is None ==> r is None,
{
    s.parse::<usize>().ok()
}

/// Calls `uuid::Uuid::new_v4` and returns the id as its 128-bit value
/// (`Uuid::as_u128`). The value is random; every outcome carries the version
/// nibble 4 and the RFC 4122 variant bits `10`, which `new_v4` sets.
#[verifier::external_body]
pub(crate) fn new_uuid_v4() -> (id: u128)
    ensures
        (id >> 76u128) & 0xfu128 == 4,
        (id >> 62u128) & 0x3u128 == 2,
{
    uuid::Uuid::new_v4().as_u128()
}

/// The lower-case hexadecimal digit of `n` (0 to 15).
pub open spec fn hex_digit(n: int) -> char {
    if n < 10 {
        (48 + n) as char
    } else {
        (87 + n) as char
    }
}

/// The `k`-th hexadecimal digit of `id`, from the most significant one.
pub open spec fn nibble(id: u128, k: int) -> int {
    (id as int / pow(16, (31 - k) as nat)) % 16
}

/// The 32 lower-case hexadecimal digits of `id`, most significant first: the
/// "simple" text form of a UUID.
pub open spec fn uuid_simple_chars(id: u128) -> Seq<char> {
    Seq::new(32, |k: int| hex_digit(nibble(id, k)))
}

/// The hyphenated text form of a UUID (8-4-4-4-12 digits).
pub open spec fn uuid_hyphenated_chars(id: u128) -> Seq<char> {
    let s = uuid_simple_chars(id);
    s.subrange(0, 8) + seq!['-'] + s.subrange(8, 12) + seq!['-'] + s.subrange(12, 16) + seq!['-']
        + s.subrange(16, 20) + seq!['-'] + s.subrange(20, 32)
}

/// Calls `Uuid::from_u128(id).simple().to_string()`; trusted to write the
/// 32 lower-case hexadecimal digits of the id (uuid's `format_simple`).
#[verifier::external_body]
pub(crate) fn uuid_simple_string(id: u128) -> (s: String)
    ensures
        s@ == uuid_simple_chars(id),
{
    uuid::Uuid::from_u128(id).simple().to_string()
}

/// Calls `Uuid::from_u128(id).to_string()`; trusted to write the hyphenated
/// lower-case form (uuid's `format_hyphenated`).
#[verifier::external_body]
pub(crate) fn uuid_string(id: u128) -> (s: String)
    ensures
        s@ == uuid_hyphenated_chars(id),
{
    uuid::Uuid::from_u128(id).to_string()
}

/// The largest distance from the epoch, in nanoseconds, of an instant that
/// `time` represents: its Unix timestamp is an `i64` of seconds.
pub open spec fn max_abs_unix_nanos() -> int {
    9_223_372_037_854_775_807_000_000_000
}

/// Calls `time::OffsetDateTime::now_utc()` and returns its
/// `unix_timestamp_nanos()`. The reading depends on the clock; every outcome
/// is an `i64` count of seconds times 10^9 plus the nanoseconds below 10^9.
#[verifier::external_body]
pub(crate) fn now_unix_nanos() -> (t: i128)
    ensures
        -max_abs_unix_nanos() <= t <= max_abs_unix_nanos(),
{
    time::OffsetDateTime::now_utc().unix_timestamp_nanos()
}

/// `std::time::Instant`, a point of a monotonic clock; opaque here.
#[verifier::external_type_specification]
#[verifier::external_body]
pub struct ExInstant(std::time::Instant);

/// Calls `Instant::now`; the clock's reading is not described.
#[verifier::external_body]
pub(crate) fn instant_now() -> std::time::Instant {
    std::time::Instant::now()
}

/// What `time` writes for the instant `nanos` nanoseconds after the epoch in
/// the RFC 3339 format, or `None` when `time` does not represent that instant
/// or cannot write it in that format. It is a function of the instant alone.
pub uninterp spec fn rfc3339_text(nanos: i128) -> Option<Seq<char>>;

/// Calls `OffsetDateTime::from_unix_timestamp_nanos` and formats the instant
/// with `time`'s `Rfc3339` description; trusted to return exactly
/// `rfc3339_text(nanos)`.
#[verifier::external_body]
pub(crate) fn rfc3339(nanos: i128) -> (r: Option<String>)
    ensures
        r matches Some(s) ==> rfc3339_text(nanos) == Some(s@),
        r is None ==> rfc3339_text(nanos) is None,
{
    match time::OffsetDateTime::from_unix_timestamp_nanos(nanos) {
        Ok(t) => t.format(&time::format_description::well_known::Rfc3339).ok(),
        Err(_) => None,
    }
}

/// Calls `rand::random_range(0..=max)`, a value drawn from the thread-local
/// generator; every outcome lies in the inclusive range.
#[verifier::external_body]
pub(crate) fn random_up_to(max: u64) -> (r: u64)
    ensures
        r <= max,
{
    rand::random_range(0..=max)
}

} // verus!
