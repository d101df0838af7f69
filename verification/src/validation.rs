//! Input validation and normalization rules of the use cases.
use vstd::prelude::*;
use crate::error::{AppError, AppResult, ErrorKind, fails_with};
use crate::text::{byte_len, contains_char, trim, trim_chars, utf8_len};
use crate::platform::{to_lowercase, unicode_lowercase};

verus! {

pub const DEFAULT_PAGE_LIMIT: i64 = 50;

pub const MAX_PAGE_LIMIT: i64 = 100;

pub const DEFAULT_INVITE_EXPIRES_SECS: u64 = 604800;

pub const MAX_INVITE_EXPIRES_SECS: u64 = 2592000;

pub const MIN_INVITE_EXPIRES_SECS: u64 = 60;

pub const MAX_GROUP_MEMBERS: usize = 30;

pub const MAX_MESSAGE_BYTES: usize = 4000;

/// The byte length of `s` once leading and trailing whitespace is removed.
pub open spec fn trimmed_len(s: Seq<char>) -> nat {
    utf8_len(trim_chars(s))
}

/// The decimal digit character of `d`.
pub open spec fn digit_char(d: nat) -> char {
    ((48 + d) as u32) as char
}

/// The decimal representation of `n`, without leading zeros.
pub open spec fn decimal_chars(n: nat) -> Seq<char>
    decreases n,
{
    if n < 10 {
        seq![digit_char(n)]
    } else {
        decimal_chars(n / 10) + seq![digit_char(n % 10)]
    }
}

fn digit_str(d: usize) -> (s: &'static str)
    requires
        d < 10,
    ensures
        s@ == seq![digit_char(d as nat)],
{
    proof {
        reveal_strlit("0");
        reveal_strlit("1");
        reveal_strlit("2");
        reveal_strlit("3");
        reveal_strlit("4");
        reveal_strlit("5");
        reveal_strlit("6");
        reveal_strlit("7");
        reveal_strlit("8");
        reveal_strlit("9");
    }
    match d {
        0 => "0",
        1 => "1",
        2 => "2",
        3 => "3",
        4 => "4",
        5 => "5",
        6 => "6",
        7 => "7",
        8 => "8",
        _ => "9",
    }
}

/// The decimal representation of `n`.
pub fn decimal(n: usize) -> (s: String)
    ensures
        s@ == decimal_chars(n as nat),
    decreases n,
{
    let mut s = if n >= 10 {
        decimal(n / 10)
    } else {
        String::new()
    };
    s.append(digit_str(n % 10));
    s
}

/// Requires a username of 3 to 32 bytes once trimmed.
pub fn validate_username(username: &str) -> (r: AppResult<()>)
    ensures
        trimmed_len(username@) < 3 ==> fails_with(
            r,
            ErrorKind::Validation,
            "username must be at least 3 characters"@,
        ),
        3 <= trimmed_len(username@) && trimmed_len(username@) > 32 ==> fails_with(
            r,
            ErrorKind::Validation,
            "username must be at most 32 characters"@,
        ),
        3 <= trimmed_len(username@) <= 32 ==> r is Ok,
{
    let value = trim(username);
    if byte_len(value) < 3 {
        return Err(AppError::validation("username must be at least 3 characters"));
    }
    if byte_len(value) > 32 {
        return Err(AppError::validation("username must be at most 32 characters"));
    }
    Ok(())
}

/// Requires a password of at least 8 bytes once trimmed.
pub fn validate_password(password: &str) -> (r: AppResult<()>)
    ensures
        trimmed_len(password@) < 8 ==> fails_with(
            r,
            ErrorKind::Validation,
            "password must be at least 8 characters"@,
        ),
        trimmed_len(password@) >= 8 ==> r is Ok,
{
    let value = trim(password);
    if byte_len(value) < 8 {
        return Err(AppError::validation("password must be at least 8 characters"));
    }
    Ok(())
}

/// The normalized form of an optional email: trimmed and lower-cased.
pub open spec fn normalized_email(raw: Seq<char>) -> Seq<char> {
    unicode_lowercase(trim_chars(raw))
}

/// Trims and lower-cases an optional email; an email that is blank becomes
/// `None`, and one without `@` is rejected.
pub fn normalize_optional_email(email: Option<String>) -> (r: AppResult<Option<String>>)
    ensures
        email is None ==> r == Ok::<Option<String>, AppError>(None),
        email matches Some(raw) ==> {
            let n = normalized_email(raw@);
            &&& n.len() == 0 ==> r == Ok::<Option<String>, AppError>(None)
            &&& n.len() > 0 && !n.contains('@') ==> fails_with(
                r,
                ErrorKind::Validation,
                "email format is invalid"@,
            )
            &&& n.len() > 0 && n.contains('@') ==> (r matches Ok(Some(v)) && v@ == n)
        },
{
    match email {
        Some(raw) => {
            let normalized = to_lowercase(trim(raw.as_str()));
            if normalized.as_str().is_empty() {
                return Ok(None);
            }
            if !contains_char(normalized.as_str(), '@') {
                return Err(AppError::validation("email format is invalid"));
            }
            Ok(Some(normalized))
        },
        None => Ok(None),
    }
}

/// Requires a group name of 2 to 80 bytes once trimmed.
pub fn validate_group_name(name: &str) -> (r: AppResult<()>)
    ensures
        trimmed_len(name@) < 2 ==> fails_with(
            r,
            ErrorKind::Validation,
            "group name must be at least 2 characters"@,
        ),
        2 <= trimmed_len(name@) && trimmed_len(name@) > 80 ==> fails_with(
            r,
            ErrorKind::Validation,
            "group name must be at most 80 characters"@,
        ),
        2 <= trimmed_len(name@) <= 80 ==> r is Ok,
{
    let value = trim(name);
    if byte_len(value) < 2 {
        return Err(AppError::validation("group name must be at least 2 characters"));
    }
    if byte_len(value) > 80 {
        return Err(AppError::validation("group name must be at most 80 characters"));
    }
    Ok(())
}

/// The message of a name that is shorter than `min` bytes.
pub open spec fn too_short_message(field_name: Seq<char>, min: nat) -> Seq<char> {
    field_name + " must be at least "@ + decimal_chars(min) + " characters"@
}

/// The message of a name that is longer than `max` bytes.
pub open spec fn too_long_message(field_name: Seq<char>, max: nat) -> Seq<char> {
    field_name + " must be at most "@ + decimal_chars(max) + " characters"@
}

/// Requires `value` to be between `min` and `max` bytes once trimmed.
pub fn validate_name(field_name: &str, value: &str, min: usize, max: usize) -> (r: AppResult<()>)
    ensures
        trimmed_len(value@) < min ==> fails_with(
            r,
            ErrorKind::Validation,
            too_short_message(field_name@, min as nat),
        ),
        min <= trimmed_len(value@) && trimmed_len(value@) > max ==> fails_with(
            r,
            ErrorKind::Validation,
            too_long_message(field_name@, max as nat),
        ),
        min <= trimmed_len(value@) <= max ==> r is Ok,
{
    let trimmed = trim(value);
    if byte_len(trimmed) < min {
        let mut m = String::from_str(field_name);
        m.append(" must be at least ");
        m.append(decimal(min).as_str());
        m.append(" characters");
        return Err(AppError::Validation(m));
    }
    if byte_len(trimmed) > max {
        let mut m = String::from_str(field_name);
        m.append(" must be at most ");
        m.append(decimal(max).as_str());
        m.append(" characters");
        return Err(AppError::Validation(m));
    }
    Ok(())
}

/// What is wrong with message content, if anything.
pub open spec fn content_problem(content: Seq<char>) -> Option<Seq<char>> {
    if trim_chars(content).len() == 0 {
        Some("message content is required"@)
    } else if trimmed_len(content) > 4000 {
        Some("message content must be at most 4000 characters"@)
    } else {
        None
    }
}

/// Requires non-blank message content of at most 4000 bytes once trimmed.
pub fn validate_message_content(content: &str) -> (r: AppResult<()>)
    ensures
        trim_chars(content@).len() == 0 ==> fails_with(
            r,
            ErrorKind::Validation,
            "message content is required"@,
        ),
        trim_chars(content@).len() > 0 && trimmed_len(content@) > 4000 ==> fails_with(
            r,
            ErrorKind::Validation,
            "message content must be at most 4000 characters"@,
        ),
        trim_chars(content@).len() > 0 && trimmed_len(content@) <= 4000 ==> r is Ok,
        content_problem(content@) matches Some(m) ==> fails_with(r, ErrorKind::Validation, m),
        content_problem(content@) is None ==> r is Ok,
{
    let trimmed = trim(content);
    if trimmed.is_empty() {
        return Err(AppError::validation("message content is required"));
    }
    if byte_len(trimmed) > MAX_MESSAGE_BYTES {
        return Err(AppError::validation("message content must be at most 4000 characters"));
    }
    Ok(())
}

/// The page size that a list request is served with.
pub open spec fn spec_normalize_limit(limit: Option<i64>) -> Option<i64> {
    let l = match limit {
        Some(v) => v,
        None => DEFAULT_PAGE_LIMIT,
    };
    if l <= 0 {
        None
    } else if l > MAX_PAGE_LIMIT {
        Some(MAX_PAGE_LIMIT)
    } else {
        Some(l)
    }
}

/// Applies the default page size of 50 and caps it at 100; a size that is
/// not positive is rejected.
pub fn normalize_limit(limit: Option<i64>) -> (r: AppResult<i64>)
    ensures
        spec_normalize_limit(limit) matches Some(l) ==> r == Ok::<i64, AppError>(l),
        spec_normalize_limit(limit) is None ==> fails_with(
            r,
            ErrorKind::Validation,
            "limit must be positive"@,
        ),
{
    let limit = match limit {
        Some(v) => v,
        None => DEFAULT_PAGE_LIMIT,
    };
    if limit <= 0 {
        return Err(AppError::validation("limit must be positive"));
    }
    if limit > MAX_PAGE_LIMIT {
        return Ok(MAX_PAGE_LIMIT);
    }
    Ok(limit)
}

/// Rejects an invite usage cap that is not positive.
pub fn validate_max_uses(max_uses: Option<i32>) -> (r: AppResult<()>)
    ensures
        (max_uses matches Some(v) && v <= 0) ==> fails_with(
            r,
            ErrorKind::Validation,
            "max_uses must be positive"@,
        ),
        !(max_uses matches Some(v) && v <= 0) ==> r is Ok,
{
    if let Some(value) = max_uses {
        if value <= 0 {
            return Err(AppError::validation("max_uses must be positive"));
        }
    }
    Ok(())
}

/// The lifetime of an invite in seconds.
pub open spec fn spec_invite_expiry(expires_in_seconds: Option<u64>) -> u64 {
    let v = match expires_in_seconds {
        Some(v) => v,
        None => DEFAULT_INVITE_EXPIRES_SECS,
    };
    if v < MIN_INVITE_EXPIRES_SECS {
        MIN_INVITE_EXPIRES_SECS
    } else if v > MAX_INVITE_EXPIRES_SECS {
        MAX_INVITE_EXPIRES_SECS
    } else {
        v
    }
}

/// Applies the default invite lifetime of 7 days and clamps it between one
/// minute and 30 days.
pub fn normalize_invite_expiry(expires_in_seconds: Option<u64>) -> (r: u64)
    ensures
        r == spec_invite_expiry(expires_in_seconds),
        MIN_INVITE_EXPIRES_SECS <= r <= MAX_INVITE_EXPIRES_SECS,
{
    let value = match expires_in_seconds {
        Some(v) => v,
        None => DEFAULT_INVITE_EXPIRES_SECS,
    };
    if value < MIN_INVITE_EXPIRES_SECS {
        MIN_INVITE_EXPIRES_SECS
    } else if value > MAX_INVITE_EXPIRES_SECS {
        MAX_INVITE_EXPIRES_SECS
    } else {
        value
    }
}

/// `s` is sorted in strictly increasing order.
pub open spec fn strictly_increasing(s: Seq<u128>) -> bool {
    forall|i: int, j: int| 0 <= i < j < s.len() ==> s[i] < s[j]
}

/// The distinct members of a new group other than its owner.
pub open spec fn invited_members(owner_id: u128, member_user_ids: Seq<u128>) -> Set<u128> {
    member_user_ids.to_set().remove(owner_id)
}

proof fn lemma_strictly_increasing_no_duplicates(s: Seq<u128>)
    requires
        strictly_increasing(s),
    ensures
        s.no_duplicates(),
        s.to_set().len() == s.len(),
{
    assert forall|i: int, j: int| 0 <= i < s.len() && 0 <= j < s.len() && i != j implies s[i]
        != s[j] by {
        if i < j {
        } else {
        }
    }
    s.unique_seq_to_set();
}

/// Inserts `x` into the strictly increasing `v`, keeping it strictly increasing.
fn insert_sorted(v: &mut Vec<u128>, x: u128)
    requires
        strictly_increasing(old(v)@),
    ensures
        strictly_increasing(final(v)@),
        final(v)@.to_set() == old(v)@.to_set().insert(x),
{
    let n = v.len();
    let mut i: usize = 0;
    while i < n && v[i] < x
        invariant
            n == v@.len(),
            i <= n,
            forall|k: int| 0 <= k < i ==> v@[k] < x,
        decreases n - i,
    {
        i = i + 1;
    }
    if i < n && v[i] == x {
        assert(v@.to_set().insert(x) =~= v@.to_set()) by {
            assert(v@.contains(x));
        }
        return;
    }
    let ghost before = v@;
    v.insert(i, x);
    proof {
        assert(forall|k: int| 0 <= k < i ==> v@[k] == before[k]);
        assert(v@[i as int] == x);
        assert(forall|k: int| i < k < v@.len() ==> v@[k] == before[k - 1]);
        assert forall|a: int, b: int| 0 <= a < b < v@.len() implies v@[a] < v@[b] by {
            if b < i {
            } else if a < i && b == i {
            } else if a < i {
                assert(before[a] < before[b - 1]);
            } else if a == i {
                assert(before[b - 1] >= x);
                assert(before[b - 1] != x) by {
                    if i < n {
                        assert(before[i as int] > x);
                        if b - 1 > i {
                            assert(before[i as int] < before[b - 1]);
                        }
                    }
                }
            } else {
                assert(before[a - 1] < before[b - 1]);
            }
        }
        assert forall|y: u128| v@.to_set().contains(y) == before.to_set().insert(x).contains(
            y,
        ) by {
            if v@.contains(y) {
                let k = choose|k: int| 0 <= k < v@.len() && v@[k] == y;
                if k < i {
                    assert(before[k] == y);
                } else if k > i {
                    assert(before[k - 1] == y);
                }
            }
            if before.contains(y) {
                let k = choose|k: int| 0 <= k < before.len() && before[k] == y;
                if k < i {
                    assert(v@[k] == y);
                } else {
                    assert(v@[k + 1] == y);
                }
            }
            if y == x {
                assert(v@[i as int] == y);
            }
        }
        assert(v@.to_set() =~= before.to_set().insert(x));
    }
}

/// The distinct members of a new group other than its owner, in increasing
/// order; more than 30 of them are rejected.
pub fn normalize_member_ids(owner_id: u128, member_user_ids: Vec<u128>) -> (r: AppResult<
    Vec<u128>,
>)
    ensures
        invited_members(owner_id, member_user_ids@).len() > 30 ==> fails_with(
            r,
            ErrorKind::Validation,
            "group member count must be at most 30"@,
        ),
        invited_members(owner_id, member_user_ids@).len() <= 30 ==> (r matches Ok(v) && {
            &&& strictly_increasing(v@)
            &&& v@.to_set() == invited_members(owner_id, member_user_ids@)
        }),
{
    let mut normalized: Vec<u128> = Vec::new();
    let n = member_user_ids.len();
    let mut i: usize = 0;
    proof {
        assert(normalized@.to_set() =~= member_user_ids@.subrange(0, 0).to_set().remove(
            owner_id,
        ));
    }
    while i < n
        invariant
            n == member_user_ids@.len(),
            i <= n,
            strictly_increasing(normalized@),
            normalized@.to_set() == member_user_ids@.subrange(0, i as int).to_set().remove(
                owner_id,
            ),
        decreases n - i,
    {
        let member_id = member_user_ids[i];
        let ghost prefix = member_user_ids@.subrange(0, i as int);
        proof {
            assert(member_user_ids@.subrange(0, i + 1) =~= prefix.push(member_id));
            prefix.lemma_push_to_set_commute(member_id);
        }
        if member_id != owner_id {
            insert_sorted(&mut normalized, member_id);
            proof {
                assert(normalized@.to_set() =~= prefix.push(member_id).to_set().remove(owner_id));
            }
        } else {
            proof {
                assert(normalized@.to_set() =~= prefix.push(member_id).to_set().remove(owner_id));
            }
        }
        i = i + 1;
    }
    proof {
        assert(member_user_ids@.subrange(0, n as int) =~= member_user_ids@);
        lemma_strictly_increasing_no_duplicates(normalized@);
    }
    if normalized.len() == 0 {
        return Ok(Vec::new());
    }
    if normalized.len() > MAX_GROUP_MEMBERS {
        return Err(AppError::validation("group member count must be at most 30"));
    }
    Ok(normalized)
}

/// Every page a listing is served with holds between 1 and 100 items.
pub proof fn lemma_page_size_in_range(limit: Option<i64>)
    ensures
        spec_normalize_limit(limit) matches Some(l) ==> 1 <= l <= MAX_PAGE_LIMIT,
        limit is None ==> spec_normalize_limit(limit) == Some(DEFAULT_PAGE_LIMIT),
{
}

/// Every invite lives between one minute and 30 days, whatever lifetime was
/// asked for.
pub proof fn lemma_invite_lifetime_in_range(expires_in_seconds: Option<u64>)
    ensures
        MIN_INVITE_EXPIRES_SECS <= spec_invite_expiry(expires_in_seconds) <= MAX_INVITE_EXPIRES_SECS,
        expires_in_seconds is None ==> spec_invite_expiry(expires_in_seconds) == DEFAULT_INVITE_EXPIRES_SECS,
{
}

} // verus!
