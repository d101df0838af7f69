//! Channel permission bits and how the effective permissions of a member are
//! resolved from roles and channel overrides.
use vstd::prelude::*;

verus! {

pub const VIEW_CHANNEL: i64 = 1;

pub const SEND_MESSAGES: i64 = 2;

pub const MANAGE_CHANNELS: i64 = 4;

pub const MANAGE_ROLES: i64 = 8;

pub const KICK_MEMBERS: i64 = 16;

/// The permissions that the default `@everyone` role of a new guild grants.
pub open spec fn spec_default_role_permissions() -> i64 {
    VIEW_CHANNEL | SEND_MESSAGES
}

/// A set of permission bits of a guild member in one channel.
#[derive(Debug, Clone, Copy, PartialEq, Eq, Structural)]
pub struct PermissionBits(pub i64);

impl PermissionBits {
    /// Every bit of `required` is enabled in these permissions.
    pub open spec fn spec_has(self, required: i64) -> bool {
        self.0 & required == required
    }

    /// Returns true if all required permission bits are enabled.
    ///
    /// # Parameters
    /// - `required`: Permission bitmask to check.
    pub fn has(self, required: i64) -> (r: bool)
        ensures
            r == self.spec_has(required),
    {
        self.0 & required == required
    }
}

/// The permissions that the default `@everyone` role of a new guild grants.
pub fn default_role_permissions() -> (p: i64)
    ensures
        p == spec_default_role_permissions(),
        p == 3,
{
    assert(VIEW_CHANNEL | SEND_MESSAGES == 3) by (bit_vector);
    VIEW_CHANNEL | SEND_MESSAGES
}

/// Effective permissions: the union of the member's role permissions, with
/// the channel's role overrides applied (deny, then allow), and then the
/// channel's member overrides applied (deny, then allow).
pub open spec fn spec_effective_permissions(
    base: i64,
    role_deny: i64,
    role_allow: i64,
    member_deny: i64,
    member_allow: i64,
) -> i64 {
    let role_adjusted = (base & !role_deny) | role_allow;
    (role_adjusted & !member_deny) | member_allow
}

/// Resolves the effective permissions of a member in a channel from the
/// bitwise union of its role permissions (`base`) and the unions of the
/// channel's role and member override masks.
pub fn effective_permissions(
    base: i64,
    role_deny: i64,
    role_allow: i64,
    member_deny: i64,
    member_allow: i64,
) -> (p: i64)
    ensures
        p == spec_effective_permissions(base, role_deny, role_allow, member_deny, member_allow),
        p & member_allow == member_allow,
        p & (member_deny & !member_allow) == 0,
        p & (role_allow & !member_deny) == role_allow & !member_deny,
        p & (role_deny & !role_allow & !member_allow) == 0,
        p & (base & !role_deny & !member_deny) == base & !role_deny & !member_deny,
        p & !(base | role_allow | member_allow) == 0,
{
    let role_adjusted = (base & !role_deny) | role_allow;
    let p = (role_adjusted & !member_deny) | member_allow;
    assert({
        &&& p & member_allow == member_allow
        &&& p & (member_deny & !member_allow) == 0
        &&& p & (role_allow & !member_deny) == role_allow & !member_deny
        &&& p & (role_deny & !role_allow & !member_allow) == 0
        &&& p & (base & !role_deny & !member_deny) == base & !role_deny & !member_deny
        &&& p & !(base | role_allow | member_allow) == 0
    }) by (bit_vector)
        requires
            role_adjusted == (base & !role_deny) | role_allow,
            p == (role_adjusted & !member_deny) | member_allow,
    ;
    p
}

/// Without any channel override, the effective permissions are the role
/// permissions.
pub proof fn lemma_no_overrides_keeps_base(base: i64)
    ensures
        spec_effective_permissions(base, 0, 0, 0, 0) == base,
{
    assert(((base & !0i64) | 0i64) & !0i64 | 0i64 == base) by (bit_vector);
}

/// A permission that a member override allows is always granted.
pub proof fn lemma_member_allow_always_granted(
    base: i64,
    role_deny: i64,
    role_allow: i64,
    member_deny: i64,
    member_allow: i64,
)
    ensures
        PermissionBits(
            spec_effective_permissions(base, role_deny, role_allow, member_deny, member_allow),
        ).spec_has(member_allow),
{
    assert((((base & !role_deny) | role_allow) & !member_deny | member_allow) & member_allow
        == member_allow) by (bit_vector);
}

/// A permission that a member override denies, and does not allow, is never
/// granted, whatever the roles say.
pub proof fn lemma_member_deny_wins_over_roles(
    base: i64,
    role_deny: i64,
    role_allow: i64,
    member_deny: i64,
    member_allow: i64,
    required: i64,
)
    requires
        member_deny & required == required,
        member_allow & required == 0,
    ensures
        spec_effective_permissions(base, role_deny, role_allow, member_deny, member_allow)
            & required == 0,
{
    assert(member_deny & required == required && member_allow & required == 0 ==> (((base
        & !role_deny) | role_allow) & !member_deny | member_allow) & required == 0) by (bit_vector);
}

/// A permission that a role override of the channel denies, and that no
/// allowing override (of a role or of the member) grants back, is not granted,
/// whatever the member's roles grant: this is how a channel is hidden from a
/// role.
pub proof fn lemma_role_deny_hides_unless_allowed(
    base: i64,
    role_deny: i64,
    role_allow: i64,
    member_deny: i64,
    member_allow: i64,
    required: i64,
)
    requires
        role_deny & required == required,
        role_allow & required == 0,
        member_allow & required == 0,
    ensures
        spec_effective_permissions(base, role_deny, role_allow, member_deny, member_allow)
            & required == 0,
{
    assert(role_deny & required == required && role_allow & required == 0 && member_allow
        & required == 0 ==> (((base & !role_deny) | role_allow) & !member_deny | member_allow)
        & required == 0) by (bit_vector);
}

/// The role permissions that no override touches are kept as they are.
pub proof fn lemma_untouched_role_permissions_kept(
    base: i64,
    role_deny: i64,
    role_allow: i64,
    member_deny: i64,
    member_allow: i64,
    required: i64,
)
    requires
        base & required == required,
        (role_deny | member_deny) & required == 0,
    ensures
        PermissionBits(
            spec_effective_permissions(base, role_deny, role_allow, member_deny, member_allow),
        ).spec_has(required),
{
    assert(base & required == required && (role_deny | member_deny) & required == 0 ==> ((((base
        & !role_deny) | role_allow) & !member_deny | member_allow) & required == required))
        by (bit_vector);
}

/// A permission that a role override allows is granted unless a member
/// override denies it.
pub proof fn lemma_role_allow_granted_unless_member_denies(
    base: i64,
    role_deny: i64,
    role_allow: i64,
    member_deny: i64,
    member_allow: i64,
    required: i64,
)
    requires
        role_allow & required == required,
        member_deny & required == 0,
    ensures
        PermissionBits(
            spec_effective_permissions(base, role_deny, role_allow, member_deny, member_allow),
        ).spec_has(required),
{
    assert(role_allow & required == required && member_deny & required == 0 ==> ((((base
        & !role_deny) | role_allow) & !member_deny | member_allow) & required == required))
        by (bit_vector);
}

/// Effective permissions never hold a bit that neither the roles, nor an
/// allowing override, grant.
pub proof fn lemma_effective_within_grants(
    base: i64,
    role_deny: i64,
    role_allow: i64,
    member_deny: i64,
    member_allow: i64,
)
    ensures
        spec_effective_permissions(base, role_deny, role_allow, member_deny, member_allow) & !(base
            | role_allow | member_allow) == 0,
{
    assert((((base & !role_deny) | role_allow) & !member_deny | member_allow) & !(base | role_allow
        | member_allow) == 0) by (bit_vector);
}

/// `has` holds of a union of masks exactly when it holds of each of them.
pub proof fn lemma_has_union(p: PermissionBits, a: i64, b: i64)
    ensures
        p.spec_has(a | b) == (p.spec_has(a) && p.spec_has(b)),
{
    let x = p.0;
    assert((x & (a | b) == (a | b)) == (x & a == a && x & b == b)) by (bit_vector);
}

/// The default role can view channels and send messages.
pub proof fn lemma_default_role_can_view_and_send()
    ensures
        PermissionBits(spec_default_role_permissions()).spec_has(VIEW_CHANNEL),
        PermissionBits(spec_default_role_permissions()).spec_has(SEND_MESSAGES),
        !PermissionBits(spec_default_role_permissions()).spec_has(MANAGE_CHANNELS),
{
    assert((1i64 | 2i64) & 1i64 == 1i64) by (bit_vector);
    assert((1i64 | 2i64) & 2i64 == 2i64) by (bit_vector);
    assert((1i64 | 2i64) & 4i64 != 4i64) by (bit_vector);
}

} // verus!
