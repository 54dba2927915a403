//! Roles and capability tiers.
//!
//! Every user account carries exactly one role out of a closed enumeration.
//! Operations demand a capability tier; the tiers are strictly nested, so a
//! role that may act at some tier may also act at every lower tier.

use vstd::prelude::*;

verus! {

/// The closed set of roles an account can hold.
#[derive(Clone, Copy, Debug, PartialEq, Eq, Structural)]
pub enum Role {
    Admin,
    Operator,
    Viewer,
}

/// Capability tiers demanded by operations, from weakest to strongest.
#[derive(Clone, Copy, Debug, PartialEq, Eq, Structural)]
pub enum Tier {
    View,
    Edit,
    Admin,
}

/// How much a role is allowed to do, as a rank.
pub open spec fn role_rank(r: Role) -> int {
    match r {
        Role::Viewer => 0,
        Role::Operator => 1,
        Role::Admin => 2,
    }
}

/// How much an operation demands, as a rank on the same scale.
pub open spec fn tier_rank(t: Tier) -> int {
    match t {
        Tier::View => 0,
        Tier::Edit => 1,
        Tier::Admin => 2,
    }
}

/// The authorization rule: a role may act at a tier exactly when its rank
/// reaches the tier's rank.
pub open spec fn allowed(r: Role, t: Tier) -> bool {
    role_rank(r) >= tier_rank(t)
}

/// The roles admitted at a tier, strongest first. This is the allow-set
/// form of [`allowed`]; [`lemma_tier_roles_allowed`] ties the two together.
pub open spec fn tier_roles_seq(t: Tier) -> Seq<Role> {
    match t {
        Tier::View => seq![Role::Admin, Role::Operator, Role::Viewer],
        Tier::Edit => seq![Role::Admin, Role::Operator],
        Tier::Admin => seq![Role::Admin],
    }
}

/// The allow-set of a tier, as a vector.
pub fn tier_roles(t: Tier) -> (r: Vec<Role>)
    ensures
        r@ == tier_roles_seq(t),
{
    match t {
        Tier::View => {
            let v: Vec<Role> = vec![Role::Admin, Role::Operator, Role::Viewer];
            assert(v@ =~= tier_roles_seq(Tier::View));
            v
        },
        Tier::Edit => {
            let v: Vec<Role> = vec![Role::Admin, Role::Operator];
            assert(v@ =~= tier_roles_seq(Tier::Edit));
            v
        },
        Tier::Admin => {
            let v: Vec<Role> = vec![Role::Admin];
            assert(v@ =~= tier_roles_seq(Tier::Admin));
            v
        },
    }
}

/// Membership in a tier's allow-set coincides with the rank rule.
pub proof fn lemma_tier_roles_allowed(ro: Role, t: Tier)
    ensures
        tier_roles_seq(t).contains(ro) <==> allowed(ro, t),
{
    let s = tier_roles_seq(t);
    if allowed(ro, t) {
        match ro {
            Role::Admin => {
                assert(s[0] == Role::Admin);
            },
            Role::Operator => {
                assert(s[1] == Role::Operator);
            },
            Role::Viewer => {
                assert(s[2] == Role::Viewer);
            },
        }
    }
    if s.contains(ro) {
        let i = choose|i: int| 0 <= i < s.len() && s[i] == ro;
        assert(allowed(s[i], t));
    }
}

/// What a role string means; anything outside the enumeration reads as the
/// weakest role.
pub open spec fn role_of_str(s: Seq<char>) -> Role {
    if s == "Admin"@ {
        Role::Admin
    } else if s == "Operator"@ {
        Role::Operator
    } else {
        Role::Viewer
    }
}

/// Whether a role string is one of the closed enumeration.
pub open spec fn is_role_str(s: Seq<char>) -> bool {
    s == "Admin"@ || s == "Operator"@ || s == "Viewer"@
}

/// Parses a role string; unknown strings fall back to the weakest role.
pub fn role_from_str(s: &str) -> (r: Role)
    ensures
        r == role_of_str(s@),
{
    let owned = s.to_owned();
    if owned == String::from_str("Admin") {
        Role::Admin
    } else if owned == String::from_str("Operator") {
        Role::Operator
    } else {
        Role::Viewer
    }
}

impl Role {
    /// The role's name, as the role string it parses from.
    pub fn name(&self) -> (r: String)
        ensures
            r@ == role_name(*self),
            is_role_str(r@),
            role_of_str(r@) == *self,
    {
        proof {
            lemma_role_name_round_trip(*self);
        }
        match self {
            Role::Admin => String::from_str("Admin"),
            Role::Operator => String::from_str("Operator"),
            Role::Viewer => String::from_str("Viewer"),
        }
    }
}

/// The canonical string of a role.
pub open spec fn role_name(r: Role) -> Seq<char> {
    match r {
        Role::Admin => "Admin"@,
        Role::Operator => "Operator"@,
        Role::Viewer => "Viewer"@,
    }
}

/// Role strings round-trip: each role's name parses back to the role.
pub proof fn lemma_role_name_round_trip(r: Role)
    ensures
        is_role_str(role_name(r)),
        role_of_str(role_name(r)) == r,
{
    reveal_strlit("Admin");
    reveal_strlit("Operator");
    reveal_strlit("Viewer");
    assert("Admin"@.len() == 5 && "Operator"@.len() == 8 && "Viewer"@.len() == 6);
}

impl From<&str> for Role {
    /// Parses a role string; unknown strings fall back to the weakest role.
    fn from(s: &str) -> (r: Role)
        ensures
            r == role_of_str(s@),
    {
        role_from_str(s)
    }
}

impl vstd::std_specs::convert::FromSpecImpl<&str> for Role {
    open spec fn obeys_from_spec() -> bool {
        true
    }

    open spec fn from_spec(v: &str) -> Role {
        role_of_str(v@)
    }
}

/// Tells a valid role string from any other string.
pub fn parse_role_str(s: &str) -> (r: Option<Role>)
    ensures
        r is Some <==> is_role_str(s@),
        r is Some ==> r->0 == role_of_str(s@),
{
    let owned = s.to_owned();
    if owned == String::from_str("Admin") {
        Some(Role::Admin)
    } else if owned == String::from_str("Operator") {
        Some(Role::Operator)
    } else if owned == String::from_str("Viewer") {
        Some(Role::Viewer)
    } else {
        None
    }
}

/// Authorization is monotonic in role rank: whatever a tier admits, every
/// lower tier admits as well; and a role refused at some tier is refused at
/// every higher tier.
pub proof fn lemma_allowed_monotonic(r: Role, t1: Tier, t2: Tier)
    requires
        tier_rank(t1) <= tier_rank(t2),
        allowed(r, t2),
    ensures
        allowed(r, t1),
{
}

/// Checks that the user's role is one of the given set; on refusal the
/// error carries the admitted roles and the user's actual role.
pub fn check_role(user: &crate::users::User, required_roles: &[Role]) -> (r: Result<
    (),
    crate::error::AuthError,
>)
    ensures
        r is Ok <==> required_roles@.contains(user.role),
        r is Err ==> (r->Err_0 matches crate::error::AuthError::PermissionDenied {
            required,
            actual,
        } && required@ == required_roles@ && actual == user.role),
{
    let n = required_roles.len();
    let mut i: usize = 0;
    while i < n
        invariant
            n == required_roles@.len(),
            i <= n,
            forall|j: int| 0 <= j < i ==> required_roles@[j] != user.role,
        decreases n - i,
    {
        if required_roles[i] == user.role {
            return Ok(());
        }
        i += 1;
    }
    Err(crate::error::AuthError::PermissionDenied {
        required: vstd::slice::slice_to_vec(required_roles),
        actual: user.role,
    })
}

/// The authorization gate: admits the user exactly when their role's rank
/// reaches the tier's rank. Pure; reads no state.
pub fn check(user: &crate::users::User, tier: Tier) -> (r: Result<(), crate::error::AuthError>)
    ensures
        r is Ok <==> allowed(user.role, tier),
        r is Err ==> (r->Err_0 matches crate::error::AuthError::PermissionDenied {
            required,
            actual,
        } && required@ == tier_roles_seq(tier) && actual == user.role),
{
    proof {
        lemma_tier_roles_allowed(user.role, tier);
    }
    let roles = tier_roles(tier);
    check_role(user, roles.as_slice())
}

/// Admits only the strongest role.
pub fn require_admin(user: &crate::users::User) -> (r: Result<(), crate::error::AuthError>)
    ensures
        r is Ok <==> allowed(user.role, Tier::Admin),
        r is Err ==> r->Err_0 is PermissionDenied,
{
    check(user, Tier::Admin)
}

/// Admits the roles that may change data.
pub fn require_edit_permission(user: &crate::users::User) -> (r: Result<
    (),
    crate::error::AuthError,
>)
    ensures
        r is Ok <==> allowed(user.role, Tier::Edit),
        r is Err ==> r->Err_0 is PermissionDenied,
{
    check(user, Tier::Edit)
}

/// Admits every role.
pub fn require_view_permission(user: &crate::users::User) -> (r: Result<
    (),
    crate::error::AuthError,
>)
    ensures
        r is Ok <==> allowed(user.role, Tier::View),
        r is Err ==> r->Err_0 is PermissionDenied,
{
    check(user, Tier::View)
}

} // verus!
