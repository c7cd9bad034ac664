//! The request guards: bearer-token authorization, the admin role guard for
//! REST routes, and the guard registry consulted by the GraphQL executor.
//! One proof, `lemma_guard_parity`, ties the two surfaces together: for one
//! identity they allow and deny together.
//!
//! Staleness policy: the identity attached to a request is the snapshot
//! embedded in the token at issue time. Guards never re-read the account
//! store, so a role or status change takes effect only once the token
//! expires; the token lifetime bounds the staleness.

use vstd::prelude::*;

use crate::dto::{UserDto, UserDtoV};
use crate::enums::UserRole;
use crate::errors::ApiError;
use crate::store::{dto_of, AccountV};
use crate::text::{chars_string, str_chars, scan_lit};
use crate::token::{spec_verify_token, verify_token, TokenError};

verus! {

// ---------------------------------------------------------------------------
// AuthGuard: bearer token to identity
// ---------------------------------------------------------------------------

/// The header carries the bearer scheme.
pub open spec fn has_bearer_prefix(h: Seq<char>) -> bool {
    h.len() >= 7 && h.subrange(0, 7) == "Bearer "@
}

/// What the request guard decides for a header, a secret, and an instant:
/// the identity attached to the request, or the message of the
/// `Unauthorized` rejection. No header, a non-bearer scheme, a token that
/// fails signature or structure, and an expired token are each rejected
/// with their own message.
pub open spec fn spec_authorize(header: Option<Seq<char>>, secret: Seq<char>, now: u64) -> Result<
    UserDtoV,
    Seq<char>,
> {
    match header {
        Option::None => Err("Missing authorization header"@),
        Option::Some(h) => if !has_bearer_prefix(h) {
            Err("Invalid authorization format"@)
        } else {
            match spec_verify_token(h.skip(7), secret, now) {
                Err(TokenError::Expired) => Err("Token has expired"@),
                Err(_) => Err("Invalid token"@),
                Ok(c) => Ok(c.user),
            }
        },
    }
}

/// Runs the request guard: extracts the bearer token, verifies it, and
/// returns the identity to attach to the request, or the `Unauthorized`
/// error to answer with. Exactly `spec_authorize`.
pub fn authorize_request(header: Option<&str>, secret: &str, now: u64) -> (r: Result<
    UserDto,
    ApiError,
>)
    ensures
        (match (r, spec_authorize(
            (match header {
                Some(h) => Some(h@),
                None => None,
            }),
            secret@,
            now,
        )) {
            (Ok(d), Ok(sd)) => d@ == sd,
            (Err(e), Err(m)) => e matches ApiError::Unauthorized(mm) && mm@ == m,
            _ => false,
        }),
{
    let h = match header {
        Some(h) => h,
        None => {
            return Err(ApiError::Unauthorized(String::from_str("Missing authorization header")));
        },
    };
    let buf = str_chars(h);
    let token = match scan_lit(&buf, 0, "Bearer ") {
        Some(j) => {
            proof {
                reveal_strlit("Bearer ");
                assert(has_bearer_prefix(h@));
            }
            let mut t: Vec<char> = Vec::new();
            let n = buf.len();
            let mut k: usize = j;
            while k < n
                invariant
                    j <= k <= n,
                    n == buf.len(),
                    t@ == buf@.subrange(j as int, k as int),
                decreases n - k,
            {
                t.push(buf[k]);
                assert(t@ =~= buf@.subrange(j as int, k + 1));
                k = k + 1;
            }
            proof {
                assert(t@ =~= h@.skip(7));
            }
            chars_string(&t)
        },
        None => {
            proof {
                reveal_strlit("Bearer ");
                if has_bearer_prefix(h@) {
                    assert(h@.subrange(0, 7) == "Bearer "@);
                }
            }
            return Err(ApiError::Unauthorized(String::from_str("Invalid authorization format")));
        },
    };
    match verify_token(token.as_str(), secret, now) {
        Ok(c) => Ok(c.user),
        Err(TokenError::Expired) => Err(
            ApiError::Unauthorized(String::from_str("Token has expired")),
        ),
        Err(_) => Err(ApiError::Unauthorized(String::from_str("Invalid token"))),
    }
}

// ---------------------------------------------------------------------------
// RoleGuard: identity to admin decision
// ---------------------------------------------------------------------------

/// The REST admin guard's decision for an attached identity: allowed
/// exactly when the identity's role value is the admin one.
pub open spec fn rest_admin_allows(u: UserDtoV) -> bool {
    u.role == "Admin"@
}

/// Runs the REST admin guard over the identity the request carries: a
/// missing identity is an internal wiring fault and `Unauthorized`; a
/// non-admin role is `Forbidden`; an admin identity passes.
pub fn admin_guard(user: Option<&UserDto>) -> (r: Result<(), ApiError>)
    ensures
        (match (r, user) {
            (Err(e), None) => e matches ApiError::Unauthorized(m) && m@
                == "User not found in request"@,
            (Err(e), Some(u)) => !rest_admin_allows(u@) && (e matches ApiError::Forbidden(m) && m@
                == "Admin access required"@),
            (Ok(_), Some(u)) => rest_admin_allows(u@),
            (Ok(_), None) => false,
        }),
{
    let u = match user {
        Some(u) => u,
        None => {
            return Err(ApiError::Unauthorized(String::from_str("User not found in request")));
        },
    };
    if u.role == String::from_str("Admin") {
        Ok(())
    } else {
        Err(ApiError::Forbidden(String::from_str("Admin access required")))
    }
}

// ---------------------------------------------------------------------------
// GraphQLGuardRegistry: the same rule on the other surface
// ---------------------------------------------------------------------------

/// A guard's verdict at resolve time.
#[derive(Debug, Clone, PartialEq, Eq)]
pub enum GuardAction {
    Allow,
    Block(Option<String>),
}

/// The GraphQL admin guard's decision for the role the resolution context
/// carries: allowed exactly when it carries the admin role.
pub open spec fn gql_admin_allows(role: Option<UserRole>) -> bool {
    role == Some(UserRole::Admin)
}

/// Runs the GraphQL admin guard over the role attached to the resolution
/// context.
pub fn gql_admin_guard(role: Option<&UserRole>) -> (r: GuardAction)
    ensures
        (match role {
            Some(ro) => (r is Allow <==> gql_admin_allows(Some(*ro))),
            None => r is Block,
        }),
        r matches GuardAction::Block(m) ==> (m matches Some(t) && t@ == "Admin role required"@),
{
    match role {
        Some(UserRole::Admin) => GuardAction::Allow,
        _ => GuardAction::Block(Some(String::from_str("Admin role required"))),
    }
}

/// The guard registry: the entity names and `entity.field` names whose
/// resolution is admin-gated. Built once at startup, read-only afterwards.
#[derive(Debug)]
pub struct GuardConfig {
    pub entity_guards: Vec<String>,
    pub field_guards: Vec<String>,
}

/// A name stands in a guard list.
pub open spec fn name_guarded(list: Seq<Seq<char>>, name: Seq<char>) -> bool {
    exists|k: int| 0 <= k < list.len() && list[k] == name
}

impl GuardConfig {
    /// The names this registry admin-gates on the entity level.
    pub open spec fn spec_entity_guards(&self) -> Seq<Seq<char>> {
        self.entity_guards.deep_view()
    }

    /// The names this registry admin-gates on the field level.
    pub open spec fn spec_field_guards(&self) -> Seq<Seq<char>> {
        self.field_guards.deep_view()
    }
}

/// Builds the guard registry: the user entity is admin-gated, and so are
/// its role and status fields.
pub fn setup_guards() -> (r: GuardConfig)
    ensures
        r.spec_entity_guards() == seq!["users"@],
        r.spec_field_guards() == seq!["users.role"@, "users.status"@],
{
    let mut entity_guards: Vec<String> = Vec::new();
    entity_guards.push(String::from_str("users"));
    let mut field_guards: Vec<String> = Vec::new();
    field_guards.push(String::from_str("users.role"));
    field_guards.push(String::from_str("users.status"));
    let r = GuardConfig { entity_guards, field_guards };
    assert(r.spec_entity_guards() =~= seq!["users"@]);
    assert(r.spec_field_guards() =~= seq!["users.role"@, "users.status"@]);
    r
}

/// Looks a name up in one guard list.
fn list_contains(list: &Vec<String>, name: &str) -> (r: bool)
    ensures
        r == name_guarded(list.deep_view(), name@),
{
    let needle = String::from_str(name);
    let n = list.len();
    let mut k: usize = 0;
    while k < n
        invariant
            k <= n,
            n == list.len(),
            needle@ == name@,
            forall|j: int| 0 <= j < k ==> list.deep_view()[j] != name@,
        decreases n - k,
    {
        if list[k] == needle {
            assert(list.deep_view()[k as int] == name@);
            return true;
        }
        k = k + 1;
    }
    false
}

/// The registry's verdict for resolving an entity: the admin guard where
/// the entity is gated, `Allow` otherwise.
pub fn evaluate_entity_guard(cfg: &GuardConfig, entity: &str, role: Option<&UserRole>) -> (r:
    GuardAction)
    ensures
        !name_guarded(cfg.spec_entity_guards(), entity@) ==> r is Allow,
        name_guarded(cfg.spec_entity_guards(), entity@) ==> (r is Allow <==> gql_admin_allows(
            (match role {
                Some(ro) => Some(*ro),
                None => None,
            }),
        )),
{
    if list_contains(&cfg.entity_guards, entity) {
        gql_admin_guard(role)
    } else {
        GuardAction::Allow
    }
}

/// The registry's verdict for resolving a field, by its `entity.field`
/// name: the admin guard where the field is gated, `Allow` otherwise.
pub fn evaluate_field_guard(cfg: &GuardConfig, field: &str, role: Option<&UserRole>) -> (r:
    GuardAction)
    ensures
        !name_guarded(cfg.spec_field_guards(), field@) ==> r is Allow,
        name_guarded(cfg.spec_field_guards(), field@) ==> (r is Allow <==> gql_admin_allows(
            (match role {
                Some(ro) => Some(*ro),
                None => None,
            }),
        )),
{
    if list_contains(&cfg.field_guards, field) {
        gql_admin_guard(role)
    } else {
        GuardAction::Allow
    }
}

// ---------------------------------------------------------------------------
// cross-surface parity
// ---------------------------------------------------------------------------

/// Cross-surface guard parity: for one account's identity, the REST admin
/// guard over its projected role value and the GraphQL admin guard over its
/// role allow and deny together.
pub proof fn lemma_guard_parity(a: AccountV)
    ensures
        rest_admin_allows(dto_of(a)) <==> gql_admin_allows(Some(a.role)),
{
    reveal_strlit("Admin");
    reveal_strlit("User");
    match a.role {
        UserRole::Admin => {
            assert(dto_of(a).role == "Admin"@);
        },
        UserRole::User => {
            assert("User"@.len() != "Admin"@.len());
            assert(dto_of(a).role != "Admin"@);
        },
    }
}

} // verus!
