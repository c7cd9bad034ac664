//! The credential service: registration (create an account, hash the
//! password, issue a token) and login (look up the account, verify the
//! password, issue a token).
//!
//! Both outcomes are specified exactly once the environmental inputs — the
//! clock reading, the fresh id, the salted hash — are in hand; the outer
//! functions draw those and state what holds of every draw.

use vstd::prelude::*;

use crate::claims::{claims_json, ClaimsV};
use crate::clock::{now_rfc3339_millis, now_unix};
use crate::dto::{AuthResponse, LoginRequest, RegisterRequest};
use crate::enums::{UserRole, UserStatus};
use crate::errors::ApiError;
use crate::ids::new_uuid;
use crate::password::{bcrypt_hash_default, bcrypt_matches, bcrypt_parseable, bcrypt_verify};
use crate::store::{dto_of, has_email, has_id, Account, AccountStore, AccountV};
use crate::token::{issue_token, token_of};

verus! {

/// How long an issued token lives: seven days, in seconds.
pub const TOKEN_TTL_SECS: u64 = 7 * 24 * 60 * 60;

/// The claim set issued for an account at the instant `now`: subject is the
/// account id, the token expires one lifetime later, and the identity
/// snapshot is the account's redacted projection.
pub open spec fn claims_for(a: AccountV, now: u64) -> ClaimsV
    recommends
        now + TOKEN_TTL_SECS <= u64::MAX,
{
    ClaimsV { sub: a.id, exp: (now + TOKEN_TTL_SECS) as u64, iat: now, user: dto_of(a) }
}

/// The account that registration persists, given the environmental inputs.
pub open spec fn registered_account(
    email: Seq<char>,
    name: Seq<char>,
    hash: Seq<char>,
    id: Seq<char>,
    stamp: Seq<char>,
) -> AccountV {
    AccountV {
        id: id,
        email: email,
        name: name,
        password_hash: hash,
        status: UserStatus::Inactive,
        role: UserRole::User,
        created_at: Some(stamp),
        updated_at: Some(stamp),
    }
}

/// Some stored account carries this email and a hash this password matches.
pub open spec fn login_allowed(s: Seq<AccountV>, email: Seq<char>, password: Seq<char>) -> bool {
    exists|k: int|
        0 <= k < s.len() && (#[trigger] s[k].email) == email && bcrypt_matches(
            password,
            s[k].password_hash,
        )
}

/// Builds the claim set for an account and issues its signed token, which
/// never fails once the expiry fits.
pub fn generate_token(user: &Account, secret: &str, now: u64) -> (r: Result<String, ApiError>)
    requires
        now + TOKEN_TTL_SECS <= u64::MAX,
    ensures
        r is Ok,
        (match r {
            Ok(t) => t@ == token_of(claims_json(claims_for(user@, now)), secret@) && t@.len() > 0,
            Err(_) => true,
        }),
{
    let account = user;
    let claims = crate::claims::Claims {
        sub: account.id.clone(),
        exp: now + TOKEN_TTL_SECS,
        iat: now,
        user: account.to_dto(),
    };
    assert(claims@ == claims_for(account@, now));
    match issue_token(&claims, secret) {
        Some(t) => Ok(t),
        None => Err(ApiError::InternalError(String::from_str("Failed to generate token"))),
    }
}

/// Registration after the environmental inputs are fixed: rejects a taken
/// email with `DuplicateEmail`; a collision on the freshly drawn id is the
/// storage-level uniqueness anomaly and an internal error; otherwise it
/// persists exactly the account `registered_account` describes and returns
/// its token and redacted profile.
pub fn register_hashed(
    store: &mut AccountStore,
    email: String,
    name: String,
    hash: String,
    id: String,
    stamp: String,
    secret: &str,
    now: u64,
) -> (r: Result<AuthResponse, ApiError>)
    requires
        old(store).wf(),
        now + TOKEN_TTL_SECS <= u64::MAX,
        bcrypt_parseable(hash@),
    ensures
        final(store).wf(),
        has_email(old(store)@, email@) ==> final(store)@ == old(store)@ && (r matches Err(e)
            && e matches ApiError::DuplicateEmail(m) && m@ == "Email already exists"@),
        !has_email(old(store)@, email@) && has_id(old(store)@, id@) ==> final(store)@ == old(
            store,
        )@ && (r matches Err(e) && e is InternalError),
        !has_email(old(store)@, email@) && !has_id(old(store)@, id@) ==> (r matches Ok(resp) && {
            let a = registered_account(email@, name@, hash@, id@, stamp@);
            &&& final(store)@ == old(store)@.push(a)
            &&& resp.user@ == dto_of(a)
            &&& resp.token@ == token_of(claims_json(claims_for(a, now)), secret@)
            &&& resp.token@.len() > 0
        }),
{
    match store.find_by_email(email.as_str()) {
        Some(_) => Err(ApiError::DuplicateEmail(String::from_str("Email already exists"))),
        None => {
            if store.find_by_id(id.as_str()).is_some() {
                return Err(ApiError::InternalError(String::from_str("Duplicate id")));
            }
            let account = Account {
                id: id,
                email: email,
                name: name,
                password_hash: hash,
                status: UserStatus::Inactive,
                role: UserRole::User,
                created_at: Some(stamp.clone()),
                updated_at: Some(stamp),
            };
            let token = match generate_token(&account, secret, now) {
                Ok(t) => t,
                Err(e) => {
                    return Err(e);
                },
            };
            let user = account.to_dto();
            store.push_account(account);
            Ok(AuthResponse { token, user })
        },
    }
}

/// Registers a new account: hashes the password, persists the account with
/// default role and status, and returns a token over its claims together
/// with the redacted profile. A taken email is rejected with
/// `DuplicateEmail` and leaves the store unchanged; otherwise only an
/// internal failure (hashing, a colliding fresh id, or a clock reading too
/// large to give the token a lifetime) is possible, and it too leaves the
/// store unchanged.
pub fn register(store: &mut AccountStore, req: RegisterRequest, secret: &str) -> (r: Result<
    AuthResponse,
    ApiError,
>)
    requires
        old(store).wf(),
    ensures
        final(store).wf(),
        (match r {
            Ok(resp) => !has_email(old(store)@, req@.email) && (exists|
                hash: Seq<char>,
                id: Seq<char>,
                stamp: Seq<char>,
                now: u64,
            |
                {
                    let a = registered_account(req@.email, req@.name, hash, id, stamp);
                    &&& bcrypt_matches(req@.password, hash)
                    &&& final(store)@ == old(store)@.push(a)
                    &&& resp.user@ == dto_of(a)
                    &&& resp.token@ == #[trigger] token_of(
                        claims_json(claims_for(registered_account(req@.email, req@.name, hash, id, stamp), now)),
                        secret@,
                    )
                    &&& resp.token@.len() > 0
                }),
            Err(e) => {
                &&& final(store)@ == old(store)@
                &&& (e is DuplicateEmail ==> has_email(old(store)@, req@.email))
                &&& (e matches ApiError::DuplicateEmail(m) ==> m@ == "Email already exists"@)
                &&& (e is DuplicateEmail || e is InternalError)
            },
        }),
{
    let hash = match bcrypt_hash_default(req.password.as_str()) {
        Some(h) => h,
        None => {
            return Err(ApiError::InternalError(String::from_str("Failed to hash password")));
        },
    };
    let now = now_unix();
    if now > u64::MAX - TOKEN_TTL_SECS {
        return Err(ApiError::InternalError(String::from_str("Failed to generate token")));
    }
    let id = new_uuid();
    let stamp = now_rfc3339_millis();
    let ghost hash_v = hash@;
    let ghost id_v = id@;
    let ghost stamp_v = stamp@;
    let r = register_hashed(store, req.email, req.name, hash, id, stamp, secret, now);
    proof {
        if r is Ok {
            assert(final(store)@ == old(store)@.push(
                registered_account(req@.email, req@.name, hash_v, id_v, stamp_v),
            ));
        }
    }
    r
}

/// Login once the clock reading is fixed: looks the account up by email,
/// verifies the password, and issues a token over the account's claims.
/// The outcome is exact: success holds precisely when some stored account
/// carries the email and a matching hash; otherwise the caller learns
/// `Unauthorized` with one fixed message, the same for an unknown email as
/// for a wrong password, so the two cannot be told apart.
pub fn login_at(store: &AccountStore, req: &LoginRequest, secret: &str, now: u64) -> (r: Result<
    AuthResponse,
    ApiError,
>)
    requires
        store.wf(),
        now + TOKEN_TTL_SECS <= u64::MAX,
    ensures
        r is Ok <==> login_allowed(store@, req@.email, req@.password),
        (match r {
            Ok(resp) => exists|k: int|
                {
                    &&& 0 <= k < store@.len()
                    &&& (#[trigger] store@[k].email) == req@.email
                    &&& bcrypt_matches(req@.password, store@[k].password_hash)
                    &&& resp.user@ == dto_of(store@[k])
                    &&& resp.token@ == token_of(
                        claims_json(claims_for(store@[k], now)),
                        secret@,
                    )
                    &&& resp.token@.len() > 0
                },
            Err(e) => e matches ApiError::Unauthorized(m) && m@ == "Invalid credentials"@,
        }),
{
    let k = match store.find_by_email(req.email.as_str()) {
        Some(k) => k,
        None => {
            return Err(ApiError::Unauthorized(String::from_str("Invalid credentials")));
        },
    };
    let account = store.get(k);
    let matches_hash = match bcrypt_verify(req.password.as_str(), account.password_hash.as_str()) {
        Some(b) => b,
        None => false,
    };
    if !matches_hash {
        proof {
            assert forall|j: int|
                0 <= j < store@.len() && (#[trigger] store@[j].email) == req@.email implies
                !bcrypt_matches(req@.password, store@[j].password_hash) by {
                if j != k {
                    assert(store@[k as int].email == store@[j].email);
                }
            }
        }
        return Err(ApiError::Unauthorized(String::from_str("Invalid credentials")));
    }
    let token = match generate_token(account, secret, now) {
        Ok(t) => t,
        Err(e) => {
            return Err(e);
        },
    };
    Ok(AuthResponse { token, user: account.to_dto() })
}

/// Logs an account in: reads the clock, then decides as `login_at` does.
/// Success holds precisely when some stored account carries the email and a
/// matching hash, unless the clock reading is too large to give the token a
/// lifetime, which is an internal failure.
pub fn login(store: &AccountStore, req: &LoginRequest, secret: &str) -> (r: Result<
    AuthResponse,
    ApiError,
>)
    requires
        store.wf(),
    ensures
        (match r {
            Ok(resp) => login_allowed(store@, req@.email, req@.password) && (exists|
                k: int,
                now: u64,
            |
                {
                    &&& 0 <= k < store@.len()
                    &&& store@[k].email == req@.email
                    &&& bcrypt_matches(req@.password, store@[k].password_hash)
                    &&& resp.user@ == dto_of(store@[k])
                    &&& resp.token@ == #[trigger] token_of(
                        claims_json(claims_for(store@[k], now)),
                        secret@,
                    )
                    &&& resp.token@.len() > 0
                }),
            Err(e) => {
                &&& (e matches ApiError::Unauthorized(m) ==> !login_allowed(
                    store@,
                    req@.email,
                    req@.password,
                ) && m@ == "Invalid credentials"@)
                &&& (e is Unauthorized || e is InternalError)
            },
        }),
{
    let now = now_unix();
    if now > u64::MAX - TOKEN_TTL_SECS {
        return Err(ApiError::InternalError(String::from_str("Failed to generate token")));
    }
    login_at(store, req, secret, now)
}

/// Registration enables login: pushing an account whose stored hash the
/// password matches makes login with that account's email and the password
/// allowed on the new store.
pub proof fn lemma_register_enables_login(s: Seq<AccountV>, a: AccountV, password: Seq<char>)
    requires
        bcrypt_matches(password, a.password_hash),
    ensures
        login_allowed(s.push(a), a.email, password),
{
    assert(s.push(a)[s.len() as int] == a);
}

/// Registering twice: after an account is pushed, its email is taken, so a
/// second registration with the same email is refused as `DuplicateEmail`.
pub proof fn lemma_duplicate_email_after_register(s: Seq<AccountV>, a: AccountV)
    ensures
        has_email(s.push(a), a.email),
{
    assert(s.push(a)[s.len() as int] == a);
}

} // verus!
