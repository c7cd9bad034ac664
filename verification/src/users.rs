//! The user service: list, create, show, update, and delete accounts,
//! keyed by their canonical id text.

use vstd::prelude::*;

use crate::clock::now_rfc3339_millis;
use crate::dto::UserDto;
use crate::enums::{UserRole, UserStatus};
use crate::errors::ApiError;
use crate::ids::{new_uuid, uuid_norm, uuid_normalize};
use crate::password::{bcrypt_hash_default, bcrypt_matches, bcrypt_parseable};
use crate::store::{dto_of, has_email, has_id, Account, AccountStore, AccountV};

verus! {

/// Lists every account's redacted projection, in store order.
pub fn index(store: &AccountStore) -> (r: Vec<UserDto>)
    ensures
        r@.len() == store@.len(),
        forall|i: int| 0 <= i < store@.len() ==> (#[trigger] r@[i])@ == dto_of(store@[i]),
{
    let n = store.len();
    let mut out: Vec<UserDto> = Vec::new();
    let mut k: usize = 0;
    while k < n
        invariant
            k <= n,
            n == store@.len(),
            out@.len() == k,
            forall|i: int| 0 <= i < k ==> (#[trigger] out@[i])@ == dto_of(store@[i]),
        decreases n - k,
    {
        out.push(store.get(k).to_dto());
        k = k + 1;
    }
    out
}

/// The account that user creation persists, given the environmental inputs:
/// as registration, but created explicitly active.
pub open spec fn created_account(
    email: Seq<char>,
    name: Seq<char>,
    hash: Seq<char>,
    id: Seq<char>,
    stamp: Seq<char>,
) -> AccountV {
    AccountV {
        id: id,
        email: email,
        name: name,
        password_hash: hash,
        status: UserStatus::Active,
        role: UserRole::User,
        created_at: Some(stamp),
        updated_at: Some(stamp),
    }
}

/// Creation after the environmental inputs are fixed: rejects a taken
/// email with `DuplicateEmail`; a collision on the freshly drawn id is the
/// storage-level uniqueness anomaly and an internal error; otherwise it
/// persists exactly the account `created_account` describes and returns
/// its redacted projection.
pub fn create_hashed(
    store: &mut AccountStore,
    email: String,
    name: String,
    hash: String,
    id: String,
    stamp: String,
) -> (r: Result<UserDto, ApiError>)
    requires
        old(store).wf(),
        bcrypt_parseable(hash@),
    ensures
        final(store).wf(),
        has_email(old(store)@, email@) ==> final(store)@ == old(store)@ && (r matches Err(e)
            && e matches ApiError::DuplicateEmail(m) && m@ == "Email already exists"@),
        !has_email(old(store)@, email@) && has_id(old(store)@, id@) ==> final(store)@ == old(
            store,
        )@ && (r matches Err(e) && e is InternalError),
        !has_email(old(store)@, email@) && !has_id(old(store)@, id@) ==> (r matches Ok(d) && {
            let a = created_account(email@, name@, hash@, id@, stamp@);
            &&& final(store)@ == old(store)@.push(a)
            &&& d@ == dto_of(a)
        }),
{
    match store.find_by_email(email.as_str()) {
        Some(_) => Err(ApiError::DuplicateEmail(String::from_str("Email already exists"))),
        None => {
            if store.find_by_id(id.as_str()).is_some() {
                return Err(ApiError::InternalError(String::from_str("Duplicate id")));
            }
            let account = Account {
                id: id,
                email: email,
                name: name,
                password_hash: hash,
                status: UserStatus::Active,
                role: UserRole::User,
                created_at: Some(stamp.clone()),
                updated_at: Some(stamp),
            };
            let d = account.to_dto();
            store.push_account(account);
            Ok(d)
        },
    }
}

/// Creates an account with an explicitly active status: hashes the
/// password, persists the account, and returns the redacted projection. A
/// taken email is rejected with `DuplicateEmail`; only a hashing failure or
/// a colliding fresh id is an internal error. Errors leave the store
/// unchanged.
pub fn create(store: &mut AccountStore, email: String, password: String, name: String) -> (r:
    Result<UserDto, ApiError>)
    requires
        old(store).wf(),
    ensures
        final(store).wf(),
        (match r {
            Ok(d) => !has_email(old(store)@, email@) && (exists|
                hash: Seq<char>,
                id: Seq<char>,
                stamp: Seq<char>,
            |
                {
                    &&& bcrypt_matches(password@, hash)
                    &&& final(store)@ == old(store)@.push(
                        #[trigger] created_account(email@, name@, hash, id, stamp),
                    )
                    &&& d@ == dto_of(created_account(email@, name@, hash, id, stamp))
                }),
            Err(e) => {
                &&& final(store)@ == old(store)@
                &&& (e is DuplicateEmail ==> has_email(old(store)@, email@))
                &&& (e matches ApiError::DuplicateEmail(m) ==> m@ == "Email already exists"@)
                &&& (e is DuplicateEmail || e is InternalError)
            },
        }),
{
    let hash = match bcrypt_hash_default(password.as_str()) {
        Some(h) => h,
        None => {
            return Err(ApiError::InternalError(String::from_str("Failed to hash password")));
        },
    };
    let id = new_uuid();
    let stamp = now_rfc3339_millis();
    create_hashed(store, email, name, hash, id, stamp)
}

/// Shows the account an id denotes: a non-id is rejected as invalid, an id
/// no account holds is not found, otherwise the first such account's
/// redacted projection.
pub fn show(store: &AccountStore, user_id: &str) -> (r: Result<UserDto, ApiError>)
    ensures
        (match (r, uuid_norm(user_id@)) {
            (Err(e), None) => e matches ApiError::InvalidRequest(m) && m@ == "Invalid user ID"@,
            (Err(e), Some(norm)) => !has_id(store@, norm) && (e matches ApiError::NotFound(m)
                && m@ == "User not found"@),
            (Ok(d), Some(norm)) => exists|k: int|
                0 <= k < store@.len() && (#[trigger] store@[k].id) == norm && d@ == dto_of(
                    store@[k],
                ),
            (Ok(_), None) => false,
        }),
{
    let id = match uuid_normalize(user_id) {
        Some(t) => t,
        None => {
            return Err(ApiError::InvalidRequest(String::from_str("Invalid user ID")));
        },
    };
    match store.find_by_id(id.as_str()) {
        Some(k) => Ok(store.get(k).to_dto()),
        None => Err(ApiError::NotFound(String::from_str("User not found"))),
    }
}

/// Renames the account an id denotes: a non-id is rejected as invalid, an
/// id no account holds is not found; otherwise the first such account gets
/// the new name, nothing else changes, and its new projection is returned.
pub fn update(store: &mut AccountStore, user_id: &str, name: String) -> (r: Result<
    UserDto,
    ApiError,
>)
    requires
        old(store).wf(),
    ensures
        final(store).wf(),
        (match (r, uuid_norm(user_id@)) {
            (Err(e), None) => final(store)@ == old(store)@ && (e matches ApiError::InvalidRequest(
                m,
            ) && m@ == "Invalid user ID"@),
            (Err(e), Some(norm)) => final(store)@ == old(store)@ && !has_id(old(store)@, norm) && (
            e matches ApiError::NotFound(m) && m@ == "User not found"@),
            (Ok(d), Some(norm)) => exists|k: int|
                {
                    let a = AccountV { name: name@, ..old(store)@[k] };
                    &&& 0 <= k < old(store)@.len()
                    &&& (#[trigger] old(store)@[k].id) == norm
                    &&& final(store)@ == old(store)@.update(k, a)
                    &&& d@ == dto_of(a)
                },
            (Ok(_), None) => false,
        }),
{
    let id = match uuid_normalize(user_id) {
        Some(t) => t,
        None => {
            return Err(ApiError::InvalidRequest(String::from_str("Invalid user ID")));
        },
    };
    let k = match store.find_by_id(id.as_str()) {
        Some(k) => k,
        None => {
            return Err(ApiError::NotFound(String::from_str("User not found")));
        },
    };
    let ghost s0 = store@;
    store.accounts[k].name = name;
    assert(store@ =~= s0.update(k as int, AccountV { name: store@[k as int].name, ..s0[k as int] }));
    proof {
        assert forall|i: int, j: int| 0 <= i < j < store@.len() implies store@[i].email
            != store@[j].email by {
            assert(store@[i].email == s0[i].email && store@[j].email == s0[j].email);
        }
        assert forall|i: int, j: int| 0 <= i < j < store@.len() implies store@[i].id
            != store@[j].id by {
            assert(store@[i].id == s0[i].id && store@[j].id == s0[j].id);
        }
        assert forall|i: int| 0 <= i < store@.len() implies bcrypt_parseable(
            #[trigger] store@[i].password_hash,
        ) by {
            assert(store@[i].password_hash == s0[i].password_hash);
        }
    }
    Ok(store.get(k).to_dto())
}

/// Deletes the account an id denotes: a non-id is rejected as invalid, an
/// id no account holds is not found; otherwise the account holding the id
/// is removed — afterwards no account holds it — and nothing else changes.
pub fn destroy(store: &mut AccountStore, user_id: &str) -> (r: Result<(), ApiError>)
    requires
        old(store).wf(),
    ensures
        final(store).wf(),
        (match (r, uuid_norm(user_id@)) {
            (Err(e), None) => final(store)@ == old(store)@ && (e matches ApiError::InvalidRequest(
                m,
            ) && m@ == "Invalid user ID"@),
            (Err(e), Some(norm)) => final(store)@ == old(store)@ && !has_id(old(store)@, norm) && (
            e matches ApiError::NotFound(m) && m@ == "User not found"@),
            (Ok(_), Some(norm)) => !has_id(final(store)@, norm) && (exists|k: int|
                {
                    &&& 0 <= k < old(store)@.len()
                    &&& (#[trigger] old(store)@[k].id) == norm
                    &&& final(store)@ == old(store)@.remove(k)
                }),
            (Ok(_), None) => false,
        }),
{
    let id = match uuid_normalize(user_id) {
        Some(t) => t,
        None => {
            return Err(ApiError::InvalidRequest(String::from_str("Invalid user ID")));
        },
    };
    let k = match store.find_by_id(id.as_str()) {
        Some(k) => k,
        None => {
            return Err(ApiError::NotFound(String::from_str("User not found")));
        },
    };
    let ghost s0 = store@;
    store.remove_at(k);
    proof {
        assert forall|i: int| 0 <= i < store@.len() implies (#[trigger] store@[i].id) != id@ by {
            let i0 = if i < k { i } else { i + 1 };
            assert(store@[i] == s0[i0]);
            if i0 != k && s0[i0].id == id@ {
                assert(s0[k as int].id == s0[i0].id);
            }
        }
    }
    Ok(())
}

} // verus!
