//! The account record and the in-memory account store the services run
//! against. The store stands for the persistence collaborator: a sequence of
//! accounts whose invariant is that emails are unique and every stored
//! password hash is well-formed.

use vstd::prelude::*;

use crate::dto::{UserDto, UserDtoV};
use crate::enums::{UserRole, UserStatus};
use crate::password::bcrypt_parseable;

verus! {

/// A persisted account. The password hash never leaves this type except
/// through verification; the outward projection is `to_dto`.
#[derive(Debug)]
pub struct Account {
    pub id: String,
    pub email: String,
    pub name: String,
    pub password_hash: String,
    pub status: UserStatus,
    pub role: UserRole,
    pub created_at: Option<String>,
    pub updated_at: Option<String>,
}

pub ghost struct AccountV {
    pub id: Seq<char>,
    pub email: Seq<char>,
    pub name: Seq<char>,
    pub password_hash: Seq<char>,
    pub status: UserStatus,
    pub role: UserRole,
    pub created_at: Option<Seq<char>>,
    pub updated_at: Option<Seq<char>>,
}

impl View for Account {
    type V = AccountV;

    open spec fn view(&self) -> AccountV {
        AccountV {
            id: self.id@,
            email: self.email@,
            name: self.name@,
            password_hash: self.password_hash@,
            status: self.status,
            role: self.role,
            created_at: (match self.created_at {
                Option::Some(ref s) => Option::Some(s@),
                Option::None => Option::None,
            }),
            updated_at: (match self.updated_at {
                Option::Some(ref s) => Option::Some(s@),
                Option::None => Option::None,
            }),
        }
    }
}

impl DeepView for Account {
    type V = AccountV;

    open spec fn deep_view(&self) -> AccountV {
        self.view()
    }
}

impl Clone for Account {
    fn clone(&self) -> (r: Self)
        ensures
            r@ == self@,
    {
        Account {
            id: self.id.clone(),
            email: self.email.clone(),
            name: self.name.clone(),
            password_hash: self.password_hash.clone(),
            status: self.status,
            role: self.role,
            created_at: (match &self.created_at {
                Option::Some(s) => Option::Some(s.clone()),
                Option::None => Option::None,
            }),
            updated_at: (match &self.updated_at {
                Option::Some(s) => Option::Some(s.clone()),
                Option::None => Option::None,
            }),
        }
    }
}

/// The redacted projection of an account: every outward field, never the
/// password hash.
pub open spec fn dto_of(a: AccountV) -> UserDtoV {
    UserDtoV {
        id: a.id,
        email: a.email,
        name: a.name,
        status: a.status.spec_value(),
        role: a.role.spec_value(),
        created_at: a.created_at,
        updated_at: a.updated_at,
    }
}

impl Account {
    /// Builds the redacted projection of this account.
    pub fn to_dto(&self) -> (r: UserDto)
        ensures
            r@ == dto_of(self@),
    {
        UserDto {
            id: self.id.clone(),
            email: self.email.clone(),
            name: self.name.clone(),
            status: String::from_str(self.status.value()),
            role: String::from_str(self.role.value()),
            created_at: (match &self.created_at {
                Option::Some(s) => Option::Some(s.clone()),
                Option::None => Option::None,
            }),
            updated_at: (match &self.updated_at {
                Option::Some(s) => Option::Some(s.clone()),
                Option::None => Option::None,
            }),
        }
    }
}

/// No two accounts share an email.
pub open spec fn emails_unique(s: Seq<AccountV>) -> bool {
    forall|i: int, j: int| 0 <= i < j < s.len() ==> s[i].email != s[j].email
}

/// No two accounts share an identifier.
pub open spec fn ids_unique(s: Seq<AccountV>) -> bool {
    forall|i: int, j: int| 0 <= i < j < s.len() ==> s[i].id != s[j].id
}

/// Every stored hash is well-formed bcrypt output.
pub open spec fn hashes_wf(s: Seq<AccountV>) -> bool {
    forall|i: int| 0 <= i < s.len() ==> bcrypt_parseable(#[trigger] s[i].password_hash)
}

/// The store invariant: the identifier and the email each determine the
/// account, and every stored hash is well-formed.
pub open spec fn store_wf(s: Seq<AccountV>) -> bool {
    emails_unique(s) && ids_unique(s) && hashes_wf(s)
}

/// Some account holds this email.
pub open spec fn has_email(s: Seq<AccountV>, email: Seq<char>) -> bool {
    exists|k: int| 0 <= k < s.len() && (#[trigger] s[k].email) == email
}

/// Some account holds this id.
pub open spec fn has_id(s: Seq<AccountV>, id: Seq<char>) -> bool {
    exists|k: int| 0 <= k < s.len() && (#[trigger] s[k].id) == id
}

/// The in-memory account store: the model of the persistence collaborator.
#[derive(Debug)]
pub struct AccountStore {
    pub accounts: Vec<Account>,
}

impl View for AccountStore {
    type V = Seq<AccountV>;

    open spec fn view(&self) -> Seq<AccountV> {
        self.accounts.deep_view()
    }
}

impl AccountStore {
    /// The store invariant: unique emails, well-formed hashes.
    pub open spec fn wf(&self) -> bool {
        store_wf(self@)
    }

    /// Creates an empty store.
    pub fn new() -> (r: AccountStore)
        ensures
            r@ == Seq::<AccountV>::empty(),
            r.wf(),
    {
        let r = AccountStore { accounts: Vec::new() };
        assert(r@ =~= Seq::<AccountV>::empty());
        r
    }

    /// The number of accounts.
    pub fn len(&self) -> (r: usize)
        ensures
            r == self@.len(),
    {
        self.accounts.len()
    }

    /// A reference to the account at `k`.
    pub fn get(&self, k: usize) -> (r: &Account)
        requires
            k < self@.len(),
        ensures
            r@ == self@[k as int],
    {
        &self.accounts[k]
    }

    /// Finds the first account holding `email`.
    pub fn find_by_email(&self, email: &str) -> (r: Option<usize>)
        ensures
            (match r {
                Some(k) => k < self@.len() && self@[k as int].email == email@ && (forall|j: int|
                    0 <= j < k ==> self@[j].email != email@),
                None => !has_email(self@, email@),
            }),
    {
        let needle = String::from_str(email);
        let n = self.accounts.len();
        let mut k: usize = 0;
        while k < n
            invariant
                k <= n,
                n == self@.len(),
                needle@ == email@,
                forall|j: int| 0 <= j < k ==> self@[j].email != email@,
            decreases n - k,
        {
            if self.accounts[k].email == needle {
                return Some(k);
            }
            k = k + 1;
        }
        None
    }

    /// Finds the first account holding `id`.
    pub fn find_by_id(&self, id: &str) -> (r: Option<usize>)
        ensures
            (match r {
                Some(k) => k < self@.len() && self@[k as int].id == id@ && (forall|j: int|
                    0 <= j < k ==> self@[j].id != id@),
                None => !has_id(self@, id@),
            }),
    {
        let needle = String::from_str(id);
        let n = self.accounts.len();
        let mut k: usize = 0;
        while k < n
            invariant
                k <= n,
                n == self@.len(),
                needle@ == id@,
                forall|j: int| 0 <= j < k ==> self@[j].id != id@,
            decreases n - k,
        {
            if self.accounts[k].id == needle {
                return Some(k);
            }
            k = k + 1;
        }
        None
    }

    /// Appends an account. Keeps the invariant when the email and the id
    /// are fresh and the hash well-formed.
    pub fn push_account(&mut self, a: Account)
        ensures
            final(self)@ == old(self)@.push(a@),
            old(self).wf() && !has_email(old(self)@, a@.email) && !has_id(old(self)@, a@.id)
                && bcrypt_parseable(a@.password_hash) ==> final(self).wf(),
    {
        let ghost s0 = self@;
        let ghost av = a@;
        self.accounts.push(a);
        assert(self@ =~= s0.push(av));
        proof {
            if store_wf(s0) && !has_email(s0, av.email) && !has_id(s0, av.id) && bcrypt_parseable(
                av.password_hash,
            ) {
                assert forall|i: int, j: int| 0 <= i < j < self@.len() implies self@[i].email
                    != self@[j].email by {
                    if j < s0.len() {
                    } else {
                        assert(self@[j] == av);
                        if self@[i].email == av.email {
                            assert(has_email(s0, av.email));
                        }
                    }
                }
                assert forall|i: int, j: int| 0 <= i < j < self@.len() implies self@[i].id
                    != self@[j].id by {
                    if j < s0.len() {
                    } else {
                        assert(self@[j] == av);
                        if self@[i].id == av.id {
                            assert(has_id(s0, av.id));
                        }
                    }
                }
            }
        }
    }

    /// Removes the account at `k`. Keeps the invariant.
    pub fn remove_at(&mut self, k: usize)
        requires
            k < old(self)@.len(),
        ensures
            final(self)@ == old(self)@.remove(k as int),
            old(self).wf() ==> final(self).wf(),
    {
        let ghost s0 = self@;
        self.accounts.remove(k);
        assert(self@ =~= s0.remove(k as int));
        proof {
            if store_wf(s0) {
                assert forall|i: int, j: int| 0 <= i < j < self@.len() implies self@[i].email
                    != self@[j].email by {
                    let i0 = if i < k { i } else { i + 1 };
                    let j0 = if j < k { j } else { j + 1 };
                    assert(self@[i] == s0[i0] && self@[j] == s0[j0]);
                }
                assert forall|i: int, j: int| 0 <= i < j < self@.len() implies self@[i].id
                    != self@[j].id by {
                    let i0 = if i < k { i } else { i + 1 };
                    let j0 = if j < k { j } else { j + 1 };
                    assert(self@[i] == s0[i0] && self@[j] == s0[j0]);
                }
                assert forall|i: int| 0 <= i < self@.len() implies bcrypt_parseable(
                    #[trigger] self@[i].password_hash,
                ) by {
                    let i0 = if i < k { i } else { i + 1 };
                    assert(self@[i] == s0[i0]);
                }
            }
        }
    }
}

} // verus!
