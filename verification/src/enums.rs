//! The flat role and status classifications carried by every account.

use vstd::prelude::*;

verus! {

/// Access classification of an account: `Admin` grants elevated access,
/// `User` does not. The set is flat; no hierarchy between the two.
#[derive(Debug, Clone, Copy, PartialEq, Eq, Structural)]
pub enum UserRole {
    Admin,
    User,
}

/// Lifecycle status of an account.
#[derive(Debug, Clone, Copy, PartialEq, Eq, Structural)]
pub enum UserStatus {
    Active,
    Inactive,
    Banned,
}

impl UserRole {
    /// The storage/wire value of the role.
    pub open spec fn spec_value(self) -> Seq<char> {
        match self {
            UserRole::Admin => "Admin"@,
            UserRole::User => "User"@,
        }
    }

    /// Returns the wire value of the role, as stored and serialized.
    pub fn value(&self) -> (r: &'static str)
        ensures
            r@ == self.spec_value(),
    {
        match self {
            UserRole::Admin => "Admin",
            UserRole::User => "User",
        }
    }
}

impl UserStatus {
    /// The storage/wire value of the status.
    pub open spec fn spec_value(self) -> Seq<char> {
        match self {
            UserStatus::Active => "Active"@,
            UserStatus::Inactive => "Inactive"@,
            UserStatus::Banned => "Banned"@,
        }
    }

    /// Returns the wire value of the status, as stored and serialized.
    pub fn value(&self) -> (r: &'static str)
        ensures
            r@ == self.spec_value(),
    {
        match self {
            UserStatus::Active => "Active",
            UserStatus::Inactive => "Inactive",
            UserStatus::Banned => "Banned",
        }
    }
}

impl UserRole {
    /// Serializes the role to its JSON wire form: the value in quotes.
    pub fn to_json(&self) -> (r: String)
        ensures
            r@ == seq!['"'] + self.spec_value() + seq!['"'],
    {
        let mut out: Vec<char> = Vec::new();
        out.push('"');
        crate::text::append_str(&mut out, self.value());
        out.push('"');
        assert(out@ =~= seq!['"'] + self.spec_value() + seq!['"']);
        crate::text::chars_string(&out)
    }

    /// Parses a role from its JSON wire form; `None` on anything else.
    pub fn from_json(s: &str) -> (r: Option<UserRole>)
        ensures
            s@ == seq!['"'] + UserRole::Admin.spec_value() + seq!['"'] ==> r == Some(
                UserRole::Admin,
            ),
            s@ == seq!['"'] + UserRole::User.spec_value() + seq!['"'] ==> r == Some(UserRole::User),
            (match r {
                Some(v) => s@ == seq!['"'] + v.spec_value() + seq!['"'],
                None => true,
            }),
    {
        proof {
            reveal_strlit("\"Admin\"");
            reveal_strlit("\"User\"");
            reveal_strlit("Admin");
            reveal_strlit("User");
            assert("\"Admin\""@ =~= seq!['"'] + "Admin"@ + seq!['"']);
            assert("\"User\""@ =~= seq!['"'] + "User"@ + seq!['"']);
        }
        let v = String::from_str(s);
        if v == String::from_str("\"Admin\"") {
            Some(UserRole::Admin)
        } else if v == String::from_str("\"User\"") {
            Some(UserRole::User)
        } else {
            None
        }
    }
}

impl UserStatus {
    /// Serializes the status to its JSON wire form: the value in quotes.
    pub fn to_json(&self) -> (r: String)
        ensures
            r@ == seq!['"'] + self.spec_value() + seq!['"'],
    {
        let mut out: Vec<char> = Vec::new();
        out.push('"');
        crate::text::append_str(&mut out, self.value());
        out.push('"');
        assert(out@ =~= seq!['"'] + self.spec_value() + seq!['"']);
        crate::text::chars_string(&out)
    }

    /// Parses a status from its JSON wire form; `None` on anything else.
    pub fn from_json(s: &str) -> (r: Option<UserStatus>)
        ensures
            s@ == seq!['"'] + UserStatus::Active.spec_value() + seq!['"'] ==> r == Some(
                UserStatus::Active,
            ),
            s@ == seq!['"'] + UserStatus::Inactive.spec_value() + seq!['"'] ==> r == Some(
                UserStatus::Inactive,
            ),
            s@ == seq!['"'] + UserStatus::Banned.spec_value() + seq!['"'] ==> r == Some(
                UserStatus::Banned,
            ),
            (match r {
                Some(v) => s@ == seq!['"'] + v.spec_value() + seq!['"'],
                None => true,
            }),
    {
        proof {
            reveal_strlit("\"Active\"");
            reveal_strlit("\"Inactive\"");
            reveal_strlit("\"Banned\"");
            reveal_strlit("Active");
            reveal_strlit("Inactive");
            reveal_strlit("Banned");
            assert("\"Active\""@ =~= seq!['"'] + "Active"@ + seq!['"']);
            assert("\"Inactive\""@ =~= seq!['"'] + "Inactive"@ + seq!['"']);
            assert("\"Banned\""@ =~= seq!['"'] + "Banned"@ + seq!['"']);
            assert("\"Active\""@[1] != "\"Banned\""@[1]);
        }
        let v = String::from_str(s);
        if v == String::from_str("\"Active\"") {
            Some(UserStatus::Active)
        } else if v == String::from_str("\"Inactive\"") {
            Some(UserStatus::Inactive)
        } else if v == String::from_str("\"Banned\"") {
            Some(UserStatus::Banned)
        } else {
            None
        }
    }
}

impl Default for UserRole {
    /// A fresh account is an ordinary user unless elevated explicitly.
    fn default() -> (r: Self)
        ensures
            r == UserRole::User,
    {
        UserRole::User
    }
}

impl Default for UserStatus {
    /// A fresh account starts out inactive.
    fn default() -> (r: Self)
        ensures
            r == UserStatus::Inactive,
    {
        UserStatus::Inactive
    }
}

} // verus!
