//! Accounts, roles and seller profiles.

use vstd::prelude::*;

use crate::text::str_eq;

verus! {

/// Role of an account; one account may hold several.
#[derive(Debug, Clone, Copy, PartialEq, Eq, Structural)]
pub enum AccountRole {
    Customer,
    Seller,
    Admin,
}

impl AccountRole {
    /// The canonical value of the `account_roles.role` column.
    pub open spec fn code(self) -> Seq<char> {
        match self {
            AccountRole::Customer => "customer"@,
            AccountRole::Seller => "seller"@,
            AccountRole::Admin => "admin"@,
        }
    }

    /// The role whose canonical value is `s`, if any.
    pub open spec fn from_code(s: Seq<char>) -> Option<AccountRole> {
        if s == "customer"@ {
            Some(AccountRole::Customer)
        } else if s == "seller"@ {
            Some(AccountRole::Seller)
        } else if s == "admin"@ {
            Some(AccountRole::Admin)
        } else {
            None
        }
    }

    pub fn as_str(&self) -> (r: &'static str)
        ensures
            r@ == self.code(),
    {
        match self {
            AccountRole::Customer => "customer",
            AccountRole::Seller => "seller",
            AccountRole::Admin => "admin",
        }
    }

    pub fn parse(s: &str) -> (r: Option<AccountRole>)
        ensures
            r == AccountRole::from_code(s@),
    {
        if str_eq(s, "customer") {
            Some(AccountRole::Customer)
        } else if str_eq(s, "seller") {
            Some(AccountRole::Seller)
        } else if str_eq(s, "admin") {
            Some(AccountRole::Admin)
        } else {
            None
        }
    }
}

/// Parsing the canonical value of a role gives it back, and only that value parses to it.
pub proof fn lemma_account_role_roundtrip(r: AccountRole, s: Seq<char>)
    ensures
        AccountRole::from_code(r.code()) == Some(r),
        AccountRole::from_code(s) == Some(r) ==> r.code() == s,
{
    reveal_strlit("customer");
    reveal_strlit("seller");
    reveal_strlit("admin");
    assert("customer"@[0] == 'c' && "seller"@[0] == 's' && "admin"@[0] == 'a');
}

/// An account with its roles. It has no `Debug`: its password hash must not end up in logs.
#[derive(Clone)]
pub struct Account {
    pub id: String,
    pub email: String,
    pub pass_hash: String,
    pub email_verified_at: Option<i64>,
    pub created_at: i64,
    pub updated_at: i64,
    pub roles: Vec<AccountRole>,
}

/// Input for registering an account; the password is plain text and is hashed before it is
/// stored. It has no `Debug`, for the same reason as [`Account`].
#[derive(Clone)]
pub struct NewAccount {
    pub id: String,
    pub email: String,
    pub password: String,
}

/// A seller profile linked to an account.
#[derive(Debug, Clone)]
pub struct Seller {
    pub account_id: String,
    pub display_name: String,
    pub split_receiver_id: Option<String>,
    pub verified_at: Option<i64>,
    pub created_at: i64,
}

/// Input for registering a seller profile (the account must exist already).
#[derive(Debug, Clone)]
pub struct NewSeller {
    pub account_id: String,
    pub display_name: String,
}

} // verus!
