//! The decisions of the account repository: password hashing and checking (Argon2id), how a
//! failed insert is told apart, how stored roles are read back and what registration
//! writes to the outbox.

use vstd::prelude::*;

#[allow(unused_imports)]
use argon2::{PasswordHasher, PasswordVerifier};

use crate::identity::account::{Account, AccountRole};
use crate::json::{member, push_str_member, sep, str_value};
use crate::shared::NewEvent;
use crate::text::{contains_text, decimal, occurs_in};

verus! {

/// Aggregate name of account events in the outbox.
pub const ACCOUNT_AGGREGATE: &'static str = "account";

/// Argon2id memory cost, in KiB.
pub const ARGON2_MEMORY_KIB: u32 = 19456;

/// Argon2id number of passes.
pub const ARGON2_PASSES: u32 = 2;

/// Argon2id degree of parallelism.
pub const ARGON2_LANES: u32 = 1;

/// PHC string of the Argon2id hash of a fixed dummy password, with the same parameters as
/// real hashes: checked against when an email is unknown, so that the time taken does not
/// tell whether an account exists.
pub const DUMMY_HASH: &'static str = "$argon2id$v=19$m=19456,t=2,p=1$Y2hvb2NvbGF0ZQ$MTIzNDU2Nzg5MDEyMzQ1Njc4OTAxMjM0NTY3ODkwMTI";

/// The dummy hash carries the same Argon2id version and costs as every hash the library makes,
/// so checking a password against it costs as much as checking against a real one.
pub proof fn lemma_dummy_hash_has_library_costs()
    ensures
        argon2id_phc_prefix(ARGON2_MEMORY_KIB, ARGON2_PASSES, ARGON2_LANES) == "$argon2id$v=19$m=19456,t=2,p=1$"@,
        argon2id_phc_prefix(ARGON2_MEMORY_KIB, ARGON2_PASSES, ARGON2_LANES).is_prefix_of(DUMMY_HASH@),
{
    reveal_with_fuel(decimal, 6);
    reveal_strlit("$argon2id$v=19$m=");
    reveal_strlit(",t=");
    reveal_strlit(",p=");
    reveal_strlit("$");
    reveal_strlit("$argon2id$v=19$m=19456,t=2,p=1$");
    reveal_strlit("$argon2id$v=19$m=19456,t=2,p=1$Y2hvb2NvbGF0ZQ$MTIzNDU2Nzg5MDEyMzQ1Njc4OTAxMjM0NTY3ODkwMTI");
    assert(decimal(19456) =~= seq!['1', '9', '4', '5', '6']);
    assert(decimal(2) =~= seq!['2']);
    assert(decimal(1) =~= seq!['1']);
    assert(argon2id_phc_prefix(ARGON2_MEMORY_KIB, ARGON2_PASSES, ARGON2_LANES) =~= "$argon2id$v=19$m=19456,t=2,p=1$"@);
    assert("$argon2id$v=19$m=19456,t=2,p=1$"@ =~= DUMMY_HASH@.take(31));
}

/// Errors of the account repository.
#[derive(Debug)]
pub enum AccountError {
    EmailTaken,
    /// Storage failure, with its message.
    Db(String),
    /// Password hashing failure, with its message.
    HashError(String),
    /// A background task could not be joined, with its message.
    Join(String),
}

/// Whether Argon2 accepts `password` against the PHC string `hash`.
pub uninterp spec fn argon2_accepts(hash: Seq<char>, password: Seq<char>) -> bool;

/// The outcome of hashing `password` with Argon2id (version 0x13), the costs `m_cost`,
/// `t_cost`, `p_cost` and the B64 salt `salt`: the PHC string, or the error's message.
pub uninterp spec fn argon2id_phc(
    password: Seq<char>,
    salt: Seq<char>,
    m_cost: u32,
    t_cost: u32,
    p_cost: u32,
) -> Result<Seq<char>, Seq<char>>;

/// The start of the PHC string of an Argon2id (version 0x13) hash with the given costs:
/// `$argon2id$v=19$m=<m>,t=<t>,p=<p>$`, which the salt and the digest follow.
pub open spec fn argon2id_phc_prefix(m_cost: u32, t_cost: u32, p_cost: u32) -> Seq<char> {
    "$argon2id$v=19$m="@ + decimal(m_cost as nat) + ",t="@ + decimal(t_cost as nat) + ",p="@
        + decimal(p_cost as nat) + "$"@
}

/// A result of hashing, as plain values.
pub open spec fn hash_outcome(r: Result<String, String>) -> Result<Seq<char>, Seq<char>> {
    match r {
        Ok(h) => Ok(h@),
        Err(e) => Err(e@),
    }
}

/// A character of the standard Base64 alphabet: `A-Z`, `a-z`, `0-9`, `+`, `/`.
pub open spec fn is_b64_char(c: char) -> bool {
    ('A' <= c && c <= 'Z') || ('a' <= c && c <= 'z') || ('0' <= c && c <= '9') || c == '+' || c == '/'
}

/// The shape of a generated salt: 22 characters of the standard Base64 alphabet.
pub open spec fn is_generated_salt(s: Seq<char>) -> bool {
    s.len() == 22 && forall|i: int| 0 <= i < s.len() ==> is_b64_char(#[trigger] s[i])
}

/// A fresh random salt from the OS generator, in its B64 form (`SaltString::generate(&mut
/// OsRng)`, then `as_str`): the password-hash source draws 16 random bytes and writes them in
/// unpadded standard Base64, so 22 characters of that alphabet. Which ones is random.
#[verifier::external_body]
fn random_salt() -> (s: String)
    ensures
        is_generated_salt(s@),
{
    argon2::password_hash::SaltString::generate(&mut argon2::password_hash::rand_core::OsRng).as_str().to_string()
}

/// Hashes `password` with Argon2id (version 0x13), the given costs and the B64 salt `salt`
/// (`SaltString::from_b64`, `Params::new`, then `Argon2::hash_password`), giving its PHC
/// string or the error's message (a bad salt, bad costs or a failing hash). With the salt
/// given, the source shows the outcome to depend on these arguments alone; it is named
/// `argon2id_phc`. The argon2 source also shows that a hash so made is accepted for the same
/// password (checking recomputes it with the algorithm, version, parameters and salt that
/// the PHC string itself records), and that its PHC string is written as `$`, the algorithm
/// `argon2id`, `$v=19`, `$` and the costs as `m=..,t=..,p=..` in decimal, then `$`, the salt,
/// `$` and the digest.
#[verifier::external_body]
fn argon2id_hash(password: &str, salt: &str, m_cost: u32, t_cost: u32, p_cost: u32) -> (r: Result<
    String,
    String,
>)
    ensures
        hash_outcome(r) == argon2id_phc(password@, salt@, m_cost, t_cost, p_cost),
        r matches Ok(h) ==> argon2_accepts(h@, password@),
        r matches Ok(h) ==> argon2id_phc_prefix(m_cost, t_cost, p_cost).is_prefix_of(h@),
{
    let salt = match argon2::password_hash::SaltString::from_b64(salt) {
        Ok(s) => s,
        Err(e) => return Err(e.to_string()),
    };
    let params = match argon2::Params::new(m_cost, t_cost, p_cost, None) {
        Ok(p) => p,
        Err(e) => return Err(e.to_string()),
    };
    match argon2::Argon2::new(argon2::Algorithm::Argon2id, argon2::Version::V0x13, params).hash_password(password.as_bytes(), &salt) {
        Ok(h) => Ok(h.to_string()),
        Err(e) => Err(e.to_string()),
    }
}

/// Checks `password` against the PHC string `hash` (`PasswordHash::new`, then
/// `Argon2::default().verify_password`); a string that does not parse is a refusal.
#[verifier::external_body]
fn argon2_verify(hash: &str, password: &str) -> (r: bool)
    ensures
        r == argon2_accepts(hash@, password@),
{
    match argon2::password_hash::PasswordHash::new(hash) {
        Ok(parsed) => argon2::Argon2::default().verify_password(password.as_bytes(), &parsed).is_ok(),
        Err(_) => false,
    }
}

/// Hashes a password with the library's Argon2id costs (`ARGON2_MEMORY_KIB`, `ARGON2_PASSES`,
/// `ARGON2_LANES`) under a fresh random salt of 22 Base64 characters: the outcome is
/// Argon2id's for this password, these costs and such a salt, and a hash it gives is accepted
/// for the same password.
pub fn hash_password_sync(password: &str) -> (r: Result<String, String>)
    ensures
        exists|salt: Seq<char>|
            is_generated_salt(salt) && #[trigger] argon2id_phc(password@, salt, ARGON2_MEMORY_KIB, ARGON2_PASSES, ARGON2_LANES)
                == hash_outcome(r),
        r matches Ok(h) ==> argon2_accepts(h@, password@),
        r matches Ok(h) ==> argon2id_phc_prefix(ARGON2_MEMORY_KIB, ARGON2_PASSES, ARGON2_LANES).is_prefix_of(h@),
{
    let salt = random_salt();
    let r = argon2id_hash(password, salt.as_str(), ARGON2_MEMORY_KIB, ARGON2_PASSES, ARGON2_LANES);
    proof {
        assert(argon2id_phc(password@, salt@, ARGON2_MEMORY_KIB, ARGON2_PASSES, ARGON2_LANES)
            == hash_outcome(r));
    }
    r
}

/// Checks a password against a stored hash.
pub fn verify_password_sync(hash: &str, password: &str) -> (r: bool)
    ensures
        r == argon2_accepts(hash@, password@),
{
    argon2_verify(hash, password)
}

/// Hashes a password for storage with the library's Argon2id costs (`ARGON2_MEMORY_KIB`,
/// `ARGON2_PASSES`, `ARGON2_LANES`) under a fresh random salt of 22 Base64 characters; the hash is accepted for the
/// same password and begins with the PHC prefix of these costs, so it never equals a password
/// that does not itself begin so. A hashing failure is `HashError` with Argon2's message for
/// these costs and that salt.
pub fn hash_password(password: &str) -> (r: Result<String, AccountError>)
    ensures
        r matches Ok(h) ==> argon2_accepts(h@, password@),
        r matches Ok(h) ==> exists|salt: Seq<char>|
            is_generated_salt(salt) && #[trigger] argon2id_phc(password@, salt, ARGON2_MEMORY_KIB, ARGON2_PASSES, ARGON2_LANES)
                == Ok::<Seq<char>, Seq<char>>(h@),
        r matches Ok(h) ==> argon2id_phc_prefix(ARGON2_MEMORY_KIB, ARGON2_PASSES, ARGON2_LANES).is_prefix_of(h@),
        r matches Ok(h) ==> (!argon2id_phc_prefix(ARGON2_MEMORY_KIB, ARGON2_PASSES, ARGON2_LANES).is_prefix_of(password@)
            ==> h@ != password@),
        r matches Err(e) ==> e is HashError,
        r matches Err(AccountError::HashError(m)) ==> exists|salt: Seq<char>|
            is_generated_salt(salt) && #[trigger] argon2id_phc(password@, salt, ARGON2_MEMORY_KIB, ARGON2_PASSES, ARGON2_LANES)
                == Err::<Seq<char>, Seq<char>>(m@),
{
    match hash_password_sync(password) {
        Ok(h) => Ok(h),
        Err(msg) => Err(AccountError::HashError(msg)),
    }
}

/// The hash that a login attempt is checked against: the account's own, or the dummy hash
/// when there is no such account.
pub open spec fn credential_hash(account: Option<Account>) -> Seq<char> {
    match account {
        Some(a) => a.pass_hash@,
        None => DUMMY_HASH@,
    }
}

/// The outcome of a login: the account when the password matches its hash, otherwise
/// `None`.
pub open spec fn login_outcome(account: Option<Account>, password: Seq<char>) -> Option<Account> {
    if account is Some && argon2_accepts(credential_hash(account), password) {
        account
    } else {
        None
    }
}

/// Decides a login. The password is checked in both cases (against the dummy hash when the
/// email is unknown), so that an unknown email costs as much time as a wrong password.
pub fn authenticate_with(account: Option<Account>, password: &str) -> (r: Option<Account>)
    ensures
        r == login_outcome(account, password@),
{
    let ok = match &account {
        Some(a) => verify_password_sync(a.pass_hash.as_str(), password),
        None => verify_password_sync(DUMMY_HASH, password),
    };
    if ok {
        account
    } else {
        None
    }
}

/// An account whose stored hash accepts the password (as every hash made from that password
/// does) is let in; an unknown email is never let in, whatever the password.
pub proof fn lemma_login(account: Account, password: Seq<char>)
    ensures
        argon2_accepts(account.pass_hash@, password) ==> login_outcome(Some(account), password)
            == Some(account),
        !argon2_accepts(account.pass_hash@, password) ==> login_outcome(Some(account), password)
            is None,
        login_outcome(None, password) is None,
{
}

/// Whether a storage error message reports a UNIQUE violation on `accounts.email` (the only
/// unique column besides the primary key). `None` stands for an error that is not a database
/// error.
pub open spec fn unique_email_violation(message: Option<Seq<char>>) -> bool {
    match message {
        Some(m) => occurs_in(m, "UNIQUE constraint failed"@) && occurs_in(m, "accounts.email"@),
        None => false,
    }
}

/// The contents of an optional string slice.
pub open spec fn str_opt_view(o: Option<&str>) -> Option<Seq<char>> {
    match o {
        Some(m) => Some(m@),
        None => None,
    }
}

pub fn is_unique_violation(message: Option<&str>) -> (r: bool)
    ensures
        r == unique_email_violation(str_opt_view(message)),
{
    match message {
        Some(m) => contains_text(m, "UNIQUE constraint failed") && contains_text(m, "accounts.email"),
        None => false,
    }
}

/// The error of a failed account insert: `EmailTaken` for a UNIQUE violation on the email,
/// otherwise `Db` with the error's text. `db_message` is the database's own message (`None`
/// for other kinds of error) and `text` the error's full text.
pub fn insert_error(db_message: Option<&str>, text: String) -> (e: AccountError)
    ensures
        e == (if unique_email_violation(str_opt_view(db_message)) {
            AccountError::EmailTaken
        } else {
            AccountError::Db(text)
        }),
{
    if is_unique_violation(db_message) {
        AccountError::EmailTaken
    } else {
        AccountError::Db(text)
    }
}

/// The roles named by stored role values, in order, skipping values that are not roles.
pub open spec fn roles_of(rows: Seq<String>) -> Seq<AccountRole>
    decreases rows.len(),
{
    if rows.len() == 0 {
        Seq::empty()
    } else {
        match AccountRole::from_code(rows.last()@) {
            Some(r) => roles_of(rows.drop_last()).push(r),
            None => roles_of(rows.drop_last()),
        }
    }
}

pub fn parse_roles(rows: &Vec<String>) -> (r: Vec<AccountRole>)
    ensures
        r@ == roles_of(rows@),
{
    let mut out: Vec<AccountRole> = Vec::new();
    let mut i: usize = 0;
    while i < rows.len()
        invariant
            i <= rows@.len(),
            out@ == roles_of(rows@.take(i as int)),
        decreases rows@.len() - i,
    {
        assert(rows@.take(i + 1).drop_last() =~= rows@.take(i as int));
        match AccountRole::parse(rows[i].as_str()) {
            Some(role) => out.push(role),
            None => {},
        }
        i += 1;
    }
    assert(rows@.take(rows@.len() as int) =~= rows@);
    out
}

/// The payload of `AccountRegistered`.
pub open spec fn registered_text(account_id: Seq<char>, email: Seq<char>) -> Seq<char> {
    "{"@ + member("account_id"@, str_value(account_id)) + ","@ + member("email"@, str_value(email))
        + "}"@
}

/// The outbox event written with a new account.
pub fn account_registered_event(account_id: &str, email: &str) -> (e: NewEvent)
    ensures
        e.aggregate@ == ACCOUNT_AGGREGATE@,
        e.aggregate_id@ == account_id@,
        e.event_type@ == "AccountRegistered"@,
        e.payload@ == registered_text(account_id@, email@),
{
    let mut out = "{".to_string();
    push_str_member(&mut out, true, "account_id", account_id);
    push_str_member(&mut out, false, "email", email);
    out.append("}");
    proof {
        assert(sep(true) =~= Seq::<char>::empty());
        assert(out@ =~= registered_text(account_id@, email@));
    }
    NewEvent::new(ACCOUNT_AGGREGATE, account_id, "AccountRegistered", out)
}

impl AccountError {
    /// The error's text, one form per variant.
    pub fn message(&self) -> (r: String)
        ensures
            r@ == (match self {
                AccountError::EmailTaken => "email already taken"@,
                AccountError::Db(m) => "db: "@ + m@,
                AccountError::HashError(m) => "password hashing: "@ + m@,
                AccountError::Join(m) => "task join: "@ + m@,
            }),
    {
        match self {
            AccountError::EmailTaken => "email already taken".to_string(),
            AccountError::Db(m) => {
                let mut r = "db: ".to_string();
                r.append(m.as_str());
                r
            },
            AccountError::HashError(m) => {
                let mut r = "password hashing: ".to_string();
                r.append(m.as_str());
                r
            },
            AccountError::Join(m) => {
                let mut r = "task join: ".to_string();
                r.append(m.as_str());
                r
            },
        }
    }
}

} // verus!
