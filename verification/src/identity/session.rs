//! Session tokens: the raw token is handed to the client once; only its BLAKE3 digest is
//! stored, so a leaked database holds no usable tokens.

use vstd::prelude::*;

#[allow(unused_imports)]
use rand::Rng;

verus! {

/// Length of a raw session token, in characters.
pub const TOKEN_LEN: usize = 48;

/// Input for opening a session.
#[derive(Debug, Clone)]
pub struct NewSession {
    pub account_id: String,
    /// Unix milliseconds after which the session is dead.
    pub expires_at: i64,
    pub user_agent: Option<String>,
    pub ip_addr: Option<String>,
}

/// A stored session (keyed by the digest of its token).
#[derive(Debug, Clone)]
pub struct Session {
    pub token_hash: String,
    pub account_id: String,
    pub expires_at: i64,
    pub user_agent: Option<String>,
    pub ip_addr: Option<String>,
    pub created_at: i64,
}

/// A raw session token, as handed to the client.
#[derive(Debug, Clone)]
pub struct SessionToken(pub String);

impl SessionToken {
    pub fn as_str(&self) -> (r: &str)
        ensures
            r@ == self.0@,
    {
        self.0.as_str()
    }
}

/// Errors of the session repository.
#[derive(Debug)]
pub enum SessionError {
    /// The requested expiry is not in the future.
    InvalidExpiry,
    /// Storage failure, with its message.
    Db(String),
}

/// An ASCII letter or digit, the alphabet of tokens.
pub open spec fn is_token_char(c: char) -> bool {
    ('A' <= c && c <= 'Z') || ('a' <= c && c <= 'z') || ('0' <= c && c <= '9')
}

/// A lowercase hexadecimal digit.
pub open spec fn is_hex_char(c: char) -> bool {
    ('0' <= c && c <= '9') || ('a' <= c && c <= 'f')
}

/// The BLAKE3 digest of the UTF-8 bytes of `s`, as lowercase hexadecimal text.
pub uninterp spec fn blake3_hex(s: Seq<char>) -> Seq<char>;

/// `len` characters drawn by the thread-local RNG from rand's `Alphanumeric` distribution,
/// which picks among `A-Z`, `a-z` and `0-9`. The characters are random: only their number
/// and alphabet are stated.
#[verifier::external_body]
fn random_alphanumeric(len: usize) -> (r: String)
    ensures
        r@.len() == len,
        forall|i: int| 0 <= i < r@.len() ==> is_token_char(#[trigger] r@[i]),
{
    rand::thread_rng().sample_iter(&rand::distributions::Alphanumeric).take(len).map(char::from).collect()
}

/// The BLAKE3 digest of the UTF-8 bytes of `s` as text (`Display` of `blake3::Hash`, which
/// writes the 32 bytes as 64 lowercase hexadecimal digits).
#[verifier::external_body]
fn blake3_hex_text(s: &str) -> (r: String)
    ensures
        r@ == blake3_hex(s@),
        r@.len() == 64,
        forall|i: int| 0 <= i < r@.len() ==> is_hex_char(#[trigger] r@[i]),
{
    blake3::hash(s.as_bytes()).to_string()
}

/// A fresh random token: 48 ASCII letters and digits.
pub fn generate_token() -> (t: String)
    ensures
        t@.len() == TOKEN_LEN,
        forall|i: int| 0 <= i < t@.len() ==> is_token_char(#[trigger] t@[i]),
{
    random_alphanumeric(TOKEN_LEN)
}

/// The digest under which a token is stored and looked up.
pub fn hash_token(raw: &str) -> (h: String)
    ensures
        h@ == blake3_hex(raw@),
        h@.len() == 64,
        forall|i: int| 0 <= i < h@.len() ==> is_hex_char(#[trigger] h@[i]),
{
    blake3_hex_text(raw)
}

/// A session may only be opened with an expiry after `now`: an already dead session would
/// be junk in the table.
pub fn check_expiry(expires_at: i64, now: i64) -> (r: Result<(), SessionError>)
    ensures
        r is Ok <==> expires_at > now,
        r matches Err(e) ==> e is InvalidExpiry,
{
    if expires_at <= now {
        Err(SessionError::InvalidExpiry)
    } else {
        Ok(())
    }
}

/// A session about to be stored: the raw token for the client and the digest to store.
pub struct IssuedSession {
    pub token: SessionToken,
    pub token_hash: String,
}

/// Opens a session at `now`: refuses an expiry that is not in the future, otherwise draws a
/// token and computes the digest to store. The token is random; what holds of every draw is
/// stated.
pub fn issue_session(new: &NewSession, now: i64) -> (r: Result<IssuedSession, SessionError>)
    ensures
        r is Ok <==> new.expires_at > now,
        r matches Err(e) ==> e is InvalidExpiry,
        r matches Ok(s) ==> {
            &&& s.token.0@.len() == TOKEN_LEN
            &&& forall|i: int| 0 <= i < s.token.0@.len() ==> is_token_char(#[trigger] s.token.0@[i])
            &&& s.token_hash@ == blake3_hex(s.token.0@)
        },
{
    match check_expiry(new.expires_at, now) {
        Err(e) => Err(e),
        Ok(()) => {
            let raw = generate_token();
            let token_hash = hash_token(raw.as_str());
            Ok(IssuedSession { token: SessionToken(raw), token_hash })
        },
    }
}

impl SessionError {
    /// The error's text.
    pub fn message(&self) -> (r: String)
        ensures
            r@ == (match self {
                SessionError::InvalidExpiry => "session expiry must be in the future"@,
                SessionError::Db(m) => "db: "@ + m@,
            }),
    {
        match self {
            SessionError::InvalidExpiry => "session expiry must be in the future".to_string(),
            SessionError::Db(m) => {
                let mut r = "db: ".to_string();
                r.append(m.as_str());
                r
            },
        }
    }
}

} // verus!
