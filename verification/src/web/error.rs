//! Errors of the web handlers and their classification.

use vstd::prelude::*;

use crate::orders::cart::CartError;
use crate::text::{i64_to_decimal, decimal_int};

verus! {

/// Errors of the web handlers.
#[derive(Debug)]
pub enum WebError {
    NotFound,
    BadRequest(String),
    Internal(String),
}

/// `CartError` as seen by a handler: an invalid quantity is bad user input (400) with the
/// message `invalid quantity: <qty>`; a storage failure is internal (500) with its message.
pub open spec fn web_error_of_cart_error(e: CartError) -> (Seq<char>, Seq<char>) {
    match e {
        CartError::InvalidQty(q) => ("bad_request"@, "invalid quantity: "@ + decimal_int(q as int)),
        CartError::Db(m) => ("internal"@, m@),
    }
}

impl WebError {
    /// The kind of the error and its message, as plain values.
    pub open spec fn kind_and_message(self) -> (Seq<char>, Seq<char>) {
        match self {
            WebError::NotFound => ("not_found"@, Seq::empty()),
            WebError::BadRequest(m) => ("bad_request"@, m@),
            WebError::Internal(m) => ("internal"@, m@),
        }
    }

    /// Classifies a cart error.
    pub fn from_cart_error(err: CartError) -> (r: WebError)
        ensures
            r.kind_and_message() == web_error_of_cart_error(err),
    {
        match err {
            CartError::InvalidQty(qty) => {
                let mut msg = String::new();
                msg.append("invalid quantity: ");
                let n = i64_to_decimal(qty);
                msg.append(n.as_str());
                WebError::BadRequest(msg)
            },
            CartError::Db(m) => WebError::Internal(m),
        }
    }
}

impl WebError {
    /// The error's text: `not found`, `bad request: <message>` or `internal error: <message>`.
    pub fn message(&self) -> (r: String)
        ensures
            r@ == (match self {
                WebError::NotFound => "not found"@,
                WebError::BadRequest(m) => "bad request: "@ + m@,
                WebError::Internal(m) => "internal error: "@ + m@,
            }),
    {
        match self {
            WebError::NotFound => "not found".to_string(),
            WebError::BadRequest(m) => {
                let mut r = "bad request: ".to_string();
                r.append(m.as_str());
                r
            },
            WebError::Internal(m) => {
                let mut r = "internal error: ".to_string();
                r.append(m.as_str());
                r
            },
        }
    }

    /// The HTTP status of the error page: 404, 400 or 500.
    pub fn status_code(&self) -> (c: u16)
        ensures
            c == (match self {
                WebError::NotFound => 404u16,
                WebError::BadRequest(_) => 400u16,
                WebError::Internal(_) => 500u16,
            }),
    {
        match self {
            WebError::NotFound => 404,
            WebError::BadRequest(_) => 400,
            WebError::Internal(_) => 500,
        }
    }
}

} // verus!
