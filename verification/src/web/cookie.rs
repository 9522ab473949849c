//! The `cart` cookie: reading the cart token from a `Cookie` header and writing the
//! `Set-Cookie` values that set or expire it.

use vstd::prelude::*;

use crate::text::{
    chars_of, decimal, find_char, has_prefix, index_of, lemma_index_of, lemma_index_of_unique, opt_view, push_decimal,
    starts_with, str_eq, str_trim, string_from_chars, trim,
};
use vstd::slice::slice_subrange;

verus! {

/// Name of the cart cookie.
pub const CART_COOKIE_NAME: &'static str = "cart";

/// Lifetime of the cart cookie: 30 days, in seconds (`Max-Age`).
pub const MAX_AGE_SECS: u64 = 60 * 60 * 24 * 30;

/// The value of the `cart` pair in one `name=value` segment of a `Cookie` header: the segment
/// is trimmed and split at its first `=`; an empty value counts as no token.
pub open spec fn cookie_pair_value(pair: Seq<char>) -> Option<Seq<char>> {
    let p = trim(pair);
    let eq = index_of(p, '=');
    if eq >= 0 && p.take(eq) == "cart"@ && eq + 1 < p.len() {
        Some(p.skip(eq + 1))
    } else {
        None
    }
}

/// The cart token of a `Cookie` header: the first `;`-separated segment that holds a non-empty
/// `cart` value.
pub open spec fn cart_token_in(header: Seq<char>) -> Option<Seq<char>>
    decreases header.len(),
{
    let semi = index_of(header, ';');
    if semi < 0 {
        cookie_pair_value(header)
    } else {
        proof {
            lemma_index_of(header, ';');
        }
        match cookie_pair_value(header.take(semi)) {
            Some(v) => Some(v),
            None => cart_token_in(header.skip(semi + 1)),
        }
    }
}

fn pair_value(seg: &[char]) -> (r: Option<String>)
    ensures
        opt_view(r) == cookie_pair_value(seg@),
{
    let s = string_from_chars(seg);
    let t = str_trim(s.as_str());
    let p = chars_of(t);
    let n = p.len();
    assert(p@.skip(0) =~= p@);
    match find_char(&p, 0, '=') {
        None => None,
        Some(eq) => {
            let name = string_from_chars(slice_subrange(p.as_slice(), 0, eq));
            assert(p@.subrange(0, eq as int) =~= p@.take(eq as int));
            if str_eq(name.as_str(), "cart") && eq + 1 < n {
                let value = string_from_chars(slice_subrange(p.as_slice(), eq + 1, n));
                assert(p@.subrange(eq + 1, n as int) =~= p@.skip(eq + 1));
                Some(value)
            } else {
                None
            }
        },
    }
}

/// The raw cart token in the value of a `Cookie` header, if the header is present and holds a
/// `cart=<value>` pair with a non-empty value (the first one counts).
pub fn extract_cart_token(cookie_header: Option<&str>) -> (r: Option<String>)
    ensures
        match cookie_header {
            None => r is None,
            Some(h) => opt_view(r) == cart_token_in(h@),
        },
{
    let raw = match cookie_header {
        Some(h) => h,
        None => {
            return None;
        },
    };
    let v = chars_of(raw);
    let n = v.len();
    let mut pos: usize = 0;
    assert(v@.skip(0) =~= v@);
    loop
        invariant
            cookie_header == Some(raw),
            v@ == raw@,
            n == v@.len(),
            pos <= n,
            cart_token_in(raw@) == cart_token_in(v@.skip(pos as int)),
        decreases n - pos,
    {
        let ghost rest = v@.skip(pos as int);
        proof {
            lemma_index_of(rest, ';');
        }
        match find_char(&v, pos, ';') {
            Some(k) => {
                let seg = slice_subrange(v.as_slice(), pos, k);
                assert(seg@ =~= rest.take(k - pos));
                let found = pair_value(seg);
                if found.is_some() {
                    return found;
                }
                assert(rest.skip(k - pos + 1) =~= v@.skip(k + 1));
                pos = k + 1;
            },
            None => {
                let seg = slice_subrange(v.as_slice(), pos, n);
                assert(seg@ =~= rest);
                return pair_value(seg);
            },
        }
    }
}

/// The `Set-Cookie` value for a cart token: `HttpOnly`, `SameSite=Lax`, `Path=/`, a 30-day
/// `Max-Age`, and `Secure` when the site is served over HTTPS.
pub open spec fn set_cookie_text(raw_token: Seq<char>, secure: bool) -> Seq<char> {
    "cart="@ + raw_token + "; HttpOnly; SameSite=Lax; Path=/; Max-Age="@ + decimal(
        MAX_AGE_SECS as nat,
    ) + if secure {
        "; Secure"@
    } else {
        Seq::empty()
    }
}

/// The `Set-Cookie` value that expires the cart cookie at once, with the same attributes.
pub open spec fn expire_cookie_text(secure: bool) -> Seq<char> {
    "cart=; HttpOnly; SameSite=Lax; Path=/; Max-Age=0"@ + if secure {
        "; Secure"@
    } else {
        Seq::empty()
    }
}

/// Builds the `Set-Cookie` value for a new or renewed cart token.
pub fn set_cart_cookie(raw_token: &str, secure: bool) -> (s: String)
    ensures
        s@ == set_cookie_text(raw_token@, secure),
{
    let mut s = String::new();
    s.append("cart=");
    s.append(raw_token);
    s.append("; HttpOnly; SameSite=Lax; Path=/; Max-Age=");
    push_decimal(&mut s, MAX_AGE_SECS);
    if secure {
        s.append("; Secure");
    }
    s
}

/// Builds the `Set-Cookie` value that expires the cart cookie (`Max-Age=0`).
pub fn expire_cart_cookie(secure: bool) -> (s: String)
    ensures
        s@ == expire_cookie_text(secure),
{
    let mut s = String::new();
    s.append("cart=; HttpOnly; SameSite=Lax; Path=/; Max-Age=0");
    if secure {
        s.append("; Secure");
    }
    s
}

/// Whether the site is served over HTTPS, judged by its base URL.
pub fn is_secure_base_url(base_url: &str) -> (r: bool)
    ensures
        r == has_prefix(base_url@, "https://"@),
{
    starts_with(base_url, "https://")
}

/// What the cookie sets is what the next request reads back: the `Set-Cookie` value of a
/// token stores the pair `cart=<token>`, and a `Cookie` header carrying that pair yields the
/// token again. It holds of every non-empty token without `;` whose pair has no surrounding
/// whitespace (cart tokens are letters and digits).
pub proof fn lemma_cookie_roundtrip(token: Seq<char>, secure: bool)
    requires
        token.len() > 0,
        forall|i: int| 0 <= i < token.len() ==> token[i] != ';',
        trim("cart="@ + token) == "cart="@ + token,
    ensures
        has_prefix(set_cookie_text(token, secure), "cart="@ + token + ";"@),
        cart_token_in("cart="@ + token) == Some(token),
{
    reveal_strlit("cart=");
    reveal_strlit("cart");
    reveal_strlit(";");
    reveal_strlit("; HttpOnly; SameSite=Lax; Path=/; Max-Age=");
    let pair = "cart="@ + token;
    let text = set_cookie_text(token, secure);
    assert(text.take(pair.len() + 1 as int) =~= pair + ";"@);
    assert forall|i: int| 0 <= i < pair.len() implies pair[i] != ';' by {
        if i >= 5 {
            assert(pair[i] == token[i - 5]);
        }
    }
    lemma_index_of_unique(pair, ';', -1);
    assert(forall|i: int| 0 <= i < 4 ==> pair[i] != '=');
    assert(pair[4] == '=');
    lemma_index_of_unique(pair, '=', 4);
    assert(pair.take(4) =~= "cart"@);
    assert(pair.skip(5) =~= token);
}

} // verus!
