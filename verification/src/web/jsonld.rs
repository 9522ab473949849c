//! Schema.org JSON-LD values (`Product`, `Offer`, `BreadcrumbList`, `ItemList`) and the price
//! and URL formatting they use.

use vstd::prelude::*;

use crate::text::{chars_of, decimal, push_char, push_decimal, digit_char};

verus! {

/// `Offer` of a product page; the price is a decimal string in major units (no floats).
pub struct Offer {
    pub type_: &'static str,
    pub price: String,
    pub price_currency: String,
    pub availability: &'static str,
}

/// `Product` of a product page.
pub struct Product {
    pub context: &'static str,
    pub type_: &'static str,
    pub name: String,
    pub description: String,
    pub image: Option<String>,
    pub offers: Offer,
}

/// One element of a `BreadcrumbList`.
pub struct ListItem {
    pub type_: &'static str,
    pub position: u32,
    pub name: String,
    pub item: String,
}

/// `BreadcrumbList`.
pub struct BreadcrumbList {
    pub context: &'static str,
    pub type_: &'static str,
    pub item_list_element: Vec<ListItem>,
}

/// `Product` summary inside an `ItemListElement`.
pub struct ItemProduct {
    pub type_: &'static str,
    pub name: String,
    pub url: String,
    pub image: Option<String>,
}

/// One element of an `ItemList`: a position and a product summary.
pub struct ItemListElement {
    pub type_: &'static str,
    pub position: u32,
    pub item: ItemProduct,
}

/// `ItemList` of a listing page.
pub struct ItemList {
    pub context: &'static str,
    pub type_: &'static str,
    pub item_list_element: Vec<ItemListElement>,
}

/// Two-digit notation of `r` (0..=99), with a leading zero.
pub open spec fn two_digits(r: nat) -> Seq<char> {
    seq![digit_char(r / 10), digit_char(r % 10)]
}

/// A price in minor units written in major units with two decimals, e.g. `19999` as `199.99`
/// and `-5` as `-0.05`: the sign is written separately and the magnitude is split.
pub open spec fn price_text(price_minor: int) -> Seq<char> {
    let abs: nat = if price_minor < 0 { (-price_minor) as nat } else { price_minor as nat };
    let sign: Seq<char> = if price_minor < 0 { seq!['-'] } else { Seq::empty() };
    sign + decimal(abs / 100) + seq!['.'] + two_digits(abs % 100)
}

/// Formats a price in minor units as major units with two decimals, using integer arithmetic
/// only.
pub fn format_price_minor(price_minor: i64) -> (s: String)
    ensures
        s@ == price_text(price_minor as int),
{
    let mut s = String::new();
    if price_minor < 0 {
        push_char(&mut s, '-');
    }
    let abs: u64 = if price_minor < 0 { (-(price_minor as i128)) as u64 } else { price_minor as u64 };
    push_decimal(&mut s, abs / 100);
    push_char(&mut s, '.');
    let r = abs % 100;
    push_decimal(&mut s, r / 10);
    push_decimal(&mut s, r % 10);
    s
}

/// Joins a base URL (without a trailing `/`) and a path (starting with `/`).
pub fn absolute_url(base_url: &str, path: &str) -> (s: String)
    ensures
        s@ == base_url@ + path@,
{
    let mut s = String::new();
    s.append(base_url);
    s.append(path);
    s
}

/// The text that stands for `<` inside a JSON-LD script: the JSON escape `\u003c`.
pub open spec fn lt_escape() -> Seq<char> {
    seq!['\\', 'u', '0', '0', '3', 'c']
}

/// `json` with every `<` written as `\u003c`, which JSON reads back as the same character.
pub open spec fn script_safe(json: Seq<char>) -> Seq<char>
    decreases json.len(),
{
    if json.len() == 0 {
        Seq::empty()
    } else if json.last() == '<' {
        script_safe(json.drop_last()) + lt_escape()
    } else {
        script_safe(json.drop_last()).push(json.last())
    }
}

/// Text made script-safe holds no `<`, so user data inside JSON-LD (a product title, say)
/// can never close the `<script>` element early.
pub proof fn lemma_script_safe_has_no_lt(json: Seq<char>)
    ensures
        forall|i: int| 0 <= i < script_safe(json).len() ==> script_safe(json)[i] != '<',
    decreases json.len(),
{
    if json.len() > 0 {
        lemma_script_safe_has_no_lt(json.drop_last());
        let p = script_safe(json.drop_last());
        if json.last() == '<' {
            assert forall|i: int| 0 <= i < script_safe(json).len() implies script_safe(json)[i] != '<' by {
                if i >= p.len() {
                    assert(script_safe(json)[i] == lt_escape()[i - p.len()]);
                }
            }
        } else {
            assert forall|i: int| 0 <= i < script_safe(json).len() implies script_safe(json)[i] != '<' by {
                if i < p.len() {
                    assert(script_safe(json)[i] == p[i]);
                }
            }
        }
    }
}

/// Makes serialized JSON-LD safe to embed in a `<script type="application/ld+json">` element.
pub fn jsonld_escape(json: &str) -> (r: String)
    ensures
        r@ == script_safe(json@),
{
    let cs = chars_of(json);
    let mut r = String::new();
    let mut i: usize = 0;
    while i < cs.len()
        invariant
            cs@ == json@,
            i <= cs@.len(),
            r@ == script_safe(cs@.take(i as int)),
        decreases cs@.len() - i,
    {
        let c = cs[i];
        assert(cs@.take(i + 1).drop_last() =~= cs@.take(i as int));
        if c == '<' {
            push_char(&mut r, '\\');
            push_char(&mut r, 'u');
            push_char(&mut r, '0');
            push_char(&mut r, '0');
            push_char(&mut r, '3');
            push_char(&mut r, 'c');
            assert(r@ =~= script_safe(cs@.take(i + 1)));
        } else {
            push_char(&mut r, c);
        }
        i += 1;
    }
    assert(cs@.take(cs@.len() as int) =~= cs@);
    r
}

} // verus!
