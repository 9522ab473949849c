//! Category listing pages: reading filter values from the query string, the legend of a range
//! filter, the page window, the previous/next links and their query strings.

use vstd::prelude::*;

use crate::catalog::search::FilterCond;
use crate::catalog::taxonomy::{Filter, FilterType};
use crate::text::{digit_char, decimal, push_char, push_decimal, str_eq};
use vstd::utf8::encode_utf8;

verus! {

/// Bytes left as they are in a query-string component: ASCII letters and digits and the
/// RFC 3986 unreserved marks `_ - . ~`.
pub open spec fn qs_unreserved(b: u8) -> bool {
    (0x61 <= b <= 0x7a) || (0x41 <= b <= 0x5a) || (0x30 <= b <= 0x39) || b == 0x5f || b == 0x2d
        || b == 0x2e || b == 0x7e
}

/// Upper-case hexadecimal digit.
pub open spec fn hex_digit(d: nat) -> char {
    if d < 10 {
        digit_char(d)
    } else if d == 10 {
        'A'
    } else if d == 11 {
        'B'
    } else if d == 12 {
        'C'
    } else if d == 13 {
        'D'
    } else if d == 14 {
        'E'
    } else {
        'F'
    }
}

/// `%XX` escape of a byte, with upper-case hexadecimal digits.
pub open spec fn percent_escape(b: u8) -> Seq<char> {
    seq!['%', hex_digit(b as nat / 16), hex_digit(b as nat % 16)]
}

/// Percent-encoding of the bytes of a query-string component: unreserved bytes stay, every
/// other byte becomes its `%XX` escape.
pub open spec fn qs_encode_bytes(bs: Seq<u8>) -> Seq<char>
    decreases bs.len(),
{
    if bs.len() == 0 {
        Seq::empty()
    } else {
        qs_encode_bytes(bs.drop_last()) + if qs_unreserved(bs.last()) {
            seq![bs.last() as char]
        } else {
            percent_escape(bs.last())
        }
    }
}

/// Percent-encoding of a query-string component given as text (of its UTF-8 bytes).
pub open spec fn qs_encode(s: Seq<char>) -> Seq<char> {
    qs_encode_bytes(encode_utf8(s))
}

/// `percent_encoding::percent_encode_byte`: the crate returns `%` followed by the byte in two
/// upper-case hexadecimal digits.
#[verifier::external_body]
fn percent_encode_byte(b: u8) -> (r: &'static str)
    ensures
        r@ == percent_escape(b),
{
    percent_encoding::percent_encode_byte(b)
}

/// Percent-encodes one query-string component.
pub fn encode_qs(s: &str) -> (r: String)
    ensures
        r@ == qs_encode(s@),
{
    let bytes = s.as_bytes();
    let mut r = String::new();
    let mut i: usize = 0;
    while i < bytes.len()
        invariant
            bytes@ == encode_utf8(s@),
            i <= bytes@.len(),
            r@ == qs_encode_bytes(bytes@.take(i as int)),
        decreases bytes@.len() - i,
    {
        let b = bytes[i];
        assert(bytes@.take(i + 1).drop_last() =~= bytes@.take(i as int));
        if (0x61 <= b && b <= 0x7a) || (0x41 <= b && b <= 0x5a) || (0x30 <= b && b <= 0x39) || b
            == 0x5f || b == 0x2d || b == 0x2e || b == 0x7e {
            push_char(&mut r, b as char);
        } else {
            r.append(percent_encode_byte(b));
        }
        i += 1;
    }
    assert(bytes@.take(bytes@.len() as int) =~= bytes@);
    r
}


/// The encoded `key=value` pairs of the first `i` query parameters other than `page`, joined
/// by `&`.
pub open spec fn kept_pairs(raw: Seq<(String, String)>, i: int) -> Seq<char>
    decreases i,
{
    if i <= 0 {
        Seq::empty()
    } else {
        let prev = kept_pairs(raw, i - 1);
        let (k, v) = raw[i - 1];
        if k@ == "page"@ {
            prev
        } else {
            (if prev.len() > 0 {
                prev + "&"@
            } else {
                prev
            }) + qs_encode(k@) + "="@ + qs_encode(v@)
        }
    }
}

/// The link to page `page` of category `slug`, keeping every other query parameter in order
/// (percent-encoded), then `page=<page>`.
pub open spec fn pagination_link(slug: Seq<char>, raw: Seq<(String, String)>, page: u32) -> Seq<
    char,
> {
    let qs = kept_pairs(raw, raw.len() as int);
    "/c/"@ + slug + "?"@ + (if qs.len() > 0 {
        qs + "&"@
    } else {
        qs
    }) + "page="@ + decimal(page as nat)
}

/// One query parameter written as `key=value`, both percent-encoded.
pub open spec fn pair_text(p: (String, String)) -> Seq<char> {
    qs_encode(p.0@) + "="@ + qs_encode(p.1@)
}

/// Texts joined by `&`.
pub open spec fn amp_joined(parts: Seq<Seq<char>>) -> Seq<char>
    decreases parts.len(),
{
    if parts.len() == 0 {
        Seq::empty()
    } else if parts.len() == 1 {
        parts[0]
    } else {
        amp_joined(parts.drop_last()) + "&"@ + parts.last()
    }
}

/// Whether a query parameter is anything but the page number.
pub open spec fn not_page(p: (String, String)) -> bool {
    p.0@ != "page"@
}

proof fn lemma_amp_joined_empty(parts: Seq<Seq<char>>)
    requires
        forall|j: int| 0 <= j < parts.len() ==> (#[trigger] parts[j]).len() > 0,
    ensures
        amp_joined(parts).len() > 0 <==> parts.len() > 0,
    decreases parts.len(),
{
    if parts.len() > 1 {
        lemma_amp_joined_empty(parts.drop_last());
    }
}

/// A pagination link keeps every query parameter but `page`, each once and in its order:
/// the kept text is exactly the `key=value` pairs of the parameters not named `page`, joined
/// by `&`. So a parameter that repeats (two ticked checkbox values) is kept as often as it
/// occurs.
pub proof fn lemma_pagination_keeps_every_filter(raw: Seq<(String, String)>, i: int)
    requires
        0 <= i <= raw.len(),
    ensures
        kept_pairs(raw, i) == amp_joined(raw.take(i).filter(|p: (String, String)| not_page(p)).map_values(
            |p: (String, String)| pair_text(p),
        )),
    decreases i,
{
    let f = |p: (String, String)| not_page(p);
    let g = |p: (String, String)| pair_text(p);
    if i == 0 {
        reveal(Seq::filter);
        assert(raw.take(0).filter(f) =~= Seq::<(String, String)>::empty());
        assert(raw.take(0).filter(f).map_values(g) =~= Seq::<Seq<char>>::empty());
    } else {
        lemma_pagination_keeps_every_filter(raw, i - 1);
        let prev_items = raw.take(i - 1).filter(f);
        assert(raw.take(i).drop_last() =~= raw.take(i - 1));
        assert(raw.take(i).last() == raw[i - 1]);
        reveal(Seq::filter);
        let parts = prev_items.map_values(g);
        assert forall|j: int| 0 <= j < parts.len() implies (#[trigger] parts[j]).len() > 0 by {
            reveal_strlit("=");
            assert(parts[j] == pair_text(prev_items[j]));
        }
        lemma_amp_joined_empty(parts);
        if not_page(raw[i - 1]) {
            assert(raw.take(i).filter(f) == prev_items.push(raw[i - 1]));
            let now = prev_items.push(raw[i - 1]).map_values(g);
            assert(now =~= parts.push(pair_text(raw[i - 1])));
            assert(now.drop_last() =~= parts);
            if parts.len() == 0 {
                assert(now.len() == 1);
            }
        } else {
            assert(raw.take(i).filter(f) == prev_items);
        }
    }
}

/// The link to page `page` is `/c/<slug>?`, then the `key=value` pairs of every query
/// parameter not named `page`, in order and each as often as it occurs, joined by `&`, then
/// `page=<page>`.
pub proof fn lemma_pagination_link_keeps_filters(slug: Seq<char>, raw: Seq<(String, String)>, page: u32)
    ensures
        ({
            let kept = amp_joined(raw.filter(|p: (String, String)| not_page(p)).map_values(
                |p: (String, String)| pair_text(p),
            ));
            pagination_link(slug, raw, page) == "/c/"@ + slug + "?"@ + (if kept.len() > 0 {
                kept + "&"@
            } else {
                kept
            }) + "page="@ + decimal(page as nat)
        }),
{
    lemma_pagination_keeps_every_filter(raw, raw.len() as int);
    assert(raw.take(raw.len() as int) =~= raw);
}

/// Builds the `href` of a pagination link that keeps the active filters (see
/// `pagination_link`).
pub fn pagination_href(slug: &str, raw: &[(String, String)], page: u32) -> (r: String)
    ensures
        r@ == pagination_link(slug@, raw@, page),
{
    let mut qs = String::new();
    let mut i: usize = 0;
    while i < raw.len()
        invariant
            i <= raw@.len(),
            qs@ == kept_pairs(raw@, i as int),
        decreases raw@.len() - i,
    {
        let ghost prev = qs@;
        let (k, v) = &raw[i];
        assert(k@ == raw@[i as int].0@ && v@ == raw@[i as int].1@);
        if !str_eq(k.as_str(), "page") {
            if !qs.as_str().is_empty() {
                qs.append("&");
            }
            let ek = encode_qs(k.as_str());
            qs.append(ek.as_str());
            qs.append("=");
            let ev = encode_qs(v.as_str());
            qs.append(ev.as_str());
            assert(qs@ =~= (if prev.len() > 0 {
                prev + "&"@
            } else {
                prev
            }) + qs_encode(k@) + "="@ + qs_encode(v@));
        }
        i += 1;
    }
    if !qs.as_str().is_empty() {
        qs.append("&");
    }
    qs.append("page=");
    push_decimal(&mut qs, page as u64);
    let mut r = String::new();
    r.append("/c/");
    r.append(slug);
    r.append("?");
    r.append(qs.as_str());
    assert(r@ =~= pagination_link(slug@, raw@, page));
    r
}

/// The values of the first `i` query parameters named `key`, in order.
pub open spec fn values_named(raw: Seq<(String, String)>, key: Seq<char>, i: int) -> Seq<Seq<char>>
    decreases i,
{
    if i <= 0 {
        Seq::empty()
    } else if raw[i - 1].0@ == key {
        values_named(raw, key, i - 1).push(raw[i - 1].1@)
    } else {
        values_named(raw, key, i - 1)
    }
}

/// Every value of the (repeatable) parameter `key`, in order of appearance.
pub fn values_for<'a>(raw: &'a [(String, String)], key: &str) -> (r: Vec<&'a str>)
    ensures
        r@.map_values(|s: &str| s@) == values_named(raw@, key@, raw@.len() as int),
{
    let mut r: Vec<&'a str> = Vec::new();
    let mut i: usize = 0;
    while i < raw.len()
        invariant
            i <= raw@.len(),
            r@.map_values(|s: &str| s@) == values_named(raw@, key@, i as int),
        decreases raw@.len() - i,
    {
        let ghost before = r@;
        if str_eq(raw[i].0.as_str(), key) {
            r.push(raw[i].1.as_str());
            assert(r@.map_values(|s: &str| s@) =~= before.map_values(|s: &str| s@).push(raw@[i as int].1@));
        }
        i += 1;
    }
    r
}

/// The kind of fieldset a filter shows in the filter form.
#[derive(Debug, Clone, Copy, PartialEq, Eq, Structural)]
pub enum FieldsetKind {
    /// Checkboxes over the attribute's options (`attr_<id>`).
    Checkbox,
    /// A min/max pair over the attribute's values (`attr_<id>_min`, `attr_<id>_max`).
    AttributeRange,
    /// A min/max pair over the price (`price_min`, `price_max`).
    PriceRange,
}

/// The fieldset a filter of type `t` shows: checkbox and enum filters show checkboxes and a
/// generic range a min/max pair, both only when their attribute is known; the price range is
/// always shown; string and number filters show nothing.
pub open spec fn fieldset_of(t: FilterType, attribute_known: bool) -> Option<FieldsetKind> {
    match t {
        FilterType::CheckboxOr | FilterType::EnumAnd => if attribute_known {
            Some(FieldsetKind::Checkbox)
        } else {
            None
        },
        FilterType::RangeGeneric => if attribute_known {
            Some(FieldsetKind::AttributeRange)
        } else {
            None
        },
        FilterType::RangePrice => Some(FieldsetKind::PriceRange),
        FilterType::String | FilterType::Number => None,
    }
}

/// Which fieldset, if any, the filter form shows for a filter of type `t`.
pub fn fieldset_kind(t: FilterType, attribute_known: bool) -> (r: Option<FieldsetKind>)
    ensures
        r == fieldset_of(t, attribute_known),
{
    match t {
        FilterType::CheckboxOr | FilterType::EnumAnd => if attribute_known {
            Some(FieldsetKind::Checkbox)
        } else {
            None
        },
        FilterType::RangeGeneric => if attribute_known {
            Some(FieldsetKind::AttributeRange)
        } else {
            None
        },
        FilterType::RangePrice => Some(FieldsetKind::PriceRange),
        FilterType::String | FilterType::Number => None,
    }
}

/// Name of the query parameter holding the chosen values of attribute `attribute_id`.
pub open spec fn attr_param_name(attribute_id: Seq<char>) -> Seq<char> {
    "attr_"@ + attribute_id
}

/// `attr_<attribute_id>`.
pub fn attr_param(attribute_id: &str) -> (r: String)
    ensures
        r@ == attr_param_name(attribute_id@),
{
    let mut r = String::new();
    r.append("attr_");
    r.append(attribute_id);
    r
}

/// `attr_<attribute_id>_min` and `attr_<attribute_id>_max`, the bounds of a range filter.
pub fn range_params(attribute_id: &str) -> (r: (String, String))
    ensures
        r.0@ == attr_param_name(attribute_id@) + "_min"@,
        r.1@ == attr_param_name(attribute_id@) + "_max"@,
{
    let mut a = attr_param(attribute_id);
    a.append("_min");
    let mut b = attr_param(attribute_id);
    b.append("_max");
    (a, b)
}

/// The chosen values of a checkbox/enum filter on `attribute_id`, or `None` when there is none
/// (the filter then restricts nothing).
pub fn checkbox_values(raw: &[(String, String)], attribute_id: &str) -> (r: Option<Vec<String>>)
    ensures
        values_named(raw@, attr_param_name(attribute_id@), raw@.len() as int).len() == 0
            ==> r is None,
        values_named(raw@, attr_param_name(attribute_id@), raw@.len() as int).len() > 0 ==> (
        r matches Some(vs) && vs@.map_values(|s: String| s@) == values_named(
            raw@,
            attr_param_name(attribute_id@),
            raw@.len() as int,
        )),
{
    let key = attr_param(attribute_id);
    let found = values_for(raw, key.as_str());
    if found.len() == 0 {
        return None;
    }
    let mut out: Vec<String> = Vec::new();
    let mut i: usize = 0;
    while i < found.len()
        invariant
            i <= found@.len(),
            out@.map_values(|s: String| s@) == found@.take(i as int).map_values(|s: &str| s@),
        decreases found@.len() - i,
    {
        let ghost before = out@;
        let item: &str = found[i];
        let s = item.to_string();
        assert(s@ == found@[i as int]@);
        out.push(s);
        assert(found@.take(i + 1).map_values(|s: &str| s@) =~= found@.take(i as int).map_values(|s: &str| s@).push(found@[i as int]@));
        assert(out@.map_values(|s: String| s@) =~= found@.take(i + 1).map_values(|s: &str| s@));
        i += 1;
    }
    assert(found@.take(found@.len() as int) =~= found@);
    Some(out)
}

/// Condition of one category filter for a listing request. Checkbox/enum filters take their
/// values from `attr_<attribute_id>`; a range filter takes the bounds read from the request
/// (`range_bounds` for a generic range, as real-number bit patterns; `price_bounds` for the
/// price, in minor units), present when at least one bound was given. `String` and `Number`
/// filters are not offered yet and give nothing.
pub fn filter_cond_for(
    filter: &Filter,
    raw: &[(String, String)],
    range_bounds: Option<(Option<u64>, Option<u64>)>,
    price_bounds: Option<(Option<i64>, Option<i64>)>,
) -> (r: Option<FilterCond>)
    ensures
        match filter.filter_type {
            FilterType::CheckboxOr | FilterType::EnumAnd => {
                let vals = values_named(raw@, attr_param_name(filter.attribute_id@), raw@.len() as int);
                &&& vals.len() == 0 ==> r is None
                &&& vals.len() > 0 ==> match r {
                    Some(FilterCond::CheckboxOr { attribute_id, values }) => filter.filter_type
                        == FilterType::CheckboxOr && attribute_id@ == filter.attribute_id@
                        && values@.map_values(|s: String| s@) == vals,
                    Some(FilterCond::EnumAnd { attribute_id, values }) => filter.filter_type
                        == FilterType::EnumAnd && attribute_id@ == filter.attribute_id@
                        && values@.map_values(|s: String| s@) == vals,
                    _ => false,
                }
            },
            FilterType::RangeGeneric => match range_bounds {
                None => r is None,
                Some((mn, mx)) => r matches Some(FilterCond::RangeGeneric { attribute_id, min_bits, max_bits })
                    && attribute_id@ == filter.attribute_id@ && min_bits == mn && max_bits == mx,
            },
            FilterType::RangePrice => match price_bounds {
                None => r is None,
                Some((mn, mx)) => r == Some(FilterCond::RangePrice { min_minor: mn, max_minor: mx }),
            },
            FilterType::String | FilterType::Number => r is None,
        },
{
    match filter.filter_type {
        FilterType::CheckboxOr => match checkbox_values(raw, filter.attribute_id.as_str()) {
            Some(values) => Some(FilterCond::CheckboxOr { attribute_id: filter.attribute_id.clone(), values }),
            None => None,
        },
        FilterType::EnumAnd => match checkbox_values(raw, filter.attribute_id.as_str()) {
            Some(values) => Some(FilterCond::EnumAnd { attribute_id: filter.attribute_id.clone(), values }),
            None => None,
        },
        FilterType::RangeGeneric => match range_bounds {
            Some((min_bits, max_bits)) => Some(
                FilterCond::RangeGeneric { attribute_id: filter.attribute_id.clone(), min_bits, max_bits },
            ),
            None => None,
        },
        FilterType::RangePrice => match price_bounds {
            Some((min_minor, max_minor)) => Some(FilterCond::RangePrice { min_minor, max_minor }),
            None => None,
        },
        FilterType::String | FilterType::Number => None,
    }
}

/// Legend of a generic range filter: the attribute name, followed by its unit in parentheses
/// when it has a non-empty one.
pub fn legend_with_unit(name: &str, unit: Option<&str>) -> (r: String)
    ensures
        match unit {
            Some(u) => u@.len() > 0 ==> r@ == name@ + " ("@ + u@ + ")"@,
            None => true,
        },
        (unit is None || unit->0@.len() == 0) ==> r@ == name@,
{
    let mut r = String::new();
    r.append(name);
    match unit {
        Some(u) => {
            if !u.is_empty() {
                r.append(" (");
                r.append(u);
                r.append(")");
            }
        },
        None => {},
    }
    r
}

/// Offset of page `page` (1-based) of a listing with `limit` items per page, saturating at
/// `u32::MAX`.
pub open spec fn page_offset(page: u32, limit: u32) -> int {
    let x = if page >= 1 { (page - 1) * limit } else { 0 };
    if x > u32::MAX { u32::MAX as int } else { x }
}

/// The offset of a listing page.
pub fn listing_offset(page: u32, limit: u32) -> (r: u32)
    ensures
        r == page_offset(page, limit),
{
    let p: u64 = if page >= 1 { (page - 1) as u64 } else { 0 };
    assert(p * (limit as u64) <= 0xffff_ffff * 0xffff_ffff) by (nonlinear_arith)
        requires
            p <= 0xffff_ffff,
            limit <= 0xffff_ffff,
    ;
    let x: u64 = p * (limit as u64);
    if x > u32::MAX as u64 {
        u32::MAX
    } else {
        x as u32
    }
}

/// Whether a listing page has a previous page (`.0`) and a next page (`.1`): a previous one
/// when it does not start at the first item, a next one when items remain after it.
pub fn listing_nav(offset: u32, n_items: usize, total: u64) -> (r: (bool, bool))
    ensures
        r.0 == (offset > 0),
        r.1 == (offset + n_items < total),
{
    let has_next = if n_items as u128 + offset as u128 >= total as u128 {
        false
    } else {
        true
    };
    (offset > 0, has_next)
}

/// The query string of a category listing: the 1-based page, if given.
#[derive(Debug, Clone, Copy)]
pub struct ListingQuery {
    pub page: Option<u32>,
}

impl ListingQuery {
    /// The page to show: the one asked for, the first when none or 0 is asked for.
    pub fn page_number(&self) -> (p: u32)
        ensures
            p == (match self.page {
                Some(n) => if n >= 1 { n } else { 1 },
                None => 1,
            }),
            p >= 1,
    {
        match self.page {
            Some(n) => if n >= 1 { n } else { 1 },
            None => 1,
        }
    }
}

} // verus!
