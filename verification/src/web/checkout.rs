//! Guest checkout: contact validation, the synthetic guest buyer id, and the plan that turns
//! cart lines and fresh catalog snapshots into per-unit order lines.

use vstd::prelude::*;

use crate::catalog::search::CatalogCard;
use crate::orders::cart::{CartItem, MAX_QTY};
use crate::web::cart::{cart_total, exact_total, lemma_cart_total_exact};
use crate::orders::order::{all_in_currency, sum_unit_prices, NewOrderContact, NewOrderItem};
use crate::shared::{is_uuid_v4_text, new_uuid_v4};
use crate::text::{
    char_is_control, char_is_whitespace, chars_of, clone_opt_string, find_char, index_of,
    is_control, is_whitespace, lemma_index_of, opt_view, str_trim, trim, utf8_len_exceeds,
};
use vstd::utf8::encode_utf8;
use crate::web::error::WebError;

verus! {

/// Longest accepted email, in bytes (RFC 5321).
pub const MAX_EMAIL_LEN: usize = 254;

/// Longest accepted guest name, in bytes.
pub const MAX_NAME_LEN: usize = 200;

/// The checkout contact form.
#[derive(Debug)]
pub struct ContactForm {
    pub email: String,
    pub name: Option<String>,
}

/// Message for a missing or malformed email.
pub open spec fn msg_bad_email() -> Seq<char> {
    "Вкажіть коректну електронну пошту."@
}

/// Message for an email with control or whitespace characters.
pub open spec fn msg_email_chars() -> Seq<char> {
    "Електронна пошта містить недопустимі символи."@
}

/// Message for an unacceptable name.
pub open spec fn msg_bad_name() -> Seq<char> {
    "Ім'я містить недопустимі символи або занадто довге."@
}

/// Some character of `s` is a control character, or whitespace as well when `ws` is set.
pub open spec fn has_forbidden(s: Seq<char>, ws: bool) -> bool {
    exists|i: int| 0 <= i < s.len() && (char_is_control(s[i]) || (ws && char_is_whitespace(s[i])))
}

/// The trimmed name, unless it is absent or blank.
pub open spec fn normalized_name(name: Option<Seq<char>>) -> Option<Seq<char>> {
    match name {
        Some(n) => if trim(n).len() > 0 { Some(trim(n)) } else { None },
        None => None,
    }
}

/// Validation of the contact form, as plain values: the accepted email (trimmed, at most
/// `MAX_EMAIL_LEN` bytes, no control or whitespace character, an `@` with non-empty parts
/// before and after it) and name (trimmed, blank as absent, at most
/// `MAX_NAME_LEN` bytes, no control character), or the message shown with the form again.
pub open spec fn contact_outcome(email: Seq<char>, name: Option<Seq<char>>) -> Result<
    (Seq<char>, Option<Seq<char>>),
    Seq<char>,
> {
    let e = trim(email);
    let at = index_of(e, '@');
    if e.len() == 0 || encode_utf8(e).len() > MAX_EMAIL_LEN {
        Err(msg_bad_email())
    } else if has_forbidden(e, true) {
        Err(msg_email_chars())
    } else if at < 0 || at == 0 || at + 1 == e.len() {
        Err(msg_bad_email())
    } else {
        match normalized_name(name) {
            Some(n) => if encode_utf8(n).len() > MAX_NAME_LEN || has_forbidden(n, false) {
                Err(msg_bad_name())
            } else {
                Ok((e, Some(n)))
            },
            None => Ok((e, None)),
        }
    }
}

fn has_forbidden_chars(s: &str, ws: bool) -> (r: bool)
    ensures
        r == has_forbidden(s@, ws),
{
    let v = chars_of(s);
    let mut i: usize = 0;
    while i < v.len()
        invariant
            v@ == s@,
            i <= v@.len(),
            forall|j: int|
                0 <= j < i ==> !(char_is_control(v@[j]) || (ws && char_is_whitespace(v@[j]))),
        decreases v@.len() - i,
    {
        if is_control(v[i]) || (ws && is_whitespace(v[i])) {
            return true;
        }
        i += 1;
    }
    false
}

/// Validates the checkout contact form (see `contact_outcome`).
pub fn validate_contact(form: &ContactForm) -> (r: Result<NewOrderContact, String>)
    ensures
        match contact_outcome(form.email@, opt_view(form.name)) {
            Ok((e, n)) => r matches Ok(c) && c.email@ == e && opt_view(c.name) == n,
            Err(m) => r matches Err(msg) && msg@ == m,
        },
{
    let email = str_trim(form.email.as_str());
    if email.is_empty() || utf8_len_exceeds(email, MAX_EMAIL_LEN) {
        return Err("Вкажіть коректну електронну пошту.".to_string());
    }
    if has_forbidden_chars(email, true) {
        return Err("Електронна пошта містить недопустимі символи.".to_string());
    }
    let v = chars_of(email);
    let n = v.len();
    assert(v@.skip(0) =~= v@);
    let at = match find_char(&v, 0, '@') {
        Some(k) => k,
        None => {
            return Err("Вкажіть коректну електронну пошту.".to_string());
        },
    };
    proof {
        lemma_index_of(v@, '@');
    }
    if at == 0 || at + 1 == n {
        return Err("Вкажіть коректну електронну пошту.".to_string());
    }
    let name: Option<&str> = match &form.name {
        Some(n) => {
            let t = str_trim(n.as_str());
            if t.is_empty() {
                None
            } else {
                Some(t)
            }
        },
        None => None,
    };
    match name {
        Some(n) => {
            if utf8_len_exceeds(n, MAX_NAME_LEN) || has_forbidden_chars(n, false) {
                return Err("Ім'я містить недопустимі символи або занадто довге.".to_string());
            }
            Ok(NewOrderContact { email: email.to_string(), name: Some(n.to_string()) })
        },
        None => Ok(NewOrderContact { email: email.to_string(), name: None }),
    }
}

/// Number of order units a cart line expands to (a non-positive quantity gives none).
pub open spec fn line_units(qty: i64) -> int {
    if qty > 0 { qty as int } else { 0 }
}

/// Number of order units that the first `i` cart lines expand to.
pub open spec fn units_before(items: Seq<CartItem>, i: int) -> int
    decreases i,
{
    if i <= 0 {
        0
    } else {
        units_before(items, i - 1) + line_units(items[i - 1].qty)
    }
}

/// Sum over the first `i` lines of the fresh unit price times the number of units.
pub open spec fn lines_total(items: Seq<CartItem>, cards: Seq<Option<CatalogCard>>, i: int) -> int
    decreases i,
{
    if i <= 0 {
        0
    } else {
        lines_total(items, cards, i - 1) + cards[i - 1]->0.price_minor * line_units(
            items[i - 1].qty,
        )
    }
}


/// Index of the first line, from `i` on, whose product is no longer in the catalog
/// (`cards.len()` when there is none).
pub open spec fn first_missing(cards: Seq<Option<CatalogCard>>, i: int) -> int
    decreases cards.len() - i,
{
    if i >= cards.len() || i < 0 {
        cards.len() as int
    } else if cards[i] is None {
        i
    } else {
        first_missing(cards, i + 1)
    }
}

/// Index of the first line, from `i` on, with a positive quantity (`items.len()` if none).
pub open spec fn first_positive(items: Seq<CartItem>, i: int) -> int
    decreases items.len() - i,
{
    if i >= items.len() || i < 0 {
        items.len() as int
    } else if items[i].qty > 0 {
        i
    } else {
        first_positive(items, i + 1)
    }
}

/// Every line with units has the currency `c` in its fresh snapshot.
pub open spec fn all_units_in(items: Seq<CartItem>, cards: Seq<Option<CatalogCard>>, c: Seq<
    char,
>) -> bool {
    forall|j: int| 0 <= j < items.len() && items[j].qty > 0 ==> #[trigger] cards[j]->0.currency@ == c
}

/// Order line `o` is one unit of cart line `line` at the fresh snapshot `card`: the product,
/// seller, title, price and currency come from the snapshot, the variant from the cart line.
pub open spec fn unit_of(o: NewOrderItem, line: CartItem, card: CatalogCard) -> bool {
    &&& o.order_id@ == Seq::<char>::empty()
    &&& o.product_id@ == card.id@
    &&& o.seller_id@ == card.seller_id@
    &&& opt_view(o.variant_id) == opt_view(line.variant_id)
    &&& o.title@ == card.title@
    &&& o.unit_price_minor == card.price_minor
    &&& o.currency@ == card.currency@
    &&& o.config_snapshot is None
    &&& is_uuid_v4_text(o.id@)
}

/// Message when the product of a cart line is gone from the catalog.
pub open spec fn unavailable_message(title: Seq<char>) -> Seq<char> {
    "Товар \""@ + title
        + "\" більше не доступний для замовлення. Будь ласка, поверніться до кошика."@
}

/// Order lines of a checkout together with their common currency.
pub struct CheckoutPlan {
    pub currency: String,
    pub items: Vec<NewOrderItem>,
}

/// Whether `planned`, in `currency`, is the plan of the cart lines `items` at the snapshots
/// `cards`: line `j` becomes its units, in order, each a snapshot of `cards[j]`; the lines add
/// up to the cart at fresh prices; there is at least one; all are in `currency`, the currency of
/// the first line with units.
pub open spec fn is_plan_of(
    items: Seq<CartItem>,
    cards: Seq<Option<CatalogCard>>,
    currency: Seq<char>,
    planned: Seq<NewOrderItem>,
) -> bool {
    &&& planned.len() == units_before(items, items.len() as int)
    &&& currency == cards[first_positive(items, 0)]->0.currency@
    &&& forall|j: int, k: int|
        0 <= j < items.len() && units_before(items, j) <= k < units_before(items, j + 1)
            ==> #[trigger] unit_of(planned[k], items[j], cards[j]->0)
    &&& sum_unit_prices(planned) == lines_total(items, cards, items.len() as int)
    &&& planned.len() > 0
    &&& all_in_currency(planned, currency)
}

/// The refusal of a checkout that cannot be planned, as kind and message: the first line whose
/// product is gone, else no unit at all, else units in more than one currency.
pub open spec fn plan_refusal(items: Seq<CartItem>, cards: Seq<Option<CatalogCard>>) -> (Seq<char>, Seq<char>) {
    if first_missing(cards, 0) < cards.len() {
        ("bad_request"@, unavailable_message(items[first_missing(cards, 0)].title@))
    } else if units_before(items, items.len() as int) == 0 {
        ("bad_request"@, "усі товари кошика більше не доступні"@)
    } else {
        ("bad_request"@, "товари в кошику мають різні валюти, оформлення неможливе"@)
    }
}

/// Outcome of planning a checkout, as plain values.
pub open spec fn plan_ok(items: Seq<CartItem>, cards: Seq<Option<CatalogCard>>) -> bool {
    &&& first_missing(cards, 0) == cards.len()
    &&& units_before(items, items.len() as int) > 0
    &&& all_units_in(items, cards, cards[first_positive(items, 0)]->0.currency@)
}

proof fn lemma_units_monotone(items: Seq<CartItem>, i: int, j: int)
    requires
        0 <= i <= j,
    ensures
        0 <= units_before(items, i) <= units_before(items, j),
    decreases j,
{
    if i < j {
        lemma_units_monotone(items, i, j - 1);
    }
    if i > 0 {
        lemma_units_monotone(items, 0, i - 1);
    }
}

proof fn lemma_first_positive(items: Seq<CartItem>, i: int)
    requires
        0 <= i <= items.len(),
    ensures
        i <= first_positive(items, i) <= items.len(),
        first_positive(items, i) < items.len() ==> items[first_positive(items, i)].qty > 0,
        forall|j: int| i <= j < first_positive(items, i) ==> items[j].qty <= 0,
    decreases items.len() - i,
{
    if i < items.len() && items[i].qty <= 0 {
        lemma_first_positive(items, i + 1);
    }
}

proof fn lemma_first_missing(cards: Seq<Option<CatalogCard>>, i: int)
    requires
        0 <= i <= cards.len(),
    ensures
        i <= first_missing(cards, i) <= cards.len(),
        first_missing(cards, i) < cards.len() ==> cards[first_missing(cards, i)] is None,
        forall|j: int| i <= j < first_missing(cards, i) ==> cards[j] is Some,
    decreases cards.len() - i,
{
    if i < cards.len() && cards[i] is Some {
        lemma_first_missing(cards, i + 1);
    }
}

/// Turns cart lines into order lines, one per unit (a line of quantity N becomes N identical
/// snapshots), taking the price, seller, title and currency from the fresh catalog snapshot
/// `cards[j]` of line `j`.
///
/// Refused, in this order of precedence: a line whose product is no longer published (the first
/// such line is named); no unit at all; units in more than one currency.
pub fn plan_order_items(items: &[CartItem], cards: &[Option<CatalogCard>]) -> (r: Result<
    CheckoutPlan,
    WebError,
>)
    requires
        items@.len() == cards@.len(),
    ensures
        r is Ok <==> plan_ok(items@, cards@),
        first_missing(cards@, 0) < cards@.len() ==> r is Err && r->Err_0.kind_and_message() == (
            "bad_request"@,
            unavailable_message(items@[first_missing(cards@, 0)].title@),
        ),
        first_missing(cards@, 0) == cards@.len() && units_before(items@, items@.len() as int) == 0
            ==> r is Err && r->Err_0.kind_and_message() == (
            "bad_request"@,
            "усі товари кошика більше не доступні"@,
        ),
        first_missing(cards@, 0) == cards@.len() && units_before(items@, items@.len() as int) > 0
            && !all_units_in(items@, cards@, cards@[first_positive(items@, 0)]->0.currency@)
            ==> r is Err && r->Err_0.kind_and_message() == (
            "bad_request"@,
            "товари в кошику мають різні валюти, оформлення неможливе"@,
        ),
        r matches Ok(plan) ==> is_plan_of(items@, cards@, plan.currency@, plan.items@),
        r matches Err(e) ==> e.kind_and_message() == plan_refusal(items@, cards@),
{
    let n = items.len();
    let mut out: Vec<NewOrderItem> = Vec::new();
    let mut first_currency: Option<String> = None;
    let mut mixed = false;
    let mut i: usize = 0;
    proof {
        lemma_first_missing(cards@, 0);
        lemma_first_positive(items@, 0);
    }
    while i < n
        invariant
            n == items@.len(),
            n == cards@.len(),
            0 <= i <= n,
            forall|j: int| 0 <= j < i ==> cards@[j] is Some,
            forall|j: int| 0 <= j < first_missing(cards@, 0) ==> cards@[j] is Some,
            out@.len() == units_before(items@, i as int),
            forall|j: int, k: int|
                0 <= j < i && units_before(items@, j) <= k < units_before(items@, j + 1)
                    ==> #[trigger] unit_of(out@[k], items@[j], cards@[j]->0),
            sum_unit_prices(out@) == lines_total(items@, cards@, i as int),
            first_currency is None <==> first_positive(items@, 0) >= i,
            first_currency matches Some(c) ==> c@ == cards@[first_positive(items@, 0)]->0.currency@,
            first_currency matches Some(c) ==> (mixed <==> !(forall|j: int|
                0 <= j < i && items@[j].qty > 0 ==> #[trigger] cards@[j]->0.currency@ == c@)),
            first_currency is None ==> !mixed,
            i <= first_missing(cards@, 0) <= n,
            first_missing(cards@, 0) < n ==> cards@[first_missing(cards@, 0)] is None,
            first_positive(items@, 0) <= n,
            first_positive(items@, 0) < n ==> items@[first_positive(items@, 0)].qty > 0,
            forall|j: int| 0 <= j < first_positive(items@, 0) ==> items@[j].qty <= 0,
        decreases n - i,
    {
        let card = match &cards[i] {
            Some(c) => c,
            None => {
                assert(first_missing(cards@, 0) == i);
                let mut msg = String::new();
                msg.append("Товар \"");
                msg.append(items[i].title.as_str());
                msg.append(
                    "\" більше не доступний для замовлення. Будь ласка, поверніться до кошика.",
                );
                return Err(WebError::BadRequest(msg));
            },
        };
        let line = &items[i];
        let ghost before = out@;
        let ghost start = out@.len() as int;
        let mut u: i64 = 0;
        while u < line.qty
            invariant
                0 <= u,
                0 <= start,
                before.len() == start,
                line.qty > 0 ==> u <= line.qty,
                line.qty <= 0 ==> u == 0,
                out@.len() == start + u,
                out@.subrange(0, start) == before,
                forall|k: int| start <= k < out@.len() ==> #[trigger] unit_of(out@[k], *line, *card),
                sum_unit_prices(out@) == sum_unit_prices(before) + card.price_minor * u,
            decreases line.qty - u,
        {
            let o = NewOrderItem {
                id: new_uuid_v4(),
                order_id: String::new(),
                product_id: card.id.clone(),
                seller_id: card.seller_id.clone(),
                variant_id: clone_opt_string(&line.variant_id),
                title: card.title.clone(),
                unit_price_minor: card.price_minor,
                currency: card.currency.clone(),
                config_snapshot: None,
            };
            let ghost prev = out@;
            let ghost og = o;
            assert(unit_of(og, *line, *card));
            out.push(o);
            proof {
                assert(out@ == prev.push(og));
                assert(out@.drop_last() =~= prev);
                assert(start <= prev.len());
                assert(out@.subrange(0, start) =~= prev.subrange(0, start));
                assert(card.price_minor * u + card.price_minor == card.price_minor * (u + 1))
                    by (nonlinear_arith);
            }
            u = u + 1;
        }
        proof {
            assert(u == line_units(line.qty));
            assert forall|j: int, k: int|
                0 <= j < i + 1 && units_before(items@, j) <= k < units_before(items@, j + 1)
                    implies #[trigger] unit_of(out@[k], items@[j], cards@[j]->0) by {
                if j < i {
                    lemma_units_monotone(items@, j + 1, i as int);
                    lemma_units_monotone(items@, j, j + 1);
                    assert(0 <= k < start);
                    assert(out@.subrange(0, start)[k] == out@[k]);
                    assert(out@[k] == before[k]);
                }
            }
        }
        if line.qty > 0 {
            match &first_currency {
                None => {
                    first_currency = Some(card.currency.clone());
                },
                Some(c) => {
                    if !c.eq(&card.currency) {
                        mixed = true;
                    }
                },
            }
        }
        i = i + 1;
    }
    if out.len() == 0 {
        return Err(WebError::BadRequest("усі товари кошика більше не доступні".to_string()));
    }
    assert(first_positive(items@, 0) < n) by {
        if first_positive(items@, 0) >= n {
            assert forall|j: int| 0 <= j <= n implies units_before(items@, j) == 0 by {
                lemma_units_zero(items@, j);
            }
        }
    }
    if mixed {
        return Err(
            WebError::BadRequest(
                "товари в кошику мають різні валюти, оформлення неможливе".to_string(),
            ),
        );
    }
    let currency = match first_currency {
        Some(c) => c,
        None => String::new(),
    };
    proof {
        assert forall|k: int| 0 <= k < out@.len() implies #[trigger] out@[k].currency@
            == currency@ by {
            let j = lemma_unit_origin(items@, n as int, k);
            assert(unit_of(out@[k], items@[j], cards@[j]->0));
        }
    }
    Ok(CheckoutPlan { currency, items: out })
}

/// Every unit comes from a line with units: unit `k` lies in the block of some line `j` whose
/// quantity is positive.
proof fn lemma_unit_origin(items: Seq<CartItem>, n: int, k: int) -> (j: int)
    requires
        0 <= n <= items.len(),
        0 <= k < units_before(items, n),
    ensures
        0 <= j < n,
        units_before(items, j) <= k < units_before(items, j + 1),
        items[j].qty > 0,
    decreases n,
{
    lemma_units_monotone(items, 0, n - 1);
    if k < units_before(items, n - 1) {
        lemma_unit_origin(items, n - 1, k)
    } else {
        n - 1
    }
}

proof fn lemma_units_zero(items: Seq<CartItem>, j: int)
    requires
        0 <= j <= items.len(),
        forall|m: int| 0 <= m < j ==> items[m].qty <= 0,
    ensures
        units_before(items, j) == 0,
    decreases j,
{
    if j > 0 {
        lemma_units_zero(items, j - 1);
    }
}

/// A synthetic buyer id for a guest order, `guest:<uuid>`: it fills `orders.buyer_id` without
/// passing for an account id.
pub fn guest_buyer_id() -> (r: String)
    ensures
        r@.len() == 42,
        r@.take(6) == "guest:"@,
        is_uuid_v4_text(r@.skip(6)),
{
    let mut r = "guest:".to_string();
    let id = new_uuid_v4();
    r.append(id.as_str());
    proof {
        reveal_strlit("guest:");
        assert(r@.take(6) =~= "guest:"@);
        assert(r@.skip(6) =~= id@);
    }
    r
}

/// Where a successful checkout redirects: the confirmation page of the order.
pub fn checkout_done_location(order_id: &str) -> (r: String)
    ensures
        r@ == "/checkout/done/"@ + order_id@,
{
    let mut r = "/checkout/done/".to_string();
    r.append(order_id);
    r
}

proof fn lemma_lines_total_exact(items: Seq<CartItem>, cards: Seq<Option<CatalogCard>>, i: int)
    requires
        0 <= i <= items.len(),
        items.len() == cards.len(),
        forall|j: int| 0 <= j < items.len() ==> 0 <= #[trigger] items[j].qty,
        forall|j: int|
            0 <= j < cards.len() ==> (#[trigger] cards[j]) is Some && cards[j]->0.price_minor
                == items[j].unit_price_minor,
    ensures
        lines_total(items, cards, i) == exact_total(items, i),
    decreases i,
{
    if i > 0 {
        lemma_lines_total_exact(items, cards, i - 1);
        let it = items[i - 1];
        assert(0 <= it.qty);
        assert(cards[i - 1] is Some);
        if it.qty == 0 {
            assert(it.unit_price_minor * it.qty == 0) by (nonlinear_arith)
                requires
                    it.qty == 0,
            ;
        }
    }
}

/// When no price has changed since the lines were added, the order costs what the cart
/// showed: the fresh-price total of the units that checkout plans (the sum of the unit prices
/// of the order's lines, see `plan_order_items`) equals the cart total, for quantities within
/// `0..=MAX_QTY`, prices within `0..=p_max` and carts whose largest possible total fits in
/// `i64`.
pub proof fn lemma_order_total_is_cart_total(
    items: Seq<CartItem>,
    cards: Seq<Option<CatalogCard>>,
    p_max: int,
)
    requires
        items.len() == cards.len(),
        0 <= p_max,
        forall|j: int|
            0 <= j < items.len() ==> 0 <= #[trigger] items[j].qty <= MAX_QTY && 0
                <= items[j].unit_price_minor <= p_max,
        forall|j: int|
            0 <= j < cards.len() ==> (#[trigger] cards[j]) is Some && cards[j]->0.price_minor
                == items[j].unit_price_minor,
        items.len() * MAX_QTY * p_max <= i64::MAX,
    ensures
        lines_total(items, cards, items.len() as int) == cart_total(items, items.len() as int),
{
    lemma_cart_total_exact(items, items.len() as int, p_max);
    lemma_lines_total_exact(items, cards, items.len() as int);
}

} // verus!
