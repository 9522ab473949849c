//! Cart pages: line and cart totals, the display currency, the currency rule for additions and
//! the line built from a catalog snapshot.

use vstd::prelude::*;

use crate::catalog::search::CatalogCard;
use crate::orders::cart::{CartItem, NewCartItem, MAX_QTY};
use crate::web::error::WebError;

verus! {

/// `x` clamped to the range of `i64` (the result of a saturating operation).
pub open spec fn saturate(x: int) -> int {
    if x > i64::MAX {
        i64::MAX as int
    } else if x < i64::MIN {
        i64::MIN as int
    } else {
        x
    }
}

/// The amount of a line: price times quantity, saturating.
pub open spec fn line_amount(item: CartItem) -> int {
    saturate(item.unit_price_minor * item.qty)
}

/// The total of the first `i` lines: line amounts added up with saturation, in order.
pub open spec fn cart_total(items: Seq<CartItem>, i: int) -> int
    decreases i,
{
    if i <= 0 {
        0
    } else {
        saturate(cart_total(items, i - 1) + line_amount(items[i - 1]))
    }
}

fn saturating_mul(a: i64, b: i64) -> (r: i64)
    ensures
        r == saturate(a * b),
{
    assert(-0x4000_0000_0000_0000_0000_0000_0000_0000 <= a * b <= 0x4000_0000_0000_0000_0000_0000_0000_0000)
        by (nonlinear_arith)
        requires
            -0x8000_0000_0000_0000 <= a <= 0x7fff_ffff_ffff_ffff,
            -0x8000_0000_0000_0000 <= b <= 0x7fff_ffff_ffff_ffff,
    ;
    let p: i128 = (a as i128) * (b as i128);
    if p > i64::MAX as i128 {
        i64::MAX
    } else if p < i64::MIN as i128 {
        i64::MIN
    } else {
        p as i64
    }
}

fn saturating_add(a: i64, b: i64) -> (r: i64)
    ensures
        r == saturate(a + b),
{
    let p: i128 = (a as i128) + (b as i128);
    if p > i64::MAX as i128 {
        i64::MAX
    } else if p < i64::MIN as i128 {
        i64::MIN
    } else {
        p as i64
    }
}

/// Amount of a cart line in minor units (price times quantity, saturating).
pub fn line_total_minor(item: &CartItem) -> (r: i64)
    ensures
        r == line_amount(*item),
{
    saturating_mul(item.unit_price_minor, item.qty)
}

/// Total of a cart in minor units (saturating sum of the line amounts).
pub fn cart_total_minor(items: &[CartItem]) -> (r: i64)
    ensures
        r == cart_total(items@, items@.len() as int),
{
    let mut acc: i64 = 0;
    let mut i: usize = 0;
    while i < items.len()
        invariant
            i <= items@.len(),
            acc == cart_total(items@, i as int),
        decreases items@.len() - i,
    {
        acc = saturating_add(acc, line_total_minor(&items[i]));
        i += 1;
    }
    acc
}

/// With every quantity within `0..=MAX_QTY` and every price within `0..=p_max`, a cart whose
/// largest possible total fits in `i64` shows its exact total: no line amount and no partial
/// sum saturates.
pub proof fn lemma_cart_total_exact(items: Seq<CartItem>, i: int, p_max: int)
    requires
        0 <= i <= items.len(),
        0 <= p_max,
        forall|j: int|
            0 <= j < items.len() ==> 0 <= #[trigger] items[j].qty <= MAX_QTY && 0
                <= items[j].unit_price_minor <= p_max,
        items.len() * MAX_QTY * p_max <= i64::MAX,
    ensures
        cart_total(items, i) == exact_total(items, i),
        0 <= exact_total(items, i) <= i * MAX_QTY * p_max,
    decreases i,
{
    if i > 0 {
        lemma_cart_total_exact(items, i - 1, p_max);
        let it = items[i - 1];
        let n = items.len() as int;
        assert(0 <= it.unit_price_minor * it.qty <= MAX_QTY * p_max) by (nonlinear_arith)
            requires
                0 <= it.qty <= 999,
                0 <= it.unit_price_minor <= p_max,
        ;
        assert((i - 1) * MAX_QTY * p_max + MAX_QTY * p_max == i * MAX_QTY * p_max)
            by (nonlinear_arith);
        assert(i * MAX_QTY * p_max <= n * MAX_QTY * p_max) by (nonlinear_arith)
            requires
                i <= n,
                0 <= p_max,
        ;
    }
}

/// Plain sum of price times quantity over the first `i` lines.
pub open spec fn exact_total(items: Seq<CartItem>, i: int) -> int
    decreases i,
{
    if i <= 0 {
        0
    } else {
        exact_total(items, i - 1) + items[i - 1].unit_price_minor * items[i - 1].qty
    }
}

/// The currency a cart is shown in: that of its first line, `UAH` for an empty cart.
pub fn display_currency(items: &[CartItem]) -> (r: &str)
    ensures
        items@.len() > 0 ==> r@ == items@[0].currency@,
        items@.len() == 0 ==> r@ == "UAH"@,
{
    if items.len() > 0 {
        items[0].currency.as_str()
    } else {
        "UAH"
    }
}

/// Message when a product in another currency is added to a cart.
pub open spec fn msg_other_currency() -> Seq<char> {
    "Товар у іншій валюті не можна додати до цього кошика"@
}

/// A cart holds one currency: adding a product whose currency differs from that of the cart's
/// first line is refused.
pub fn check_add_currency(existing: &[CartItem], currency: &str) -> (r: Result<(), WebError>)
    ensures
        r is Err <==> existing@.len() > 0 && existing@[0].currency@ != currency@,
        r matches Err(e) ==> e.kind_and_message() == ("bad_request"@, msg_other_currency()),
{
    if existing.len() > 0 && !crate::text::str_eq(existing[0].currency.as_str(), currency) {
        Err(WebError::BadRequest("Товар у іншій валюті не можна додати до цього кошика".to_string()))
    } else {
        Ok(())
    }
}

/// Quantity of an addition when the form gives none.
pub fn default_qty() -> (q: i64)
    ensures
        q == 1,
{
    1
}

/// The line added to a cart from a catalog snapshot: no variant, the snapshot's title, price
/// and currency, and the requested quantity.
pub fn new_cart_item(card: &CatalogCard, qty: i64) -> (r: NewCartItem)
    ensures
        r.product_id@ == card.id@,
        r.variant_id is None,
        r.qty == qty,
        r.title@ == card.title@,
        r.unit_price_minor == card.price_minor,
        r.currency@ == card.currency@,
{
    NewCartItem {
        product_id: card.id.clone(),
        variant_id: None,
        qty,
        title: card.title.clone(),
        unit_price_minor: card.price_minor,
        currency: card.currency.clone(),
    }
}

/// The form that adds a product to the cart (`qty` defaults to [`default_qty`]).
#[derive(Debug, Clone)]
pub struct AddForm {
    pub slug: String,
    pub qty: i64,
}

/// The form that changes the quantity of a cart line (`qty == 0` removes it).
#[derive(Debug, Clone, Copy)]
pub struct UpdateForm {
    pub item_id: i64,
    pub qty: i64,
}

/// The form that removes a cart line.
#[derive(Debug, Clone, Copy)]
pub struct RemoveForm {
    pub item_id: i64,
}

} // verus!
