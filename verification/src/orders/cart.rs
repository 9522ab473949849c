//! Cart domain types and the rules on line quantities.

use vstd::prelude::*;

use crate::identity::session::{blake3_hex, generate_token, hash_token, is_token_char, TOKEN_LEN};
use crate::text::{decimal_int, i64_to_decimal};

verus! {

/// Upper bound on the quantity of one cart line (keeps displayed totals far from overflow).
pub const MAX_QTY: i64 = 999;

/// A cart, identified by the hash of its cart token.
#[derive(Debug, Clone)]
pub struct Cart {
    pub token_hash: String,
    /// Unix milliseconds of creation.
    pub created_at: i64,
    /// Unix milliseconds of the last change of its lines.
    pub updated_at: i64,
}

/// A cart line: a snapshot of the product at the time it was added.
#[derive(Debug, Clone)]
pub struct CartItem {
    pub id: i64,
    pub cart_id: String,
    pub product_id: String,
    /// Variant/option; `None` for products without variants.
    pub variant_id: Option<String>,
    pub qty: i64,
    /// Title snapshot.
    pub title: String,
    /// Price snapshot in minor units.
    pub unit_price_minor: i64,
    pub currency: String,
    /// Unix milliseconds of the addition.
    pub added_at: i64,
}

/// Input for adding a line to a cart.
#[derive(Debug, Clone)]
pub struct NewCartItem {
    pub product_id: String,
    pub variant_id: Option<String>,
    pub qty: i64,
    pub title: String,
    pub unit_price_minor: i64,
    pub currency: String,
}

/// The raw cart token handed to the client (cookie value); only its hash is stored.
#[derive(Debug, Clone)]
pub struct CartToken(pub String);

impl CartToken {
    pub fn as_str(&self) -> (r: &str)
        ensures
            r@ == self.0@,
    {
        self.0.as_str()
    }
}

/// Errors of cart operations.
#[derive(Debug)]
pub enum CartError {
    /// Storage failure, with the storage layer's message.
    Db(String),
    /// A quantity outside the accepted range.
    InvalidQty(i64),
}

/// Quantities accepted when adding a line: `1..=MAX_QTY`.
pub open spec fn valid_add_qty(qty: int) -> bool {
    1 <= qty <= MAX_QTY
}

/// Quantities accepted when changing a line: `0..=MAX_QTY` (`0` removes the line).
pub open spec fn valid_update_qty(qty: int) -> bool {
    0 <= qty <= MAX_QTY
}

/// Checks the quantity of a line being added.
pub fn check_add_qty(qty: i64) -> (r: Result<(), CartError>)
    ensures
        r is Ok <==> valid_add_qty(qty as int),
        r matches Err(e) ==> e == CartError::InvalidQty(qty),
{
    if qty <= 0 || qty > MAX_QTY {
        Err(CartError::InvalidQty(qty))
    } else {
        Ok(())
    }
}

/// Checks the new quantity of an existing line.
pub fn check_update_qty(qty: i64) -> (r: Result<(), CartError>)
    ensures
        r is Ok <==> valid_update_qty(qty as int),
        r matches Err(e) ==> e == CartError::InvalidQty(qty),
{
    if qty < 0 || qty > MAX_QTY {
        Err(CartError::InvalidQty(qty))
    } else {
        Ok(())
    }
}

/// Quantity of a line after adding `added` units: a repeated addition of the same product and
/// variant increments the existing line, capped at `MAX_QTY`.
pub open spec fn merged_qty(existing: Option<int>, added: int) -> int {
    match existing {
        None => added,
        Some(q) => if q + added < MAX_QTY { q + added } else { MAX_QTY as int },
    }
}

/// The quantity stored for a line after an accepted addition of `added` units to a line that
/// held `existing` units (or did not exist).
pub fn merge_line_qty(existing: Option<i64>, added: i64) -> (q: i64)
    requires
        valid_add_qty(added as int),
    ensures
        q == merged_qty(
            match existing {
                Some(e) => Some(e as int),
                None => None,
            },
            added as int,
        ),
        (existing matches Some(e) ==> e >= 0) ==> valid_add_qty(q as int),
{
    match existing {
        None => added,
        Some(e) => {
            let sum: i128 = e as i128 + added as i128;
            if sum < MAX_QTY as i128 {
                sum as i64
            } else {
                MAX_QTY
            }
        },
    }
}

/// A line never exceeds `MAX_QTY`, however often the same product is added again, and adding
/// never lowers the quantity of a line.
pub proof fn lemma_merged_qty_bounded(existing: Option<int>, added: int)
    requires
        valid_add_qty(added),
        existing matches Some(e) ==> valid_update_qty(e),
    ensures
        valid_add_qty(merged_qty(existing, added)),
        existing matches Some(e) ==> e <= merged_qty(existing, added),
{
}

/// Adding to a line is addition capped at `MAX_QTY`: the merged quantity is the smaller of the
/// sum and the cap, so a repeated addition always raises a line below the cap, and a new line
/// takes the quantity added.
pub proof fn lemma_merge_is_capped_sum(existing: Option<int>, added: int)
    requires
        valid_add_qty(added),
        existing matches Some(e) ==> valid_update_qty(e),
    ensures
        existing is None ==> merged_qty(existing, added) == added,
        existing matches Some(q) ==> merged_qty(existing, added) <= q + added,
        existing matches Some(q) ==> merged_qty(existing, added) <= MAX_QTY,
        existing matches Some(q) ==> (merged_qty(existing, added) == q + added || merged_qty(existing, added)
            == MAX_QTY),
        existing matches Some(q) ==> (q < MAX_QTY ==> q < merged_qty(existing, added)),
{
}

impl CartError {
    /// The error's text: `db: <message>` or `quantity <qty> out of range (0..=999)`.
    pub fn message(&self) -> (r: String)
        ensures
            r@ == (match self {
                CartError::Db(m) => "db: "@ + m@,
                CartError::InvalidQty(q) => "quantity "@ + decimal_int(*q as int)
                    + " out of range (0..="@ + decimal_int(MAX_QTY as int) + ")"@,
            }),
    {
        match self {
            CartError::Db(m) => {
                let mut r = "db: ".to_string();
                r.append(m.as_str());
                r
            },
            CartError::InvalidQty(q) => {
                let mut r = "quantity ".to_string();
                let n = i64_to_decimal(*q);
                r.append(n.as_str());
                r.append(" out of range (0..=");
                let m = i64_to_decimal(MAX_QTY);
                r.append(m.as_str());
                r.append(")");
                r
            },
        }
    }
}

/// What a valid quantity update does to a line.
#[derive(Debug, Clone, Copy, PartialEq, Eq, Structural)]
pub enum QtyUpdate {
    /// Quantity 0: the line is deleted.
    RemoveLine,
    /// The line's quantity becomes this.
    SetQty(i64),
}

/// Decides a quantity update: out of `0..=MAX_QTY` is `InvalidQty`; 0 deletes the line; any
/// other quantity is written. The cart's `updated_at` moves only when a line of that cart was
/// actually touched.
pub fn plan_qty_update(qty: i64) -> (r: Result<QtyUpdate, CartError>)
    ensures
        r == (if !valid_update_qty(qty as int) {
            Err(CartError::InvalidQty(qty))
        } else if qty == 0 {
            Ok(QtyUpdate::RemoveLine)
        } else {
            Ok(QtyUpdate::SetQty(qty))
        }),
{
    match check_update_qty(qty) {
        Err(e) => Err(e),
        Ok(()) => if qty == 0 {
            Ok(QtyUpdate::RemoveLine)
        } else {
            Ok(QtyUpdate::SetQty(qty))
        },
    }
}

/// Opens an empty cart at `now`: a fresh random token for the client and the cart keyed by
/// the token's digest (the raw token is never stored).
pub fn open_cart(now: i64) -> (r: (CartToken, Cart))
    ensures
        r.0.0@.len() == TOKEN_LEN,
        forall|i: int| 0 <= i < r.0.0@.len() ==> is_token_char(#[trigger] r.0.0@[i]),
        r.1.token_hash@ == blake3_hex(r.0.0@),
        r.1.created_at == now,
        r.1.updated_at == now,
{
    let raw = generate_token();
    let token_hash = hash_token(raw.as_str());
    (CartToken(raw), Cart { token_hash, created_at: now, updated_at: now })
}

/// The key under which the cart of a raw cart token is looked up.
pub fn cart_key(raw_token: &str) -> (h: String)
    ensures
        h@ == blake3_hex(raw_token@),
{
    hash_token(raw_token)
}

/// Whether a change of lines moves the cart's `updated_at`: only when it affected some line
/// of that cart (a request aimed at another cart's line touches nothing).
pub fn touches_cart(affected_rows: u64) -> (r: bool)
    ensures
        r == (affected_rows > 0),
{
    affected_rows > 0
}

} // verus!
