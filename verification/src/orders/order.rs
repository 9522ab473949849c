//! Order domain types, order status codes and the checks that precede storing an order.

use vstd::prelude::*;

use crate::json::{member, push_str_member, sep, str_value};
use crate::shared::{is_uuid_v4_text, new_uuid_v4, NewEvent};
use crate::text::str_eq;

verus! {

/// Order status; filled in by payment and delivery transitions.
#[derive(Debug, Clone, Copy, PartialEq, Eq, Structural)]
pub enum OrderStatus {
    Created,
    Paid,
    Fulfilled,
    Cancelled,
}

impl OrderStatus {
    /// The canonical value of the `orders.status` column.
    pub open spec fn code(self) -> Seq<char> {
        match self {
            OrderStatus::Created => "created"@,
            OrderStatus::Paid => "paid"@,
            OrderStatus::Fulfilled => "fulfilled"@,
            OrderStatus::Cancelled => "cancelled"@,
        }
    }

    /// The status whose canonical value is `s`, if any.
    pub open spec fn from_code(s: Seq<char>) -> Option<OrderStatus> {
        if s == "created"@ {
            Some(OrderStatus::Created)
        } else if s == "paid"@ {
            Some(OrderStatus::Paid)
        } else if s == "fulfilled"@ {
            Some(OrderStatus::Fulfilled)
        } else if s == "cancelled"@ {
            Some(OrderStatus::Cancelled)
        } else {
            None
        }
    }

    pub fn as_str(&self) -> (r: &'static str)
        ensures
            r@ == self.code(),
    {
        match self {
            OrderStatus::Created => "created",
            OrderStatus::Paid => "paid",
            OrderStatus::Fulfilled => "fulfilled",
            OrderStatus::Cancelled => "cancelled",
        }
    }

    pub fn parse(s: &str) -> (r: Option<OrderStatus>)
        ensures
            r == OrderStatus::from_code(s@),
    {
        if str_eq(s, "created") {
            Some(OrderStatus::Created)
        } else if str_eq(s, "paid") {
            Some(OrderStatus::Paid)
        } else if str_eq(s, "fulfilled") {
            Some(OrderStatus::Fulfilled)
        } else if str_eq(s, "cancelled") {
            Some(OrderStatus::Cancelled)
        } else {
            None
        }
    }
}

/// Parsing the canonical value of an order status gives that status back, and a successful
/// parse only ever comes from the canonical value.
pub proof fn lemma_order_status_roundtrip(st: OrderStatus, s: Seq<char>)
    ensures
        OrderStatus::from_code(st.code()) == Some(st),
        OrderStatus::from_code(s) == Some(st) ==> st.code() == s,
{
    reveal_strlit("created");
    reveal_strlit("paid");
    reveal_strlit("fulfilled");
    reveal_strlit("cancelled");
    assert("created"@[0] == 'c' && "paid"@[0] == 'p' && "fulfilled"@[0] == 'f');
    assert("created"@[1] == 'r' && "cancelled"@[1] == 'a');
}

/// An order (aggregate). Created in `created`.
#[derive(Debug, Clone)]
pub struct Order {
    pub id: String,
    pub buyer_id: String,
    pub status: OrderStatus,
    /// Total in minor units of the currency.
    pub total_minor: i64,
    pub currency: String,
    /// Unix milliseconds of creation.
    pub created_at: i64,
    pub items: Vec<OrderItem>,
}

/// An order line: an immutable snapshot of one unit of the chosen product/variant.
#[derive(Debug, Clone)]
pub struct OrderItem {
    pub id: String,
    pub order_id: String,
    pub product_id: String,
    pub seller_id: String,
    pub variant_id: Option<String>,
    pub title: String,
    pub unit_price_minor: i64,
    pub currency: String,
    /// JSON text of the chosen configuration options, if any.
    pub config_snapshot: Option<String>,
}

/// Input for creating an order.
#[derive(Debug)]
pub struct NewOrder {
    pub id: String,
    pub buyer_id: String,
    pub currency: String,
}

/// Input for adding a line to an order.
#[derive(Debug)]
pub struct NewOrderItem {
    pub id: String,
    pub order_id: String,
    pub product_id: String,
    pub seller_id: String,
    pub variant_id: Option<String>,
    pub title: String,
    pub unit_price_minor: i64,
    pub currency: String,
    /// JSON text of the chosen configuration options, if any.
    pub config_snapshot: Option<String>,
}

/// Guest contact details of an order, kept apart from the order itself (PII).
#[derive(Clone)]
pub struct OrderContact {
    pub order_id: String,
    pub email: String,
    pub name: Option<String>,
    /// Unix milliseconds of creation.
    pub created_at: i64,
}

/// Guest contact details collected at checkout.
#[derive(Clone)]
pub struct NewOrderContact {
    pub email: String,
    pub name: Option<String>,
}

/// Errors of order operations.
#[derive(Debug)]
pub enum OrderError {
    /// Storage failure, with the storage layer's message.
    Db(String),
    /// A stored column value outside its canonical set.
    InvalidEnum { field: &'static str, value: String },
    NotFound(String),
    /// Failure to read or write a JSON snapshot, with its message.
    Json(String),
    /// Checkout was asked for without any line.
    EmptyCheckout,
    /// A line is priced in a currency other than the order's.
    CurrencyMismatch { expected: String, found: String },
}

/// Whether every line is priced in `currency`.
pub open spec fn all_in_currency(items: Seq<NewOrderItem>, currency: Seq<char>) -> bool {
    forall|i: int| 0 <= i < items.len() ==> #[trigger] items[i].currency@ == currency
}

/// Whether `i` is the first line priced in a currency other than `currency`.
pub open spec fn first_foreign_line(items: Seq<NewOrderItem>, currency: Seq<char>, i: int) -> bool {
    &&& 0 <= i < items.len()
    &&& items[i].currency@ != currency
    &&& forall|j: int| 0 <= j < i ==> #[trigger] items[j].currency@ == currency
}

/// Checkout refuses an empty list of lines, and a list with a line priced in another
/// currency than the order's (naming the first such line's currency); nothing is stored in
/// either case.
pub fn check_checkout_items(currency: &str, items: &[NewOrderItem]) -> (r: Result<(), OrderError>)
    ensures
        r is Ok <==> items@.len() > 0 && all_in_currency(items@, currency@),
        items@.len() == 0 ==> r matches Err(OrderError::EmptyCheckout),
        items@.len() > 0 && !all_in_currency(items@, currency@) ==> r matches Err(
            OrderError::CurrencyMismatch { .. },
        ),
        r matches Err(OrderError::CurrencyMismatch { expected, found }) ==> expected@ == currency@
            && exists|i: int| first_foreign_line(items@, currency@, i) && found@ == items@[i].currency@,
        r matches Err(e) ==> (e is EmptyCheckout || e is CurrencyMismatch),
{
    if items.len() == 0 {
        return Err(OrderError::EmptyCheckout);
    }
    let mut i: usize = 0;
    while i < items.len()
        invariant
            0 <= i <= items@.len(),
            forall|j: int| 0 <= j < i ==> #[trigger] items@[j].currency@ == currency@,
        decreases items@.len() - i,
    {
        if !str_eq(items[i].currency.as_str(), currency) {
            proof {
                assert(first_foreign_line(items@, currency@, i as int));
            }
            return Err(
                OrderError::CurrencyMismatch {
                    expected: currency.to_string(),
                    found: items[i].currency.clone(),
                },
            );
        }
        i = i + 1;
    }
    Ok(())
}

/// The status of a stored order row, or `InvalidEnum` naming the column and the stored value.
pub fn order_status_from_column(raw: String) -> (r: Result<OrderStatus, OrderError>)
    ensures
        match OrderStatus::from_code(raw@) {
            Some(st) => r == Ok::<OrderStatus, OrderError>(st),
            None => r matches Err(OrderError::InvalidEnum { field, value }) && field@ == "status"@
                && value@ == raw@,
        },
{
    match OrderStatus::parse(raw.as_str()) {
        Some(st) => Ok(st),
        None => Err(OrderError::InvalidEnum { field: "status", value: raw }),
    }
}

impl OrderError {
    /// The error's text, one form per variant.
    pub fn message(&self) -> (r: String)
        ensures
            r@ == (match self {
                OrderError::Db(m) => "db: "@ + m@,
                OrderError::InvalidEnum { field, value } => "invalid "@ + field@ + " in row: "@ + value@,
                OrderError::NotFound(id) => "order not found: "@ + id@,
                OrderError::Json(m) => "serialization: "@ + m@,
                OrderError::EmptyCheckout => "checkout requires at least one item"@,
                OrderError::CurrencyMismatch { expected, found } => "currency mismatch: order in "@
                    + expected@ + ", item in "@ + found@,
            }),
    {
        match self {
            OrderError::Db(m) => {
                let mut r = "db: ".to_string();
                r.append(m.as_str());
                r
            },
            OrderError::InvalidEnum { field, value } => {
                let mut r = "invalid ".to_string();
                r.append(field);
                r.append(" in row: ");
                r.append(value.as_str());
                r
            },
            OrderError::NotFound(id) => {
                let mut r = "order not found: ".to_string();
                r.append(id.as_str());
                r
            },
            OrderError::Json(m) => {
                let mut r = "serialization: ".to_string();
                r.append(m.as_str());
                r
            },
            OrderError::EmptyCheckout => "checkout requires at least one item".to_string(),
            OrderError::CurrencyMismatch { expected, found } => {
                let mut r = "currency mismatch: order in ".to_string();
                r.append(expected.as_str());
                r.append(", item in ");
                r.append(found.as_str());
                r
            },
        }
    }
}

/// Aggregate name of order events in the outbox.
pub const ORDER_AGGREGATE: &'static str = "order";

/// The payload of `OrderCreated`.
pub open spec fn created_text(order_id: Seq<char>, buyer_id: Seq<char>, currency: Seq<char>) -> Seq<char> {
    "{"@ + member("buyer_id"@, str_value(buyer_id)) + ","@ + member("currency"@, str_value(currency))
        + ","@ + member("order_id"@, str_value(order_id)) + "}"@
}

/// The outbox event written with a new order.
pub fn order_created_event(order_id: &str, buyer_id: &str, currency: &str) -> (e: NewEvent)
    ensures
        e.aggregate@ == ORDER_AGGREGATE@,
        e.aggregate_id@ == order_id@,
        e.event_type@ == "OrderCreated"@,
        e.payload@ == created_text(order_id@, buyer_id@, currency@),
{
    let mut out = "{".to_string();
    push_str_member(&mut out, true, "buyer_id", buyer_id);
    push_str_member(&mut out, false, "currency", currency);
    push_str_member(&mut out, false, "order_id", order_id);
    out.append("}");
    proof {
        assert(sep(true) =~= Seq::<char>::empty());
        assert(out@ =~= created_text(order_id@, buyer_id@, currency@));
    }
    NewEvent::new(ORDER_AGGREGATE, order_id, "OrderCreated", out)
}

/// Whether `row` is the stored form of the line `item` in the order `order_id`: the line as
/// given, attached to that order.
pub open spec fn is_stored_line(item: NewOrderItem, order_id: Seq<char>, row: OrderItem) -> bool {
    &&& row.id@ == item.id@
    &&& row.order_id@ == order_id
    &&& row.product_id@ == item.product_id@
    &&& row.seller_id@ == item.seller_id@
    &&& row.variant_id == item.variant_id
    &&& row.title@ == item.title@
    &&& row.unit_price_minor == item.unit_price_minor
    &&& row.currency@ == item.currency@
    &&& row.config_snapshot == item.config_snapshot
}

/// Sum of the unit prices of order lines to store.
pub open spec fn sum_unit_prices(s: Seq<NewOrderItem>) -> int
    decreases s.len(),
{
    if s.len() == 0 {
        0
    } else {
        sum_unit_prices(s.drop_last()) + s.last().unit_price_minor
    }
}

/// Sum of the unit prices of stored order lines: the order total, which is recomputed as
/// `SUM(unit_price_minor)` over its lines.
pub open spec fn stored_total(s: Seq<OrderItem>) -> int
    decreases s.len(),
{
    if s.len() == 0 {
        0
    } else {
        stored_total(s.drop_last()) + s.last().unit_price_minor
    }
}

/// Storing lines under an order keeps their prices: the stored lines add up to the same total
/// as the lines given.
pub proof fn lemma_stored_lines_keep_total(items: Seq<NewOrderItem>, order_id: Seq<char>, lines: Seq<OrderItem>)
    requires
        lines.len() == items.len(),
        forall|i: int| 0 <= i < items.len() ==> is_stored_line(#[trigger] items[i], order_id, lines[i]),
    ensures
        stored_total(lines) == sum_unit_prices(items),
    decreases items.len(),
{
    if items.len() > 0 {
        let n = items.len() - 1;
        assert(is_stored_line(items[n], order_id, lines[n]));
        assert forall|i: int| 0 <= i < items.drop_last().len() implies is_stored_line(
            #[trigger] items.drop_last()[i],
            order_id,
            lines.drop_last()[i],
        ) by {
            assert(is_stored_line(items[i], order_id, lines[i]));
        }
        lemma_stored_lines_keep_total(items.drop_last(), order_id, lines.drop_last());
    }
}

/// The line `item` attached to the order `order_id`.
fn stored_line(item: &NewOrderItem, order_id: &str) -> (row: OrderItem)
    ensures
        is_stored_line(*item, order_id@, row),
{
    OrderItem {
        id: item.id.clone(),
        order_id: order_id.to_string(),
        product_id: item.product_id.clone(),
        seller_id: item.seller_id.clone(),
        variant_id: match &item.variant_id {
            Some(v) => Some(v.clone()),
            None => None,
        },
        title: item.title.clone(),
        unit_price_minor: item.unit_price_minor,
        currency: item.currency.clone(),
        config_snapshot: match &item.config_snapshot {
            Some(c) => Some(c.clone()),
            None => None,
        },
    }
}

/// The start of a checkout: the new order's id, the lines to store under it, and the event
/// written with it.
pub struct CheckoutStart {
    pub order_id: String,
    pub lines: Vec<OrderItem>,
    pub created_event: NewEvent,
}

/// Starts a checkout: refuses an empty list of lines and a line in another currency than the
/// order's (nothing is stored then), otherwise draws a random order id (a UUID v4), attaches
/// every line to it, in order, and prepares the `OrderCreated` event. The order, its lines,
/// the recomputed total, the contact and the event are then stored in one transaction by the
/// caller.
pub fn begin_checkout(buyer_id: &str, currency: &str, items: &[NewOrderItem]) -> (r: Result<CheckoutStart, OrderError>)
    ensures
        r is Ok <==> items@.len() > 0 && all_in_currency(items@, currency@),
        items@.len() == 0 ==> r matches Err(OrderError::EmptyCheckout),
        items@.len() > 0 && !all_in_currency(items@, currency@) ==> r matches Err(
            OrderError::CurrencyMismatch { .. },
        ),
        r matches Err(OrderError::CurrencyMismatch { expected, found }) ==> expected@ == currency@
            && exists|i: int| first_foreign_line(items@, currency@, i) && found@ == items@[i].currency@,
        r matches Err(e) ==> (e is EmptyCheckout || e is CurrencyMismatch),
        r matches Ok(s) ==> {
            &&& is_uuid_v4_text(s.order_id@)
            &&& s.lines@.len() == items@.len()
            &&& forall|i: int| 0 <= i < items@.len() ==> is_stored_line(
                #[trigger] items@[i],
                s.order_id@,
                s.lines@[i],
            )
            &&& stored_total(s.lines@) == sum_unit_prices(items@)
            &&& s.created_event.aggregate@ == ORDER_AGGREGATE@
            &&& s.created_event.aggregate_id@ == s.order_id@
            &&& s.created_event.event_type@ == "OrderCreated"@
            &&& s.created_event.payload@ == created_text(s.order_id@, buyer_id@, currency@)
        },
{
    match check_checkout_items(currency, items) {
        Err(e) => Err(e),
        Ok(()) => {
            let order_id = new_uuid_v4();
            let mut lines: Vec<OrderItem> = Vec::new();
            let mut i: usize = 0;
            while i < items.len()
                invariant
                    0 <= i <= items@.len(),
                    lines@.len() == i,
                    forall|j: int| 0 <= j < i ==> is_stored_line(
                        #[trigger] items@[j],
                        order_id@,
                        lines@[j],
                    ),
                decreases items@.len() - i,
            {
                lines.push(stored_line(&items[i], order_id.as_str()));
                i = i + 1;
            }
            proof {
                lemma_stored_lines_keep_total(items@, order_id@, lines@);
            }
            let created_event = order_created_event(order_id.as_str(), buyer_id, currency);
            Ok(CheckoutStart { order_id, lines, created_event })
        },
    }
}

} // verus!
