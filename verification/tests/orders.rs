use tiny_shop::orders::cart::{
    cart_key, check_add_qty, check_update_qty, merge_line_qty, open_cart, plan_qty_update, CartError, CartToken,
    QtyUpdate, MAX_QTY,
};
use tiny_shop::orders::order::{
    begin_checkout, check_checkout_items, order_created_event, order_status_from_column, NewOrderItem, OrderError,
    OrderStatus,
};

fn unit(id: &str) -> NewOrderItem {
    NewOrderItem {
        id: id.to_string(),
        order_id: String::new(),
        product_id: "p1".to_string(),
        seller_id: "s1".to_string(),
        variant_id: None,
        title: "Widget".to_string(),
        unit_price_minor: 500,
        currency: "UAH".to_string(),
        config_snapshot: None,
    }
}

#[test]
fn add_quantities_are_one_to_max() {
    assert!(check_add_qty(1).is_ok());
    assert!(check_add_qty(MAX_QTY).is_ok());
    assert!(matches!(check_add_qty(0), Err(CartError::InvalidQty(0))));
    assert!(matches!(check_add_qty(1000), Err(CartError::InvalidQty(1000))));
    assert!(matches!(check_add_qty(-5), Err(CartError::InvalidQty(-5))));
}

#[test]
fn update_quantities_are_zero_to_max() {
    assert!(check_update_qty(0).is_ok());
    assert!(check_update_qty(999).is_ok());
    assert!(matches!(check_update_qty(-1), Err(CartError::InvalidQty(-1))));
    assert_eq!(plan_qty_update(0).unwrap(), QtyUpdate::RemoveLine);
    assert_eq!(plan_qty_update(7).unwrap(), QtyUpdate::SetQty(7));
    assert!(matches!(plan_qty_update(1000), Err(CartError::InvalidQty(1000))));
}

#[test]
fn repeated_add_increments_and_caps() {
    assert_eq!(merge_line_qty(None, 3), 3);
    assert_eq!(merge_line_qty(Some(3), 4), 7);
    assert_eq!(merge_line_qty(Some(990), 20), MAX_QTY);
    assert_eq!(merge_line_qty(Some(MAX_QTY), MAX_QTY), MAX_QTY);
}

#[test]
fn cart_error_messages() {
    assert_eq!(CartError::InvalidQty(1000).message(), "quantity 1000 out of range (0..=999)");
    assert_eq!(CartError::Db("disk".to_string()).message(), "db: disk");
}

#[test]
fn opened_cart_is_keyed_by_token_digest() {
    let (token, cart) = open_cart(1_700_000_000_000);
    assert_eq!(token.as_str().len(), 48);
    assert!(token.as_str().chars().all(|c| c.is_ascii_alphanumeric()));
    assert_eq!(cart.created_at, 1_700_000_000_000);
    assert_eq!(cart.updated_at, 1_700_000_000_000);
    assert_eq!(cart.token_hash, blake3::hash(token.as_str().as_bytes()).to_string());
    assert_eq!(cart_key(token.as_str()), cart.token_hash);
    let (other, _) = open_cart(0);
    assert_ne!(other.as_str(), token.as_str());
    assert_eq!(CartToken("t".to_string()).as_str(), "t");
}

#[test]
fn cart_key_is_the_blake3_hex_digest() {
    let key = cart_key("abc");
    assert_eq!(key, "6437b3ac38465133ffb63b75273a8db548c558465d79db03fd359c6cd5bd9d85");
    assert_ne!(key, "abc");
}

#[test]
fn order_status_codes() {
    for st in [OrderStatus::Created, OrderStatus::Paid, OrderStatus::Fulfilled, OrderStatus::Cancelled] {
        assert_eq!(OrderStatus::parse(st.as_str()), Some(st));
    }
    assert_eq!(OrderStatus::Created.as_str(), "created");
    assert_eq!(OrderStatus::parse("shipped"), None);
    assert!(matches!(order_status_from_column("paid".to_string()), Ok(OrderStatus::Paid)));
    match order_status_from_column("bogus".to_string()) {
        Err(OrderError::InvalidEnum { field, value }) => {
            assert_eq!(field, "status");
            assert_eq!(value, "bogus");
        }
        _ => panic!("expected InvalidEnum"),
    }
}

#[test]
fn checkout_needs_lines() {
    assert!(matches!(check_checkout_items("UAH", &[]), Err(OrderError::EmptyCheckout)));
    assert!(check_checkout_items("UAH", &[unit("u1")]).is_ok());
    assert!(matches!(begin_checkout("guest:1", "UAH", &[]), Err(OrderError::EmptyCheckout)));
}

#[test]
fn checkout_rejects_item_with_currency_other_than_order_currency() {
    let mut item = unit("prod-a-1");
    item.product_id = "prod-a".to_string();
    item.title = "Електронна книга".to_string();
    item.unit_price_minor = 10_000;
    item.currency = "EUR".to_string();
    let items = vec![item];
    let err = match begin_checkout("guest:currency", "UAH", &items) {
        Err(e) => e,
        Ok(_) => panic!("mixed-currency checkout must be rejected"),
    };
    match &err {
        OrderError::CurrencyMismatch { expected, found } => {
            assert_eq!(expected, "UAH");
            assert_eq!(found, "EUR");
        }
        other => panic!("got {other:?}"),
    }
    assert_eq!(err.message(), "currency mismatch: order in UAH, item in EUR");
}

#[test]
fn currency_check_names_first_foreign_line() {
    let mut second = unit("u2");
    second.currency = "USD".to_string();
    let mut third = unit("u3");
    third.currency = "EUR".to_string();
    match check_checkout_items("UAH", &[unit("u1"), second, third]) {
        Err(OrderError::CurrencyMismatch { expected, found }) => {
            assert_eq!(expected, "UAH");
            assert_eq!(found, "USD");
        }
        other => panic!("got {other:?}"),
    }
    // An empty list is refused as empty, whatever the currency.
    assert!(matches!(check_checkout_items("EUR", &[]), Err(OrderError::EmptyCheckout)));
}

fn is_uuid_v4(s: &str) -> bool {
    let b = s.as_bytes();
    b.len() == 36
        && b.iter().enumerate().all(|(i, c)| match i {
            8 | 13 | 18 | 23 => *c == b'-',
            _ => c.is_ascii_digit() || (b'a'..=b'f').contains(c),
        })
        && b[14] == b'4'
        && matches!(b[19], b'8' | b'9' | b'a' | b'b')
}

#[test]
fn checkout_start_draws_id_and_event() {
    let mut second = unit("u2");
    second.variant_id = Some("v2".to_string());
    second.config_snapshot = Some("{\"size\":\"L\"}".to_string());
    let start = begin_checkout("guest:1", "UAH", &[unit("u1"), second]).unwrap();
    assert_eq!(start.order_id.len(), 36);
    assert!(is_uuid_v4(&start.order_id), "{}", start.order_id);
    assert_eq!(start.lines.len(), 2);
    assert_eq!(start.lines[0].id, "u1");
    assert_eq!(start.lines[1].id, "u2");
    for line in &start.lines {
        assert_eq!(line.order_id, start.order_id);
        assert_eq!(line.product_id, "p1");
        assert_eq!(line.unit_price_minor, 500);
        assert_eq!(line.currency, "UAH");
    }
    let total: i64 = start.lines.iter().map(|l| l.unit_price_minor).sum();
    assert_eq!(total, 1000);
    assert_eq!(start.lines[0].variant_id, None);
    assert_eq!(start.lines[1].variant_id.as_deref(), Some("v2"));
    assert_eq!(start.lines[1].config_snapshot.as_deref(), Some("{\"size\":\"L\"}"));
    let ev = &start.created_event;
    assert_eq!(ev.aggregate, "order");
    assert_eq!(ev.aggregate_id, start.order_id);
    assert_eq!(ev.event_type, "OrderCreated");
    let payload: serde_json::Value = serde_json::from_str(&ev.payload).unwrap();
    assert_eq!(payload["order_id"], start.order_id.as_str());
    assert_eq!(payload["buyer_id"], "guest:1");
    assert_eq!(payload["currency"], "UAH");
}

#[test]
fn order_created_payload_text() {
    let ev = order_created_event("o1", "b\"1", "UAH");
    assert_eq!(ev.payload, r#"{"buyer_id":"b\"1","currency":"UAH","order_id":"o1"}"#);
}

#[test]
fn order_error_messages() {
    assert_eq!(OrderError::EmptyCheckout.message(), "checkout requires at least one item");
    assert_eq!(OrderError::NotFound("o1".to_string()).message(), "order not found: o1");
    assert_eq!(
        OrderError::InvalidEnum { field: "status", value: "x".to_string() }.message(),
        "invalid status in row: x"
    );
    assert_eq!(OrderError::Json("eof".to_string()).message(), "serialization: eof");
    assert_eq!(OrderError::Db("busy".to_string()).message(), "db: busy");
}

#[test]
fn only_touched_lines_move_the_cart() {
    assert!(tiny_shop::orders::cart::touches_cart(1));
    assert!(!tiny_shop::orders::cart::touches_cart(0));
}
