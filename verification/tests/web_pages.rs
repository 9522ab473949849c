use tiny_shop::catalog::search::{CatalogCard, FilterCond};
use tiny_shop::catalog::taxonomy::{Category, Filter, FilterType};
use tiny_shop::orders::cart::{CartError, CartItem};
use tiny_shop::web::cart::{cart_total_minor, check_add_currency, default_qty, display_currency, line_total_minor, new_cart_item, AddForm};
use tiny_shop::web::category::{
    attr_param, checkbox_values, encode_qs, fieldset_kind, filter_cond_for, legend_with_unit, listing_nav,
    listing_offset, pagination_href, range_params, values_for, FieldsetKind, ListingQuery,
};
use tiny_shop::web::checkout::{checkout_done_location, guest_buyer_id, plan_order_items, validate_contact, ContactForm};
use tiny_shop::web::error::WebError;
use tiny_shop::web::submit::{SubmitAction, SubmitFlow, SubmitStage};
use tiny_shop::web::sitemap::{
    category_loc, escape_xml, next_product_offset, product_loc, robots_txt, sitemap_xml, CategoryWalk,
};

fn item(id: i64, product: &str, qty: i64, price: i64, currency: &str) -> CartItem {
    CartItem {
        id,
        cart_id: "cart".to_string(),
        product_id: product.to_string(),
        variant_id: None,
        qty,
        title: format!("Title {product}"),
        unit_price_minor: price,
        currency: currency.to_string(),
        added_at: 0,
    }
}

fn card(id: &str, price: i64, currency: &str) -> CatalogCard {
    CatalogCard {
        id: id.to_string(),
        seller_id: format!("seller-{id}"),
        category_id: None,
        title: format!("Fresh {id}"),
        slug: format!("{id}-slug"),
        description: String::new(),
        price_minor: price,
        currency: currency.to_string(),
        thumb: None,
    }
}

fn raw(pairs: &[(&str, &str)]) -> Vec<(String, String)> {
    pairs.iter().map(|(k, v)| (k.to_string(), v.to_string())).collect()
}

#[test]
fn cart_totals_multiply_and_saturate() {
    let items = vec![item(1, "a", 3, 250, "UAH"), item(2, "b", 2, 1000, "UAH")];
    assert_eq!(line_total_minor(&items[0]), 750);
    assert_eq!(cart_total_minor(&items), 2750);
    assert_eq!(cart_total_minor(&[]), 0);
    let huge = vec![item(1, "a", 999, i64::MAX / 2, "UAH"), item(2, "b", 1, 5, "UAH")];
    assert_eq!(cart_total_minor(&huge), i64::MAX);
    assert_eq!(display_currency(&items), "UAH");
    assert_eq!(display_currency(&[]), "UAH");
    assert_eq!(display_currency(&[item(1, "a", 1, 1, "USD")]), "USD");
}

#[test]
fn cart_accepts_only_its_currency() {
    let items = vec![item(1, "a", 1, 100, "UAH")];
    assert!(check_add_currency(&items, "UAH").is_ok());
    match check_add_currency(&items, "USD") {
        Err(WebError::BadRequest(m)) => assert_eq!(m, "Товар у іншій валюті не можна додати до цього кошика"),
        _ => panic!("expected a bad request"),
    }
    assert!(check_add_currency(&[], "USD").is_ok());
}

#[test]
fn new_cart_line_from_catalog_card() {
    let form = AddForm { slug: "a-slug".to_string(), qty: default_qty() };
    assert_eq!(form.qty, 1);
    let line = new_cart_item(&card("a", 499, "UAH"), 2);
    assert_eq!(line.product_id, "a");
    assert_eq!(line.variant_id, None);
    assert_eq!(line.qty, 2);
    assert_eq!(line.title, "Fresh a");
    assert_eq!(line.unit_price_minor, 499);
    assert_eq!(line.currency, "UAH");
}

#[test]
fn checkout_expands_units_at_fresh_prices() {
    let items = vec![item(1, "a", 2, 100, "UAH"), item(2, "b", 1, 300, "UAH")];
    let cards = vec![Some(card("a", 150, "UAH")), Some(card("b", 300, "UAH"))];
    let plan = plan_order_items(&items, &cards).unwrap();
    assert_eq!(plan.currency, "UAH");
    assert_eq!(plan.items.len(), 3);
    assert_eq!(plan.items[0].product_id, "a");
    assert_eq!(plan.items[1].product_id, "a");
    assert_eq!(plan.items[2].product_id, "b");
    assert_eq!(plan.items[0].unit_price_minor, 150);
    assert_eq!(plan.items[0].seller_id, "seller-a");
    assert_eq!(plan.items[0].title, "Fresh a");
    let total: i64 = plan.items.iter().map(|i| i.unit_price_minor).sum();
    assert_eq!(total, 150 * 2 + 300);
    assert_ne!(plan.items[0].id, plan.items[1].id);
    assert_eq!(plan.items[0].id.len(), 36);
    assert!(plan.items.iter().all(|i| i.currency == plan.currency));
    // A plan is always a valid start of a checkout in its own currency.
    let start = tiny_shop::orders::order::begin_checkout("guest:x", &plan.currency, &plan.items).unwrap();
    let stored: i64 = start.lines.iter().map(|l| l.unit_price_minor).sum();
    assert_eq!(stored, 600);
}

#[test]
fn checkout_refusals() {
    let items = vec![item(1, "a", 1, 100, "UAH"), item(2, "b", 1, 300, "UAH")];
    match plan_order_items(&items, &[Some(card("a", 100, "UAH")), None]) {
        Err(WebError::BadRequest(m)) => assert_eq!(
            m,
            "Товар \"Title b\" більше не доступний для замовлення. Будь ласка, поверніться до кошика."
        ),
        _ => panic!("expected unavailable"),
    }
    match plan_order_items(&items, &[Some(card("a", 100, "UAH")), Some(card("b", 100, "USD"))]) {
        Err(WebError::BadRequest(m)) => assert_eq!(m, "товари в кошику мають різні валюти, оформлення неможливе"),
        _ => panic!("expected mixed currencies"),
    }
    let zero = vec![item(1, "a", 0, 100, "UAH")];
    match plan_order_items(&zero, &[Some(card("a", 100, "UAH"))]) {
        Err(WebError::BadRequest(m)) => assert_eq!(m, "усі товари кошика більше не доступні"),
        _ => panic!("expected nothing to order"),
    }
}

fn contact_error(form: &ContactForm) -> String {
    match validate_contact(form) {
        Err(m) => m,
        Ok(_) => panic!("expected a refusal"),
    }
}

fn accepted(form: &ContactForm) -> tiny_shop::orders::order::NewOrderContact {
    match validate_contact(form) {
        Ok(c) => c,
        Err(m) => panic!("refused: {m}"),
    }
}

#[test]
fn contact_validation() {
    let ok = accepted(&ContactForm { email: "  a@b.co ".to_string(), name: Some("  Ann ".to_string()) });
    assert_eq!(ok.email, "a@b.co");
    assert_eq!(ok.name.as_deref(), Some("Ann"));
    let blank_name = accepted(&ContactForm { email: "a@b.co".to_string(), name: Some("   ".to_string()) });
    assert_eq!(blank_name.name, None);
    let bad = "Вкажіть коректну електронну пошту.";
    assert_eq!(contact_error(&ContactForm { email: "".to_string(), name: None }), bad);
    assert_eq!(contact_error(&ContactForm { email: "ab.co".to_string(), name: None }), bad);
    assert_eq!(contact_error(&ContactForm { email: "@b.co".to_string(), name: None }), bad);
    assert_eq!(contact_error(&ContactForm { email: "a@".to_string(), name: None }), bad);
    // The documented rule asks for an `@` with non-empty parts on both sides, nothing more.
    assert_eq!(accepted(&ContactForm { email: "a@b".to_string(), name: None }).email, "a@b");
    assert_eq!(
        contact_error(&ContactForm { email: "a b@c.d".to_string(), name: None }),
        "Електронна пошта містить недопустимі символи."
    );
    let long = format!("{}@b.co", "a".repeat(250));
    assert_eq!(contact_error(&ContactForm { email: long, name: None }), bad);
    assert_eq!(
        contact_error(&ContactForm { email: "a@b.co".to_string(), name: Some("x\u{7}y".to_string()) }),
        "Ім'я містить недопустимі символи або занадто довге."
    );
    // DEL and a C1 control are control characters too; a no-break space inside a name is not.
    assert_eq!(
        contact_error(&ContactForm { email: "a@b.co".to_string(), name: Some("x\u{7f}y".to_string()) }),
        "Ім'я містить недопустимі символи або занадто довге."
    );
    assert_eq!(
        contact_error(&ContactForm { email: "a@b.co".to_string(), name: Some("x\u{85}y".to_string()) }),
        "Ім'я містить недопустимі символи або занадто довге."
    );
    let nbsp = accepted(&ContactForm { email: "a@b.co".to_string(), name: Some("Ann\u{a0}Lee".to_string()) });
    assert_eq!(nbsp.name.as_deref(), Some("Ann\u{a0}Lee"));
    assert_eq!(
        contact_error(&ContactForm { email: "a@b.co".to_string(), name: Some("я".repeat(101)) }),
        "Ім'я містить недопустимі символи або занадто довге."
    );
}

#[test]
fn guest_ids_and_done_location() {
    let a = guest_buyer_id();
    let b = guest_buyer_id();
    assert!(a.starts_with("guest:"));
    assert_eq!(a.len(), 42);
    let u = a.as_bytes();
    assert!([14usize, 19, 24, 29].iter().all(|&i| u[i] == b'-'), "{a}");
    assert_eq!(u[20], b'4');
    assert!(matches!(u[25], b'8' | b'9' | b'a' | b'b'), "{a}");
    assert_ne!(a, b);
    assert_eq!(checkout_done_location("o-1"), "/checkout/done/o-1");
}

#[test]
fn web_error_from_cart_error_and_texts() {
    match WebError::from_cart_error(CartError::InvalidQty(1000)) {
        WebError::BadRequest(m) => assert_eq!(m, "invalid quantity: 1000"),
        _ => panic!("expected bad request"),
    }
    match WebError::from_cart_error(CartError::Db("locked".to_string())) {
        WebError::Internal(m) => assert_eq!(m, "locked"),
        _ => panic!("expected internal"),
    }
    assert_eq!(WebError::NotFound.message(), "not found");
    assert_eq!(WebError::BadRequest("x".to_string()).message(), "bad request: x");
    assert_eq!(WebError::Internal("y".to_string()).message(), "internal error: y");
    assert_eq!(WebError::NotFound.status_code(), 404);
    assert_eq!(WebError::BadRequest(String::new()).status_code(), 400);
    assert_eq!(WebError::Internal(String::new()).status_code(), 500);
}

#[test]
fn query_string_encoding_and_pagination_links() {
    assert_eq!(encode_qs("a b&c=d/é~-._"), "a%20b%26c%3Dd%2F%C3%A9~-._");
    let params = raw(&[("attr_color", "red"), ("page", "3"), ("attr_size", "x l")]);
    assert_eq!(pagination_href("phones", &params, 2), "/c/phones?attr_color=red&attr_size=x%20l&page=2");
    assert_eq!(pagination_href("phones", &[], 1), "/c/phones?page=1");
}

#[test]
fn filter_values_from_the_query_string() {
    let params = raw(&[("attr_color", "red"), ("attr_color", ""), ("attr_color", "blue"), ("other", "x")]);
    assert_eq!(values_for(&params, "attr_color"), vec!["red", "", "blue"]);
    assert_eq!(attr_param("color"), "attr_color");
    assert_eq!(range_params("ram"), ("attr_ram_min".to_string(), "attr_ram_max".to_string()));
    assert_eq!(
        checkbox_values(&params, "color"),
        Some(vec!["red".to_string(), String::new(), "blue".to_string()])
    );
    assert_eq!(checkbox_values(&params, "size"), None);
}

#[test]
fn filter_conditions_by_type() {
    let params = raw(&[("attr_color", "red")]);
    let f = |t: FilterType| Filter {
        id: "f".to_string(),
        category_id: "c".to_string(),
        attribute_id: "color".to_string(),
        filter_type: t,
        position: 0,
    };
    assert_eq!(
        filter_cond_for(&f(FilterType::CheckboxOr), &params, None, None),
        Some(FilterCond::CheckboxOr { attribute_id: "color".to_string(), values: vec!["red".to_string()] })
    );
    assert_eq!(
        filter_cond_for(&f(FilterType::EnumAnd), &params, None, None),
        Some(FilterCond::EnumAnd { attribute_id: "color".to_string(), values: vec!["red".to_string()] })
    );
    assert_eq!(filter_cond_for(&f(FilterType::EnumAnd), &[], None, None), None);
    assert_eq!(
        filter_cond_for(&f(FilterType::RangePrice), &[], None, Some((Some(100), None))),
        Some(FilterCond::RangePrice { min_minor: Some(100), max_minor: None })
    );
    assert_eq!(
        filter_cond_for(&f(FilterType::RangeGeneric), &[], Some((None, Some(8.0f64.to_bits()))), None),
        Some(FilterCond::RangeGeneric {
            attribute_id: "color".to_string(),
            min_bits: None,
            max_bits: Some(8.0f64.to_bits())
        })
    );
    assert_eq!(filter_cond_for(&f(FilterType::String), &params, None, None), None);
    assert_eq!(filter_cond_for(&f(FilterType::Number), &params, None, None), None);
}

#[test]
fn legends_paging_and_listing_query() {
    assert_eq!(legend_with_unit("RAM", Some("GB")), "RAM (GB)");
    assert_eq!(legend_with_unit("RAM", Some("")), "RAM");
    assert_eq!(legend_with_unit("RAM", None), "RAM");
    assert_eq!(listing_offset(1, 24), 0);
    assert_eq!(listing_offset(3, 24), 48);
    assert_eq!(listing_offset(0, 24), 0);
    assert_eq!(listing_offset(u32::MAX, u32::MAX), u32::MAX);
    assert_eq!(listing_nav(0, 24, 30), (false, true));
    assert_eq!(listing_nav(24, 6, 30), (true, false));
    assert_eq!(ListingQuery { page: None }.page_number(), 1);
    assert_eq!(ListingQuery { page: Some(0) }.page_number(), 1);
    assert_eq!(ListingQuery { page: Some(4) }.page_number(), 4);
}

#[test]
fn sitemap_document() {
    assert_eq!(escape_xml("a&b<c>d\"e"), "a&amp;b&lt;c&gt;d\"e");
    let locs = vec!["https://s/".to_string(), "https://s/c/a&b".to_string()];
    assert_eq!(
        sitemap_xml(&locs),
        [
            "<?xml version=\"1.0\" encoding=\"UTF-8\"?>\n",
            "<urlset xmlns=\"http://www.sitemaps.org/schemas/sitemap/0.9\">\n",
            "  <url><loc>https://s/</loc></url>\n",
            "  <url><loc>https://s/c/a&amp;b</loc></url>\n",
            "</urlset>\n",
        ]
        .concat()
    );
    assert_eq!(category_loc("https://s", "phones"), "https://s/c/phones");
    assert_eq!(product_loc("https://s", "blue"), "https://s/p/blue");
    assert_eq!(robots_txt("https://s"), "User-agent: *\nAllow: /\n\nSitemap: https://s/sitemap.xml\n");
    assert_eq!(next_product_offset(0, 100, 100, 250), Some(100));
    assert_eq!(next_product_offset(200, 100, 50, 250), None);
    assert_eq!(next_product_offset(0, 100, 0, 250), None);
    assert_eq!(next_product_offset(u32::MAX - 1, 100, 1, u64::MAX), Some(u32::MAX));
}

fn cat(id: &str, parent: Option<&str>, slug: &str) -> Category {
    Category {
        id: id.to_string(),
        parent_id: parent.map(|p| p.to_string()),
        name: id.to_string(),
        slug: slug.to_string(),
        path: String::new(),
        position: 0,
    }
}

#[test]
fn category_walk_is_breadth_first() {
    let mut walk = CategoryWalk::new();
    assert_eq!(walk.next_parent(), Some(None));
    walk.add_children("https://s", &[cat("1", None, "a"), cat("2", None, "b")]);
    assert_eq!(walk.next_parent(), Some(Some("1".to_string())));
    walk.add_children("https://s", &[cat("3", Some("1"), "a-x")]);
    assert_eq!(walk.next_parent(), Some(Some("2".to_string())));
    walk.add_children("https://s", &[]);
    assert_eq!(walk.next_parent(), Some(Some("3".to_string())));
    walk.add_children("https://s", &[]);
    assert_eq!(walk.next_parent(), None);
    assert_eq!(
        walk.into_paths(),
        vec!["https://s/c/a".to_string(), "https://s/c/b".to_string(), "https://s/c/a-x".to_string()]
    );
}

#[test]
fn escaped_locations_hold_no_brackets() {
    let e = escape_xml("https://s/c/<script>&x");
    assert!(!e.contains('<') && !e.contains('>'));
    assert_eq!(e, "https://s/c/&lt;script&gt;&amp;x");
}

#[test]
fn unchanged_prices_order_costs_the_cart_total() {
    let items = vec![item(1, "a", 3, 250, "UAH"), item(2, "b", 2, 1000, "UAH"), item(3, "c", 0, 70, "UAH")];
    let cards = vec![Some(card("a", 250, "UAH")), Some(card("b", 1000, "UAH")), Some(card("c", 70, "UAH"))];
    let plan = plan_order_items(&items, &cards).unwrap();
    let order_total: i64 = plan.items.iter().map(|i| i.unit_price_minor).sum();
    assert_eq!(order_total, cart_total_minor(&items));
    assert_eq!(plan.items.len(), 5);
}

#[test]
fn filter_form_shows_fieldsets_by_type() {
    assert_eq!(fieldset_kind(FilterType::CheckboxOr, true), Some(FieldsetKind::Checkbox));
    assert_eq!(fieldset_kind(FilterType::EnumAnd, true), Some(FieldsetKind::Checkbox));
    assert_eq!(fieldset_kind(FilterType::CheckboxOr, false), None);
    assert_eq!(fieldset_kind(FilterType::RangeGeneric, true), Some(FieldsetKind::AttributeRange));
    assert_eq!(fieldset_kind(FilterType::RangeGeneric, false), None);
    assert_eq!(fieldset_kind(FilterType::RangePrice, false), Some(FieldsetKind::PriceRange));
    assert_eq!(fieldset_kind(FilterType::String, true), None);
    assert_eq!(fieldset_kind(FilterType::Number, true), None);
}

fn contact_form(email: &str, name: Option<&str>) -> ContactForm {
    ContactForm { email: email.to_string(), name: name.map(|n| n.to_string()) }
}

#[test]
fn submit_flow_places_one_order_then_clears_and_redirects() {
    let items = vec![item(1, "a", 2, 100, "UAH"), item(2, "b", 1, 300, "UAH")];
    let form = contact_form(" buyer@example.com ", Some("Buyer"));
    let (mut flow, action) = SubmitFlow::begin(Some(items), &form, true);
    assert!(matches!(action, SubmitAction::ReadCard(0)));
    assert!(flow.awaits_card());
    let action = flow.card_read(Some(card("a", 150, "UAH")));
    assert!(matches!(action, SubmitAction::ReadCard(1)));
    let action = flow.card_read(Some(card("b", 300, "UAH")));
    let call = match action {
        SubmitAction::PlaceOrder(call) => call,
        _ => panic!("expected the order to be placed"),
    };
    assert_eq!(flow.current_stage(), SubmitStage::Order);
    assert!(call.buyer_id.starts_with("guest:"));
    assert_eq!(call.buyer_id.len(), 42);
    assert_eq!(call.currency, "UAH");
    assert_eq!(call.items.len(), 3);
    assert_eq!(call.items.iter().map(|i| i.unit_price_minor).sum::<i64>(), 600);
    assert_eq!(call.contact.email, "buyer@example.com");
    assert_eq!(call.contact.name.as_deref(), Some("Buyer"));
    assert!(matches!(flow.order_placed("o-1".to_string()), SubmitAction::ClearCart));
    assert_eq!(flow.current_stage(), SubmitStage::Clear);
    match flow.cart_cleared() {
        SubmitAction::Finish { location, set_cookie } => {
            assert_eq!(location, "/checkout/done/o-1");
            assert_eq!(set_cookie, "cart=; HttpOnly; SameSite=Lax; Path=/; Max-Age=0; Secure");
        }
        _ => panic!("expected the redirect"),
    }
    assert_eq!(flow.current_stage(), SubmitStage::Over);
}

#[test]
fn submit_flow_refusals() {
    let form = contact_form("a@b", None);
    let (flow, action) = SubmitFlow::begin(None, &form, false);
    assert!(matches!(action, SubmitAction::RedirectToCart));
    assert_eq!(flow.current_stage(), SubmitStage::Over);
    let (_, action) = SubmitFlow::begin(Some(vec![]), &form, false);
    assert!(matches!(action, SubmitAction::RedirectToCart));

    let (flow, action) = SubmitFlow::begin(Some(vec![item(1, "a", 1, 100, "UAH")]), &contact_form("", None), false);
    match action {
        SubmitAction::ShowContactError(m) => assert_eq!(m, "Вкажіть коректну електронну пошту."),
        _ => panic!("expected the form again"),
    }
    assert_eq!(flow.cart_items().len(), 1);

    // A product gone from the catalog stops the reading at once and names the line.
    let items = vec![item(1, "a", 1, 100, "UAH"), item(2, "b", 1, 100, "UAH"), item(3, "c", 1, 100, "UAH")];
    let (mut flow, _) = SubmitFlow::begin(Some(items), &form, false);
    assert!(matches!(flow.card_read(Some(card("a", 100, "UAH"))), SubmitAction::ReadCard(1)));
    match flow.card_read(None) {
        SubmitAction::Fail(WebError::BadRequest(m)) => assert_eq!(
            m,
            "Товар \"Title b\" більше не доступний для замовлення. Будь ласка, поверніться до кошика."
        ),
        _ => panic!("expected the line to be named"),
    }
    assert!(!flow.awaits_card());

    // Units in two currencies are refused after the last card.
    let items = vec![item(1, "a", 1, 100, "UAH"), item(2, "b", 1, 100, "UAH")];
    let (mut flow, _) = SubmitFlow::begin(Some(items), &form, false);
    flow.card_read(Some(card("a", 100, "UAH")));
    match flow.card_read(Some(card("b", 100, "USD"))) {
        SubmitAction::Fail(WebError::BadRequest(m)) => {
            assert_eq!(m, "товари в кошику мають різні валюти, оформлення неможливе")
        }
        _ => panic!("expected the currency refusal"),
    }
}
