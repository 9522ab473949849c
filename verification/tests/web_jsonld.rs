use tiny_shop::catalog::search::{CatalogCard, ProductCard};
use tiny_shop::web::jsonld::{absolute_url, format_price_minor, jsonld_escape};
use tiny_shop::web::page::{breadcrumb_list, item_list, page_crumbs, product_ld};

#[test]
fn format_price_minor_positive() {
    assert_eq!(format_price_minor(19999), "199.99");
    assert_eq!(format_price_minor(5), "0.05");
    assert_eq!(format_price_minor(0), "0.00");
}

#[test]
fn format_price_minor_negative() {
    assert_eq!(format_price_minor(-19999), "-199.99");
    assert_eq!(format_price_minor(-5), "-0.05");
}

#[test]
fn absolute_url_joins_base_and_path() {
    assert_eq!(
        absolute_url("http://127.0.0.1:8080", "/p/blue-widget"),
        "http://127.0.0.1:8080/p/blue-widget"
    );
}

#[test]
fn format_price_minor_extremes() {
    assert_eq!(format_price_minor(100), "1.00");
    assert_eq!(format_price_minor(i64::MIN), "-92233720368547758.08");
    assert_eq!(format_price_minor(i64::MAX), "92233720368547758.07");
}

#[test]
fn jsonld_escape_hides_every_lt() {
    let raw = r#"{"name":"</script><b>x</b>"}"#;
    let escaped = jsonld_escape(raw);
    assert_eq!(escaped, r#"{"name":"\u003c/script>\u003cb>x\u003c/b>"}"#);
    assert!(!escaped.contains('<'));
    assert_eq!(jsonld_escape("plain"), "plain");
}

fn card() -> CatalogCard {
    CatalogCard {
        id: "p1".to_string(),
        seller_id: "s1".to_string(),
        category_id: Some("c1".to_string()),
        title: "Blue widget".to_string(),
        slug: "blue-widget".to_string(),
        description: "A widget".to_string(),
        price_minor: 12345,
        currency: "UAH".to_string(),
        thumb: Some("/img/w.png".to_string()),
    }
}

#[test]
fn product_ld_describes_offer() {
    let ld = product_ld("https://shop.example", &card());
    assert_eq!(ld.context, "https://schema.org");
    assert_eq!(ld.type_, "Product");
    assert_eq!(ld.name, "Blue widget");
    assert_eq!(ld.description, "A widget");
    assert_eq!(ld.image.as_deref(), Some("https://shop.example/img/w.png"));
    assert_eq!(ld.offers.type_, "Offer");
    assert_eq!(ld.offers.price, "123.45");
    assert_eq!(ld.offers.price_currency, "UAH");
    assert_eq!(ld.offers.availability, "https://schema.org/InStock");
}

#[test]
fn breadcrumbs_and_their_list() {
    let crumbs = page_crumbs(Some(("Widgets", "widgets")), "Blue widget");
    assert_eq!(
        crumbs,
        vec![
            ("Головна".to_string(), Some("/".to_string())),
            ("Widgets".to_string(), Some("/c/widgets".to_string())),
            ("Blue widget".to_string(), None),
        ]
    );
    let list = breadcrumb_list("https://shop.example", &crumbs, "/p/blue-widget");
    assert_eq!(list.type_, "BreadcrumbList");
    assert_eq!(list.item_list_element.len(), 3);
    assert_eq!(list.item_list_element[0].position, 1);
    assert_eq!(list.item_list_element[0].item, "https://shop.example/");
    assert_eq!(list.item_list_element[1].item, "https://shop.example/c/widgets");
    assert_eq!(list.item_list_element[2].position, 3);
    assert_eq!(list.item_list_element[2].name, "Blue widget");
    assert_eq!(list.item_list_element[2].item, "https://shop.example/p/blue-widget");

    let root_only = page_crumbs(None, "Home page");
    assert_eq!(root_only.len(), 2);
}

#[test]
fn item_list_numbers_products_from_one() {
    let items = vec![
        ProductCard {
            product_id: "a".to_string(),
            title: "A".to_string(),
            slug: "a-slug".to_string(),
            price_minor: 100,
            currency: "UAH".to_string(),
            thumb: None,
        },
        ProductCard {
            product_id: "b".to_string(),
            title: "B".to_string(),
            slug: "b-slug".to_string(),
            price_minor: 200,
            currency: "UAH".to_string(),
            thumb: Some("/t.png".to_string()),
        },
    ];
    let list = item_list("http://x", &items);
    assert_eq!(list.type_, "ItemList");
    assert_eq!(list.item_list_element.len(), 2);
    assert_eq!(list.item_list_element[0].position, 1);
    assert_eq!(list.item_list_element[1].position, 2);
    assert_eq!(list.item_list_element[1].item.url, "http://x/p/b-slug");
    assert_eq!(list.item_list_element[1].item.image.as_deref(), Some("http://x/t.png"));
    assert_eq!(list.item_list_element[0].item.image, None);
}
