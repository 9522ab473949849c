use tiny_shop::catalog::projection::{projection_kind, ProjectionKind};
use tiny_shop::product::extras::{data_type_from_column, digital_config_from_columns, media_kind_from_column, product_updated_event};
use tiny_shop::product::model::{DataType, DeliveryKind, Lang, LicenseKind, MediaKind, Product, ProductStatus};
use tiny_shop::product::repository::{
    plan_status_change, product_created_event, product_deleted_event, product_edited_event,
    product_select_with_translations, product_snapshot, product_status_from_column, seller_listing,
    status_changed_event, status_transition_event, ProductError, StatusChange,
};

fn product() -> Product {
    Product {
        id: "p1".to_string(),
        seller_id: "s1".to_string(),
        title: "Курс \"Rust\"".to_string(),
        slug: "rust".to_string(),
        description: "line1\nline2".to_string(),
        price_minor: 19900,
        currency: "UAH".to_string(),
        status: ProductStatus::Draft,
        created_at: 1,
        updated_at: -2,
    }
}

#[test]
fn enum_codes_roundtrip() {
    for s in [ProductStatus::Draft, ProductStatus::Published, ProductStatus::Archived] {
        assert_eq!(ProductStatus::parse(s.as_str()), Some(s));
    }
    for d in [DeliveryKind::Download, DeliveryKind::PlatformView] {
        assert_eq!(DeliveryKind::parse(d.as_str()), Some(d));
    }
    for l in [LicenseKind::Single, LicenseKind::Multi] {
        assert_eq!(LicenseKind::parse(l.as_str()), Some(l));
    }
    for m in [MediaKind::Image, MediaKind::Video] {
        assert_eq!(MediaKind::parse(m.as_str()), Some(m));
    }
    assert_eq!(DeliveryKind::PlatformView.as_str(), "platform_view");
    assert_eq!(ProductStatus::parse("Draft"), None);
    assert_eq!(Lang::Ru.as_str(), "ru");
}

#[test]
fn status_events_follow_the_lifecycle() {
    let (draft, published, archived) = (ProductStatus::Draft, ProductStatus::Published, ProductStatus::Archived);
    assert_eq!(status_transition_event(draft, published), Some("ProductPublished"));
    assert_eq!(status_transition_event(published, archived), Some("ProductArchived"));
    assert_eq!(status_transition_event(published, draft), Some("ProductUnpublished"));
    assert_eq!(status_transition_event(draft, archived), None);
    assert_eq!(status_transition_event(archived, published), None);
    assert_eq!(status_transition_event(archived, draft), None);
    for s in [draft, published, archived] {
        assert_eq!(status_transition_event(s, s), None);
    }
}

#[test]
fn status_change_plans() {
    assert_eq!(plan_status_change(None, ProductStatus::Published).unwrap(), StatusChange::Missing);
    assert_eq!(
        plan_status_change(Some("published".to_string()), ProductStatus::Published).unwrap(),
        StatusChange::Unchanged
    );
    assert_eq!(
        plan_status_change(Some("draft".to_string()), ProductStatus::Published).unwrap(),
        StatusChange::Changed { from: ProductStatus::Draft, emits: true }
    );
    assert_eq!(
        plan_status_change(Some("draft".to_string()), ProductStatus::Archived).unwrap(),
        StatusChange::Changed { from: ProductStatus::Draft, emits: false }
    );
    match plan_status_change(Some("gone".to_string()), ProductStatus::Draft) {
        Err(ProductError::InvalidEnum { field, value }) => {
            assert_eq!(field, "status");
            assert_eq!(value, "gone");
        }
        _ => panic!("expected InvalidEnum"),
    }
    assert!(matches!(product_status_from_column("archived".to_string()), Ok(ProductStatus::Archived)));
}

#[test]
fn created_event_snapshots_the_product() {
    let p = product();
    let text = product_snapshot(&p);
    assert_eq!(
        text,
        "{\"created_at\":1,\"currency\":\"UAH\",\"description\":\"line1\\nline2\",\"id\":\"p1\",\
\"price_minor\":19900,\"seller_id\":\"s1\",\"slug\":\"rust\",\"status\":\"draft\",\
\"title\":\"Курс \\\"Rust\\\"\",\"updated_at\":-2}"
    );
    let value: serde_json::Value = serde_json::from_str(&text).unwrap();
    assert_eq!(value["title"], "Курс \"Rust\"");
    assert_eq!(value["updated_at"], -2);
    let ev = product_created_event(&p);
    assert_eq!(ev.aggregate, "product");
    assert_eq!(ev.aggregate_id, "p1");
    assert_eq!(ev.event_type, "ProductCreated");
    assert_eq!(ev.payload, text);
}

#[test]
fn edit_status_delete_and_touch_events() {
    let e = product_edited_event("p1", "T", "t", "D", 100, "USD", 5);
    assert_eq!(e.event_type, "ProductUpdated");
    assert_eq!(
        e.payload,
        r#"{"currency":"USD","description":"D","id":"p1","price_minor":100,"slug":"t","title":"T","updated_at":5}"#
    );
    let s = status_changed_event("p1", ProductStatus::Draft, ProductStatus::Published, 7).unwrap();
    assert_eq!(s.event_type, "ProductPublished");
    assert_eq!(s.payload, r#"{"from":"draft","id":"p1","to":"published","updated_at":7}"#);
    assert!(status_changed_event("p1", ProductStatus::Archived, ProductStatus::Draft, 7).is_none());
    let d = product_deleted_event("p1");
    assert_eq!(d.event_type, "ProductDeleted");
    assert_eq!(d.payload, r#"{"id":"p1"}"#);
    let t = product_updated_event("p1", "media_added", 9);
    assert_eq!(t.aggregate, "product");
    assert_eq!(t.event_type, "ProductUpdated");
    assert_eq!(t.payload, r#"{"id":"p1","reason":"media_added","updated_at":9}"#);
}

#[test]
fn digital_config_rows() {
    let c = digital_config_from_columns(
        "p1".to_string(),
        "download".to_string(),
        Some("multi".to_string()),
        Some("n".to_string()),
    )
    .unwrap();
    assert_eq!(c.delivery_kind, DeliveryKind::Download);
    assert_eq!(c.license_kind, Some(LicenseKind::Multi));
    let none = digital_config_from_columns("p1".to_string(), "platform_view".to_string(), None, None).unwrap();
    assert_eq!(none.license_kind, None);
    match digital_config_from_columns("p1".to_string(), "mail".to_string(), Some("bad".to_string()), None) {
        Err(ProductError::InvalidEnum { field, value }) => {
            assert_eq!(field, "delivery_kind");
            assert_eq!(value, "mail");
        }
        _ => panic!("expected InvalidEnum"),
    }
    match digital_config_from_columns("p1".to_string(), "download".to_string(), Some("site".to_string()), None) {
        Err(ProductError::InvalidEnum { field, value }) => {
            assert_eq!(field, "license_kind");
            assert_eq!(value, "site");
        }
        _ => panic!("expected InvalidEnum"),
    }
}

#[test]
fn media_and_attribute_columns() {
    assert!(matches!(media_kind_from_column("video".to_string()), Ok(MediaKind::Video)));
    assert!(matches!(
        media_kind_from_column("gif".to_string()),
        Err(ProductError::InvalidEnum { field: "kind", .. })
    ));
    assert!(matches!(data_type_from_column("bool".to_string()), Ok(DataType::Bool)));
    assert!(matches!(
        data_type_from_column("date".to_string()),
        Err(ProductError::InvalidEnum { field: "data_type", .. })
    ));
    assert_eq!(
        ProductError::InvalidEnum { field: "kind", value: "gif".to_string() }.message(),
        "invalid kind in row: gif"
    );
    assert_eq!(ProductError::Db("x".to_string()).message(), "db: x");
}

#[test]
fn select_with_translations_text() {
    let sql = product_select_with_translations("p.id = ?", "p.id ASC");
    assert!(sql.starts_with("SELECT p.id, p.seller_id, COALESCE(tt.value, p.title) AS title, p.slug,"));
    assert!(sql.ends_with(" WHERE p.id = ? ORDER BY p.id ASC"));
    assert_eq!(sql.matches('?').count(), 7);
    let listing = seller_listing(Some(ProductStatus::Published));
    assert!(listing.select_sql.ends_with(
        " WHERE p.seller_id = ? AND p.status = ? ORDER BY p.updated_at DESC, p.id ASC LIMIT ? OFFSET ?"
    ));
    assert_eq!(listing.count_sql, "SELECT COUNT(*) AS total FROM products p WHERE p.seller_id = ? AND p.status = ?");
    assert_eq!(listing.status, Some("published"));
    let all = seller_listing(None);
    assert_eq!(all.count_sql, "SELECT COUNT(*) AS total FROM products p WHERE p.seller_id = ?");
    assert_eq!(all.status, None);
}

#[test]
fn deletion_emits_only_for_an_existing_product() {
    let ev = tiny_shop::product::repository::deletion_event("p9", 1).unwrap();
    assert_eq!(ev.event_type, "ProductDeleted");
    assert_eq!(ev.payload, r#"{"id":"p9"}"#);
    assert!(tiny_shop::product::repository::deletion_event("p9", 0).is_none());
}

#[test]
fn every_product_event_is_routed_by_the_projection() {
    let p = product();
    assert_eq!(projection_kind(&product_created_event(&p).event_type, None), ProjectionKind::Created);
    let edited = product_edited_event("p1", "T", "t", "D", 1, "UAH", 2);
    assert_eq!(projection_kind(&edited.event_type, None), ProjectionKind::CoreUpdate);
    for (from, to) in [
        (ProductStatus::Draft, ProductStatus::Published),
        (ProductStatus::Published, ProductStatus::Archived),
        (ProductStatus::Published, ProductStatus::Draft),
    ] {
        let ev = status_changed_event("p1", from, to, 3).unwrap();
        assert_eq!(projection_kind(&ev.event_type, None), ProjectionKind::StatusChange);
    }
    let touched = product_updated_event("p1", "variant_added", 4);
    assert_eq!(projection_kind(&touched.event_type, Some("variant_added")), ProjectionKind::Touch);
    let set = product_updated_event("p1", "attribute_value_set", 4);
    assert_eq!(projection_kind(&set.event_type, Some("attribute_value_set")), ProjectionKind::AttributeSet);
    assert_eq!(projection_kind(&product_deleted_event("p1").event_type, None), ProjectionKind::Deleted);
}

#[test]
fn payload_strings_escape_as_json() {
    let ev = product_deleted_event("a\"b\\c\u{1}\t\u{8}\u{c}\r\n\u{1f}\u{7f}é/");
    assert_eq!(ev.payload, "{\"id\":\"a\\\"b\\\\c\\u0001\\t\\b\\f\\r\\n\\u001f\u{7f}é/\"}");
    let back: serde_json::Value = serde_json::from_str(&ev.payload).unwrap();
    assert_eq!(back["id"], "a\"b\\c\u{1}\t\u{8}\u{c}\r\n\u{1f}\u{7f}é/");
}
