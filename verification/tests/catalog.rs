use tiny_shop::catalog::projection::{int_val, projection_kind, str_val, ProjectionKind};
use tiny_shop::catalog::query::{
    build_fts_query, count_statement, early_search_result, order_clause, search_term, search_window, select_statement, SqlFragment,
    SqlParam, MAX_LIMIT,
};
use tiny_shop::catalog::search::{FilterCond, SearchError, SearchQuery, Sort};
use tiny_shop::catalog::taxonomy::{
    attribute_from_columns, filter_from_columns, resolve_translation_value, DataType, FilterType, Lang,
    TaxonomyError,
};
use tiny_shop::shared::Pagination;

fn query(category: Option<&str>, filters: Vec<FilterCond>, sort: Sort) -> SearchQuery {
    SearchQuery {
        text: None,
        category_id: category.map(|c| c.to_string()),
        filters,
        sort,
        page: Pagination { offset: 0, limit: 20 },
    }
}

fn texts(f: &SqlFragment) -> Vec<String> {
    f.params
        .iter()
        .map(|p| match p {
            SqlParam::Text(s) => format!("t:{s}"),
            SqlParam::Int(i) => format!("i:{i}"),
            SqlParam::RealBits(b) => format!("r:{b}"),
        })
        .collect()
}

#[test]
fn fts_query_prefixes_words_and_drops_syntax() {
    assert_eq!(build_fts_query("blue widget"), "blue* widget*");
    assert_eq!(build_fts_query("  \"quoted\" (x) * + -"), "quoted* x*");
    assert_eq!(build_fts_query("wi-fi router"), "wifi* router*");
    assert_eq!(build_fts_query("snake_case   word"), "snake_case* word*");
    assert_eq!(build_fts_query("   "), "");
    assert_eq!(build_fts_query("Київ 2024"), "Київ* 2024*");
}

#[test]
fn order_clauses_break_ties_by_id() {
    assert_eq!(order_clause(Sort::PriceAsc), "pp.price_minor ASC, pp.id ASC");
    assert_eq!(order_clause(Sort::PriceDesc), "pp.price_minor DESC, pp.id ASC");
    assert_eq!(order_clause(Sort::Newest), "pp.created_at DESC, pp.id ASC");
    assert_eq!(order_clause(Sort::Relevance), "pp.created_at DESC, pp.id ASC");
    assert_eq!(Sort::default(), Sort::Relevance);
}

#[test]
fn count_statement_of_plain_listing() {
    let q = query(None, vec![], Sort::Relevance);
    let f = count_statement(&q, &None);
    assert_eq!(f.sql, "SELECT COUNT(*) FROM product_projection pp WHERE pp.status = 'published'");
    assert!(f.params.is_empty());
}

#[test]
fn select_statement_with_category_fts_and_filters() {
    let q = query(
        Some("cat1"),
        vec![
            FilterCond::RangePrice { min_minor: Some(100), max_minor: None },
            FilterCond::CheckboxOr {
                attribute_id: "color".to_string(),
                values: vec!["red".to_string(), "blue".to_string()],
            },
            FilterCond::EnumAnd { attribute_id: "tags".to_string(), values: vec!["a".to_string()] },
            FilterCond::RangeGeneric { attribute_id: "ram".to_string(), min_bits: Some(7), max_bits: Some(9) },
            FilterCond::Number { attribute_id: "cores".to_string(), value_bits: 42 },
            FilterCond::CheckboxOr { attribute_id: "empty".to_string(), values: vec![] },
        ],
        Sort::PriceDesc,
    );
    let f = select_statement(&q, &Some(vec!["p1".to_string(), "p2".to_string()]), 20, 40);
    assert_eq!(
        f.sql,
        "SELECT pp.id, pp.title, pp.slug, pp.price_minor, pp.currency, pp.thumb FROM product_projection pp \
WHERE pp.status = 'published' AND pp.id IN (?, ?) \
AND pp.id IN (SELECT DISTINCT product_id FROM product_attr_index WHERE category_id = ?) \
AND pp.price_minor >= ? \
AND pp.id IN (SELECT product_id FROM product_attr_index WHERE attribute_id = ? AND val_text IN (?, ?)) \
AND pp.id IN (SELECT product_id FROM product_attr_index WHERE attribute_id = ? AND val_text IN (?) GROUP BY product_id HAVING COUNT(DISTINCT val_text) = ?) \
AND pp.id IN (SELECT product_id FROM product_attr_index WHERE attribute_id = ? AND val_num >= ? AND val_num <= ?) \
AND pp.id IN (SELECT product_id FROM product_attr_index WHERE attribute_id = ? AND val_num = ?) \
ORDER BY pp.price_minor DESC, pp.id ASC LIMIT ? OFFSET ?"
    );
    assert_eq!(
        texts(&f),
        vec![
            "t:p1", "t:p2", "t:cat1", "i:100", "t:color", "t:red", "t:blue", "t:tags", "t:a", "i:1", "t:ram",
            "r:7", "r:9", "t:cores", "r:42", "i:20", "i:40"
        ]
    );
}

#[test]
fn search_error_message() {
    assert_eq!(SearchError::Backend("boom".to_string()).message(), "search backend error: boom");
}

#[test]
fn projection_routes_each_event() {
    assert_eq!(projection_kind("ProductCreated", None), ProjectionKind::Created);
    assert_eq!(projection_kind("ProductUpdated", None), ProjectionKind::CoreUpdate);
    assert_eq!(projection_kind("ProductUpdated", Some("")), ProjectionKind::CoreUpdate);
    assert_eq!(projection_kind("ProductUpdated", Some("attribute_value_set")), ProjectionKind::AttributeSet);
    assert_eq!(
        projection_kind("ProductUpdated", Some("attribute_value_cleared")),
        ProjectionKind::AttributeCleared
    );
    assert_eq!(projection_kind("ProductUpdated", Some("media_added")), ProjectionKind::Touch);
    assert_eq!(projection_kind("ProductPublished", None), ProjectionKind::StatusChange);
    assert_eq!(projection_kind("ProductUnpublished", None), ProjectionKind::StatusChange);
    assert_eq!(projection_kind("ProductArchived", None), ProjectionKind::StatusChange);
    assert_eq!(projection_kind("ProductDeleted", None), ProjectionKind::Deleted);
    assert_eq!(projection_kind("AccountRegistered", None), ProjectionKind::Ignored);
    assert!(ProjectionKind::Created.refreshes_search_text());
    assert!(ProjectionKind::AttributeCleared.refreshes_search_text());
    assert!(!ProjectionKind::Touch.refreshes_search_text());
    assert!(!ProjectionKind::StatusChange.refreshes_search_text());
}

#[test]
fn payload_field_defaults() {
    assert_eq!(str_val(&Some("x".to_string())), "x");
    assert_eq!(str_val(&None), "");
    assert_eq!(int_val(Some(-3)), -3);
    assert_eq!(int_val(None), 0);
}

#[test]
fn taxonomy_codes_roundtrip() {
    for dt in [DataType::String, DataType::Number, DataType::Enum, DataType::Bool] {
        assert_eq!(DataType::parse(dt.as_str()), Some(dt));
    }
    for ft in [
        FilterType::CheckboxOr,
        FilterType::EnumAnd,
        FilterType::String,
        FilterType::Number,
        FilterType::RangePrice,
        FilterType::RangeGeneric,
    ] {
        assert_eq!(FilterType::parse(ft.as_str()), Some(ft));
    }
    assert_eq!(DataType::parse("text"), None);
    assert_eq!(FilterType::parse("checkbox"), None);
    assert_eq!(Lang::Uk.as_str(), "uk");
    assert_eq!(Lang::Ru.as_str(), "ru");
}

#[test]
fn attribute_rows_check_their_data_type() {
    let a = attribute_from_columns(
        "a1".to_string(),
        "c1".to_string(),
        "RAM".to_string(),
        "number".to_string(),
        Some("GB".to_string()),
        1,
        3,
    )
    .unwrap();
    assert_eq!(a.data_type, DataType::Number);
    assert!(a.is_required);
    assert_eq!(a.unit.as_deref(), Some("GB"));
    let err = attribute_from_columns(
        "a1".to_string(),
        "c1".to_string(),
        "RAM".to_string(),
        "float".to_string(),
        None,
        0,
        3,
    )
    .unwrap_err();
    match &err {
        TaxonomyError::InvalidEnum { field, value } => {
            assert_eq!(*field, "data_type");
            assert_eq!(value, "float");
        }
        _ => panic!("unexpected error"),
    }
    assert_eq!(err.message(), "invalid data_type in row: float");
    assert_eq!(TaxonomyError::Db("x".to_string()).message(), "db: x");
}

#[test]
fn filter_rows_check_their_type() {
    let f = filter_from_columns("f1".to_string(), "c1".to_string(), "a1".to_string(), "range_price".to_string(), 2)
        .unwrap();
    assert_eq!(f.filter_type, FilterType::RangePrice);
    assert!(matches!(
        filter_from_columns("f1".to_string(), "c1".to_string(), "a1".to_string(), "slider".to_string(), 2),
        Err(TaxonomyError::InvalidEnum { field: "filter_type", .. })
    ));
}

#[test]
fn translation_falls_back_to_canonical() {
    assert_eq!(resolve_translation_value(Some("Телефони".to_string()), "Телефоны"), "Телефони");
    assert_eq!(resolve_translation_value(None, "Phones"), "Phones");
}

#[test]
fn search_terms_hold_only_plain_characters() {
    assert_eq!(search_term(None), None);
    assert_eq!(search_term(Some("  ( ) \" ")), None);
    assert_eq!(search_term(Some("red+blue shoes")).as_deref(), Some("redblue* shoes*"));
    let term = build_fts_query("a\"b (c) d*e -f +g h:i");
    assert!(term.chars().all(|c| c.is_alphanumeric() || c == '_' || c == '*' || c == ' '), "{term}");
    assert_eq!(term, "ab* c* de* f* g* hi*");
}

#[test]
fn search_window_clamps_the_limit() {
    assert_eq!(search_window(Pagination { offset: 40, limit: 20 }), (20, 40));
    assert_eq!(search_window(Pagination { offset: 0, limit: 0 }), (1, 0));
    assert_eq!(search_window(Pagination { offset: 7, limit: 1000 }), (MAX_LIMIT as i64, 7));
    assert_eq!(search_window(Pagination { offset: u32::MAX, limit: MAX_LIMIT }), (100, u32::MAX as i64));
}

#[test]
fn search_ends_early_only_when_nothing_matches() {
    let r = early_search_result(Some(0), None).expect("no full-text hit ends the search");
    assert!(r.items.is_empty());
    assert_eq!(r.total, 0);
    assert!(r.facets.is_empty());
    assert!(early_search_result(None, Some(0)).is_some());
    assert!(early_search_result(Some(3), Some(0)).is_some());
    assert!(early_search_result(Some(3), None).is_none());
    assert!(early_search_result(None, None).is_none());
    assert!(early_search_result(Some(3), Some(5)).is_none());
}
