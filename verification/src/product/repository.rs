//! The decisions and texts of the product repository: which event a status change emits,
//! how a stored row becomes a product, the JSON payloads of product events and the `SELECT`
//! that resolves translated names.
//!
//! Every write stores its change and its outbox event in one transaction (done by the
//! caller); the functions here say what is written.

use vstd::prelude::*;

use crate::json::{int_value, member, push_int_member, push_str_member, sep, str_value};
use crate::product::model::{Product, ProductStatus};
use crate::shared::NewEvent;

verus! {

/// Aggregate name of product events in the outbox.
pub const AGGREGATE: &'static str = "product";

/// `translations.entity_type` of a product.
pub const ENTITY_PRODUCT: &'static str = "product";

/// `translations.entity_type` of a digital variant.
pub const ENTITY_DIGITAL_VARIANT: &'static str = "digital_variant";

/// `translations.field` of a title.
pub const FIELD_TITLE: &'static str = "title";

/// `translations.field` of a description.
pub const FIELD_DESCRIPTION: &'static str = "description";

/// `translations.field` of a variant label.
pub const FIELD_LABEL: &'static str = "label";

/// Errors of the product repository.
#[derive(Debug)]
pub enum ProductError {
    /// Storage failure, with the storage layer's message.
    Db(String),
    /// A stored column value outside its canonical set (names the column and the value).
    InvalidEnum { field: &'static str, value: String },
}

/// The event that a status change emits, if any: publishing a draft, archiving or
/// unpublishing a published product. Every other pair emits none.
pub open spec fn transition_event(from: ProductStatus, to: ProductStatus) -> Option<Seq<char>> {
    match (from, to) {
        (ProductStatus::Draft, ProductStatus::Published) => Some("ProductPublished"@),
        (ProductStatus::Published, ProductStatus::Archived) => Some("ProductArchived"@),
        (ProductStatus::Published, ProductStatus::Draft) => Some("ProductUnpublished"@),
        _ => None,
    }
}

pub fn status_transition_event(from: ProductStatus, to: ProductStatus) -> (r: Option<&'static str>)
    ensures
        r is Some <==> transition_event(from, to) is Some,
        r matches Some(name) ==> transition_event(from, to) == Some(name@),
{
    match (from, to) {
        (ProductStatus::Draft, ProductStatus::Published) => Some("ProductPublished"),
        (ProductStatus::Published, ProductStatus::Archived) => Some("ProductArchived"),
        (ProductStatus::Published, ProductStatus::Draft) => Some("ProductUnpublished"),
        _ => None,
    }
}

/// Keeping a status emits nothing, and an archived product emits nothing whatever it becomes.
pub proof fn lemma_transition_events(from: ProductStatus, to: ProductStatus)
    ensures
        transition_event(from, from) is None,
        transition_event(ProductStatus::Archived, to) is None,
        transition_event(from, to) is Some ==> from != to,
        transition_event(from, to) == Some("ProductPublished"@) ==> to == ProductStatus::Published,
{
    reveal_strlit("ProductPublished");
    reveal_strlit("ProductArchived");
    reveal_strlit("ProductUnpublished");
    assert("ProductPublished"@[7] == 'P' && "ProductArchived"@[7] == 'A'
        && "ProductUnpublished"@[7] == 'U');
}

/// The status of a stored product row, or `InvalidEnum` naming the column and the value.
pub fn product_status_from_column(raw: String) -> (r: Result<ProductStatus, ProductError>)
    ensures
        match ProductStatus::from_code(raw@) {
            Some(st) => r matches Ok(x) && x == st,
            None => r matches Err(ProductError::InvalidEnum { field, value }) && field@ == "status"@
                && value@ == raw@,
        },
{
    match ProductStatus::parse(raw.as_str()) {
        Some(st) => Ok(st),
        None => Err(ProductError::InvalidEnum { field: "status", value: raw }),
    }
}

/// What a request to set a product's status does.
#[derive(Debug, Clone, Copy, PartialEq, Eq, Structural)]
pub enum StatusChange {
    /// No such product: nothing is changed and no event is emitted.
    Missing,
    /// The product already has that status: nothing is changed and no event is emitted.
    Unchanged,
    /// The status is written (with a new `updated_at`) and `emits` tells whether an event
    /// for the transition from `from` is written with it.
    Changed { from: ProductStatus, emits: bool },
}

/// Decides a status change from the stored status (`None` when there is no such product).
pub fn plan_status_change(current: Option<String>, to: ProductStatus) -> (r: Result<StatusChange, ProductError>)
    ensures
        match current {
            None => r matches Ok(c) && c == StatusChange::Missing,
            Some(raw) => match ProductStatus::from_code(raw@) {
                None => r matches Err(ProductError::InvalidEnum { field, value }) && field@
                    == "status"@ && value@ == raw@,
                Some(from) => if from == to {
                    r matches Ok(c) && c == StatusChange::Unchanged
                } else {
                    r matches Ok(c) && c == (StatusChange::Changed {
                        from,
                        emits: transition_event(from, to) is Some,
                    })
                },
            },
        },
{
    match current {
        None => Ok(StatusChange::Missing),
        Some(raw) => {
            let from = match product_status_from_column(raw) {
                Ok(st) => st,
                Err(e) => {
                    return Err(e);
                },
            };
            if from == to {
                Ok(StatusChange::Unchanged)
            } else {
                let ev = status_transition_event(from, to);
                Ok(StatusChange::Changed { from, emits: ev.is_some() })
            }
        },
    }
}

/// The payload of `ProductCreated`: a snapshot of the product.
pub open spec fn snapshot_text(p: Product) -> Seq<char> {
    "{"@ + member("created_at"@, int_value(p.created_at as int)) + ","@ + member(
        "currency"@,
        str_value(p.currency@),
    ) + ","@ + member("description"@, str_value(p.description@)) + ","@ + member(
        "id"@,
        str_value(p.id@),
    ) + ","@ + member("price_minor"@, int_value(p.price_minor as int)) + ","@ + member(
        "seller_id"@,
        str_value(p.seller_id@),
    ) + ","@ + member("slug"@, str_value(p.slug@)) + ","@ + member(
        "status"@,
        str_value(p.status.code()),
    ) + ","@ + member("title"@, str_value(p.title@)) + ","@ + member(
        "updated_at"@,
        int_value(p.updated_at as int),
    ) + "}"@
}

pub fn product_snapshot(p: &Product) -> (r: String)
    ensures
        r@ == snapshot_text(*p),
{
    let mut out = "{".to_string();
    push_int_member(&mut out, true, "created_at", p.created_at);
    push_str_member(&mut out, false, "currency", p.currency.as_str());
    push_str_member(&mut out, false, "description", p.description.as_str());
    push_str_member(&mut out, false, "id", p.id.as_str());
    push_int_member(&mut out, false, "price_minor", p.price_minor);
    push_str_member(&mut out, false, "seller_id", p.seller_id.as_str());
    push_str_member(&mut out, false, "slug", p.slug.as_str());
    push_str_member(&mut out, false, "status", p.status.as_str());
    push_str_member(&mut out, false, "title", p.title.as_str());
    push_int_member(&mut out, false, "updated_at", p.updated_at);
    out.append("}");
    proof {
        assert(sep(true) =~= Seq::<char>::empty());
        assert(out@ =~= snapshot_text(*p));
    }
    out
}

/// The outbox event of a new product.
pub fn product_created_event(p: &Product) -> (e: NewEvent)
    ensures
        e.aggregate@ == AGGREGATE@,
        e.aggregate_id@ == p.id@,
        e.event_type@ == "ProductCreated"@,
        e.payload@ == snapshot_text(*p),
{
    NewEvent::new(AGGREGATE, p.id.as_str(), "ProductCreated", product_snapshot(p))
}

/// The payload of `ProductUpdated` after an edit of the editable fields.
pub open spec fn edit_text(
    id: Seq<char>,
    title: Seq<char>,
    slug: Seq<char>,
    description: Seq<char>,
    price_minor: int,
    currency: Seq<char>,
    now: int,
) -> Seq<char> {
    "{"@ + member("currency"@, str_value(currency)) + ","@ + member(
        "description"@,
        str_value(description),
    ) + ","@ + member("id"@, str_value(id)) + ","@ + member("price_minor"@, int_value(price_minor))
        + ","@ + member("slug"@, str_value(slug)) + ","@ + member("title"@, str_value(title)) + ","@
        + member("updated_at"@, int_value(now)) + "}"@
}

/// The outbox event of an edit of a product's title, slug, description, price and currency
/// made at `now`.
pub fn product_edited_event(
    id: &str,
    title: &str,
    slug: &str,
    description: &str,
    price_minor: i64,
    currency: &str,
    now: i64,
) -> (e: NewEvent)
    ensures
        e.aggregate@ == AGGREGATE@,
        e.aggregate_id@ == id@,
        e.event_type@ == "ProductUpdated"@,
        e.payload@ == edit_text(id@, title@, slug@, description@, price_minor as int, currency@, now as int),
{
    let mut out = "{".to_string();
    push_str_member(&mut out, true, "currency", currency);
    push_str_member(&mut out, false, "description", description);
    push_str_member(&mut out, false, "id", id);
    push_int_member(&mut out, false, "price_minor", price_minor);
    push_str_member(&mut out, false, "slug", slug);
    push_str_member(&mut out, false, "title", title);
    push_int_member(&mut out, false, "updated_at", now);
    out.append("}");
    proof {
        assert(sep(true) =~= Seq::<char>::empty());
        assert(out@ =~= edit_text(id@, title@, slug@, description@, price_minor as int, currency@, now as int));
    }
    NewEvent::new(AGGREGATE, id, "ProductUpdated", out)
}

/// The payload of a status event.
pub open spec fn status_text(id: Seq<char>, from: ProductStatus, to: ProductStatus, now: int) -> Seq<char> {
    "{"@ + member("from"@, str_value(from.code())) + ","@ + member("id"@, str_value(id)) + ","@
        + member("to"@, str_value(to.code())) + ","@ + member("updated_at"@, int_value(now)) + "}"@
}

/// The outbox event of a status change of product `id` from `from` to `to` at `now`, if the
/// transition emits one.
pub fn status_changed_event(id: &str, from: ProductStatus, to: ProductStatus, now: i64) -> (r: Option<NewEvent>)
    ensures
        r is Some <==> transition_event(from, to) is Some,
        r matches Some(e) ==> {
            &&& e.aggregate@ == AGGREGATE@
            &&& e.aggregate_id@ == id@
            &&& transition_event(from, to) == Some(e.event_type@)
            &&& e.payload@ == status_text(id@, from, to, now as int)
        },
{
    match status_transition_event(from, to) {
        None => None,
        Some(event_type) => {
            let mut out = "{".to_string();
            push_str_member(&mut out, true, "from", from.as_str());
            push_str_member(&mut out, false, "id", id);
            push_str_member(&mut out, false, "to", to.as_str());
            push_int_member(&mut out, false, "updated_at", now);
            out.append("}");
            proof {
                assert(sep(true) =~= Seq::<char>::empty());
                assert(out@ =~= status_text(id@, from, to, now as int));
            }
            Some(NewEvent::new(AGGREGATE, id, event_type, out))
        },
    }
}

/// The outbox event of a deleted product; it is written only when a row was deleted.
pub fn product_deleted_event(id: &str) -> (e: NewEvent)
    ensures
        e.aggregate@ == AGGREGATE@,
        e.aggregate_id@ == id@,
        e.event_type@ == "ProductDeleted"@,
        e.payload@ == "{"@ + member("id"@, str_value(id@)) + "}"@,
{
    let mut out = "{".to_string();
    push_str_member(&mut out, true, "id", id);
    out.append("}");
    proof {
        assert(sep(true) =~= Seq::<char>::empty());
        assert(out@ =~= "{"@ + member("id"@, str_value(id@)) + "}"@);
    }
    NewEvent::new(AGGREGATE, id, "ProductDeleted", out)
}

/// The event of a deletion of product `id` that removed `rows_deleted` rows: `ProductDeleted`
/// when the product existed, nothing otherwise.
pub fn deletion_event(id: &str, rows_deleted: u64) -> (r: Option<NewEvent>)
    ensures
        r is Some <==> rows_deleted > 0,
        r matches Some(e) ==> {
            &&& e.aggregate@ == AGGREGATE@
            &&& e.aggregate_id@ == id@
            &&& e.event_type@ == "ProductDeleted"@
            &&& e.payload@ == "{"@ + member("id"@, str_value(id@)) + "}"@
        },
{
    if rows_deleted > 0 {
        Some(product_deleted_event(id))
    } else {
        None
    }
}

/// The `SELECT` of products with the title and description resolved to a language: a
/// translation where there is one, the canonical value otherwise. Its six leading
/// placeholders take (entity type, language, field) for the title and then for the
/// description; `where_clause` and `order_by` are the repository's own fixed texts.
pub open spec fn select_text(where_clause: Seq<char>, order_by: Seq<char>) -> Seq<char> {
    "SELECT p.id, p.seller_id, COALESCE(tt.value, p.title) AS title, p.slug, COALESCE(td.value, p.description) AS description, p.price_minor, p.currency, p.status, p.created_at, p.updated_at FROM products p LEFT JOIN translations tt ON tt.entity_type = ? AND tt.entity_id = p.id AND tt.lang = ? AND tt.field = ? LEFT JOIN translations td ON td.entity_type = ? AND td.entity_id = p.id AND td.lang = ? AND td.field = ? WHERE "@
        + where_clause + " ORDER BY "@ + order_by
}

/// Whether `t` occurs in `s` at position `i`.
pub open spec fn occurs_at(s: Seq<char>, t: Seq<char>, i: int) -> bool {
    0 <= i && i + t.len() <= s.len() && s.subrange(i, i + t.len()) == t
}

/// The join that looks up the translation of one field under the alias `alias`: its three
/// placeholders take the entity type, the language and the field.
pub open spec fn translation_join(alias: Seq<char>) -> Seq<char> {
    "LEFT JOIN translations "@ + alias + " ON "@ + alias + ".entity_type = ? AND "@ + alias
        + ".entity_id = p.id AND "@ + alias + ".lang = ? AND "@ + alias + ".field = ?"@
}

/// Each of title and description is read from its own translation: the title column falls
/// back from the join `tt`, the description column from the join `td`; `tt` is the first join
/// and holds the first three placeholders (no placeholder comes before it), and `td` follows
/// it at once with the next three. So the title's (entity, language, field) binds to
/// placeholders 1-3 and the description's to 4-6, whatever the `WHERE` and `ORDER BY` texts.
pub proof fn lemma_select_reads_each_field_translation(where_clause: Seq<char>, order_by: Seq<char>)
    ensures
        occurs_at(select_text(where_clause, order_by), "COALESCE(tt.value, p.title) AS title"@, 26),
        occurs_at(
            select_text(where_clause, order_by),
            "COALESCE(td.value, p.description) AS description"@,
            72,
        ),
        occurs_at(select_text(where_clause, order_by), translation_join("tt"@), 202),
        occurs_at(select_text(where_clause, order_by), translation_join("td"@), 307),
        translation_join("tt"@).len() == 104,
        forall|j: int| 0 <= j < 202 ==> select_text(where_clause, order_by)[j] != '?',
{
    let lit = "SELECT p.id, p.seller_id, COALESCE(tt.value, p.title) AS title, p.slug, COALESCE(td.value, p.description) AS description, p.price_minor, p.currency, p.status, p.created_at, p.updated_at FROM products p LEFT JOIN translations tt ON tt.entity_type = ? AND tt.entity_id = p.id AND tt.lang = ? AND tt.field = ? LEFT JOIN translations td ON td.entity_type = ? AND td.entity_id = p.id AND td.lang = ? AND td.field = ? WHERE "@;
    reveal_strlit("SELECT p.id, p.seller_id, COALESCE(tt.value, p.title) AS title, p.slug, COALESCE(td.value, p.description) AS description, p.price_minor, p.currency, p.status, p.created_at, p.updated_at FROM products p LEFT JOIN translations tt ON tt.entity_type = ? AND tt.entity_id = p.id AND tt.lang = ? AND tt.field = ? LEFT JOIN translations td ON td.entity_type = ? AND td.entity_id = p.id AND td.lang = ? AND td.field = ? WHERE ");
    reveal_strlit("COALESCE(tt.value, p.title) AS title");
    reveal_strlit("COALESCE(td.value, p.description) AS description");
    reveal_strlit("LEFT JOIN translations ");
    reveal_strlit(" ON ");
    reveal_strlit(".entity_type = ? AND ");
    reveal_strlit(".entity_id = p.id AND ");
    reveal_strlit(".lang = ? AND ");
    reveal_strlit(".field = ?");
    reveal_strlit("tt");
    reveal_strlit("td");
    let s = select_text(where_clause, order_by);
    assert(lit.len() == 418);
    assert(s.subrange(0, 418) =~= lit);
    assert(s.subrange(26, 62) =~= "COALESCE(tt.value, p.title) AS title"@);
    assert(s.subrange(72, 120) =~= "COALESCE(td.value, p.description) AS description"@);
    assert(s.subrange(202, 306) =~= translation_join("tt"@));
    assert(s.subrange(307, 411) =~= translation_join("td"@));
    assert forall|j: int| 0 <= j < 202 implies s[j] != '?' by {
        assert(s[j] == lit[j]);
    }
}

pub fn product_select_with_translations(where_clause: &str, order_by: &str) -> (r: String)
    ensures
        r@ == select_text(where_clause@, order_by@),
{
    let mut r = "SELECT p.id, p.seller_id, COALESCE(tt.value, p.title) AS title, p.slug, COALESCE(td.value, p.description) AS description, p.price_minor, p.currency, p.status, p.created_at, p.updated_at FROM products p LEFT JOIN translations tt ON tt.entity_type = ? AND tt.entity_id = p.id AND tt.lang = ? AND tt.field = ? LEFT JOIN translations td ON td.entity_type = ? AND td.entity_id = p.id AND td.lang = ? AND td.field = ? WHERE ".to_string();
    r.append(where_clause);
    r.append(" ORDER BY ");
    r.append(order_by);
    r
}

/// The statements of a seller's listing, newest change first, optionally limited to one
/// status.
pub struct SellerListing {
    /// The paged `SELECT`; after the six translation placeholders it takes the seller id,
    /// the status (where `status` is `Some`), the limit and the offset.
    pub select_sql: String,
    /// The `COUNT(*) AS total`; it takes the seller id and the status (where `Some`).
    pub count_sql: String,
    /// The status to bind, if the listing is limited to one.
    pub status: Option<&'static str>,
}

pub open spec fn listing_where(status: Option<ProductStatus>) -> Seq<char> {
    if status is Some {
        "p.seller_id = ? AND p.status = ?"@
    } else {
        "p.seller_id = ?"@
    }
}

pub fn seller_listing(status: Option<ProductStatus>) -> (r: SellerListing)
    ensures
        r.select_sql@ == select_text(listing_where(status), "p.updated_at DESC, p.id ASC"@)
            + " LIMIT ? OFFSET ?"@,
        r.count_sql@ == "SELECT COUNT(*) AS total FROM products p WHERE "@ + listing_where(status),
        r.status is Some <==> status is Some,
        r.status matches Some(s) ==> s@ == status->0.code(),
{
    let (where_clause, status_str): (&str, Option<&'static str>) = match status {
        Some(s) => ("p.seller_id = ? AND p.status = ?", Some(s.as_str())),
        None => ("p.seller_id = ?", None),
    };
    let mut select_sql = product_select_with_translations(where_clause, "p.updated_at DESC, p.id ASC");
    select_sql.append(" LIMIT ? OFFSET ?");
    let mut count_sql = "SELECT COUNT(*) AS total FROM products p WHERE ".to_string();
    count_sql.append(where_clause);
    SellerListing { select_sql, count_sql, status: status_str }
}

impl ProductError {
    /// The error's text: `db: <message>` or `invalid <field> in row: <value>`.
    pub fn message(&self) -> (r: String)
        ensures
            r@ == (match self {
                ProductError::Db(m) => "db: "@ + m@,
                ProductError::InvalidEnum { field, value } => "invalid "@ + field@ + " in row: "@
                    + value@,
            }),
    {
        match self {
            ProductError::Db(m) => {
                let mut r = "db: ".to_string();
                r.append(m.as_str());
                r
            },
            ProductError::InvalidEnum { field, value } => {
                let mut r = "invalid ".to_string();
                r.append(field);
                r.append(" in row: ");
                r.append(value.as_str());
                r
            },
        }
    }
}

} // verus!
