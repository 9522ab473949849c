//! The catalog projection: how each product event is applied to the catalog's copy of the
//! product (its row, its attribute index and its full-text entry).
//!
//! `ProductCreated` inserts the row (ignored if it exists). `ProductUpdated` without a
//! reason rewrites the editable fields; with reason `attribute_value_set` or
//! `attribute_value_cleared` it writes or removes one indexed attribute value; with any other
//! reason (media, variants, translations, ...) it only moves `updated_at`, when the payload has
//! one. `ProductPublished`, `ProductUnpublished` and `ProductArchived` set the status to the
//! payload's `to`. `ProductDeleted` removes the product with its index and full-text entries.
//! Other events are ignored. Every change of indexed text rebuilds the full-text entry.

use vstd::prelude::*;

use crate::product::model::ProductStatus;
use crate::product::repository::transition_event;
use crate::text::str_eq;

verus! {

/// The fields of a product event's JSON payload that the projection reads; a field that is
/// absent (or not of the expected JSON type) is `None`.
#[derive(Debug, Clone)]
pub struct ProductEventFields {
    pub id: Option<String>,
    pub seller_id: Option<String>,
    pub title: Option<String>,
    pub slug: Option<String>,
    pub description: Option<String>,
    pub price_minor: Option<i64>,
    pub currency: Option<String>,
    pub status: Option<String>,
    pub created_at: Option<i64>,
    pub updated_at: Option<i64>,
    pub reason: Option<String>,
    pub attribute_id: Option<String>,
    pub val_text: Option<String>,
    /// The IEEE-754 bit pattern of `val_num`, handed on to the index unchanged.
    pub val_num_bits: Option<u64>,
    pub to: Option<String>,
}

/// How an event is applied.
#[derive(Debug, Clone, Copy, PartialEq, Eq, Structural)]
pub enum ProjectionKind {
    /// Insert the product row unless it exists.
    Created,
    /// Write one attribute value into the index (when the attribute is known to the catalog).
    AttributeSet,
    /// Remove one attribute value from the index.
    AttributeCleared,
    /// Rewrite title, slug, description, price, currency and `updated_at`.
    CoreUpdate,
    /// Only move `updated_at`, when the payload carries one.
    Touch,
    /// Set the status to the payload's `to`, with its `updated_at`.
    StatusChange,
    /// Remove the product, its index entries and its full-text entry.
    Deleted,
    /// Not a product event: nothing happens.
    Ignored,
}

/// The reason of a `ProductUpdated` payload, `""` when it has none.
pub open spec fn reason_text(reason: Option<Seq<char>>) -> Seq<char> {
    match reason {
        Some(r) => r,
        None => ""@,
    }
}

/// How an event of type `event_type` whose payload has reason `reason` is applied.
pub open spec fn kind_of(event_type: Seq<char>, reason: Option<Seq<char>>) -> ProjectionKind {
    if event_type == "ProductCreated"@ {
        ProjectionKind::Created
    } else if event_type == "ProductUpdated"@ {
        if reason_text(reason) == "attribute_value_set"@ {
            ProjectionKind::AttributeSet
        } else if reason_text(reason) == "attribute_value_cleared"@ {
            ProjectionKind::AttributeCleared
        } else if reason_text(reason) == ""@ {
            ProjectionKind::CoreUpdate
        } else {
            ProjectionKind::Touch
        }
    } else if event_type == "ProductPublished"@ || event_type == "ProductUnpublished"@
        || event_type == "ProductArchived"@ {
        ProjectionKind::StatusChange
    } else if event_type == "ProductDeleted"@ {
        ProjectionKind::Deleted
    } else {
        ProjectionKind::Ignored
    }
}

impl ProjectionKind {
    /// Whether applying the event rebuilds the product's full-text entry.
    pub open spec fn refreshes_text(self) -> bool {
        self == ProjectionKind::Created || self == ProjectionKind::AttributeSet
            || self == ProjectionKind::AttributeCleared || self == ProjectionKind::CoreUpdate
    }

    pub fn refreshes_search_text(&self) -> (r: bool)
        ensures
            r == self.refreshes_text(),
    {
        match self {
            ProjectionKind::Created => true,
            ProjectionKind::AttributeSet => true,
            ProjectionKind::AttributeCleared => true,
            ProjectionKind::CoreUpdate => true,
            _ => false,
        }
    }
}

/// Every event that rewrites text the search reads rebuilds the product's full-text entry: a
/// created product, a core update (a `ProductUpdated` without a reason, which rewrites title
/// and description) and an attribute value set or cleared. Status changes, deletions, touches
/// and foreign events leave it alone (a deletion removes it).
pub proof fn lemma_text_changes_refresh_search(reason: Option<Seq<char>>, other: Seq<char>)
    ensures
        kind_of("ProductCreated"@, reason).refreshes_text(),
        kind_of("ProductUpdated"@, None).refreshes_text(),
        kind_of("ProductUpdated"@, Some(""@)).refreshes_text(),
        kind_of("ProductUpdated"@, Some("attribute_value_set"@)).refreshes_text(),
        kind_of("ProductUpdated"@, Some("attribute_value_cleared"@)).refreshes_text(),
        kind_of("ProductUpdated"@, reason).refreshes_text() <==> (reason_text(reason) == ""@
            || reason_text(reason) == "attribute_value_set"@ || reason_text(reason)
            == "attribute_value_cleared"@),
        !kind_of("ProductPublished"@, reason).refreshes_text(),
        !kind_of("ProductUnpublished"@, reason).refreshes_text(),
        !kind_of("ProductArchived"@, reason).refreshes_text(),
        !kind_of("ProductDeleted"@, reason).refreshes_text(),
        other != "ProductCreated"@ && other != "ProductUpdated"@ ==> !kind_of(other, reason).refreshes_text(),
{
    reveal_strlit("ProductCreated");
    reveal_strlit("ProductUpdated");
    reveal_strlit("ProductPublished");
    reveal_strlit("ProductUnpublished");
    reveal_strlit("ProductArchived");
    reveal_strlit("ProductDeleted");
    reveal_strlit("attribute_value_set");
    reveal_strlit("attribute_value_cleared");
    reveal_strlit("");
    assert("ProductUpdated"@ != "ProductCreated"@) by {
        assert("ProductUpdated"@[7] != "ProductCreated"@[7]);
    }
    assert("ProductPublished"@ != "ProductCreated"@) by {
        assert("ProductPublished"@[7] != "ProductCreated"@[7]);
    }
    assert("ProductPublished"@ != "ProductUpdated"@) by {
        assert("ProductPublished"@[7] != "ProductUpdated"@[7]);
    }
    assert("ProductUnpublished"@ != "ProductCreated"@) by {
        assert("ProductUnpublished"@[7] != "ProductCreated"@[7]);
    }
    assert("ProductUnpublished"@ != "ProductUpdated"@) by {
        assert("ProductUnpublished"@[8] != "ProductUpdated"@[8]);
    }
    assert("ProductArchived"@ != "ProductCreated"@) by {
        assert("ProductArchived"@[7] != "ProductCreated"@[7]);
    }
    assert("ProductArchived"@ != "ProductUpdated"@) by {
        assert("ProductArchived"@[7] != "ProductUpdated"@[7]);
    }
    assert("ProductDeleted"@ != "ProductCreated"@) by {
        assert("ProductDeleted"@[7] != "ProductCreated"@[7]);
    }
    assert("ProductDeleted"@ != "ProductUpdated"@) by {
        assert("ProductDeleted"@[7] != "ProductUpdated"@[7]);
    }
    assert(""@.len() == 0);
    assert("attribute_value_set"@.len() == 19);
    assert("attribute_value_cleared"@.len() == 23);
    assert("attribute_value_set"@ != ""@);
    assert("attribute_value_cleared"@ != ""@);
    assert("attribute_value_cleared"@ != "attribute_value_set"@) by {
        assert("attribute_value_cleared"@[16] != "attribute_value_set"@[16]);
    }
}

/// Decides how an event is applied, from its type and its payload's reason.
pub fn projection_kind(event_type: &str, reason: Option<&str>) -> (k: ProjectionKind)
    ensures
        k == kind_of(
            event_type@,
            match reason {
                Some(r) => Some(r@),
                None => None,
            },
        ),
{
    if str_eq(event_type, "ProductCreated") {
        ProjectionKind::Created
    } else if str_eq(event_type, "ProductUpdated") {
        let r: &str = match reason {
            Some(r) => r,
            None => "",
        };
        if str_eq(r, "attribute_value_set") {
            ProjectionKind::AttributeSet
        } else if str_eq(r, "attribute_value_cleared") {
            ProjectionKind::AttributeCleared
        } else if str_eq(r, "") {
            ProjectionKind::CoreUpdate
        } else {
            ProjectionKind::Touch
        }
    } else if str_eq(event_type, "ProductPublished") || str_eq(event_type, "ProductUnpublished")
        || str_eq(event_type, "ProductArchived") {
        ProjectionKind::StatusChange
    } else if str_eq(event_type, "ProductDeleted") {
        ProjectionKind::Deleted
    } else {
        ProjectionKind::Ignored
    }
}

/// A text field of the payload, `""` when it is absent.
pub fn str_val(v: &Option<String>) -> (r: String)
    ensures
        r@ == (match v {
            Some(s) => s@,
            None => ""@,
        }),
{
    match v {
        Some(s) => s.clone(),
        None => "".to_string(),
    }
}

/// An integer field of the payload, 0 when it is absent.
pub fn int_val(v: Option<i64>) -> (r: i64)
    ensures
        r == (match v {
            Some(n) => n,
            None => 0,
        }),
{
    match v {
        Some(n) => n,
        None => 0,
    }
}

/// Every event that the product context writes is applied: a creation inserts, an edit
/// rewrites the fields, an attribute change updates the index, any other change of a child
/// entity moves `updated_at`, every status event sets the status, a deletion removes.
pub proof fn lemma_product_events_projected(from: ProductStatus, to: ProductStatus, reason: Seq<char>)
    ensures
        kind_of("ProductCreated"@, None) == ProjectionKind::Created,
        kind_of("ProductUpdated"@, None) == ProjectionKind::CoreUpdate,
        kind_of("ProductUpdated"@, Some("attribute_value_set"@)) == ProjectionKind::AttributeSet,
        kind_of("ProductUpdated"@, Some("attribute_value_cleared"@))
            == ProjectionKind::AttributeCleared,
        reason.len() > 0 && reason != "attribute_value_set"@ && reason != "attribute_value_cleared"@
            ==> kind_of("ProductUpdated"@, Some(reason)) == ProjectionKind::Touch,
        transition_event(from, to) matches Some(name) ==> kind_of(name, None)
            == ProjectionKind::StatusChange,
        kind_of("ProductDeleted"@, None) == ProjectionKind::Deleted,
{
    reveal_strlit("ProductCreated");
    reveal_strlit("ProductUpdated");
    reveal_strlit("ProductPublished");
    reveal_strlit("ProductUnpublished");
    reveal_strlit("ProductArchived");
    reveal_strlit("ProductDeleted");
    reveal_strlit("attribute_value_set");
    reveal_strlit("attribute_value_cleared");
    reveal_strlit("");
    assert("ProductCreated"@[7] == 'C' && "ProductUpdated"@[7] == 'U' && "ProductUpdated"@[8] == 'p');
    assert("ProductPublished"@[7] == 'P' && "ProductArchived"@[7] == 'A' && "ProductDeleted"@[7] == 'D');
    assert("ProductUnpublished"@[7] == 'U' && "ProductUnpublished"@[8] == 'n');
    assert("attribute_value_set"@.len() != "attribute_value_cleared"@.len());
}

} // verus!
