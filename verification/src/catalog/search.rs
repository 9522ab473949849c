//! Types of the catalog search interface: queries, filter conditions, result cards and documents.

use vstd::prelude::*;

use crate::shared::Pagination;

verus! {

/// Failure of the search backend, with its message.
#[derive(Debug)]
pub enum SearchError {
    Backend(String),
}

/// A filter condition on a listing.
///
/// Numeric attribute values are stored as `REAL`; here they travel as the IEEE-754 bit pattern
/// of the number (`f64::to_bits`), which this library only hands on to the query, never reads.
#[derive(Debug, Clone, PartialEq, Eq)]
pub enum FilterCond {
    /// Any of the chosen values (OR).
    CheckboxOr { attribute_id: String, values: Vec<String> },
    /// All of the chosen values are present (AND).
    EnumAnd { attribute_id: String, values: Vec<String> },
    /// Exactly this number.
    Number { attribute_id: String, value_bits: u64 },
    /// A range on a numeric attribute.
    RangeGeneric { attribute_id: String, min_bits: Option<u64>, max_bits: Option<u64> },
    /// A price range, in minor units.
    RangePrice { min_minor: Option<i64>, max_minor: Option<i64> },
}

/// Order of a listing.
#[derive(Debug, Clone, Copy, PartialEq, Eq, Structural)]
pub enum Sort {
    Relevance,
    PriceAsc,
    PriceDesc,
    Newest,
}

impl Default for Sort {
    /// The default order: relevance.
    fn default() -> (s: Sort)
        ensures
            s == Sort::Relevance,
    {
        Sort::Relevance
    }
}

/// A search/listing query.
#[derive(Debug, Clone)]
pub struct SearchQuery {
    pub text: Option<String>,
    pub category_id: Option<String>,
    pub filters: Vec<FilterCond>,
    pub sort: Sort,
    pub page: Pagination,
}

/// A product card of a listing (from the catalog projection).
#[derive(Debug, Clone, PartialEq, Eq)]
pub struct ProductCard {
    pub product_id: String,
    pub title: String,
    pub slug: String,
    pub price_minor: i64,
    pub currency: String,
    pub thumb: Option<String>,
}

/// A published product as the storefront reads it from the catalog projection by slug or id:
/// the current price and seller, its category and description.
#[derive(Debug, Clone, PartialEq, Eq)]
pub struct CatalogCard {
    pub id: String,
    pub seller_id: String,
    pub category_id: Option<String>,
    pub title: String,
    pub slug: String,
    pub description: String,
    pub price_minor: i64,
    pub currency: String,
    pub thumb: Option<String>,
}

/// A facet: attribute and (value, number of products).
#[derive(Debug, Clone, PartialEq, Eq)]
pub struct Facet {
    pub attribute_id: String,
    pub options: Vec<(String, u64)>,
}

/// A page of results with the total count.
#[derive(Debug, Clone, PartialEq, Eq)]
pub struct SearchResult {
    pub items: Vec<ProductCard>,
    pub total: u64,
    pub facets: Vec<Facet>,
}

/// Denormalized product document of the search index.
#[derive(Debug, Clone, PartialEq, Eq)]
pub struct ProductDoc {
    pub product_id: String,
    pub category_id: String,
    pub title: String,
    pub description: String,
    pub price_minor: i64,
    pub currency: String,
    pub slug: String,
    /// Concatenated indexed attribute texts.
    pub attrs_text: String,
}

impl SearchError {
    /// The error's text: `search backend error: <message>`.
    pub fn message(&self) -> (r: String)
        ensures
            r@ == (match self {
                SearchError::Backend(m) => "search backend error: "@ + m@,
            }),
    {
        match self {
            SearchError::Backend(m) => {
                let mut r = "search backend error: ".to_string();
                r.append(m.as_str());
                r
            },
        }
    }
}

} // verus!
