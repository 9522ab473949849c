//! Catalog taxonomy: categories, typed attributes, enum options and category filters, plus the
//! canonical column values of the enumerations and their parsers.

use vstd::prelude::*;

use crate::text::str_eq;

verus! {

/// Interface languages for catalog names. `Uk` is the canonical language (stored directly in
/// `name`/`value`); `Ru` is an override kept in `translations`.
#[derive(Debug, Clone, Copy, PartialEq, Eq, Structural)]
pub enum Lang {
    Uk,
    Ru,
}

impl Lang {
    pub open spec fn code(self) -> Seq<char> {
        match self {
            Lang::Uk => "uk"@,
            Lang::Ru => "ru"@,
        }
    }

    /// The language code stored in `translations.lang`.
    pub fn as_str(self) -> (r: &'static str)
        ensures
            r@ == self.code(),
    {
        match self {
            Lang::Uk => "uk",
            Lang::Ru => "ru",
        }
    }
}

/// Distinct languages have distinct codes.
pub proof fn lemma_lang_codes_distinct(a: Lang, b: Lang)
    ensures
        a.code() == b.code() ==> a == b,
{
    reveal_strlit("uk");
    reveal_strlit("ru");
    assert("uk"@[0] != "ru"@[0]);
}

/// A catalog category (tree node). `path` is a materialized path such as `/electronics/phones`.
#[derive(Debug, Clone, PartialEq, Eq)]
pub struct Category {
    pub id: String,
    pub parent_id: Option<String>,
    pub name: String,
    pub slug: String,
    pub path: String,
    pub position: i64,
}

/// Value type of a catalog attribute (typed EAV).
#[derive(Debug, Clone, Copy, PartialEq, Eq, Structural)]
pub enum DataType {
    String,
    Number,
    Enum,
    Bool,
}

impl DataType {
    /// The canonical value of the `data_type` column.
    pub open spec fn code(self) -> Seq<char> {
        match self {
            DataType::String => "string"@,
            DataType::Number => "number"@,
            DataType::Enum => "enum"@,
            DataType::Bool => "bool"@,
        }
    }

    /// The data type whose canonical value is `s`, if any.
    pub open spec fn from_code(s: Seq<char>) -> Option<DataType> {
        if s == "string"@ {
            Some(DataType::String)
        } else if s == "number"@ {
            Some(DataType::Number)
        } else if s == "enum"@ {
            Some(DataType::Enum)
        } else if s == "bool"@ {
            Some(DataType::Bool)
        } else {
            None
        }
    }

    pub fn as_str(self) -> (r: &'static str)
        ensures
            r@ == self.code(),
    {
        match self {
            DataType::String => "string",
            DataType::Number => "number",
            DataType::Enum => "enum",
            DataType::Bool => "bool",
        }
    }

    /// Parses a `data_type` column value; `None` for anything outside the canonical set.
    pub fn parse(s: &str) -> (r: Option<DataType>)
        ensures
            r == DataType::from_code(s@),
    {
        if str_eq(s, "string") {
            Some(DataType::String)
        } else if str_eq(s, "number") {
            Some(DataType::Number)
        } else if str_eq(s, "enum") {
            Some(DataType::Enum)
        } else if str_eq(s, "bool") {
            Some(DataType::Bool)
        } else {
            None
        }
    }
}

/// Parsing the canonical value of a data type gives that data type back, and a successful parse
/// only ever comes from the canonical value.
pub proof fn lemma_data_type_roundtrip(d: DataType, s: Seq<char>)
    ensures
        DataType::from_code(d.code()) == Some(d),
        DataType::from_code(s) == Some(d) ==> d.code() == s,
{
    reveal_strlit("string");
    reveal_strlit("number");
    reveal_strlit("enum");
    reveal_strlit("bool");
    assert("string"@[0] == 's' && "number"@[0] == 'n' && "enum"@[0] == 'e' && "bool"@[0] == 'b');
}

/// An attribute of a category.
#[derive(Debug, Clone, PartialEq, Eq)]
pub struct Attribute {
    pub id: String,
    pub category_id: String,
    pub name: String,
    pub data_type: DataType,
    /// Technical unit (`GB`, `kg`, ...); never translated.
    pub unit: Option<String>,
    pub is_required: bool,
    pub position: i64,
}

/// An allowed value of an enum attribute.
#[derive(Debug, Clone, PartialEq, Eq)]
pub struct AttributeOption {
    pub id: String,
    pub attribute_id: String,
    pub value: String,
    pub position: i64,
}

/// Kind of a filter in the storefront UI (`filters.filter_type`).
#[derive(Debug, Clone, Copy, PartialEq, Eq, Structural)]
pub enum FilterType {
    CheckboxOr,
    EnumAnd,
    String,
    Number,
    RangePrice,
    RangeGeneric,
}

impl FilterType {
    /// The canonical value of the `filter_type` column.
    pub open spec fn code(self) -> Seq<char> {
        match self {
            FilterType::CheckboxOr => "checkbox_or"@,
            FilterType::EnumAnd => "enum_and"@,
            FilterType::String => "string"@,
            FilterType::Number => "number"@,
            FilterType::RangePrice => "range_price"@,
            FilterType::RangeGeneric => "range_generic"@,
        }
    }

    /// The filter type whose canonical value is `s`, if any.
    pub open spec fn from_code(s: Seq<char>) -> Option<FilterType> {
        if s == "checkbox_or"@ {
            Some(FilterType::CheckboxOr)
        } else if s == "enum_and"@ {
            Some(FilterType::EnumAnd)
        } else if s == "string"@ {
            Some(FilterType::String)
        } else if s == "number"@ {
            Some(FilterType::Number)
        } else if s == "range_price"@ {
            Some(FilterType::RangePrice)
        } else if s == "range_generic"@ {
            Some(FilterType::RangeGeneric)
        } else {
            None
        }
    }

    pub fn as_str(self) -> (r: &'static str)
        ensures
            r@ == self.code(),
    {
        match self {
            FilterType::CheckboxOr => "checkbox_or",
            FilterType::EnumAnd => "enum_and",
            FilterType::String => "string",
            FilterType::Number => "number",
            FilterType::RangePrice => "range_price",
            FilterType::RangeGeneric => "range_generic",
        }
    }

    /// Parses a `filter_type` column value; `None` for anything outside the canonical set.
    pub fn parse(s: &str) -> (r: Option<FilterType>)
        ensures
            r == FilterType::from_code(s@),
    {
        if str_eq(s, "checkbox_or") {
            Some(FilterType::CheckboxOr)
        } else if str_eq(s, "enum_and") {
            Some(FilterType::EnumAnd)
        } else if str_eq(s, "string") {
            Some(FilterType::String)
        } else if str_eq(s, "number") {
            Some(FilterType::Number)
        } else if str_eq(s, "range_price") {
            Some(FilterType::RangePrice)
        } else if str_eq(s, "range_generic") {
            Some(FilterType::RangeGeneric)
        } else {
            None
        }
    }
}

/// Parsing the canonical value of a filter type gives that filter type back, and a successful
/// parse only ever comes from the canonical value.
pub proof fn lemma_filter_type_roundtrip(f: FilterType, s: Seq<char>)
    ensures
        FilterType::from_code(f.code()) == Some(f),
        FilterType::from_code(s) == Some(f) ==> f.code() == s,
{
    reveal_strlit("checkbox_or");
    reveal_strlit("enum_and");
    reveal_strlit("string");
    reveal_strlit("number");
    reveal_strlit("range_price");
    reveal_strlit("range_generic");
    assert("checkbox_or"@[0] == 'c' && "enum_and"@[0] == 'e' && "string"@[0] == 's');
    assert("number"@[0] == 'n' && "range_price"@[0] == 'r' && "range_generic"@[0] == 'r');
    assert("range_price"@[6] == 'p' && "range_generic"@[6] == 'g');
}

/// Binding of an attribute to a category as a storefront filter.
#[derive(Debug, Clone, PartialEq, Eq)]
pub struct Filter {
    pub id: String,
    pub category_id: String,
    pub attribute_id: String,
    pub filter_type: FilterType,
    pub position: i64,
}

/// `translations.entity_type` of a category.
pub const ENTITY_CATEGORY: &'static str = "category";

/// `translations.entity_type` of an attribute.
pub const ENTITY_ATTRIBUTE: &'static str = "attribute";

/// `translations.entity_type` of an attribute option.
pub const ENTITY_ATTRIBUTE_OPTION: &'static str = "attribute_option";

/// `translations.field` of a name.
pub const FIELD_NAME: &'static str = "name";

/// `translations.field` of an option value.
pub const FIELD_VALUE: &'static str = "value";

/// Errors of the taxonomy repository.
#[derive(Debug)]
pub enum TaxonomyError {
    /// Storage failure, with its message.
    Db(String),
    /// A stored column value outside its canonical set (names the column and the value).
    InvalidEnum { field: &'static str, value: String },
}

impl TaxonomyError {
    /// The error's text: `db: <message>` or `invalid <field> in row: <value>`.
    pub fn message(&self) -> (r: String)
        ensures
            r@ == (match self {
                TaxonomyError::Db(m) => "db: "@ + m@,
                TaxonomyError::InvalidEnum { field, value } => "invalid "@ + field@ + " in row: "@
                    + value@,
            }),
    {
        match self {
            TaxonomyError::Db(m) => {
                let mut r = "db: ".to_string();
                r.append(m.as_str());
                r
            },
            TaxonomyError::InvalidEnum { field, value } => {
                let mut r = "invalid ".to_string();
                r.append(field);
                r.append(" in row: ");
                r.append(value.as_str());
                r
            },
        }
    }
}

/// A stored attribute row: the data type must be canonical (else `InvalidEnum` on
/// `data_type`), and a non-zero `is_required` means required.
pub fn attribute_from_columns(
    id: String,
    category_id: String,
    name: String,
    data_type_raw: String,
    unit: Option<String>,
    is_required: i64,
    position: i64,
) -> (r: Result<Attribute, TaxonomyError>)
    ensures
        match DataType::from_code(data_type_raw@) {
            None => r matches Err(TaxonomyError::InvalidEnum { field, value }) && field@
                == "data_type"@ && value@ == data_type_raw@,
            Some(dt) => r matches Ok(a) && a.id == id && a.category_id == category_id && a.name
                == name && a.data_type == dt && a.unit == unit && a.is_required == (is_required
                != 0) && a.position == position,
        },
{
    let data_type = match DataType::parse(data_type_raw.as_str()) {
        Some(dt) => dt,
        None => {
            return Err(TaxonomyError::InvalidEnum { field: "data_type", value: data_type_raw });
        },
    };
    Ok(Attribute { id, category_id, name, data_type, unit, is_required: is_required != 0, position })
}

/// A stored filter row: the filter type must be canonical (else `InvalidEnum` on
/// `filter_type`).
pub fn filter_from_columns(
    id: String,
    category_id: String,
    attribute_id: String,
    filter_type_raw: String,
    position: i64,
) -> (r: Result<Filter, TaxonomyError>)
    ensures
        match FilterType::from_code(filter_type_raw@) {
            None => r matches Err(TaxonomyError::InvalidEnum { field, value }) && field@
                == "filter_type"@ && value@ == filter_type_raw@,
            Some(ft) => r matches Ok(f) && f.id == id && f.category_id == category_id
                && f.attribute_id == attribute_id && f.filter_type == ft && f.position == position,
        },
{
    let filter_type = match FilterType::parse(filter_type_raw.as_str()) {
        Some(ft) => ft,
        None => {
            return Err(TaxonomyError::InvalidEnum { field: "filter_type", value: filter_type_raw });
        },
    };
    Ok(Filter { id, category_id, attribute_id, filter_type, position })
}

/// The name of an entity in a language: the stored translation where there is one, the
/// canonical value otherwise.
pub fn resolve_translation_value(found: Option<String>, canonical: &str) -> (r: String)
    ensures
        r@ == (match found {
            Some(v) => v@,
            None => canonical@,
        }),
{
    match found {
        Some(v) => v,
        None => canonical.to_string(),
    }
}

} // verus!
