//! Domain types of a seller's product and its digital configuration, with the canonical
//! column values of their enumerations.

use vstd::prelude::*;

use crate::text::str_eq;

pub use crate::catalog::taxonomy::DataType;

verus! {

/// Interface languages of product names. `Uk` is canonical (stored in the entity itself);
/// other languages are overrides kept in `translations`.
#[derive(Debug, Clone, Copy, PartialEq, Eq, Structural)]
pub enum Lang {
    Uk,
    Ru,
}

impl Lang {
    pub open spec fn code(self) -> Seq<char> {
        match self {
            Lang::Uk => "uk"@,
            Lang::Ru => "ru"@,
        }
    }

    /// The language code stored in `translations.lang`.
    pub fn as_str(self) -> (r: &'static str)
        ensures
            r@ == self.code(),
    {
        match self {
            Lang::Uk => "uk",
            Lang::Ru => "ru",
        }
    }
}

/// Publication status of a product.
#[derive(Debug, Clone, Copy, PartialEq, Eq, Structural)]
pub enum ProductStatus {
    Draft,
    Published,
    Archived,
}

impl ProductStatus {
    /// The canonical column value.
    pub open spec fn code(self) -> Seq<char> {
        match self {
            ProductStatus::Draft => "draft"@,
            ProductStatus::Published => "published"@,
            ProductStatus::Archived => "archived"@,
        }
    }

    /// The value whose canonical column value is `s`, if any.
    pub open spec fn from_code(s: Seq<char>) -> Option<ProductStatus> {
        if s == "draft"@ {
            Some(ProductStatus::Draft)
        } else if s == "published"@ {
            Some(ProductStatus::Published)
        } else if s == "archived"@ {
            Some(ProductStatus::Archived)
        } else {
            None
        }
    }

    pub fn as_str(self) -> (r: &'static str)
        ensures
            r@ == self.code(),
    {
        match self {
            ProductStatus::Draft => "draft",
            ProductStatus::Published => "published",
            ProductStatus::Archived => "archived",
        }
    }

    /// Parses a column value; anything outside the canonical set gives `None`, never a panic.
    pub fn parse(s: &str) -> (r: Option<ProductStatus>)
        ensures
            r == ProductStatus::from_code(s@),
    {
        if str_eq(s, "draft") {
            Some(ProductStatus::Draft)
        } else if str_eq(s, "published") {
            Some(ProductStatus::Published)
        } else if str_eq(s, "archived") {
            Some(ProductStatus::Archived)
        } else {
            None
        }
    }
}

/// Parsing the canonical value of a status gives it back, and only that value parses to it.
pub proof fn lemma_product_status_roundtrip(v: ProductStatus, s: Seq<char>)
    ensures
        ProductStatus::from_code(v.code()) == Some(v),
        ProductStatus::from_code(s) == Some(v) ==> v.code() == s,
{
    reveal_strlit("draft");
    reveal_strlit("published");
    reveal_strlit("archived");
    assert("draft"@[0] == 'd' && "published"@[0] == 'p' && "archived"@[0] == 'a');
}

/// How a digital product is handed over.
#[derive(Debug, Clone, Copy, PartialEq, Eq, Structural)]
pub enum DeliveryKind {
    Download,
    PlatformView,
}

impl DeliveryKind {
    /// The canonical column value.
    pub open spec fn code(self) -> Seq<char> {
        match self {
            DeliveryKind::Download => "download"@,
            DeliveryKind::PlatformView => "platform_view"@,
        }
    }

    /// The value whose canonical column value is `s`, if any.
    pub open spec fn from_code(s: Seq<char>) -> Option<DeliveryKind> {
        if s == "download"@ {
            Some(DeliveryKind::Download)
        } else if s == "platform_view"@ {
            Some(DeliveryKind::PlatformView)
        } else {
            None
        }
    }

    pub fn as_str(self) -> (r: &'static str)
        ensures
            r@ == self.code(),
    {
        match self {
            DeliveryKind::Download => "download",
            DeliveryKind::PlatformView => "platform_view",
        }
    }

    /// Parses a column value; anything outside the canonical set gives `None`, never a panic.
    pub fn parse(s: &str) -> (r: Option<DeliveryKind>)
        ensures
            r == DeliveryKind::from_code(s@),
    {
        if str_eq(s, "download") {
            Some(DeliveryKind::Download)
        } else if str_eq(s, "platform_view") {
            Some(DeliveryKind::PlatformView)
        } else {
            None
        }
    }
}

/// Parsing the canonical value of a delivery kind gives it back, and only that value parses to it.
pub proof fn lemma_delivery_kind_roundtrip(v: DeliveryKind, s: Seq<char>)
    ensures
        DeliveryKind::from_code(v.code()) == Some(v),
        DeliveryKind::from_code(s) == Some(v) ==> v.code() == s,
{
    reveal_strlit("download");
    reveal_strlit("platform_view");
    assert("download"@[0] == 'd' && "platform_view"@[0] == 'p');
}

/// Licence of a digital product.
#[derive(Debug, Clone, Copy, PartialEq, Eq, Structural)]
pub enum LicenseKind {
    Single,
    Multi,
}

impl LicenseKind {
    /// The canonical column value.
    pub open spec fn code(self) -> Seq<char> {
        match self {
            LicenseKind::Single => "single"@,
            LicenseKind::Multi => "multi"@,
        }
    }

    /// The value whose canonical column value is `s`, if any.
    pub open spec fn from_code(s: Seq<char>) -> Option<LicenseKind> {
        if s == "single"@ {
            Some(LicenseKind::Single)
        } else if s == "multi"@ {
            Some(LicenseKind::Multi)
        } else {
            None
        }
    }

    pub fn as_str(self) -> (r: &'static str)
        ensures
            r@ == self.code(),
    {
        match self {
            LicenseKind::Single => "single",
            LicenseKind::Multi => "multi",
        }
    }

    /// Parses a column value; anything outside the canonical set gives `None`, never a panic.
    pub fn parse(s: &str) -> (r: Option<LicenseKind>)
        ensures
            r == LicenseKind::from_code(s@),
    {
        if str_eq(s, "single") {
            Some(LicenseKind::Single)
        } else if str_eq(s, "multi") {
            Some(LicenseKind::Multi)
        } else {
            None
        }
    }
}

/// Parsing the canonical value of a licence kind gives it back, and only that value parses to it.
pub proof fn lemma_license_kind_roundtrip(v: LicenseKind, s: Seq<char>)
    ensures
        LicenseKind::from_code(v.code()) == Some(v),
        LicenseKind::from_code(s) == Some(v) ==> v.code() == s,
{
    reveal_strlit("single");
    reveal_strlit("multi");
    assert("single"@[0] == 's' && "multi"@[0] == 'm');
}

/// Kind of a media attachment.
#[derive(Debug, Clone, Copy, PartialEq, Eq, Structural)]
pub enum MediaKind {
    Image,
    Video,
}

impl MediaKind {
    /// The canonical column value.
    pub open spec fn code(self) -> Seq<char> {
        match self {
            MediaKind::Image => "image"@,
            MediaKind::Video => "video"@,
        }
    }

    /// The value whose canonical column value is `s`, if any.
    pub open spec fn from_code(s: Seq<char>) -> Option<MediaKind> {
        if s == "image"@ {
            Some(MediaKind::Image)
        } else if s == "video"@ {
            Some(MediaKind::Video)
        } else {
            None
        }
    }

    pub fn as_str(self) -> (r: &'static str)
        ensures
            r@ == self.code(),
    {
        match self {
            MediaKind::Image => "image",
            MediaKind::Video => "video",
        }
    }

    /// Parses a column value; anything outside the canonical set gives `None`, never a panic.
    pub fn parse(s: &str) -> (r: Option<MediaKind>)
        ensures
            r == MediaKind::from_code(s@),
    {
        if str_eq(s, "image") {
            Some(MediaKind::Image)
        } else if str_eq(s, "video") {
            Some(MediaKind::Video)
        } else {
            None
        }
    }
}

/// Parsing the canonical value of a media kind gives it back, and only that value parses to it.
pub proof fn lemma_media_kind_roundtrip(v: MediaKind, s: Seq<char>)
    ensures
        MediaKind::from_code(v.code()) == Some(v),
        MediaKind::from_code(s) == Some(v) ==> v.code() == s,
{
    reveal_strlit("image");
    reveal_strlit("video");
    assert("image"@[0] == 'i' && "video"@[0] == 'v');
}

/// A seller's product: the unit of the catalog and the storefront.
#[derive(Debug, Clone)]
pub struct Product {
    pub id: String,
    pub seller_id: String,
    pub title: String,
    pub slug: String,
    pub description: String,
    pub price_minor: i64,
    pub currency: String,
    pub status: ProductStatus,
    /// Unix milliseconds.
    pub created_at: i64,
    /// Unix milliseconds.
    pub updated_at: i64,
}

/// A media attachment of a product, ordered by `position`.
#[derive(Debug, Clone)]
pub struct ProductMedia {
    pub id: String,
    pub product_id: String,
    pub kind: MediaKind,
    pub url: String,
    pub position: i64,
}

/// Digital configuration of a product (one per product): delivery and licence.
#[derive(Debug, Clone)]
pub struct DigitalConfig {
    pub product_id: String,
    pub delivery_kind: DeliveryKind,
    pub license_kind: Option<LicenseKind>,
    pub notes: Option<String>,
}

/// A variant (format or edition) of a digital product, changing the price by a delta.
#[derive(Debug, Clone)]
pub struct DigitalVariant {
    pub id: String,
    pub product_id: String,
    pub label: String,
    pub format: Option<String>,
    pub price_delta_minor: i64,
    pub position: i64,
}

/// The value of an attribute of a product (typed EAV).
///
/// The numeric value is a `REAL` column; it travels here as its IEEE-754 bit pattern
/// (`f64::to_bits`), which the library hands on and never computes with.
#[derive(Debug, Clone)]
pub struct ProductAttributeValue {
    pub product_id: String,
    pub attribute_id: String,
    pub data_type: DataType,
    pub val_text: Option<String>,
    pub val_num_bits: Option<u64>,
}

} // verus!
