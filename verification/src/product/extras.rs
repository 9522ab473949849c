//! The product repository's operations on a product's children (digital configuration,
//! variants, media, attribute values, translations): the event each change emits and how
//! stored rows become values.

use vstd::prelude::*;

use crate::json::{int_value, member, push_int_member, push_str_member, sep, str_value};
use crate::product::model::{DataType, DeliveryKind, DigitalConfig, LicenseKind, MediaKind};
use crate::product::repository::{ProductError, AGGREGATE};
use crate::shared::NewEvent;

verus! {

/// The payload of `ProductUpdated` after a change of a child entity: the product, the
/// reason and the time, a light snapshot telling consumers to re-read the product.
pub open spec fn touch_text(product_id: Seq<char>, reason: Seq<char>, now: int) -> Seq<char> {
    "{"@ + member("id"@, str_value(product_id)) + ","@ + member("reason"@, str_value(reason))
        + ","@ + member("updated_at"@, int_value(now)) + "}"@
}

/// The outbox event of a change of a product's child entity, with its reason
/// (`digital_config`, `variant_added`, `media_removed`, `attribute_value_set`, ...).
pub fn product_updated_event(product_id: &str, reason: &str, now: i64) -> (e: NewEvent)
    ensures
        e.aggregate@ == AGGREGATE@,
        e.aggregate_id@ == product_id@,
        e.event_type@ == "ProductUpdated"@,
        e.payload@ == touch_text(product_id@, reason@, now as int),
{
    let mut out = "{".to_string();
    push_str_member(&mut out, true, "id", product_id);
    push_str_member(&mut out, false, "reason", reason);
    push_int_member(&mut out, false, "updated_at", now);
    out.append("}");
    proof {
        assert(sep(true) =~= Seq::<char>::empty());
        assert(out@ =~= touch_text(product_id@, reason@, now as int));
    }
    NewEvent::new(AGGREGATE, product_id, "ProductUpdated", out)
}

/// A stored digital configuration: the delivery kind is checked first, then the licence
/// kind where there is one; a value outside its canonical set is `InvalidEnum` naming the
/// column and the value.
pub fn digital_config_from_columns(
    product_id: String,
    delivery_raw: String,
    license_raw: Option<String>,
    notes: Option<String>,
) -> (r: Result<DigitalConfig, ProductError>)
    ensures
        match DeliveryKind::from_code(delivery_raw@) {
            None => r matches Err(ProductError::InvalidEnum { field, value }) && field@
                == "delivery_kind"@ && value@ == delivery_raw@,
            Some(dk) => match license_raw {
                Some(raw) if LicenseKind::from_code(raw@) is None => r matches Err(
                    ProductError::InvalidEnum { field, value },
                ) && field@ == "license_kind"@ && value@ == raw@,
                _ => r matches Ok(c) && c.product_id == product_id && c.delivery_kind == dk
                    && c.notes == notes && c.license_kind == (match license_raw {
                    Some(raw) => LicenseKind::from_code(raw@),
                    None => None,
                }),
            },
        },
{
    let delivery_kind = match DeliveryKind::parse(delivery_raw.as_str()) {
        Some(k) => k,
        None => {
            return Err(ProductError::InvalidEnum { field: "delivery_kind", value: delivery_raw });
        },
    };
    let license_kind = match license_raw {
        None => None,
        Some(raw) => match LicenseKind::parse(raw.as_str()) {
            Some(k) => Some(k),
            None => {
                return Err(ProductError::InvalidEnum { field: "license_kind", value: raw });
            },
        },
    };
    Ok(DigitalConfig { product_id, delivery_kind, license_kind, notes })
}

/// The kind of a stored media row, or `InvalidEnum` on the `kind` column.
pub fn media_kind_from_column(raw: String) -> (r: Result<MediaKind, ProductError>)
    ensures
        match MediaKind::from_code(raw@) {
            Some(k) => r matches Ok(x) && x == k,
            None => r matches Err(ProductError::InvalidEnum { field, value }) && field@ == "kind"@
                && value@ == raw@,
        },
{
    match MediaKind::parse(raw.as_str()) {
        Some(k) => Ok(k),
        None => Err(ProductError::InvalidEnum { field: "kind", value: raw }),
    }
}

/// The data type of a stored attribute value, or `InvalidEnum` on the `data_type` column.
pub fn data_type_from_column(raw: String) -> (r: Result<DataType, ProductError>)
    ensures
        match DataType::from_code(raw@) {
            Some(k) => r matches Ok(x) && x == k,
            None => r matches Err(ProductError::InvalidEnum { field, value }) && field@
                == "data_type"@ && value@ == raw@,
        },
{
    match DataType::parse(raw.as_str()) {
        Some(k) => Ok(k),
        None => Err(ProductError::InvalidEnum { field: "data_type", value: raw }),
    }
}

} // verus!
