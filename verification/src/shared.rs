//! Types shared by every context: paging windows, pages of results and the envelope of a
//! domain event as it is written to and read from an outbox.

use vstd::prelude::*;

verus! {

/// Offset/limit window of a listing.
#[derive(Debug, Clone, Copy, PartialEq, Eq, Structural)]
pub struct Pagination {
    pub offset: u32,
    pub limit: u32,
}

/// One page of a listing: its items, the total number of matches and the window asked for.
#[derive(Debug, Clone)]
pub struct Page<T> {
    pub items: Vec<T>,
    pub total: u64,
    pub page: Pagination,
}

/// Parameters of a listing query; contexts add their own filters as they need them.
#[derive(Debug, Clone, Copy, PartialEq, Eq, Structural)]
pub struct ListQuery {
    pub pagination: Pagination,
}

/// A domain event before it is written to an outbox (the outbox assigns `id` and
/// `created_at`). The payload is JSON text.
#[derive(Debug, Clone)]
pub struct NewEvent {
    pub aggregate: String,
    pub aggregate_id: String,
    pub event_type: String,
    pub payload: String,
}

impl NewEvent {
    pub fn new(aggregate: &str, aggregate_id: &str, event_type: &str, payload: String) -> (e:
        NewEvent)
        ensures
            e.aggregate@ == aggregate@,
            e.aggregate_id@ == aggregate_id@,
            e.event_type@ == event_type@,
            e.payload@ == payload@,
    {
        NewEvent {
            aggregate: aggregate.to_string(),
            aggregate_id: aggregate_id.to_string(),
            event_type: event_type.to_string(),
            payload,
        }
    }
}

/// A domain event as stored in an outbox and delivered by the relay.
#[derive(Debug, Clone)]
pub struct DomainEvent {
    pub id: i64,
    /// Kind of the source aggregate: `"product"`, `"account"`, ...
    pub aggregate: String,
    pub aggregate_id: String,
    /// Name of the event: `"ProductPublished"`, ...
    pub event_type: String,
    /// JSON text of the payload.
    pub payload: String,
    /// Unix milliseconds of creation.
    pub created_at: i64,
}

/// A point in time of the system clock.
#[verifier::external_type_specification]
#[verifier::external_body]
pub struct ExSystemTime(std::time::SystemTime);

/// Reads the system clock (`SystemTime::now`). Nothing is promised of the value.
#[verifier::external_body]
fn clock_now() -> std::time::SystemTime {
    std::time::SystemTime::now()
}

/// The time elapsed from the Unix epoch to `t` (`SystemTime::duration_since(UNIX_EPOCH)`),
/// or `None` where `t` lies before the epoch. Nothing is promised of the value.
#[verifier::external_body]
fn since_unix_epoch(t: std::time::SystemTime) -> Option<std::time::Duration> {
    t.duration_since(std::time::UNIX_EPOCH).ok()
}

/// The whole milliseconds of a duration (`Duration::as_millis`).
#[verifier::external_body]
fn whole_millis(d: std::time::Duration) -> u128 {
    d.as_millis()
}

/// The current Unix time in milliseconds, 0 if the clock stands before the epoch. The value
/// depends on the clock, so nothing is stated of it.
pub fn now_ms() -> i64 {
    match since_unix_epoch(clock_now()) {
        Some(d) => {
            let ms: u128 = whole_millis(d);
            #[verifier::truncate]
            (ms as i64)
        },
        None => 0,
    }
}

/// Whether `c` is a digit of lowercase hexadecimal.
pub open spec fn is_lower_hex_digit(c: char) -> bool {
    ('0' <= c && c <= '9') || ('a' <= c && c <= 'f')
}

/// Whether `s` is a version 4 UUID in lowercase hyphenated form: 36 characters, hyphens at 8,
/// 13, 18 and 23, lowercase hex digits elsewhere, the version digit `4` at 14 and a variant
/// digit among `8`, `9`, `a`, `b` at 19.
pub open spec fn is_uuid_v4_text(s: Seq<char>) -> bool {
    &&& s.len() == 36
    &&& forall|i: int|
        0 <= i < 36 ==> (if i == 8 || i == 13 || i == 18 || i == 23 {
            #[trigger] s[i] == '-'
        } else {
            is_lower_hex_digit(s[i])
        })
    &&& s[14] == '4'
    &&& (s[19] == '8' || s[19] == '9' || s[19] == 'a' || s[19] == 'b')
}

/// A random version 4 UUID in hyphenated form (`uuid::Uuid::new_v4().to_string()`). The uuid
/// source masks the random bits so that the version nibble is 4 and the variant nibble is one
/// of 8, 9, a, b, and writes the value through `LowerHex` in the hyphenated layout; the other
/// hex digits are random and nothing is stated of them.
#[verifier::external_body]
pub(crate) fn new_uuid_v4() -> (s: String)
    ensures
        is_uuid_v4_text(s@),
{
    uuid::Uuid::new_v4().to_string()
}

} // verus!
