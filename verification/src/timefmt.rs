//! Rendering of packet timestamps.
//!
//! The library carries a receive time as the count of non-leap milliseconds
//! since the Unix epoch, UTC; the command surface reports it as an RFC 3339 /
//! ISO 8601 string. The rendering itself is chrono's.

use vstd::prelude::*;

verus! {

/// Upper bound on the millisecond timestamps this library renders:
/// 9999-12-31T23:59:59.999Z. Timestamps of captured packets are wall-clock
/// "now" values, far inside this range; chrono accepts every value in it.
pub const MAX_TIMESTAMP_MS: i64 = 253_402_300_799_999;

/// A millisecond count is one this library can render.
pub open spec fn valid_timestamp_ms(ms: i64) -> bool {
    0 <= ms <= MAX_TIMESTAMP_MS
}

/// The RFC 3339 rendering of a millisecond count since the Unix epoch, UTC.
/// The text is a function of the count alone.
pub uninterp spec fn rfc3339_of(ms: int) -> Seq<char>;

/// Relies on chrono's `DateTime::<Utc>::from_timestamp_millis` and
/// `DateTime::to_rfc3339`: every count up to `MAX_TIMESTAMP_MS` is within
/// chrono's range (its source only rejects dates more than ca. 262,000 years
/// from the common era), and the rendered text depends on the count alone.
#[verifier::external_body]
pub fn format_rfc3339_ms(ms: i64) -> (r: String)
    requires
        valid_timestamp_ms(ms),
    ensures
        r@ == rfc3339_of(ms as int),
{
    chrono::DateTime::<chrono::Utc>::from_timestamp_millis(ms)
        .map(|dt| dt.to_rfc3339())
        .unwrap_or_default()
}

} // verus!
