//! Reading the wall clock and rendering timestamps.
//!
//! Time enters the library as plain seconds since the Unix epoch; everything
//! that depends on a point in time takes it as an argument, so the clock is
//! read in one place.

use vstd::prelude::*;

verus! {

/// The text that the `time` crate renders for a point in time, given as
/// nanoseconds since the Unix epoch. A pure function of its argument.
pub uninterp spec fn datetime_display_of(unix_nanos: i128) -> Seq<char>;

/// Relies on std's `SystemTime::now`: the current time, converted to whole
/// seconds since the Unix epoch (zero if the clock is before the epoch).
/// Nothing can be promised about the value read.
#[verifier::external_body]
pub(crate) fn now_unix_seconds() -> u64 {
    std::time::SystemTime::now()
        .duration_since(std::time::UNIX_EPOCH)
        .map(|elapsed| elapsed.as_secs())
        .unwrap_or(0)
}

/// Relies on time's `OffsetDateTime::from_unix_timestamp_nanos` and its
/// `Display` rendering, which are deterministic in the timestamp; a timestamp
/// out of the crate's range falls back to the epoch.
#[verifier::external_body]
fn format_unix_nanos(unix_nanos: i128) -> (r: String)
    ensures
        r@ == datetime_display_of(unix_nanos),
{
    time::OffsetDateTime::from_unix_timestamp_nanos(unix_nanos)
        .unwrap_or(time::OffsetDateTime::UNIX_EPOCH)
        .to_string()
}

/// Renders a point in time, given in seconds since the Unix epoch, as a
/// human-readable timestamp. Used only for informational fields; no logic
/// reads the text back.
pub(crate) fn timestamp_text(unix_seconds: u64) -> (r: String)
    ensures
        r@ == datetime_display_of((unix_seconds as i128 * 1_000_000_000) as i128),
{
    let nanos: i128 = (unix_seconds as i128) * 1_000_000_000;
    format_unix_nanos(nanos)
}

} // verus!
