//! Wall-clock time and timestamp formatting, through chrono.
use vstd::prelude::*;

verus! {

/// The largest timestamp the formatter accepts: 9999-12-31 23:59:59 UTC,
/// the last second rendered with a four-digit year.
pub const MAX_TIMESTAMP: u64 = 253402300799;

/// The text chrono renders for `secs` seconds since the Unix epoch under
/// the format `%Y-%m-%d %H:%M:%S`; a function of `secs` alone.
pub uninterp spec fn timestamp_text(secs: u64) -> Seq<char>;

/// Relies on chrono's `Utc::now` and `DateTime::timestamp`: the wall
/// clock's reading in seconds since the Unix epoch. Nothing can be promised
/// of what the clock reads.
#[verifier::external_body]
fn now_seconds_raw() -> i64 {
    chrono::Utc::now().timestamp()
}

/// Relies on chrono's `DateTime::from_timestamp` and `format`: renders
/// `secs` under `%Y-%m-%d %H:%M:%S`, 19 characters of digits, `-`, `:` and
/// one blank — so never a `|` and never a newline.
#[verifier::external_body]
pub(crate) fn format_timestamp(secs: u64) -> (r: String)
    requires
        secs <= MAX_TIMESTAMP,
    ensures
        r@ == timestamp_text(secs),
        r@.len() == 19,
        forall|i: int| 0 <= i < r@.len() ==> r@[i] != '|' && r@[i] != '\n',
{
    match chrono::DateTime::<chrono::Utc>::from_timestamp(secs as i64, 0) {
        Some(dt) => dt.format("%Y-%m-%d %H:%M:%S").to_string(),
        None => String::new(),
    }
}

/// The clock's reading, clamped to the range the formatter accepts.
pub(crate) fn current_timestamp() -> (t: u64)
    ensures
        t <= MAX_TIMESTAMP,
{
    let raw = now_seconds_raw();
    if raw < 0 {
        0
    } else if raw as u64 > MAX_TIMESTAMP {
        MAX_TIMESTAMP
    } else {
        raw as u64
    }
}

} // verus!
