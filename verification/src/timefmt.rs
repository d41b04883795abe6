//! Wall-clock text for the instant of a snapshot.

use vstd::prelude::*;

verus! {

/// The text "year-month-day hour:minute:second" of the instant that lies
/// `millis` milliseconds after the Unix epoch, read in UTC, or nothing when
/// the instant is outside the calendar's range.
pub uninterp spec fn utc_clock_text(millis: i64) -> Option<Seq<char>>;

/// The text of an instant as a clock shows it `offset_secs` seconds east of
/// UTC: the UTC text of the instant moved by the offset.
pub open spec fn local_clock_text(epoch_ms: u64, offset_secs: i32) -> Option<Seq<char>> {
    let local = epoch_ms as int + offset_secs as int * 1000;
    if i64::MIN <= local <= i64::MAX {
        utc_clock_text(local as i64)
    } else {
        None
    }
}

/// Calls `chrono::DateTime::from_timestamp_millis` and formats what it gives
/// with `format("%Y-%m-%d %H:%M:%S")`. The result depends on `millis` alone:
/// it is `None` exactly when chrono has no date for the instant, and the
/// formatted UTC date and time otherwise. What the text is for a given
/// instant is chrono's to say and is not proved here.
#[verifier::external_body]
fn format_utc_millis(millis: i64) -> (r: Option<String>)
    ensures
        (match r {
            Some(s) => Some(s@),
            None => None,
        }) == utc_clock_text(millis),
{
    let at = chrono::DateTime::from_timestamp_millis(millis)?;
    Some(at.format("%Y-%m-%d %H:%M:%S").to_string())
}

/// The wall-clock text of an instant given in milliseconds since the Unix
/// epoch, on a clock `offset_secs` seconds east of UTC; nothing when the
/// calendar does not reach that far.
pub fn timestamp_text(epoch_ms: u64, offset_secs: i32) -> (r: Option<String>)
    ensures
        (match r {
            Some(s) => Some(s@),
            None => None,
        }) == local_clock_text(epoch_ms, offset_secs),
{
    let local: i128 = (epoch_ms as i128) + (offset_secs as i128) * 1000;
    if local < -9_223_372_036_854_775_808 || local > 9_223_372_036_854_775_807 {
        None
    } else {
        format_utc_millis(local as i64)
    }
}

} // verus!
