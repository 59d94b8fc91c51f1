//! The calendar form of an instant, computed by the `time` crate.

use vstd::prelude::*;

verus! {

/// The instant `seconds` after the Unix epoch, seen at the offset that the
/// `time` crate makes of `hours`, `minutes` and `seconds_east` east of UTC,
/// and written in the crate's layout `layout`; `None` where the instant or
/// the offset is out of the crate's range or the layout is not valid.
pub uninterp spec fn formatted_instant(
    seconds: i64,
    hours: i8,
    minutes: i8,
    seconds_east: i8,
    layout: Seq<char>,
) -> Option<Seq<char>>;

/// Calls `time::OffsetDateTime::from_unix_timestamp`, `UtcOffset::from_hms`,
/// `OffsetDateTime::checked_to_offset`, `format_description::parse` and
/// `OffsetDateTime::format`. Trusted: the result is what `formatted_instant`
/// names, and `None` where any of the calls fails.
#[verifier::external_body]
pub(crate) fn format_instant(seconds: i64, hours: i8, minutes: i8, seconds_east: i8, layout: &str) -> (r: Option<String>)
    ensures
        match r {
            Some(s) => formatted_instant(seconds, hours, minutes, seconds_east, layout@) == Some(s@),
            None => formatted_instant(seconds, hours, minutes, seconds_east, layout@) is None,
        },
{
    let utc = time::OffsetDateTime::from_unix_timestamp(seconds).ok()?;
    let offset = time::UtcOffset::from_hms(hours, minutes, seconds_east).ok()?;
    let local = utc.checked_to_offset(offset)?;
    let items = time::format_description::parse(layout).ok()?;
    local.format(&items).ok()
}

} // verus!
