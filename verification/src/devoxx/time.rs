//! Instants and time zones, as far as a talk needs them: reading a
//! timestamp, knowing a zone by its name, and writing an instant as the
//! clocks of a zone show it. The calendar and the zone rules are those of
//! `chrono` and `chrono_tz`; nothing here is proved of them.

use chrono::format::{Fixed, Item};
use vstd::prelude::*;

verus! {

/// What `chrono` reads from a timestamp: the seconds since the start of 1970
/// in UTC and the nanoseconds within that second, or `None` where the text is
/// no timestamp.
pub uninterp spec fn parsed_instant(text: Seq<char>) -> Option<(i64, u32)>;

/// Whether `chrono_tz` has a time zone of this name.
pub uninterp spec fn known_zone(zone: Seq<char>) -> bool;

/// The instant as the clocks of the zone show it, in the form of RFC 2822
/// (`Mon, 4 Nov 2019 09:30:00 +0100`), or `None` where the zone is not known
/// or the form cannot hold the date.
pub uninterp spec fn local_time_text(secs: i64, nanos: u32, zone: Seq<char>) -> Option<Seq<char>>;

/// Reads a timestamp with `chrono`'s `FromStr` for `DateTime<Utc>`, which
/// takes RFC 3339 and a little more (a space for the `T`), and hands back
/// `DateTime::timestamp` and `DateTime::timestamp_subsec_nanos` of what it
/// read. The contract only names the result: the same text always gives the
/// same instant.
#[verifier::external_body]
pub(crate) fn parse_instant(text: &str) -> (instant: Option<(i64, u32)>)
    ensures
        instant == parsed_instant(text@),
{
    let moment = text.parse::<chrono::DateTime<chrono::Utc>>().ok()?;
    Some((moment.timestamp(), moment.timestamp_subsec_nanos()))
}

/// Looks the name up with `chrono_tz`'s `FromStr` for `Tz`. The contract only
/// names the result: the table of zones is part of that crate.
#[verifier::external_body]
pub(crate) fn zone_is_known(zone: &str) -> (known: bool)
    ensures
        known == known_zone(zone@),
{
    zone.parse::<chrono_tz::Tz>().is_ok()
}

/// Moves the instant into the zone with `DateTime::from_timestamp` and
/// `DateTime::with_timezone`, and writes it with `chrono`'s RFC 2822 item
/// through `DelayedFormat::write_to`, which reports a date that the form
/// cannot hold instead of panicking. The contract only names the result: it
/// depends on the instant and the zone's name alone.
#[verifier::external_body]
pub(crate) fn local_time(secs: i64, nanos: u32, zone: &str) -> (text: Option<String>)
    ensures
        match text {
            Some(t) => local_time_text(secs, nanos, zone@) == Some(t@),
            None => local_time_text(secs, nanos, zone@) is None,
        },
{
    let tz = zone.parse::<chrono_tz::Tz>().ok()?;
    let local = chrono::DateTime::from_timestamp(secs, nanos)?.with_timezone(&tz);
    let mut text = String::new();
    local.format_with_items([Item::Fixed(Fixed::RFC2822)].iter()).write_to(&mut text).ok()?;
    Some(text)
}

} // verus!
