//! The RFC 2822 text form of instants, as chrono reads and writes it.

use crate::model::UtcInstant;
use vstd::prelude::*;

verus! {

/// The first second of year 0, the earliest instant RFC 2822 text can carry.
pub const EARLIEST_RFC2822_SECS: i64 = -62167219200;

/// The last second of year 9999, the latest instant RFC 2822 text can carry.
pub const LATEST_RFC2822_SECS: i64 = 253402300799;

/// The instant that chrono reads from RFC 2822 text, if it reads one.
pub uninterp spec fn rfc2822_instant(s: Seq<char>) -> Option<UtcInstant>;

/// The RFC 2822 text that chrono writes for an instant, in UTC.
pub uninterp spec fn rfc2822_text(t: UtcInstant) -> Seq<char>;

/// Relies on chrono's `DateTime::parse_from_rfc2822`, read back as seconds
/// and nanoseconds since the epoch: the outcome depends on the text alone.
#[verifier::external_body]
pub(crate) fn parse_rfc2822(s: &str) -> (r: Option<UtcInstant>)
    ensures
        r == rfc2822_instant(s@),
{
    chrono::DateTime::parse_from_rfc2822(s).ok().map(
        |d| UtcInstant { secs: d.timestamp(), nanos: d.timestamp_subsec_nanos() },
    )
}

/// Relies on chrono's `DateTime::from_timestamp`, which builds the instant
/// whenever the nanoseconds stay below one second, and `DateTime::to_rfc2822`,
/// which writes it without panicking for the years 0 to 9999.
#[verifier::external_body]
pub(crate) fn format_rfc2822(t: UtcInstant) -> (r: Option<String>)
    requires
        EARLIEST_RFC2822_SECS <= t.secs <= LATEST_RFC2822_SECS,
    ensures
        r matches Some(s) ==> s@ == rfc2822_text(t),
        t.nanos < 1_000_000_000 ==> r is Some,
{
    chrono::DateTime::from_timestamp(t.secs, t.nanos).map(|d| d.to_rfc2822())
}

} // verus!
