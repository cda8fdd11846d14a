use chrono::{DateTime, Local};
use vstd::prelude::*;

verus! {

/// The local time now, as an RFC 2822 date.
///
/// Relies on chrono's `Local::now` and `DateTime::to_rfc2822`; the result
/// depends on the clock, so nothing is stated of it.
#[verifier::external_body]
pub fn get_local_now_formatted() -> String {
    Local::now().to_rfc2822()
}

/// The instant an RFC 2822 date stands for, in seconds since the Unix epoch, or
/// `None` when the text is not such a date.
pub uninterp spec fn rfc2822_seconds(s: Seq<char>) -> Option<int>;

/// Relies on chrono's `DateTime::parse_from_rfc2822` and `DateTime::timestamp`:
/// whether the text parses, and the instant it names, depend on the text alone.
#[verifier::external_body]
pub(crate) fn parse_rfc2822_seconds(s: &str) -> (r: Option<i64>)
    ensures
        r matches Some(v) ==> rfc2822_seconds(s@) == Some(v as int),
        r is None ==> rfc2822_seconds(s@) is None,
{
    DateTime::parse_from_rfc2822(s).ok().map(|d| d.timestamp())
}

/// The oldest last-seen time, in seconds, at which a user still counts as
/// active `lurk_minutes` minutes before `now`.
pub fn lurk_cutoff(now: i64, lurk_minutes: u32) -> (r: i64)
    requires
        now >= i64::MIN + 60 * u32::MAX,
    ensures
        r == now - 60 * lurk_minutes,
{
    now - 60 * (lurk_minutes as i64)
}

} // verus!
