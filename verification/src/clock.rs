//! Points in time.

use vstd::prelude::*;

verus! {

/// A point in time: whole seconds since the beginning of 1970, and the nanoseconds behind them.
#[derive(Clone, Copy, Debug, PartialEq, Eq, Structural)]
pub struct Instant {
    pub secs: i64,
    pub nanos: u32,
}

/// What `chrono::DateTime::parse_from_rfc3339` reads from a text: seconds and nanoseconds.
pub uninterp spec fn rfc3339_reading(s: Seq<char>) -> Option<(i64, u32)>;

/// The point in time that a text writes.
pub open spec fn instant_of(s: Seq<char>) -> Option<Instant> {
    match rfc3339_reading(s) {
        Some((secs, nanos)) => Some(Instant { secs, nanos }),
        None => None,
    }
}

/// `chrono::DateTime::parse_from_rfc3339`, as seconds and nanoseconds.
#[verifier::external_body]
fn read_rfc3339(s: &str) -> (r: Option<(i64, u32)>)
    ensures
        r == rfc3339_reading(s@),
{
    chrono::DateTime::parse_from_rfc3339(s).ok().map(|t| (t.timestamp(), t.timestamp_subsec_nanos()))
}

/// The point in time that a text writes.
pub(crate) fn read_instant(s: &str) -> (r: Option<Instant>)
    ensures
        r == instant_of(s@),
{
    match read_rfc3339(s) {
        Some((secs, nanos)) => Some(Instant { secs, nanos }),
        None => None,
    }
}

/// How many whole seconds `chrono::DateTime::signed_duration_since` counts from one point in time
/// to another: nothing where `chrono` has no date for one of them.
pub uninterp spec fn chrono_seconds(
    later_secs: i64,
    later_nanos: u32,
    earlier_secs: i64,
    earlier_nanos: u32,
) -> Option<i64>;

/// The whole seconds from one point in time to another.
pub open spec fn seconds_from(earlier: Instant, later: Instant) -> Option<i64> {
    chrono_seconds(later.secs, later.nanos, earlier.secs, earlier.nanos)
}

/// The whole part of a count of nanoseconds, in seconds.
pub open spec fn whole_seconds(nanos: int) -> int {
    if nanos >= 0 {
        nanos / 1_000_000_000
    } else {
        -((-nanos) / 1_000_000_000)
    }
}

/// `chrono::DateTime::signed_duration_since`, in whole seconds. Outside leap seconds, which have
/// more than 999,999,999 nanoseconds, that is the difference without its fraction.
#[verifier::external_body]
pub(crate) fn seconds_between(earlier: Instant, later: Instant) -> (r: Option<i64>)
    ensures
        r == chrono_seconds(later.secs, later.nanos, earlier.secs, earlier.nanos),
        r matches Some(d) ==> earlier.nanos < 1_000_000_000 && later.nanos < 1_000_000_000 ==> d
            == whole_seconds(
            (later.secs - earlier.secs) * 1_000_000_000 + later.nanos - earlier.nanos,
        ),
{
    let earlier = chrono::DateTime::from_timestamp(earlier.secs, earlier.nanos)?;
    let later = chrono::DateTime::from_timestamp(later.secs, later.nanos)?;
    Some(later.signed_duration_since(earlier).num_seconds())
}

/// A time that was stored: the one that the text writes, or the present where it writes none, in
/// whole seconds.
pub fn parse_datetime(datetime_str: &str, now: Instant) -> (r: i64)
    ensures
        r == (match instant_of(datetime_str@) {
            Some(t) => t.secs,
            None => now.secs,
        }),
{
    match read_instant(datetime_str) {
        Some(t) => t.secs,
        None => now.secs,
    }
}

/// A count of nanoseconds is cut to its whole seconds, towards zero.
pub proof fn fractions_are_cut_off(seconds: nat, nanos: nat)
    requires
        nanos < 1_000_000_000,
    ensures
        whole_seconds((seconds * 1_000_000_000 + nanos) as int) == seconds,
        whole_seconds(-((seconds * 1_000_000_000 + nanos) as int)) == -(seconds as int),
{
}

/// A text that is read stands for the time with its seconds and its nanoseconds; one that is not stands
/// for none.
pub proof fn times_are_read_whole(s: Seq<char>)
    ensures
        rfc3339_reading(s) matches Some((secs, nanos)) ==> (instant_of(s) matches Some(t) && t.secs
            == secs && t.nanos == nanos),
        rfc3339_reading(s) is None ==> instant_of(s) is None,
{
}

} // verus!
