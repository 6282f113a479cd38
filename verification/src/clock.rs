//! The wall clock, by way of the `chrono` crate.
//!
//! Nothing here is claimed of what the clock says: an instant and a span of
//! time are carried through as they come, and only the count of nanoseconds
//! at the end is a value that the rest of the library looks into.

use vstd::prelude::*;

verus! {

/// `chrono::NaiveDateTime`, a date and time without a time zone. Opaque:
/// values are made and read by the functions below and by nothing else.
#[verifier::external_type_specification]
#[verifier::external_body]
pub struct ExNaiveDateTime(chrono::NaiveDateTime);

/// `chrono::TimeDelta`, a signed span of time. Opaque in the same way.
#[verifier::external_type_specification]
#[verifier::external_body]
pub struct ExTimeDelta(chrono::TimeDelta);

/// Reads the system clock with `std::time::SystemTime::now` and turns the
/// reading into a date and time in UTC with chrono's `From<SystemTime>` for
/// `DateTime<Utc>`. Trusted, with nothing claimed of the instant: it is
/// whatever the system clock says. The conversion takes a reading before
/// 1970 as well as one after it, and returns for every reading within the
/// years that chrono counts, some 262,000 to either side.
#[verifier::external_body]
pub(crate) fn now() -> chrono::NaiveDateTime {
    chrono::DateTime::<chrono::Utc>::from(std::time::SystemTime::now()).naive_utc()
}

/// Calls `chrono::NaiveDateTime::signed_duration_since`: the time from
/// `start` to `end`, negative where `end` is the earlier one. Trusted, with
/// nothing claimed of the span: the two instants are opaque here.
#[verifier::external_body]
pub(crate) fn between(start: &chrono::NaiveDateTime, end: &chrono::NaiveDateTime) -> chrono::TimeDelta {
    end.signed_duration_since(*start)
}

/// Calls `chrono::TimeDelta::num_nanoseconds`: the whole nanoseconds in
/// `span`, or `None` where they do not fit in an `i64`. Trusted, with
/// nothing claimed of the count: the span is opaque here.
#[verifier::external_body]
pub(crate) fn whole_nanoseconds(span: &chrono::TimeDelta) -> Option<i64> {
    span.num_nanoseconds()
}

/// The nanoseconds that have passed since `start` by the system clock, or
/// `None` where they do not fit in an `i64`. The count is negative where
/// the clock was set back in between.
pub(crate) fn nanoseconds_since(start: &chrono::NaiveDateTime) -> Option<i64> {
    let end = now();
    let span = between(start, &end);
    whole_nanoseconds(&span)
}

} // verus!
