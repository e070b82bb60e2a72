//! The current time, and the values the control loop stamps with it. A
//! system clock set before the Unix epoch, or beyond the dates chrono can
//! represent, is reported as an error instead of stopping the program.
use vstd::prelude::*;
use crate::control::{discovery_workorder_id, set_status, with_status, WorkorderRow};
use crate::error::Error;
use crate::results::{workorder_status_text, WorkorderStatus};
use crate::text::int_text;

verus! {

/// The system clock's current reading.
#[verifier::external_type_specification]
#[verifier::external_body]
pub struct ExSystemTime(std::time::SystemTime);

/// The shape of RFC 3339 text for a UTC time as chrono writes it: a year of
/// at least four digits, `-MM-DDTHH:MM:SS`, optional fractional seconds and
/// the offset `+00:00` at the end, so at least 25 characters.
pub open spec fn utc_rfc3339(s: Seq<char>) -> bool {
    s.len() >= 25 && s.subrange(s.len() - 6, s.len() as int) == "+00:00"@
}

/// The RFC 3339 text chrono writes for the UTC time `secs` seconds and
/// `nanos` nanoseconds after the Unix epoch.
pub uninterp spec fn rfc3339_text(secs: int, nanos: int) -> Seq<char>;

/// The system clock now.
///
/// Calls `std::time::SystemTime::now`, which does not fail; what it reads
/// depends on the clock, so nothing is stated of it.
#[verifier::external_body]
fn system_now() -> std::time::SystemTime {
    std::time::SystemTime::now()
}

/// How long after the Unix epoch `t` is, as whole seconds and the
/// nanoseconds of the second after them; `None` when `t` is before the
/// epoch.
///
/// Calls `SystemTime::duration_since(UNIX_EPOCH)`, which returns an error
/// exactly for earlier times; `Duration::subsec_nanos` is below one second.
#[verifier::external_body]
fn since_epoch(t: &std::time::SystemTime) -> (r: Option<(u64, u32)>)
    ensures
        r matches Some((_, n)) ==> n < 1_000_000_000,
{
    match t.duration_since(std::time::UNIX_EPOCH) {
        Ok(d) => Some((d.as_secs(), d.subsec_nanos())),
        Err(_) => None,
    }
}

/// The RFC 3339 text of the UTC time `secs` seconds and `nanos`
/// nanoseconds after the epoch; `None` when the date is outside chrono's
/// range.
///
/// Calls `chrono::DateTime::<Utc>::from_timestamp`, which returns `None`
/// rather than failing, and `DateTime::to_rfc3339`, which writes the offset
/// of a UTC time as `+00:00`. The text depends on the two arguments alone;
/// it is named [`rfc3339_text`]. When the date is in range is not stated.
#[verifier::external_body]
fn rfc3339_at(secs: i64, nanos: u32) -> (r: Option<String>)
    requires
        nanos < 1_000_000_000,
    ensures
        r matches Some(s) ==> s@ == rfc3339_text(secs as int, nanos as int) && utc_rfc3339(s@),
{
    match chrono::DateTime::from_timestamp(secs, nanos) {
        Some(t) => Some(t.to_rfc3339()),
        None => None,
    }
}

/// The current UTC time as RFC 3339 text, or `ClockUnavailable` when the
/// system clock reads before the Unix epoch or beyond chrono's dates. Which
/// time it is depends on the clock; the text always has the shape of
/// [`utc_rfc3339`].
pub fn now_iso() -> (r: Result<String, Error>)
    ensures
        r matches Ok(s) ==> utc_rfc3339(s@) && exists|secs: int, nanos: int|
            0 <= secs && 0 <= nanos < 1_000_000_000 && s@ == rfc3339_text(secs, nanos),
        r matches Err(e) ==> e is ClockUnavailable,
{
    let t = system_now();
    let (secs, nanos) = match since_epoch(&t) {
        Some(d) => d,
        None => {
            return Err(Error::ClockUnavailable);
        },
    };
    if secs > i64::MAX as u64 {
        return Err(Error::ClockUnavailable);
    }
    match rfc3339_at(secs as i64, nanos) {
        Some(s) => Ok(s),
        None => Err(Error::ClockUnavailable),
    }
}

/// Milliseconds since the epoch of a time `secs` seconds and `nanos`
/// nanoseconds after it, as chrono's `timestamp_millis` counts them:
/// `secs * 1000 + nanos / 1_000_000`; `None` when that overflows an `i64`.
fn millis_of(secs: u64, nanos: u32) -> (r: Option<i64>)
    ensures
        match r {
            Some(m) => m == secs * 1000 + nanos / 1_000_000,
            None => secs * 1000 + nanos / 1_000_000 > i64::MAX,
        },
{
    let limit: u64 = (i64::MAX as u64) / 1000;
    if secs > limit {
        return None;
    }
    let m: u64 = secs * 1000 + (nanos / 1_000_000) as u64;
    if m > i64::MAX as u64 {
        return None;
    }
    Some(m as i64)
}

/// Milliseconds since the Unix epoch, now; `ClockUnavailable` when the
/// clock reads before the epoch or too far after it for an `i64`.
fn now_millis() -> (r: Result<i64, Error>)
    ensures
        r matches Ok(m) ==> m >= 0,
        r matches Err(e) ==> e is ClockUnavailable,
{
    let t = system_now();
    match since_epoch(&t) {
        Some((secs, nanos)) => match millis_of(secs, nanos) {
            Some(m) => Ok(m),
            None => Err(Error::ClockUnavailable),
        },
        None => Err(Error::ClockUnavailable),
    }
}

/// The id for a discovery workorder created now:
/// `repo-maintainer-<milliseconds since the epoch>`.
pub fn new_discovery_workorder_id() -> (r: Result<String, Error>)
    ensures
        r matches Ok(id) ==> exists|m: int| m >= 0 && id@ == "repo-maintainer-"@ + int_text(m),
        r matches Err(e) ==> e is ClockUnavailable,
{
    let m = now_millis()?;
    Ok(discovery_workorder_id(m))
}

/// `row` moved to `status`, stamped with the current time.
pub fn set_status_now(row: &WorkorderRow, status: WorkorderStatus) -> (r: Result<
    WorkorderRow,
    Error,
>)
    ensures
        r matches Ok(w) ==> with_status(*row, workorder_status_text(status), w.updated_at@, w)
            && utc_rfc3339(w.updated_at@),
        r matches Err(e) ==> e is ClockUnavailable,
{
    let now = now_iso()?;
    Ok(set_status(row, status, now.as_str()))
}

} // verus!
