use chrono::TimeZone;
use vstd::prelude::*;

verus! {

/// What chrono and chrono-tz render for the instant `secs` seconds and `nanos`
/// nanoseconds after 1970-01-01 00:00:00 UTC, seen in the IANA zone named `zone`,
/// with the strftime pattern `pattern`; `None` where the zone is unknown, the instant
/// out of range or the pattern holds an item that chrono cannot render.
pub uninterp spec fn rendered(secs: int, nanos: int, pattern: Seq<char>, zone: Seq<char>) -> Option<Seq<char>>;

/// What a timestamp shows: the rendering, or the pattern itself where there is none.
pub open spec fn shown_datetime(secs: int, nanos: int, pattern: Seq<char>, zone: Seq<char>) -> Seq<char> {
    match rendered(secs, nanos, pattern, zone) {
        Some(s) => s,
        None => pattern,
    }
}

/// Relies on `chrono::Utc::now`: the current instant, as seconds and nanoseconds
/// since 1970-01-01 00:00:00 UTC. chrono panics only where the system clock reads a
/// time before 1970.
#[verifier::external_body]
pub(crate) fn utc_now() -> (i64, u32) {
    let now = chrono::Utc::now();
    (now.timestamp(), now.timestamp_subsec_nanos())
}

/// Relies on chrono-tz's `Tz::from_str` (an IANA zone name), chrono's
/// `DateTime::from_timestamp` and `with_timezone`, and its strftime rendering
/// (`DateTime::format`, then `DelayedFormat::write_to`).
#[verifier::external_body]
pub(crate) fn render_instant(secs: i64, nanos: u32, pattern: &str, zone: &str) -> (r: Option<String>)
    ensures
        match r {
            Some(s) => rendered(secs as int, nanos as int, pattern@, zone@) == Some(s@),
            None => rendered(secs as int, nanos as int, pattern@, zone@) is None,
        },
{
    let tz: chrono_tz::Tz = zone.parse().ok()?;
    let instant = chrono::DateTime::from_timestamp(secs, nanos)?;
    let mut out = String::new();
    match instant.with_timezone(&tz).format(pattern).write_to(&mut out) {
        Ok(()) => Some(out),
        Err(_) => None,
    }
}

/// Relies on chrono's `DateTime::from_timestamp`, its `Local` zone and its strftime
/// rendering (`DateTime::format`, then `DelayedFormat::write_to`) of the instant as
/// seen on this machine. `None` where the instant is out of range or the pattern
/// holds an item that chrono cannot render.
#[verifier::external_body]
pub(crate) fn render_local(secs: i64, nanos: u32, pattern: &str) -> Option<String> {
    let instant = chrono::DateTime::from_timestamp(secs, nanos)?;
    let mut out = String::new();
    match chrono::Local.from_utc_datetime(&instant.naive_utc()).format(pattern).write_to(&mut out) {
        Ok(()) => Some(out),
        Err(_) => None,
    }
}

/// The instant rendered in `zone` with `pattern`; the pattern itself where it cannot be.
pub fn datetime_at(secs: i64, nanos: u32, pattern: &str, zone: &str) -> (r: String)
    ensures
        r@ == shown_datetime(secs as int, nanos as int, pattern@, zone@),
{
    match render_instant(secs, nanos, pattern, zone) {
        Some(s) => s,
        None => pattern.to_string(),
    }
}

/// The current local time rendered with `pattern`; the pattern itself where chrono
/// cannot render it.
pub(crate) fn local_now(pattern: &str) -> String {
    let (secs, nanos) = utc_now();
    match render_local(secs, nanos, pattern) {
        Some(s) => s,
        None => pattern.to_string(),
    }
}

/// Today's local date, as `YYYY-MM-DD`.
pub(crate) fn today_stamp() -> String {
    local_now("%Y-%m-%d")
}

} // verus!
