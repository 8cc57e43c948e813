//! Timestamp normalisation: heterogeneous textual timestamps become one UTC
//! instant, counted in microseconds since the Unix epoch.
use vstd::prelude::*;

verus! {

/// A point in time, in microseconds since 1970-01-01 00:00:00 UTC.
#[derive(Clone, Copy, Debug, PartialEq, Eq, Structural)]
pub struct UtcInstant {
    pub micros: i64,
}

/// What chrono's RFC 3339 parser gives for `s`, as UTC microseconds.
pub uninterp spec fn rfc3339_micros(s: Seq<char>) -> Option<i64>;

/// What chrono gives for `s` read as `%Y-%m-%d %H:%M:%S%.f %z`, as UTC microseconds.
pub uninterp spec fn offset_text_micros(s: Seq<char>) -> Option<i64>;

/// What chrono gives for `s` read as `%Y-%m-%d %H:%M:%S%.f` in UTC, in microseconds.
pub uninterp spec fn fraction_text_micros(s: Seq<char>) -> Option<i64>;

/// What chrono gives for `s` read as `%Y-%m-%d %H:%M:%S` in UTC, in microseconds.
pub uninterp spec fn seconds_text_micros(s: Seq<char>) -> Option<i64>;

/// The text chrono writes for an instant with `%Y-%m-%d %H:%M:%S%.6f`, if the
/// instant lies in chrono's calendar range.
pub uninterp spec fn canonical_text_of(micros: i64) -> Option<Seq<char>>;

/// Relies on chrono's `DateTime::parse_from_rfc3339` and `DateTime::timestamp_micros`:
/// the result depends on the text alone.
#[verifier::external_body]
fn parse_rfc3339(s: &str) -> (r: Option<i64>)
    ensures
        r == rfc3339_micros(s@),
{
    chrono::DateTime::parse_from_rfc3339(s).ok().map(|d| d.timestamp_micros())
}

/// Relies on chrono's `DateTime::parse_from_str` with an explicit offset:
/// the result depends on the text alone.
#[verifier::external_body]
fn parse_offset_text(s: &str) -> (r: Option<i64>)
    ensures
        r == offset_text_micros(s@),
{
    chrono::DateTime::parse_from_str(s, "%Y-%m-%d %H:%M:%S%.f %z").ok().map(|d| d.timestamp_micros())
}

/// Relies on chrono's `NaiveDateTime::parse_from_str` with fractional seconds,
/// read as UTC: the result depends on the text alone.
#[verifier::external_body]
fn parse_fraction_text(s: &str) -> (r: Option<i64>)
    ensures
        r == fraction_text_micros(s@),
{
    chrono::NaiveDateTime::parse_from_str(s, "%Y-%m-%d %H:%M:%S%.f").ok().map(
        |d| d.and_utc().timestamp_micros(),
    )
}

/// Relies on chrono's `NaiveDateTime::parse_from_str` with whole seconds,
/// read as UTC: the result depends on the text alone.
#[verifier::external_body]
fn parse_seconds_text(s: &str) -> (r: Option<i64>)
    ensures
        r == seconds_text_micros(s@),
{
    chrono::NaiveDateTime::parse_from_str(s, "%Y-%m-%d %H:%M:%S").ok().map(
        |d| d.and_utc().timestamp_micros(),
    )
}

/// Relies on chrono's `From<SystemTime> for DateTime<Utc>` on the system
/// clock: a clock before the Unix epoch gives a negative count. Nothing is
/// promised of what the clock reads.
#[verifier::external_body]
fn clock_micros() -> (r: i64) {
    chrono::DateTime::<chrono::Utc>::from(std::time::SystemTime::now()).timestamp_micros()
}

/// Relies on chrono's `DateTime::from_timestamp_micros` (`None` outside
/// chrono's range) and `format`: the text depends on the instant alone.
#[verifier::external_body]
fn format_micros(micros: i64) -> (r: Option<String>)
    ensures
        match r {
            Some(t) => canonical_text_of(micros) == Some(t@),
            None => canonical_text_of(micros) is None,
        },
{
    chrono::DateTime::from_timestamp_micros(micros).map(
        |d| d.format("%Y-%m-%d %H:%M:%S%.6f").to_string(),
    )
}

/// The instant the candidate formats give, tried in priority order, first match wins.
pub open spec fn first_parsed(
    rfc: Option<i64>,
    offset: Option<i64>,
    fraction: Option<i64>,
    seconds: Option<i64>,
) -> Option<i64> {
    if rfc is Some {
        rfc
    } else if offset is Some {
        offset
    } else if fraction is Some {
        fraction
    } else {
        seconds
    }
}

/// The instant that `s` denotes in one of the four supported formats, if any.
pub open spec fn parsed_micros(s: Seq<char>) -> Option<i64> {
    first_parsed(
        rfc3339_micros(s),
        offset_text_micros(s),
        fraction_text_micros(s),
        seconds_text_micros(s),
    )
}

/// The instant recorded for `s` when the clock reads `now`: the parsed
/// instant, or `now` where no format matches.
pub open spec fn normalized_micros(s: Seq<char>, now: i64) -> i64 {
    match parsed_micros(s) {
        Some(m) => m,
        None => now,
    }
}

/// Picks the instant from the results of the four candidate parsers, in
/// priority order; `now` stands in where none of them matched.
pub fn select_instant(
    rfc: Option<i64>,
    offset: Option<i64>,
    fraction: Option<i64>,
    seconds: Option<i64>,
    now: UtcInstant,
) -> (r: UtcInstant)
    ensures
        r.micros == match first_parsed(rfc, offset, fraction, seconds) {
            Some(m) => m,
            None => now.micros,
        },
{
    let micros: i64 = match rfc {
        Some(m) => m,
        None => match offset {
            Some(m) => m,
            None => match fraction {
                Some(m) => m,
                None => match seconds {
                    Some(m) => m,
                    None => now.micros,
                },
            },
        },
    };
    UtcInstant { micros }
}

/// Reads `raw` in the first of the four supported formats that accepts it.
pub fn parse_instant(raw: &str) -> (r: Option<UtcInstant>)
    ensures
        match parsed_micros(raw@) {
            Some(m) => r == Some(UtcInstant { micros: m }),
            None => r is None,
        },
{
    let rfc = parse_rfc3339(raw);
    if let Some(m) = rfc {
        return Some(UtcInstant { micros: m });
    }
    let offset = parse_offset_text(raw);
    if let Some(m) = offset {
        return Some(UtcInstant { micros: m });
    }
    let fraction = parse_fraction_text(raw);
    if let Some(m) = fraction {
        return Some(UtcInstant { micros: m });
    }
    match parse_seconds_text(raw) {
        Some(m) => Some(UtcInstant { micros: m }),
        None => None,
    }
}

/// Normalises `raw` with `now` as the fallback instant for text that no
/// supported format accepts.
pub fn normalize_at(raw: &str, now: UtcInstant) -> (r: UtcInstant)
    ensures
        r.micros == normalized_micros(raw@, now.micros),
{
    match parse_instant(raw) {
        Some(t) => t,
        None => now,
    }
}

/// The current time of the system clock.
pub fn now() -> (r: UtcInstant) {
    UtcInstant { micros: clock_micros() }
}

/// Normalises `raw`; text that no supported format accepts is not rejected:
/// the current time stands in for it.
pub fn parse_datetime(date_str: &str) -> (r: UtcInstant)
    ensures
        parsed_micros(date_str@) is Some ==> r.micros == parsed_micros(date_str@)->0,
{
    match parse_instant(date_str) {
        Some(t) => t,
        None => now(),
    }
}

/// The canonical text of an instant: `YYYY-MM-DD HH:MM:SS.ffffff`, in UTC;
/// `None` for an instant outside the calendar range.
pub fn format_datetime_safe(datetime: &UtcInstant) -> (r: Option<String>)
    ensures
        match r {
            Some(t) => canonical_text_of(datetime.micros) == Some(t@),
            None => canonical_text_of(datetime.micros) is None,
        },
{
    format_micros(datetime.micros)
}

} // verus!
