//! The boundary to the IANA catalog compiled into chrono-tz and to
//! chrono's calendar arithmetic. Everything zone-rule dependent is a pure
//! function of the zone name and the instant, so each outside result is
//! given a name here and the wrappers relate their results to those names.

use vstd::prelude::*;

use crate::datetime::NaiveStamp;
use crate::datetime::wf_stamp;

verus! {

/// Whether the IANA catalog recognizes `name`: the set of strings that
/// `chrono_tz::Tz::from_str` accepts (exact, case-sensitive).
pub uninterp spec fn catalog_has(name: Seq<char>) -> bool;

/// Whether `chrono::DateTime::from_timestamp` accepts `ts` seconds, i.e.
/// the instant lies inside chrono's representable calendar range.
pub uninterp spec fn epoch_in_range(ts: int) -> bool;

/// The zone's total UTC offset, in seconds, at instant `ts`.
pub uninterp spec fn zone_offset_seconds(name: Seq<char>, ts: int) -> int;

/// The daylight-saving component, in seconds, of the zone's offset at
/// instant `ts`.
pub uninterp spec fn zone_dst_seconds(name: Seq<char>, ts: int) -> int;

/// The catalog's abbreviation text for the zone at instant `ts` (a letter
/// code such as `CET`, or a bare numeric offset when none is defined).
pub uninterp spec fn zone_abbrev(name: Seq<char>, ts: int) -> Seq<char>;

/// The RFC 3339 offset-qualified rendering of instant `ts` on the zone's
/// local calendar and clock.
pub uninterp spec fn zone_rfc3339(name: Seq<char>, ts: int) -> Seq<char>;

/// The instant, if exactly one exists, at which the zone's wall clock
/// reads `y-mo-d h:mi:s`; `None` in a spring-forward gap or a fall-back
/// overlap.
pub uninterp spec fn local_instant(
    name: Seq<char>,
    y: int,
    mo: int,
    d: int,
    h: int,
    mi: int,
    s: int,
) -> Option<int>;

/// Shorthand: the unique instant for a parsed naive stamp in a zone.
pub open spec fn stamp_instant(name: Seq<char>, st: NaiveStamp) -> Option<int> {
    local_instant(
        name,
        st.year as int,
        st.month as int,
        st.day as int,
        st.hour as int,
        st.minute as int,
        st.second as int,
    )
}

/// Relies on `chrono_tz::Tz::from_str`: an exact, case-sensitive lookup
/// of the name in the compiled-in IANA catalog.
#[verifier::external_body]
pub fn zone_exists(name: &str) -> (r: bool)
    ensures
        r == catalog_has(name@),
{
    name.parse::<chrono_tz::Tz>().is_ok()
}

/// Relies on `chrono::DateTime::from_timestamp`, which returns `Some`
/// exactly on its documented in-range seconds values.
#[verifier::external_body]
pub fn timestamp_renderable(ts: i64) -> (r: bool)
    ensures
        r == epoch_in_range(ts as int),
{
    chrono::DateTime::<chrono::Utc>::from_timestamp(ts, 0).is_some()
}

/// Relies on `chrono::Utc::now`. Any `DateTime` round-trips through
/// `from_timestamp` of its own epoch value, so the result is renderable;
/// nothing more is promised of the clock.
#[verifier::external_body]
pub fn now_timestamp() -> (r: i64)
    ensures
        epoch_in_range(r as int),
{
    chrono::Utc::now().timestamp()
}

/// Relies on chrono-tz's offset lookup for a zone at an instant, via
/// `Offset::fix`; a `chrono::FixedOffset` keeps its seconds strictly
/// between -86400 and 86400.
#[verifier::external_body]
pub fn offset_seconds_at(name: &str, ts: i64) -> (r: i32)
    requires
        catalog_has(name@),
        epoch_in_range(ts as int),
    ensures
        r as int == zone_offset_seconds(name@, ts as int),
        -86400 < r < 86400,
{
    let tz: chrono_tz::Tz = name.parse().unwrap();
    let utc = chrono::DateTime::<chrono::Utc>::from_timestamp(ts, 0).unwrap();
    chrono::Offset::fix(utc.with_timezone(&tz).offset()).local_minus_utc()
}

/// Relies on `chrono_tz::OffsetComponents::dst_offset`: the DST part of
/// the zone's offset at the instant, in whole seconds.
#[verifier::external_body]
pub fn dst_seconds_at(name: &str, ts: i64) -> (r: i64)
    requires
        catalog_has(name@),
        epoch_in_range(ts as int),
    ensures
        r as int == zone_dst_seconds(name@, ts as int),
{
    let tz: chrono_tz::Tz = name.parse().unwrap();
    let utc = chrono::DateTime::<chrono::Utc>::from_timestamp(ts, 0).unwrap();
    chrono_tz::OffsetComponents::dst_offset(utc.with_timezone(&tz).offset()).num_seconds()
}

/// Relies on chrono's `%Z` formatting: the zone's abbreviation at the
/// instant, or a numeric form when the catalog defines no letter code.
#[verifier::external_body]
pub fn abbreviation_at(name: &str, ts: i64) -> (r: String)
    requires
        catalog_has(name@),
        epoch_in_range(ts as int),
    ensures
        r@ == zone_abbrev(name@, ts as int),
{
    let tz: chrono_tz::Tz = name.parse().unwrap();
    let utc = chrono::DateTime::<chrono::Utc>::from_timestamp(ts, 0).unwrap();
    format!("{}", utc.with_timezone(&tz).format("%Z"))
}

/// Relies on `chrono::DateTime::to_rfc3339`: the instant on the zone's
/// local calendar and clock with its numeric offset suffix.
#[verifier::external_body]
pub fn rfc3339_at(name: &str, ts: i64) -> (r: String)
    requires
        catalog_has(name@),
        epoch_in_range(ts as int),
    ensures
        r@ == zone_rfc3339(name@, ts as int),
{
    let tz: chrono_tz::Tz = name.parse().unwrap();
    let utc = chrono::DateTime::<chrono::Utc>::from_timestamp(ts, 0).unwrap();
    utc.with_timezone(&tz).to_rfc3339()
}

/// The name of the catalog's entry at position `i`: what
/// `chrono_tz::TZ_VARIANTS[i].name()` holds, a fixed table.
pub uninterp spec fn catalog_entry(i: int) -> Seq<char>;

/// Relies on `chrono_tz::TZ_VARIANTS`: the full catalog, 597 entries in
/// a fixed order, each of whose names `Tz::from_str` accepts;
/// `America/New_York` is among them.
#[verifier::external_body]
pub fn catalog_names() -> (r: Vec<String>)
    ensures
        r@.len() == 597,
        forall|i: int| 0 <= i < r@.len() ==> (#[trigger] r@[i]@) == catalog_entry(i),
        forall|i: int| 0 <= i < r@.len() ==> catalog_has(#[trigger] r@[i]@),
        exists|i: int| 0 <= i < r@.len() && (#[trigger] r@[i]@) == "America/New_York"@,
{
    chrono_tz::TZ_VARIANTS.iter().map(|tz| tz.name().to_string()).collect()
}

/// Relies on `chrono::TimeZone::from_local_datetime(..).single()`:
/// `Some` exactly when the wall-clock value maps to one instant in the
/// zone. A returned instant comes from a valid `DateTime`, so its epoch
/// value is renderable by `from_timestamp`.
#[verifier::external_body]
pub fn resolve_local(name: &str, st: NaiveStamp) -> (r: Option<i64>)
    requires
        catalog_has(name@),
        wf_stamp(st),
    ensures
        (r is Some) == (local_instant(
            name@,
            st.year as int,
            st.month as int,
            st.day as int,
            st.hour as int,
            st.minute as int,
            st.second as int,
        ) is Some),
        r matches Some(ts) ==> ts as int == local_instant(
            name@,
            st.year as int,
            st.month as int,
            st.day as int,
            st.hour as int,
            st.minute as int,
            st.second as int,
        )->0 && epoch_in_range(ts as int),
{
    let tz: chrono_tz::Tz = name.parse().unwrap();
    let date = chrono::NaiveDate::from_ymd_opt(st.year as i32, st.month, st.day).unwrap();
    let naive = date.and_hms_opt(st.hour, st.minute, st.second).unwrap();
    match chrono::TimeZone::from_local_datetime(&tz, &naive).single() {
        Some(dt) => Some(dt.timestamp()),
        None => None,
    }
}

} // verus!
