//! The timezone engine: identifier validation, catalog listing, instant
//! derivation from a conversion query, and per-zone rendering of one
//! instant in one or two named zones.

use vstd::prelude::*;

use crate::datetime::num_at;
use crate::datetime::parse_datetime_literal;
use crate::datetime::parses_as_datetime;
use crate::datetime::seconds_of;
use crate::models::ConvertRequest;
use crate::models::ConvertResponse;
use crate::models::ConvertTimezoneInfo;
use crate::models::TimezoneInfo;
use crate::models::TimezoneListItem;
use crate::strutil::spec_display_name;
use crate::strutil::spec_i64_string;
use crate::strutil::spec_offset_display;
use crate::strutil::display_name_of;
use crate::strutil::format_utc_offset;
use crate::strutil::i64_string;
use crate::tzcat::catalog_entry;
use crate::tzcat::catalog_has;
use crate::tzcat::epoch_in_range;
use crate::tzcat::local_instant;
use crate::tzcat::zone_abbrev;
use crate::tzcat::zone_dst_seconds;
use crate::tzcat::zone_offset_seconds;
use crate::tzcat::zone_rfc3339;
use crate::tzcat;

verus! {

/// Core timezone service handling all timezone operations.
pub struct EpochZoneService;

/// An abbreviation that is only a bare numeric offset is replaced by an
/// explicit unavailable marker, so it cannot be mistaken for a letter code.
pub open spec fn spec_abbrev_display(a: Seq<char>) -> Seq<char> {
    if a.len() > 0 && (a[0] == '+' || a[0] == '-') {
        "N/A"@
    } else {
        a
    }
}

/// The full catalog listing: one item for each catalog position, in
/// catalog order, named by the entry there and displayed with its
/// underscores replaced by spaces.
pub open spec fn is_zone_listing(items: Seq<TimezoneListItem>) -> bool {
    &&& items.len() == 597
    &&& forall|i: int|
        0 <= i < items.len() ==> (#[trigger] items[i].name@) == catalog_entry(i)
            && items[i].display_name@ == spec_display_name(catalog_entry(i))
}

/// The reading of instant `ts` in the zone named `zone`: every field is a
/// function of the pair, and the timestamp field is the instant itself.
pub open spec fn is_reading_for(info: ConvertTimezoneInfo, zone: Seq<char>, ts: int) -> bool {
    &&& info.timezone@ == zone
    &&& info.datetime@ == zone_rfc3339(zone, ts)
    &&& info.utc_offset@ == spec_offset_display(zone_offset_seconds(zone, ts))
    &&& info.abbreviation@ == spec_abbrev_display(zone_abbrev(zone, ts))
    &&& info.is_dst == (zone_dst_seconds(zone, ts) != 0)
    &&& info.timestamp as int == ts
}

/// As `is_reading_for`, for the zone-metadata response shape.
pub open spec fn is_info_for(info: TimezoneInfo, zone: Seq<char>, ts: int) -> bool {
    &&& info.timezone@ == zone
    &&& info.current_time@ == zone_rfc3339(zone, ts)
    &&& info.utc_offset@ == spec_offset_display(zone_offset_seconds(zone, ts))
    &&& info.abbreviation@ == spec_abbrev_display(zone_abbrev(zone, ts))
    &&& info.is_dst == (zone_dst_seconds(zone, ts) != 0)
    &&& info.timestamp as int == ts
}

/// The distinct ways a conversion query can be rejected.
#[derive(Debug, Clone, Copy, PartialEq, Eq, Structural)]
pub enum ConvertFault {
    InvalidTargetZone,
    ConflictingInstant,
    InvalidTimestamp,
    InvalidSourceZone,
    MalformedDatetime,
    AmbiguousLocalTime,
    MissingInstant,
    MissingSourceZone,
}

/// The unique instant, if any, for the query's naive datetime interpreted
/// in its declared source zone.
pub open spec fn spec_local_of(req: ConvertRequest) -> Option<int> {
    local_instant(
        req.from->0@,
        num_at(req.datetime->0@, 0, 4),
        num_at(req.datetime->0@, 5, 2),
        num_at(req.datetime->0@, 8, 2),
        num_at(req.datetime->0@, 11, 2),
        num_at(req.datetime->0@, 14, 2),
        seconds_of(req.datetime->0@),
    )
}

/// The first fault a conversion query runs into, in the order the engine
/// checks: target zone, instant-specification shape, then the chosen
/// derivation path; `None` when the query is accepted.
pub open spec fn spec_convert_fault(req: ConvertRequest) -> Option<ConvertFault> {
    if !catalog_has(req.to@) {
        Some(ConvertFault::InvalidTargetZone)
    } else if req.timestamp is Some {
        if req.datetime is Some || req.from is Some {
            Some(ConvertFault::ConflictingInstant)
        } else if !epoch_in_range(req.timestamp->0 as int) {
            Some(ConvertFault::InvalidTimestamp)
        } else {
            None
        }
    } else if req.datetime is Some {
        if req.from is Some {
            if !catalog_has(req.from->0@) {
                Some(ConvertFault::InvalidSourceZone)
            } else if !parses_as_datetime(req.datetime->0@) {
                Some(ConvertFault::MalformedDatetime)
            } else if spec_local_of(req) is None {
                Some(ConvertFault::AmbiguousLocalTime)
            } else {
                None
            }
        } else {
            Some(ConvertFault::MissingSourceZone)
        }
    } else {
        Some(ConvertFault::MissingInstant)
    }
}

/// The shared instant of an accepted query: the literal timestamp, or the
/// unique instant of the naive datetime in its source zone.
pub open spec fn spec_instant(req: ConvertRequest) -> int {
    if req.timestamp is Some {
        req.timestamp->0 as int
    } else {
        spec_local_of(req)->0
    }
}

/// The zone the `from` side of an accepted query is rendered in: fixed
/// UTC on the timestamp path, the declared source zone otherwise.
pub open spec fn spec_source_zone(req: ConvertRequest) -> Seq<char> {
    if req.timestamp is Some {
        "UTC"@
    } else {
        req.from->0@
    }
}

/// The exact message reported for each fault.
pub open spec fn fault_message(f: ConvertFault, req: ConvertRequest) -> Seq<char> {
    match f {
        ConvertFault::InvalidTargetZone => "Invalid target timezone: "@ + req.to@,
        ConvertFault::ConflictingInstant => "Provide either 'timestamp' or 'datetime'+'from', not both"@,
        ConvertFault::InvalidTimestamp => "Invalid timestamp: "@ + spec_i64_string(
            req.timestamp->0 as int,
        ),
        ConvertFault::InvalidSourceZone => "Invalid source timezone: "@ + req.from->0@,
        ConvertFault::MalformedDatetime => "Invalid datetime '"@ + req.datetime->0@ + "'"@,
        ConvertFault::AmbiguousLocalTime => "Ambiguous or invalid local time '"@ + req.datetime->0@
            + "' in "@ + req.from->0@,
        ConvertFault::MissingInstant => "Either 'timestamp' or 'datetime'+'from' is required"@,
        ConvertFault::MissingSourceZone => "'from' timezone is required when using 'datetime'"@,
    }
}

/// Relies on the catalog defining the fixed alias `UTC`
/// (`chrono_tz::UTC`): hands out that zone's name.
#[verifier::external_body]
fn utc_zone_name() -> (r: String)
    ensures
        r@ == "UTC"@,
        catalog_has(r@),
{
    chrono_tz::Tz::UTC.name().to_string()
}

impl EpochZoneService {
    /// Validate a zone identifier against the catalog.
    pub fn is_valid_timezone(timezone_name: &str) -> (r: bool)
        ensures
            r == catalog_has(timezone_name@),
    {
        tzcat::zone_exists(timezone_name)
    }

    /// Render the zone's reading of one instant; the timestamp field is
    /// the instant itself.
    pub fn build_convert_info(ts: i64, zone: &str) -> (r: ConvertTimezoneInfo)
        requires
            catalog_has(zone@),
            epoch_in_range(ts as int),
        ensures
            is_reading_for(r, zone@, ts as int),
    {
        let offset = tzcat::offset_seconds_at(zone, ts);
        let abbr = tzcat::abbreviation_at(zone, ts);
        ConvertTimezoneInfo {
            timezone: zone.to_owned(),
            datetime: tzcat::rfc3339_at(zone, ts),
            utc_offset: format_utc_offset(offset),
            abbreviation: Self::format_abbreviation(abbr),
            is_dst: Self::is_daylight_saving_time(zone, ts),
            timestamp: ts,
        }
    }

    /// Return the abbreviation, or the unavailable marker if the catalog
    /// only supplies a numeric offset.
    pub fn format_abbreviation(abbr: String) -> (r: String)
        ensures
            r@ == spec_abbrev_display(abbr@),
    {
        let n = abbr.as_str().unicode_len();
        if n > 0 {
            let c = abbr.as_str().get_char(0);
            if c == '+' || c == '-' {
                return String::from_str("N/A");
            }
        }
        abbr
    }

    /// Whether the zone's DST component is non-zero at the instant.
    pub(crate) fn is_daylight_saving_time(timezone_name: &str, ts: i64) -> (r: bool)
        requires
            catalog_has(timezone_name@),
            epoch_in_range(ts as int),
        ensures
            r == (zone_dst_seconds(timezone_name@, ts as int) != 0),
    {
        tzcat::dst_seconds_at(timezone_name, ts) != 0
    }

    /// Metadata for a zone at a given instant. `Ok` exactly when the
    /// catalog knows the zone and the instant is renderable.
    pub fn get_timezone_info_at(timezone_name: &str, ts: i64) -> (r: Result<TimezoneInfo, String>)
        ensures
            (r is Ok) == (catalog_has(timezone_name@) && epoch_in_range(ts as int)),
            r matches Ok(info) ==> is_info_for(info, timezone_name@, ts as int),
            r matches Err(e) ==> e@ == (if !catalog_has(timezone_name@) {
                "Invalid timezone: "@ + timezone_name@
            } else {
                "Invalid timestamp: "@ + spec_i64_string(ts as int)
            }),
    {
        if !tzcat::zone_exists(timezone_name) {
            let e = String::from_str("Invalid timezone: ").concat(timezone_name);
            return Err(e);
        }
        if !tzcat::timestamp_renderable(ts) {
            let e = String::from_str("Invalid timestamp: ").concat(i64_string(ts).as_str());
            return Err(e);
        }
        let offset = tzcat::offset_seconds_at(timezone_name, ts);
        let abbr = tzcat::abbreviation_at(timezone_name, ts);
        Ok(
            TimezoneInfo {
                timezone: timezone_name.to_owned(),
                current_time: tzcat::rfc3339_at(timezone_name, ts),
                utc_offset: format_utc_offset(offset),
                abbreviation: Self::format_abbreviation(abbr),
                is_dst: Self::is_daylight_saving_time(timezone_name, ts),
                timestamp: ts,
            },
        )
    }

    /// Metadata for a zone at the current instant. `Ok` exactly when the
    /// catalog knows the zone.
    pub fn get_timezone_info(timezone_name: &str) -> (r: Result<TimezoneInfo, String>)
        ensures
            (r is Ok) == catalog_has(timezone_name@),
            r matches Ok(info) ==> is_info_for(info, timezone_name@, info.timestamp as int),
            r matches Err(e) ==> e@ == "Invalid timezone: "@ + timezone_name@,
    {
        let ts = tzcat::now_timestamp();
        Self::get_timezone_info_at(timezone_name, ts)
    }

    /// Every catalog entry, in catalog order, with its display name
    /// derived by replacing underscores with spaces.
    pub fn get_all_timezones() -> (r: Vec<TimezoneListItem>)
        ensures
            is_zone_listing(r@),
            r@.len() > 500,
            forall|i: int|
                0 <= i < r@.len() ==> catalog_has(#[trigger] r@[i].name@) && r@[i].display_name@
                    == spec_display_name(r@[i].name@),
            exists|i: int|
                0 <= i < r@.len() && (#[trigger] r@[i].name@) == "America/New_York"@
                    && r@[i].display_name@ == "America/New York"@,
    {
        let names = tzcat::catalog_names();
        let mut items: Vec<TimezoneListItem> = Vec::new();
        let mut idx: usize = 0;
        while idx < names.len()
            invariant
                idx <= names@.len(),
                items@.len() == idx,
                forall|i: int| 0 <= i < names@.len() ==> catalog_has(#[trigger] names@[i]@),
                exists|i: int|
                    0 <= i < names@.len() && (#[trigger] names@[i]@) == "America/New_York"@,
                forall|i: int|
                    0 <= i < idx ==> (#[trigger] items@[i].name@) == names@[i]@
                        && items@[i].display_name@ == spec_display_name(names@[i]@),
            decreases names@.len() - idx,
        {
            let name_ref = &names[idx];
            let display = display_name_of(name_ref.as_str());
            items.push(TimezoneListItem { name: name_ref.clone(), display_name: display });
            idx = idx + 1;
        }
        proof {
            lemma_new_york_display();
            let i0 = choose|i: int|
                0 <= i < names@.len() && (#[trigger] names@[i]@) == "America/New_York"@;
            assert(items@[i0].name@ == "America/New_York"@);
            assert(items@[i0].display_name@ == "America/New York"@);
        }
        items
    }

    /// Convert one instant into both the source-side and target-side
    /// readings. The two sides always share the instant's timestamp.
    pub fn convert_timezone(request: &ConvertRequest) -> (r: Result<ConvertResponse, String>)
        ensures
            (r is Ok) == (spec_convert_fault(*request) is None),
            r matches Ok(resp) ==> ({
                &&& is_reading_for(resp.from, spec_source_zone(*request), spec_instant(*request))
                &&& is_reading_for(resp.to, request.to@, spec_instant(*request))
                &&& resp.from.timestamp == resp.to.timestamp
            }),
            r matches Err(e) ==> (spec_convert_fault(*request) matches Some(f) && e@
                == fault_message(f, *request)),
    {
        if !tzcat::zone_exists(request.to.as_str()) {
            let e = String::from_str("Invalid target timezone: ").concat(request.to.as_str());
            return Err(e);
        }
        let instant: i64;
        let from_zone: String;
        match (&request.timestamp, &request.datetime, &request.from) {
            (Some(_), Some(_), _) | (Some(_), _, Some(_)) => {
                return Err(
                    String::from_str("Provide either 'timestamp' or 'datetime'+'from', not both"),
                );
            },
            (Some(ts), None, None) => {
                if !tzcat::timestamp_renderable(*ts) {
                    let e = String::from_str("Invalid timestamp: ").concat(
                        i64_string(*ts).as_str(),
                    );
                    return Err(e);
                }
                instant = *ts;
                from_zone = utc_zone_name();
            },
            (None, Some(dt), Some(from)) => {
                if !tzcat::zone_exists(from.as_str()) {
                    let e = String::from_str("Invalid source timezone: ").concat(from.as_str());
                    return Err(e);
                }
                let stamp = match parse_datetime_literal(dt.as_str()) {
                    Some(st) => st,
                    None => {
                        let e = String::from_str("Invalid datetime '").concat(dt.as_str()).concat(
                            "'",
                        );
                        return Err(e);
                    },
                };
                match tzcat::resolve_local(from.as_str(), stamp) {
                    Some(ts) => {
                        instant = ts;
                    },
                    None => {
                        let e = String::from_str("Ambiguous or invalid local time '").concat(
                            dt.as_str(),
                        ).concat("' in ").concat(from.as_str());
                        return Err(e);
                    },
                }
                from_zone = from.clone();
            },
            (None, None, _) => {
                return Err(
                    String::from_str("Either 'timestamp' or 'datetime'+'from' is required"),
                );
            },
            (None, Some(_), None) => {
                return Err(String::from_str("'from' timezone is required when using 'datetime'"));
            },
        }
        let from_info = Self::build_convert_info(instant, from_zone.as_str());
        let to_info = Self::build_convert_info(instant, request.to.as_str());
        Ok(ConvertResponse { from: from_info, to: to_info })
    }
}

/// `America/New_York` displays as `America/New York`.
pub proof fn lemma_new_york_display()
    ensures
        spec_display_name("America/New_York"@) == "America/New York"@,
{
    reveal_strlit("America/New_York");
    reveal_strlit("America/New York");
    assert(spec_display_name("America/New_York"@) =~= "America/New York"@);
}

/// The catalog listing is stable: any two listings agree pointwise, in
/// membership and in order.
pub proof fn lemma_listing_deterministic(a: Seq<TimezoneListItem>, b: Seq<TimezoneListItem>)
    requires
        is_zone_listing(a),
        is_zone_listing(b),
    ensures
        a.len() == b.len(),
        forall|i: int|
            0 <= i < a.len() ==> (#[trigger] a[i].name@) == b[i].name@ && a[i].display_name@
                == b[i].display_name@,
{
}

/// Readings of one zone at one instant are unique: repeated queries
/// within the same second agree on offset, abbreviation, and DST flag.
pub proof fn lemma_info_deterministic(a: TimezoneInfo, b: TimezoneInfo, zone: Seq<char>, ts: int)
    requires
        is_info_for(a, zone, ts),
        is_info_for(b, zone, ts),
    ensures
        a.utc_offset@ == b.utc_offset@,
        a.abbreviation@ == b.abbreviation@,
        a.is_dst == b.is_dst,
        a.timestamp == b.timestamp,
{
}

/// Both sides of a dual rendering carry the instant they were rendered
/// from, so their timestamp fields are equal.
pub proof fn lemma_convert_shares_instant(
    resp: ConvertResponse,
    from_zone: Seq<char>,
    to_zone: Seq<char>,
    ts: int,
)
    requires
        is_reading_for(resp.from, from_zone, ts),
        is_reading_for(resp.to, to_zone, ts),
    ensures
        resp.from.timestamp as int == ts,
        resp.to.timestamp as int == ts,
        resp.from.timestamp == resp.to.timestamp,
{
}

} // verus!
