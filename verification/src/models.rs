//! Request and response shapes of the timezone service.

use vstd::prelude::*;

verus! {

/// The rendering of an instant in one zone, together with the zone's
/// metadata at that instant: what `getZoneInfo` returns.
#[derive(Debug, Clone)]
pub struct TimezoneInfo {
    pub timezone: String,
    pub current_time: String,
    pub utc_offset: String,
    pub abbreviation: String,
    pub is_dst: bool,
    pub timestamp: i64,
}

/// One catalog entry: the IANA identifier and a human-readable name
/// derived from it by replacing underscores with spaces.
#[derive(Debug, Clone)]
pub struct TimezoneListItem {
    pub name: String,
    pub display_name: String,
}

/// A conversion query: exactly one of `timestamp` or `datetime`+`from`
/// must be supplied, along with the required target zone `to`.
#[derive(Debug)]
pub struct ConvertRequest {
    pub timestamp: Option<i64>,
    pub datetime: Option<String>,
    pub from: Option<String>,
    pub to: String,
}

/// One side of a conversion: the shared instant rendered in one zone.
#[derive(Debug, Clone)]
pub struct ConvertTimezoneInfo {
    pub timezone: String,
    pub datetime: String,
    pub utc_offset: String,
    pub abbreviation: String,
    pub is_dst: bool,
    pub timestamp: i64,
}

/// Both sides of a conversion; they always share one instant.
#[derive(Debug)]
pub struct ConvertResponse {
    pub from: ConvertTimezoneInfo,
    pub to: ConvertTimezoneInfo,
}

/// A caller-facing error message.
#[derive(Debug)]
pub struct ErrorResponse {
    pub error: String,
}

impl ErrorResponse {
    pub fn new(message: String) -> (r: Self)
        ensures
            r.error == message,
    {
        ErrorResponse { error: message }
    }
}

} // verus!
