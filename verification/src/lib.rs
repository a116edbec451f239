//! Time-zone metadata, instant conversion, and API-key primitives.
//!
//! The engine takes partially specified temporal inputs (an epoch timestamp,
//! or a naive local datetime paired with its source zone) and renders them,
//! DST-aware, in one or two named IANA zones at once.

pub mod apikey;
pub mod datetime;
pub mod models;
pub mod service;
pub mod strutil;
pub mod tzcat;

pub use models::ConvertRequest;
pub use models::ConvertResponse;
pub use models::ConvertTimezoneInfo;
pub use models::ErrorResponse;
pub use models::TimezoneInfo;
pub use models::TimezoneListItem;
pub use service::EpochZoneService;
