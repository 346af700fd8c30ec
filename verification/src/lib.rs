//! Transit feed decoding: typed records from delimited transit tables.
//!
//! The crate turns untrusted, loosely structured text tables into validated
//! typed records while preserving exact failure provenance: every decoding
//! step either yields a record or an error that names the file, the line and
//! the offending value.

pub mod archive;
pub mod error;
pub mod feed;
pub mod gtfs;
pub mod parse;
pub mod schema;
pub mod transit;

pub use archive::EntryPlan;
pub use archive::plan_entry;
pub use archive::sanitize_filename;
pub use error::Error;
pub use feed::FeedProvider;
pub use feed::LocalFeedProvider;
pub use gtfs::GTFSIterator;
pub use gtfs::Record;
pub use transit::Agency;
pub use transit::BikesAllowed;
pub use transit::Calendar;
pub use transit::CalendarDate;
pub use transit::CodedEnum;
pub use transit::Date;
pub use transit::DropoffType;
pub use transit::ExceptionType;
pub use transit::FareAttribute;
pub use transit::FareRule;
pub use transit::FeedInfo;
pub use transit::Frequency;
pub use transit::FrequencyAccuracy;
pub use transit::LocationType;
pub use transit::PaymentMethod;
pub use transit::PickupType;
pub use transit::Route;
pub use transit::RouteType;
pub use transit::Shape;
pub use transit::Stop;
pub use transit::StopTime;
pub use transit::TimeOffset;
pub use transit::Timepoint;
pub use transit::Transfer;
pub use transit::TransferType;
pub use transit::Transfers;
pub use transit::Trip;
pub use transit::TripArrival;
pub use transit::WheelchairAccessible;
pub use transit::WheelchairBoarding;

