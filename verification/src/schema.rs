//! One decoding schema per feed table: how each record type starts, and
//! what each header-named cell does to it.
//!
//! These are the per-table decoding rules the generic decoder dispatches
//! to: every arm names one column, applies its codec, and either updates
//! the record or fails with the codec's diagnostic. Cells under
//! unknown names are ignored, and a column absent from the header simply
//! leaves its field at the record's starting value.

use vstd::prelude::*;

use crate::error::FieldFail;
use crate::error::FieldFailure;
use crate::gtfs::Record;
use crate::gtfs::spec_decode_row;
use crate::gtfs::spec_decode_upto;
use crate::gtfs::field_date;
use crate::gtfs::field_decimal;
use crate::gtfs::field_dow;
use crate::gtfs::field_duration;
use crate::gtfs::field_enum;
use crate::gtfs::field_opt_date;
use crate::gtfs::field_opt_decimal;
use crate::gtfs::field_time;
use crate::gtfs::field_u64;
use crate::gtfs::spec_field_date;
use crate::gtfs::spec_field_decimal;
use crate::gtfs::spec_field_dow;
use crate::gtfs::spec_field_duration;
use crate::gtfs::spec_field_enum;
use crate::gtfs::spec_field_opt_date;
use crate::gtfs::spec_field_opt_decimal;
use crate::gtfs::spec_field_time;
use crate::gtfs::spec_field_u64;
use crate::parse::str_eq;
use crate::transit::BikesAllowed;
use crate::transit::Calendar;
use crate::transit::CalendarDate;
use crate::transit::CalendarDateView;
use crate::transit::CalendarView;
use crate::transit::Date;
use crate::transit::DropoffType;
use crate::transit::ExceptionType;
use crate::transit::FareAttribute;
use crate::transit::FareAttributeView;
use crate::transit::FareRule;
use crate::transit::FareRuleView;
use crate::transit::FeedInfo;
use crate::transit::FeedInfoView;
use crate::transit::Frequency;
use crate::transit::FrequencyAccuracy;
use crate::transit::FrequencyView;
use crate::transit::LocationType;
use crate::transit::PaymentMethod;
use crate::transit::PickupType;
use crate::transit::Route;
use crate::transit::RouteType;
use crate::transit::RouteView;
use crate::transit::Shape;
use crate::transit::ShapeView;
use crate::transit::Stop;
use crate::transit::StopTime;
use crate::transit::StopTimeView;
use crate::transit::StopView;
use crate::transit::TimeOffset;
use crate::transit::Timepoint;
use crate::transit::Transfer;
use crate::transit::TransferType;
use crate::transit::TransferView;
use crate::transit::Transfers;
use crate::transit::TripArrival;
use crate::transit::TripArrivalView;
use crate::transit::Trip;
use crate::transit::TripView;
use crate::transit::WheelchairAccessible;
use crate::transit::WheelchairBoarding;
use crate::transit::Agency;
use crate::transit::AgencyView;

verus! {

/// An agency record starts with every field empty or absent.
impl Record for Agency {
    open spec fn spec_required() -> Seq<Seq<char>> {
        seq!["agency_name"@, "agency_url"@, "agency_timezone"@]
    }

    fn required_columns() -> (r: Vec<String>) {
        let mut v: Vec<String> = Vec::new();
        v.push(String::from_str("agency_name"));
        v.push(String::from_str("agency_url"));
        v.push(String::from_str("agency_timezone"));
        proof {
            assert(v.deep_view() =~~= Self::spec_required());
        }
        v
    }

    open spec fn spec_init() -> AgencyView {
        AgencyView {
            agency_id: None,
            agency_name: Seq::empty(),
            agency_url: Seq::empty(),
            agency_timezone: Seq::empty(),
            agency_lang: None,
            agency_phone: None,
            agency_fare_url: None,
            agency_email: None,
        }
    }

    open spec fn spec_apply(v: AgencyView, name: Seq<char>, value: Seq<char>) -> Result<
        AgencyView,
        FieldFail,
    > {
        if name == "agency_id"@ {
            Ok(AgencyView { agency_id: Some(value), ..v })
        } else if name == "agency_name"@ {
            Ok(AgencyView { agency_name: value, ..v })
        } else if name == "agency_url"@ {
            Ok(AgencyView { agency_url: value, ..v })
        } else if name == "agency_timezone"@ {
            Ok(AgencyView { agency_timezone: value, ..v })
        } else if name == "agency_lang"@ {
            Ok(AgencyView { agency_lang: Some(value), ..v })
        } else if name == "agency_phone"@ {
            Ok(AgencyView { agency_phone: Some(value), ..v })
        } else if name == "agency_fare_url"@ {
            Ok(AgencyView { agency_fare_url: Some(value), ..v })
        } else if name == "agency_email"@ {
            Ok(AgencyView { agency_email: Some(value), ..v })
        } else {
            Ok(v)
        }
    }

    fn init() -> (r: Self) {
        Agency {
            agency_id: None,
            agency_name: String::new(),
            agency_url: String::new(),
            agency_timezone: String::new(),
            agency_lang: None,
            agency_phone: None,
            agency_fare_url: None,
            agency_email: None,
        }
    }

    fn apply(self, name: &str, value: &str) -> (r: Result<Self, FieldFailure>) {
        if str_eq(name, "agency_id") {
            Ok(Agency { agency_id: Some(String::from_str(value)), ..self })
        } else if str_eq(name, "agency_name") {
            Ok(Agency { agency_name: String::from_str(value), ..self })
        } else if str_eq(name, "agency_url") {
            Ok(Agency { agency_url: String::from_str(value), ..self })
        } else if str_eq(name, "agency_timezone") {
            Ok(Agency { agency_timezone: String::from_str(value), ..self })
        } else if str_eq(name, "agency_lang") {
            Ok(Agency { agency_lang: Some(String::from_str(value)), ..self })
        } else if str_eq(name, "agency_phone") {
            Ok(Agency { agency_phone: Some(String::from_str(value)), ..self })
        } else if str_eq(name, "agency_fare_url") {
            Ok(Agency { agency_fare_url: Some(String::from_str(value)), ..self })
        } else if str_eq(name, "agency_email") {
            Ok(Agency { agency_email: Some(String::from_str(value)), ..self })
        } else {
            Ok(self)
        }
    }
}

/// A stop record starts with empty text fields and the documented default variants.
impl Record for Stop {
    open spec fn spec_required() -> Seq<Seq<char>> {
        seq!["stop_id"@, "stop_name"@, "stop_lat"@, "stop_lon"@]
    }

    fn required_columns() -> (r: Vec<String>) {
        let mut v: Vec<String> = Vec::new();
        v.push(String::from_str("stop_id"));
        v.push(String::from_str("stop_name"));
        v.push(String::from_str("stop_lat"));
        v.push(String::from_str("stop_lon"));
        proof {
            assert(v.deep_view() =~~= Self::spec_required());
        }
        v
    }

    open spec fn spec_init() -> StopView {
        StopView {
            stop_id: Seq::empty(),
            stop_code: None,
            stop_name: Seq::empty(),
            stop_desc: None,
            stop_lat: Seq::empty(),
            stop_lon: Seq::empty(),
            zone_id: None,
            stop_url: None,
            location_type: LocationType::Stop,
            parent_station: None,
            stop_timezone: None,
            wheelchair_boarding: WheelchairBoarding::NoInformation,
        }
    }

    open spec fn spec_apply(v: StopView, name: Seq<char>, value: Seq<char>) -> Result<
        StopView,
        FieldFail,
    > {
        if name == "stop_id"@ {
            Ok(StopView { stop_id: value, ..v })
        } else if name == "stop_code"@ {
            Ok(StopView { stop_code: Some(value), ..v })
        } else if name == "stop_name"@ {
            Ok(StopView { stop_name: value, ..v })
        } else if name == "stop_desc"@ {
            Ok(StopView { stop_desc: Some(value), ..v })
        } else if name == "stop_lat"@ {
            match spec_field_decimal(value) {
                Ok(t) => Ok(StopView { stop_lat: t, ..v }),
                Err(f) => Err(f),
            }
        } else if name == "stop_lon"@ {
            match spec_field_decimal(value) {
                Ok(t) => Ok(StopView { stop_lon: t, ..v }),
                Err(f) => Err(f),
            }
        } else if name == "zone_id"@ {
            Ok(StopView { zone_id: Some(value), ..v })
        } else if name == "stop_url"@ {
            Ok(StopView { stop_url: Some(value), ..v })
        } else if name == "location_type"@ {
            match spec_field_enum::<LocationType>(value) {
                Ok(t) => Ok(StopView { location_type: t, ..v }),
                Err(f) => Err(f),
            }
        } else if name == "parent_station"@ {
            Ok(StopView { parent_station: Some(value), ..v })
        } else if name == "stop_timezone"@ {
            Ok(StopView { stop_timezone: Some(value), ..v })
        } else if name == "wheelchair_boarding"@ {
            match spec_field_enum::<WheelchairBoarding>(value) {
                Ok(t) => Ok(StopView { wheelchair_boarding: t, ..v }),
                Err(f) => Err(f),
            }
        } else {
            Ok(v)
        }
    }

    fn init() -> (r: Self) {
        Stop {
            stop_id: String::new(),
            stop_code: None,
            stop_name: String::new(),
            stop_desc: None,
            stop_lat: String::new(),
            stop_lon: String::new(),
            zone_id: None,
            stop_url: None,
            location_type: LocationType::Stop,
            parent_station: None,
            stop_timezone: None,
            wheelchair_boarding: WheelchairBoarding::NoInformation,
        }
    }

    fn apply(self, name: &str, value: &str) -> (r: Result<Self, FieldFailure>) {
        if str_eq(name, "stop_id") {
            Ok(Stop { stop_id: String::from_str(value), ..self })
        } else if str_eq(name, "stop_code") {
            Ok(Stop { stop_code: Some(String::from_str(value)), ..self })
        } else if str_eq(name, "stop_name") {
            Ok(Stop { stop_name: String::from_str(value), ..self })
        } else if str_eq(name, "stop_desc") {
            Ok(Stop { stop_desc: Some(String::from_str(value)), ..self })
        } else if str_eq(name, "stop_lat") {
            match field_decimal(value) {
                Ok(t) => Ok(Stop { stop_lat: t, ..self }),
                Err(f) => Err(f),
            }
        } else if str_eq(name, "stop_lon") {
            match field_decimal(value) {
                Ok(t) => Ok(Stop { stop_lon: t, ..self }),
                Err(f) => Err(f),
            }
        } else if str_eq(name, "zone_id") {
            Ok(Stop { zone_id: Some(String::from_str(value)), ..self })
        } else if str_eq(name, "stop_url") {
            Ok(Stop { stop_url: Some(String::from_str(value)), ..self })
        } else if str_eq(name, "location_type") {
            match field_enum::<LocationType>(value) {
                Ok(t) => Ok(Stop { location_type: t, ..self }),
                Err(f) => Err(f),
            }
        } else if str_eq(name, "parent_station") {
            Ok(Stop { parent_station: Some(String::from_str(value)), ..self })
        } else if str_eq(name, "stop_timezone") {
            Ok(Stop { stop_timezone: Some(String::from_str(value)), ..self })
        } else if str_eq(name, "wheelchair_boarding") {
            match field_enum::<WheelchairBoarding>(value) {
                Ok(t) => Ok(Stop { wheelchair_boarding: t, ..self }),
                Err(f) => Err(f),
            }
        } else {
            Ok(self)
        }
    }
}

/// A route record starts with empty text fields and the bus route type.
impl Record for Route {
    open spec fn spec_required() -> Seq<Seq<char>> {
        seq!["route_id"@, "route_short_name"@, "route_long_name"@, "route_type"@]
    }

    fn required_columns() -> (r: Vec<String>) {
        let mut v: Vec<String> = Vec::new();
        v.push(String::from_str("route_id"));
        v.push(String::from_str("route_short_name"));
        v.push(String::from_str("route_long_name"));
        v.push(String::from_str("route_type"));
        proof {
            assert(v.deep_view() =~~= Self::spec_required());
        }
        v
    }

    open spec fn spec_init() -> RouteView {
        RouteView {
            route_id: Seq::empty(),
            agency_id: None,
            route_short_name: Seq::empty(),
            route_long_name: Seq::empty(),
            route_desc: None,
            route_type: RouteType::Bus,
            route_url: None,
            route_color: None,
            route_text_color: None,
        }
    }

    open spec fn spec_apply(v: RouteView, name: Seq<char>, value: Seq<char>) -> Result<
        RouteView,
        FieldFail,
    > {
        if name == "route_id"@ {
            Ok(RouteView { route_id: value, ..v })
        } else if name == "agency_id"@ {
            Ok(RouteView { agency_id: Some(value), ..v })
        } else if name == "route_short_name"@ {
            Ok(RouteView { route_short_name: value, ..v })
        } else if name == "route_long_name"@ {
            Ok(RouteView { route_long_name: value, ..v })
        } else if name == "route_desc"@ {
            Ok(RouteView { route_desc: Some(value), ..v })
        } else if name == "route_type"@ {
            match spec_field_enum::<RouteType>(value) {
                Ok(t) => Ok(RouteView { route_type: t, ..v }),
                Err(f) => Err(f),
            }
        } else if name == "route_url"@ {
            Ok(RouteView { route_url: Some(value), ..v })
        } else if name == "route_color"@ {
            Ok(RouteView { route_color: Some(value), ..v })
        } else if name == "route_text_color"@ {
            Ok(RouteView { route_text_color: Some(value), ..v })
        } else {
            Ok(v)
        }
    }

    fn init() -> (r: Self) {
        Route {
            route_id: String::new(),
            agency_id: None,
            route_short_name: String::new(),
            route_long_name: String::new(),
            route_desc: None,
            route_type: RouteType::Bus,
            route_url: None,
            route_color: None,
            route_text_color: None,
        }
    }

    fn apply(self, name: &str, value: &str) -> (r: Result<Self, FieldFailure>) {
        if str_eq(name, "route_id") {
            Ok(Route { route_id: String::from_str(value), ..self })
        } else if str_eq(name, "agency_id") {
            Ok(Route { agency_id: Some(String::from_str(value)), ..self })
        } else if str_eq(name, "route_short_name") {
            Ok(Route { route_short_name: String::from_str(value), ..self })
        } else if str_eq(name, "route_long_name") {
            Ok(Route { route_long_name: String::from_str(value), ..self })
        } else if str_eq(name, "route_desc") {
            Ok(Route { route_desc: Some(String::from_str(value)), ..self })
        } else if str_eq(name, "route_type") {
            match field_enum::<RouteType>(value) {
                Ok(t) => Ok(Route { route_type: t, ..self }),
                Err(f) => Err(f),
            }
        } else if str_eq(name, "route_url") {
            Ok(Route { route_url: Some(String::from_str(value)), ..self })
        } else if str_eq(name, "route_color") {
            Ok(Route { route_color: Some(String::from_str(value)), ..self })
        } else if str_eq(name, "route_text_color") {
            Ok(Route { route_text_color: Some(String::from_str(value)), ..self })
        } else {
            Ok(self)
        }
    }
}

/// A trip record starts with every field empty, absent or at its default variant.
impl Record for Trip {
    open spec fn spec_required() -> Seq<Seq<char>> {
        seq!["route_id"@, "service_id"@, "trip_id"@]
    }

    fn required_columns() -> (r: Vec<String>) {
        let mut v: Vec<String> = Vec::new();
        v.push(String::from_str("route_id"));
        v.push(String::from_str("service_id"));
        v.push(String::from_str("trip_id"));
        proof {
            assert(v.deep_view() =~~= Self::spec_required());
        }
        v
    }

    open spec fn spec_init() -> TripView {
        TripView {
            route_id: Seq::empty(),
            service_id: Seq::empty(),
            trip_id: Seq::empty(),
            trip_headsign: None,
            trip_short_name: None,
            direction_id: None,
            block_id: None,
            shape_id: None,
            wheelchair_accessible: WheelchairAccessible::NoInformation,
            bikes_allowed: BikesAllowed::NoInformation,
        }
    }

    open spec fn spec_apply(v: TripView, name: Seq<char>, value: Seq<char>) -> Result<
        TripView,
        FieldFail,
    > {
        if name == "route_id"@ {
            Ok(TripView { route_id: value, ..v })
        } else if name == "service_id"@ {
            Ok(TripView { service_id: value, ..v })
        } else if name == "trip_id"@ {
            Ok(TripView { trip_id: value, ..v })
        } else if name == "trip_headsign"@ {
            Ok(TripView { trip_headsign: Some(value), ..v })
        } else if name == "trip_short_name"@ {
            Ok(TripView { trip_short_name: Some(value), ..v })
        } else if name == "direction_id"@ {
            Ok(TripView { direction_id: Some(value), ..v })
        } else if name == "block_id"@ {
            Ok(TripView { block_id: Some(value), ..v })
        } else if name == "shape_id"@ {
            Ok(TripView { shape_id: Some(value), ..v })
        } else if name == "wheelchair_accessible"@ {
            match spec_field_enum::<WheelchairAccessible>(value) {
                Ok(t) => Ok(TripView { wheelchair_accessible: t, ..v }),
                Err(f) => Err(f),
            }
        } else if name == "bikes_allowed"@ {
            match spec_field_enum::<BikesAllowed>(value) {
                Ok(t) => Ok(TripView { bikes_allowed: t, ..v }),
                Err(f) => Err(f),
            }
        } else {
            Ok(v)
        }
    }

    fn init() -> (r: Self) {
        Trip {
            route_id: String::new(),
            service_id: String::new(),
            trip_id: String::new(),
            trip_headsign: None,
            trip_short_name: None,
            direction_id: None,
            block_id: None,
            shape_id: None,
            wheelchair_accessible: WheelchairAccessible::NoInformation,
            bikes_allowed: BikesAllowed::NoInformation,
        }
    }

    fn apply(self, name: &str, value: &str) -> (r: Result<Self, FieldFailure>) {
        if str_eq(name, "route_id") {
            Ok(Trip { route_id: String::from_str(value), ..self })
        } else if str_eq(name, "service_id") {
            Ok(Trip { service_id: String::from_str(value), ..self })
        } else if str_eq(name, "trip_id") {
            Ok(Trip { trip_id: String::from_str(value), ..self })
        } else if str_eq(name, "trip_headsign") {
            Ok(Trip { trip_headsign: Some(String::from_str(value)), ..self })
        } else if str_eq(name, "trip_short_name") {
            Ok(Trip { trip_short_name: Some(String::from_str(value)), ..self })
        } else if str_eq(name, "direction_id") {
            Ok(Trip { direction_id: Some(String::from_str(value)), ..self })
        } else if str_eq(name, "block_id") {
            Ok(Trip { block_id: Some(String::from_str(value)), ..self })
        } else if str_eq(name, "shape_id") {
            Ok(Trip { shape_id: Some(String::from_str(value)), ..self })
        } else if str_eq(name, "wheelchair_accessible") {
            match field_enum::<WheelchairAccessible>(value) {
                Ok(t) => Ok(Trip { wheelchair_accessible: t, ..self }),
                Err(f) => Err(f),
            }
        } else if str_eq(name, "bikes_allowed") {
            match field_enum::<BikesAllowed>(value) {
                Ok(t) => Ok(Trip { bikes_allowed: t, ..self }),
                Err(f) => Err(f),
            }
        } else {
            Ok(self)
        }
    }
}

/// A stop-time record starts at the zero offset with the documented default variants.
impl Record for StopTime {
    open spec fn spec_required() -> Seq<Seq<char>> {
        seq!["trip_id"@, "arrival_time"@, "departure_time"@, "stop_id"@, "stop_sequence"@]
    }

    fn required_columns() -> (r: Vec<String>) {
        let mut v: Vec<String> = Vec::new();
        v.push(String::from_str("trip_id"));
        v.push(String::from_str("arrival_time"));
        v.push(String::from_str("departure_time"));
        v.push(String::from_str("stop_id"));
        v.push(String::from_str("stop_sequence"));
        proof {
            assert(v.deep_view() =~~= Self::spec_required());
        }
        v
    }

    open spec fn spec_init() -> StopTimeView {
        StopTimeView {
            trip_id: Seq::empty(),
            arrival_time: TimeOffset { hours: 0, minutes: 0, seconds: 0 },
            departure_time: TimeOffset { hours: 0, minutes: 0, seconds: 0 },
            stop_id: Seq::empty(),
            stop_sequence: 0,
            stop_headsign: None,
            pickup_type: PickupType::RegularlyScheduled,
            dropoff_type: DropoffType::RegularlyScheduled,
            shape_dist_traveled: None,
            timepoint: Timepoint::Exact,
        }
    }

    open spec fn spec_apply(v: StopTimeView, name: Seq<char>, value: Seq<char>) -> Result<
        StopTimeView,
        FieldFail,
    > {
        if name == "trip_id"@ {
            Ok(StopTimeView { trip_id: value, ..v })
        } else if name == "arrival_time"@ {
            match spec_field_time(value) {
                Ok(t) => Ok(StopTimeView { arrival_time: t, ..v }),
                Err(f) => Err(f),
            }
        } else if name == "departure_time"@ {
            match spec_field_time(value) {
                Ok(t) => Ok(StopTimeView { departure_time: t, ..v }),
                Err(f) => Err(f),
            }
        } else if name == "stop_id"@ {
            Ok(StopTimeView { stop_id: value, ..v })
        } else if name == "stop_sequence"@ {
            match spec_field_u64(value) {
                Ok(t) => Ok(StopTimeView { stop_sequence: t, ..v }),
                Err(f) => Err(f),
            }
        } else if name == "stop_headsign"@ {
            Ok(StopTimeView { stop_headsign: Some(value), ..v })
        } else if name == "pickup_type"@ {
            match spec_field_enum::<PickupType>(value) {
                Ok(t) => Ok(StopTimeView { pickup_type: t, ..v }),
                Err(f) => Err(f),
            }
        } else if name == "dropoff_type"@ {
            match spec_field_enum::<DropoffType>(value) {
                Ok(t) => Ok(StopTimeView { dropoff_type: t, ..v }),
                Err(f) => Err(f),
            }
        } else if name == "shape_dist_traveled"@ {
            match spec_field_opt_decimal(value) {
                Ok(t) => Ok(StopTimeView { shape_dist_traveled: t, ..v }),
                Err(f) => Err(f),
            }
        } else if name == "timepoint"@ {
            match spec_field_enum::<Timepoint>(value) {
                Ok(t) => Ok(StopTimeView { timepoint: t, ..v }),
                Err(f) => Err(f),
            }
        } else {
            Ok(v)
        }
    }

    fn init() -> (r: Self) {
        StopTime {
            trip_id: String::new(),
            arrival_time: TimeOffset { hours: 0, minutes: 0, seconds: 0 },
            departure_time: TimeOffset { hours: 0, minutes: 0, seconds: 0 },
            stop_id: String::new(),
            stop_sequence: 0,
            stop_headsign: None,
            pickup_type: PickupType::RegularlyScheduled,
            dropoff_type: DropoffType::RegularlyScheduled,
            shape_dist_traveled: None,
            timepoint: Timepoint::Exact,
        }
    }

    fn apply(self, name: &str, value: &str) -> (r: Result<Self, FieldFailure>) {
        if str_eq(name, "trip_id") {
            Ok(StopTime { trip_id: String::from_str(value), ..self })
        } else if str_eq(name, "arrival_time") {
            match field_time(value) {
                Ok(t) => Ok(StopTime { arrival_time: t, ..self }),
                Err(f) => Err(f),
            }
        } else if str_eq(name, "departure_time") {
            match field_time(value) {
                Ok(t) => Ok(StopTime { departure_time: t, ..self }),
                Err(f) => Err(f),
            }
        } else if str_eq(name, "stop_id") {
            Ok(StopTime { stop_id: String::from_str(value), ..self })
        } else if str_eq(name, "stop_sequence") {
            match field_u64(value) {
                Ok(t) => Ok(StopTime { stop_sequence: t, ..self }),
                Err(f) => Err(f),
            }
        } else if str_eq(name, "stop_headsign") {
            Ok(StopTime { stop_headsign: Some(String::from_str(value)), ..self })
        } else if str_eq(name, "pickup_type") {
            match field_enum::<PickupType>(value) {
                Ok(t) => Ok(StopTime { pickup_type: t, ..self }),
                Err(f) => Err(f),
            }
        } else if str_eq(name, "dropoff_type") {
            match field_enum::<DropoffType>(value) {
                Ok(t) => Ok(StopTime { dropoff_type: t, ..self }),
                Err(f) => Err(f),
            }
        } else if str_eq(name, "shape_dist_traveled") {
            match field_opt_decimal(value) {
                Ok(t) => Ok(StopTime { shape_dist_traveled: t, ..self }),
                Err(f) => Err(f),
            }
        } else if str_eq(name, "timepoint") {
            match field_enum::<Timepoint>(value) {
                Ok(t) => Ok(StopTime { timepoint: t, ..self }),
                Err(f) => Err(f),
            }
        } else {
            Ok(self)
        }
    }
}

/// A calendar record starts with no service on any day and a placeholder date span.
impl Record for Calendar {
    open spec fn spec_required() -> Seq<Seq<char>> {
        seq!["service_id"@, "monday"@, "tuesday"@, "wednesday"@, "thursday"@, "friday"@, "saturday"@, "sunday"@, "start_date"@, "end_date"@]
    }

    fn required_columns() -> (r: Vec<String>) {
        let mut v: Vec<String> = Vec::new();
        v.push(String::from_str("service_id"));
        v.push(String::from_str("monday"));
        v.push(String::from_str("tuesday"));
        v.push(String::from_str("wednesday"));
        v.push(String::from_str("thursday"));
        v.push(String::from_str("friday"));
        v.push(String::from_str("saturday"));
        v.push(String::from_str("sunday"));
        v.push(String::from_str("start_date"));
        v.push(String::from_str("end_date"));
        proof {
            assert(v.deep_view() =~~= Self::spec_required());
        }
        v
    }

    open spec fn spec_init() -> CalendarView {
        CalendarView {
            service_id: Seq::empty(),
            monday: false,
            tuesday: false,
            wednesday: false,
            thursday: false,
            friday: false,
            saturday: false,
            sunday: false,
            start_date: Date { year: 2017, month: 1, day: 1 },
            end_date: Date { year: 2017, month: 1, day: 1 },
        }
    }

    open spec fn spec_apply(v: CalendarView, name: Seq<char>, value: Seq<char>) -> Result<
        CalendarView,
        FieldFail,
    > {
        if name == "service_id"@ {
            Ok(CalendarView { service_id: value, ..v })
        } else if name == "monday"@ {
            match spec_field_dow(value) {
                Ok(t) => Ok(CalendarView { monday: t, ..v }),
                Err(f) => Err(f),
            }
        } else if name == "tuesday"@ {
            match spec_field_dow(value) {
                Ok(t) => Ok(CalendarView { tuesday: t, ..v }),
                Err(f) => Err(f),
            }
        } else if name == "wednesday"@ {
            match spec_field_dow(value) {
                Ok(t) => Ok(CalendarView { wednesday: t, ..v }),
                Err(f) => Err(f),
            }
        } else if name == "thursday"@ {
            match spec_field_dow(value) {
                Ok(t) => Ok(CalendarView { thursday: t, ..v }),
                Err(f) => Err(f),
            }
        } else if name == "friday"@ {
            match spec_field_dow(value) {
                Ok(t) => Ok(CalendarView { friday: t, ..v }),
                Err(f) => Err(f),
            }
        } else if name == "saturday"@ {
            match spec_field_dow(value) {
                Ok(t) => Ok(CalendarView { saturday: t, ..v }),
                Err(f) => Err(f),
            }
        } else if name == "sunday"@ {
            match spec_field_dow(value) {
                Ok(t) => Ok(CalendarView { sunday: t, ..v }),
                Err(f) => Err(f),
            }
        } else if name == "start_date"@ {
            match spec_field_date(value) {
                Ok(t) => Ok(CalendarView { start_date: t, ..v }),
                Err(f) => Err(f),
            }
        } else if name == "end_date"@ {
            match spec_field_date(value) {
                Ok(t) => Ok(CalendarView { end_date: t, ..v }),
                Err(f) => Err(f),
            }
        } else {
            Ok(v)
        }
    }

    fn init() -> (r: Self) {
        Calendar {
            service_id: String::new(),
            monday: false,
            tuesday: false,
            wednesday: false,
            thursday: false,
            friday: false,
            saturday: false,
            sunday: false,
            start_date: Date { year: 2017, month: 1, day: 1 },
            end_date: Date { year: 2017, month: 1, day: 1 },
        }
    }

    fn apply(self, name: &str, value: &str) -> (r: Result<Self, FieldFailure>) {
        if str_eq(name, "service_id") {
            Ok(Calendar { service_id: String::from_str(value), ..self })
        } else if str_eq(name, "monday") {
            match field_dow(value) {
                Ok(t) => Ok(Calendar { monday: t, ..self }),
                Err(f) => Err(f),
            }
        } else if str_eq(name, "tuesday") {
            match field_dow(value) {
                Ok(t) => Ok(Calendar { tuesday: t, ..self }),
                Err(f) => Err(f),
            }
        } else if str_eq(name, "wednesday") {
            match field_dow(value) {
                Ok(t) => Ok(Calendar { wednesday: t, ..self }),
                Err(f) => Err(f),
            }
        } else if str_eq(name, "thursday") {
            match field_dow(value) {
                Ok(t) => Ok(Calendar { thursday: t, ..self }),
                Err(f) => Err(f),
            }
        } else if str_eq(name, "friday") {
            match field_dow(value) {
                Ok(t) => Ok(Calendar { friday: t, ..self }),
                Err(f) => Err(f),
            }
        } else if str_eq(name, "saturday") {
            match field_dow(value) {
                Ok(t) => Ok(Calendar { saturday: t, ..self }),
                Err(f) => Err(f),
            }
        } else if str_eq(name, "sunday") {
            match field_dow(value) {
                Ok(t) => Ok(Calendar { sunday: t, ..self }),
                Err(f) => Err(f),
            }
        } else if str_eq(name, "start_date") {
            match field_date(value) {
                Ok(t) => Ok(Calendar { start_date: t, ..self }),
                Err(f) => Err(f),
            }
        } else if str_eq(name, "end_date") {
            match field_date(value) {
                Ok(t) => Ok(Calendar { end_date: t, ..self }),
                Err(f) => Err(f),
            }
        } else {
            Ok(self)
        }
    }
}

/// A calendar-exception record starts with a placeholder date and an added service.
impl Record for CalendarDate {
    open spec fn spec_required() -> Seq<Seq<char>> {
        seq!["service_id"@, "date"@, "exception_type"@]
    }

    fn required_columns() -> (r: Vec<String>) {
        let mut v: Vec<String> = Vec::new();
        v.push(String::from_str("service_id"));
        v.push(String::from_str("date"));
        v.push(String::from_str("exception_type"));
        proof {
            assert(v.deep_view() =~~= Self::spec_required());
        }
        v
    }

    open spec fn spec_init() -> CalendarDateView {
        CalendarDateView {
            service_id: Seq::empty(),
            date: Date { year: 2017, month: 1, day: 1 },
            exception_type: ExceptionType::ServiceAdded,
        }
    }

    open spec fn spec_apply(v: CalendarDateView, name: Seq<char>, value: Seq<char>) -> Result<
        CalendarDateView,
        FieldFail,
    > {
        if name == "service_id"@ {
            Ok(CalendarDateView { service_id: value, ..v })
        } else if name == "date"@ {
            match spec_field_date(value) {
                Ok(t) => Ok(CalendarDateView { date: t, ..v }),
                Err(f) => Err(f),
            }
        } else if name == "exception_type"@ {
            match spec_field_enum::<ExceptionType>(value) {
                Ok(t) => Ok(CalendarDateView { exception_type: t, ..v }),
                Err(f) => Err(f),
            }
        } else {
            Ok(v)
        }
    }

    fn init() -> (r: Self) {
        CalendarDate {
            service_id: String::new(),
            date: Date { year: 2017, month: 1, day: 1 },
            exception_type: ExceptionType::ServiceAdded,
        }
    }

    fn apply(self, name: &str, value: &str) -> (r: Result<Self, FieldFailure>) {
        if str_eq(name, "service_id") {
            Ok(CalendarDate { service_id: String::from_str(value), ..self })
        } else if str_eq(name, "date") {
            match field_date(value) {
                Ok(t) => Ok(CalendarDate { date: t, ..self }),
                Err(f) => Err(f),
            }
        } else if str_eq(name, "exception_type") {
            match field_enum::<ExceptionType>(value) {
                Ok(t) => Ok(CalendarDate { exception_type: t, ..self }),
                Err(f) => Err(f),
            }
        } else {
            Ok(self)
        }
    }
}

/// A fare record starts with empty text fields, onboard payment and unlimited transfers.
impl Record for FareAttribute {
    open spec fn spec_required() -> Seq<Seq<char>> {
        seq!["fare_id"@, "price"@, "currency_type"@, "payment_method"@]
    }

    fn required_columns() -> (r: Vec<String>) {
        let mut v: Vec<String> = Vec::new();
        v.push(String::from_str("fare_id"));
        v.push(String::from_str("price"));
        v.push(String::from_str("currency_type"));
        v.push(String::from_str("payment_method"));
        proof {
            assert(v.deep_view() =~~= Self::spec_required());
        }
        v
    }

    open spec fn spec_init() -> FareAttributeView {
        FareAttributeView {
            fare_id: Seq::empty(),
            price: Seq::empty(),
            currency_type: Seq::empty(),
            payment_method: PaymentMethod::PaidOnboard,
            transfers: Transfers::Unlimited,
            transfer_duration: None,
        }
    }

    open spec fn spec_apply(v: FareAttributeView, name: Seq<char>, value: Seq<char>) -> Result<
        FareAttributeView,
        FieldFail,
    > {
        if name == "fare_id"@ {
            Ok(FareAttributeView { fare_id: value, ..v })
        } else if name == "price"@ {
            match spec_field_decimal(value) {
                Ok(t) => Ok(FareAttributeView { price: t, ..v }),
                Err(f) => Err(f),
            }
        } else if name == "currency_type"@ {
            Ok(FareAttributeView { currency_type: value, ..v })
        } else if name == "payment_method"@ {
            match spec_field_enum::<PaymentMethod>(value) {
                Ok(t) => Ok(FareAttributeView { payment_method: t, ..v }),
                Err(f) => Err(f),
            }
        } else if name == "transfers"@ {
            match spec_field_enum::<Transfers>(value) {
                Ok(t) => Ok(FareAttributeView { transfers: t, ..v }),
                Err(f) => Err(f),
            }
        } else if name == "transfer_duration"@ {
            match spec_field_duration(value) {
                Ok(t) => Ok(FareAttributeView { transfer_duration: t, ..v }),
                Err(f) => Err(f),
            }
        } else {
            Ok(v)
        }
    }

    fn init() -> (r: Self) {
        FareAttribute {
            fare_id: String::new(),
            price: String::new(),
            currency_type: String::new(),
            payment_method: PaymentMethod::PaidOnboard,
            transfers: Transfers::Unlimited,
            transfer_duration: None,
        }
    }

    fn apply(self, name: &str, value: &str) -> (r: Result<Self, FieldFailure>) {
        if str_eq(name, "fare_id") {
            Ok(FareAttribute { fare_id: String::from_str(value), ..self })
        } else if str_eq(name, "price") {
            match field_decimal(value) {
                Ok(t) => Ok(FareAttribute { price: t, ..self }),
                Err(f) => Err(f),
            }
        } else if str_eq(name, "currency_type") {
            Ok(FareAttribute { currency_type: String::from_str(value), ..self })
        } else if str_eq(name, "payment_method") {
            match field_enum::<PaymentMethod>(value) {
                Ok(t) => Ok(FareAttribute { payment_method: t, ..self }),
                Err(f) => Err(f),
            }
        } else if str_eq(name, "transfers") {
            match field_enum::<Transfers>(value) {
                Ok(t) => Ok(FareAttribute { transfers: t, ..self }),
                Err(f) => Err(f),
            }
        } else if str_eq(name, "transfer_duration") {
            match field_duration(value) {
                Ok(t) => Ok(FareAttribute { transfer_duration: t, ..self }),
                Err(f) => Err(f),
            }
        } else {
            Ok(self)
        }
    }
}

/// A fare-rule record starts with every field empty or absent.
impl Record for FareRule {
    open spec fn spec_required() -> Seq<Seq<char>> {
        seq!["fare_id"@]
    }

    fn required_columns() -> (r: Vec<String>) {
        let mut v: Vec<String> = Vec::new();
        v.push(String::from_str("fare_id"));
        proof {
            assert(v.deep_view() =~~= Self::spec_required());
        }
        v
    }

    open spec fn spec_init() -> FareRuleView {
        FareRuleView {
            fare_id: Seq::empty(),
            route_id: None,
            origin_id: None,
            destination_id: None,
            contains_id: None,
        }
    }

    open spec fn spec_apply(v: FareRuleView, name: Seq<char>, value: Seq<char>) -> Result<
        FareRuleView,
        FieldFail,
    > {
        if name == "fare_id"@ {
            Ok(FareRuleView { fare_id: value, ..v })
        } else if name == "route_id"@ {
            Ok(FareRuleView { route_id: Some(value), ..v })
        } else if name == "origin_id"@ {
            Ok(FareRuleView { origin_id: Some(value), ..v })
        } else if name == "destination_id"@ {
            Ok(FareRuleView { destination_id: Some(value), ..v })
        } else if name == "contains_id"@ {
            Ok(FareRuleView { contains_id: Some(value), ..v })
        } else {
            Ok(v)
        }
    }

    fn init() -> (r: Self) {
        FareRule {
            fare_id: String::new(),
            route_id: None,
            origin_id: None,
            destination_id: None,
            contains_id: None,
        }
    }

    fn apply(self, name: &str, value: &str) -> (r: Result<Self, FieldFailure>) {
        if str_eq(name, "fare_id") {
            Ok(FareRule { fare_id: String::from_str(value), ..self })
        } else if str_eq(name, "route_id") {
            Ok(FareRule { route_id: Some(String::from_str(value)), ..self })
        } else if str_eq(name, "origin_id") {
            Ok(FareRule { origin_id: Some(String::from_str(value)), ..self })
        } else if str_eq(name, "destination_id") {
            Ok(FareRule { destination_id: Some(String::from_str(value)), ..self })
        } else if str_eq(name, "contains_id") {
            Ok(FareRule { contains_id: Some(String::from_str(value)), ..self })
        } else {
            Ok(self)
        }
    }
}

/// A shape-point record starts with empty coordinates and sequence number zero.
impl Record for Shape {
    open spec fn spec_required() -> Seq<Seq<char>> {
        seq!["shape_id"@, "shape_pt_lat"@, "shape_pt_lon"@, "shape_pt_sequence"@]
    }

    fn required_columns() -> (r: Vec<String>) {
        let mut v: Vec<String> = Vec::new();
        v.push(String::from_str("shape_id"));
        v.push(String::from_str("shape_pt_lat"));
        v.push(String::from_str("shape_pt_lon"));
        v.push(String::from_str("shape_pt_sequence"));
        proof {
            assert(v.deep_view() =~~= Self::spec_required());
        }
        v
    }

    open spec fn spec_init() -> ShapeView {
        ShapeView {
            shape_id: Seq::empty(),
            shape_pt_lat: Seq::empty(),
            shape_pt_lon: Seq::empty(),
            shape_pt_sequence: 0,
            shape_dist_traveled: None,
        }
    }

    open spec fn spec_apply(v: ShapeView, name: Seq<char>, value: Seq<char>) -> Result<
        ShapeView,
        FieldFail,
    > {
        if name == "shape_id"@ {
            Ok(ShapeView { shape_id: value, ..v })
        } else if name == "shape_pt_lat"@ {
            match spec_field_decimal(value) {
                Ok(t) => Ok(ShapeView { shape_pt_lat: t, ..v }),
                Err(f) => Err(f),
            }
        } else if name == "shape_pt_lon"@ {
            match spec_field_decimal(value) {
                Ok(t) => Ok(ShapeView { shape_pt_lon: t, ..v }),
                Err(f) => Err(f),
            }
        } else if name == "shape_pt_sequence"@ {
            match spec_field_u64(value) {
                Ok(t) => Ok(ShapeView { shape_pt_sequence: t, ..v }),
                Err(f) => Err(f),
            }
        } else if name == "shape_dist_traveled"@ {
            match spec_field_opt_decimal(value) {
                Ok(t) => Ok(ShapeView { shape_dist_traveled: t, ..v }),
                Err(f) => Err(f),
            }
        } else {
            Ok(v)
        }
    }

    fn init() -> (r: Self) {
        Shape {
            shape_id: String::new(),
            shape_pt_lat: String::new(),
            shape_pt_lon: String::new(),
            shape_pt_sequence: 0,
            shape_dist_traveled: None,
        }
    }

    fn apply(self, name: &str, value: &str) -> (r: Result<Self, FieldFailure>) {
        if str_eq(name, "shape_id") {
            Ok(Shape { shape_id: String::from_str(value), ..self })
        } else if str_eq(name, "shape_pt_lat") {
            match field_decimal(value) {
                Ok(t) => Ok(Shape { shape_pt_lat: t, ..self }),
                Err(f) => Err(f),
            }
        } else if str_eq(name, "shape_pt_lon") {
            match field_decimal(value) {
                Ok(t) => Ok(Shape { shape_pt_lon: t, ..self }),
                Err(f) => Err(f),
            }
        } else if str_eq(name, "shape_pt_sequence") {
            match field_u64(value) {
                Ok(t) => Ok(Shape { shape_pt_sequence: t, ..self }),
                Err(f) => Err(f),
            }
        } else if str_eq(name, "shape_dist_traveled") {
            match field_opt_decimal(value) {
                Ok(t) => Ok(Shape { shape_dist_traveled: t, ..self }),
                Err(f) => Err(f),
            }
        } else {
            Ok(self)
        }
    }
}

/// A frequency record starts at the zero offset with approximate accuracy.
impl Record for Frequency {
    open spec fn spec_required() -> Seq<Seq<char>> {
        seq!["trip_id"@, "start_time"@, "end_time"@, "headway_secs"@]
    }

    fn required_columns() -> (r: Vec<String>) {
        let mut v: Vec<String> = Vec::new();
        v.push(String::from_str("trip_id"));
        v.push(String::from_str("start_time"));
        v.push(String::from_str("end_time"));
        v.push(String::from_str("headway_secs"));
        proof {
            assert(v.deep_view() =~~= Self::spec_required());
        }
        v
    }

    open spec fn spec_init() -> FrequencyView {
        FrequencyView {
            trip_id: Seq::empty(),
            start_time: TimeOffset { hours: 0, minutes: 0, seconds: 0 },
            end_time: TimeOffset { hours: 0, minutes: 0, seconds: 0 },
            headway_secs: 0,
            exact_times: FrequencyAccuracy::Approximate,
        }
    }

    open spec fn spec_apply(v: FrequencyView, name: Seq<char>, value: Seq<char>) -> Result<
        FrequencyView,
        FieldFail,
    > {
        if name == "trip_id"@ {
            Ok(FrequencyView { trip_id: value, ..v })
        } else if name == "start_time"@ {
            match spec_field_time(value) {
                Ok(t) => Ok(FrequencyView { start_time: t, ..v }),
                Err(f) => Err(f),
            }
        } else if name == "end_time"@ {
            match spec_field_time(value) {
                Ok(t) => Ok(FrequencyView { end_time: t, ..v }),
                Err(f) => Err(f),
            }
        } else if name == "headway_secs"@ {
            match spec_field_u64(value) {
                Ok(t) => Ok(FrequencyView { headway_secs: t, ..v }),
                Err(f) => Err(f),
            }
        } else if name == "exact_times"@ {
            match spec_field_enum::<FrequencyAccuracy>(value) {
                Ok(t) => Ok(FrequencyView { exact_times: t, ..v }),
                Err(f) => Err(f),
            }
        } else {
            Ok(v)
        }
    }

    fn init() -> (r: Self) {
        Frequency {
            trip_id: String::new(),
            start_time: TimeOffset { hours: 0, minutes: 0, seconds: 0 },
            end_time: TimeOffset { hours: 0, minutes: 0, seconds: 0 },
            headway_secs: 0,
            exact_times: FrequencyAccuracy::Approximate,
        }
    }

    fn apply(self, name: &str, value: &str) -> (r: Result<Self, FieldFailure>) {
        if str_eq(name, "trip_id") {
            Ok(Frequency { trip_id: String::from_str(value), ..self })
        } else if str_eq(name, "start_time") {
            match field_time(value) {
                Ok(t) => Ok(Frequency { start_time: t, ..self }),
                Err(f) => Err(f),
            }
        } else if str_eq(name, "end_time") {
            match field_time(value) {
                Ok(t) => Ok(Frequency { end_time: t, ..self }),
                Err(f) => Err(f),
            }
        } else if str_eq(name, "headway_secs") {
            match field_u64(value) {
                Ok(t) => Ok(Frequency { headway_secs: t, ..self }),
                Err(f) => Err(f),
            }
        } else if str_eq(name, "exact_times") {
            match field_enum::<FrequencyAccuracy>(value) {
                Ok(t) => Ok(Frequency { exact_times: t, ..self }),
                Err(f) => Err(f),
            }
        } else {
            Ok(self)
        }
    }
}

/// A transfer record starts with empty stops and the recommended transfer type.
impl Record for Transfer {
    open spec fn spec_required() -> Seq<Seq<char>> {
        seq!["from_stop_id"@, "to_stop_id"@, "transfer_type"@]
    }

    fn required_columns() -> (r: Vec<String>) {
        let mut v: Vec<String> = Vec::new();
        v.push(String::from_str("from_stop_id"));
        v.push(String::from_str("to_stop_id"));
        v.push(String::from_str("transfer_type"));
        proof {
            assert(v.deep_view() =~~= Self::spec_required());
        }
        v
    }

    open spec fn spec_init() -> TransferView {
        TransferView {
            from_stop_id: Seq::empty(),
            to_stop_id: Seq::empty(),
            transfer_type: TransferType::Recommended,
            min_transfer_time: None,
        }
    }

    open spec fn spec_apply(v: TransferView, name: Seq<char>, value: Seq<char>) -> Result<
        TransferView,
        FieldFail,
    > {
        if name == "from_stop_id"@ {
            Ok(TransferView { from_stop_id: value, ..v })
        } else if name == "to_stop_id"@ {
            Ok(TransferView { to_stop_id: value, ..v })
        } else if name == "transfer_type"@ {
            match spec_field_enum::<TransferType>(value) {
                Ok(t) => Ok(TransferView { transfer_type: t, ..v }),
                Err(f) => Err(f),
            }
        } else if name == "min_transfer_time"@ {
            match spec_field_duration(value) {
                Ok(t) => Ok(TransferView { min_transfer_time: t, ..v }),
                Err(f) => Err(f),
            }
        } else {
            Ok(v)
        }
    }

    fn init() -> (r: Self) {
        Transfer {
            from_stop_id: String::new(),
            to_stop_id: String::new(),
            transfer_type: TransferType::Recommended,
            min_transfer_time: None,
        }
    }

    fn apply(self, name: &str, value: &str) -> (r: Result<Self, FieldFailure>) {
        if str_eq(name, "from_stop_id") {
            Ok(Transfer { from_stop_id: String::from_str(value), ..self })
        } else if str_eq(name, "to_stop_id") {
            Ok(Transfer { to_stop_id: String::from_str(value), ..self })
        } else if str_eq(name, "transfer_type") {
            match field_enum::<TransferType>(value) {
                Ok(t) => Ok(Transfer { transfer_type: t, ..self }),
                Err(f) => Err(f),
            }
        } else if str_eq(name, "min_transfer_time") {
            match field_duration(value) {
                Ok(t) => Ok(Transfer { min_transfer_time: t, ..self }),
                Err(f) => Err(f),
            }
        } else {
            Ok(self)
        }
    }
}

/// A feed-info record starts with every field empty or absent.
impl Record for FeedInfo {
    open spec fn spec_required() -> Seq<Seq<char>> {
        seq!["feed_publisher_name"@, "feed_publisher_url"@, "feed_lang"@]
    }

    fn required_columns() -> (r: Vec<String>) {
        let mut v: Vec<String> = Vec::new();
        v.push(String::from_str("feed_publisher_name"));
        v.push(String::from_str("feed_publisher_url"));
        v.push(String::from_str("feed_lang"));
        proof {
            assert(v.deep_view() =~~= Self::spec_required());
        }
        v
    }

    open spec fn spec_init() -> FeedInfoView {
        FeedInfoView {
            feed_publisher_name: Seq::empty(),
            feed_publisher_url: Seq::empty(),
            feed_lang: Seq::empty(),
            feed_start_date: None,
            feed_end_date: None,
            feed_version: None,
        }
    }

    open spec fn spec_apply(v: FeedInfoView, name: Seq<char>, value: Seq<char>) -> Result<
        FeedInfoView,
        FieldFail,
    > {
        if name == "feed_publisher_name"@ {
            Ok(FeedInfoView { feed_publisher_name: value, ..v })
        } else if name == "feed_publisher_url"@ {
            Ok(FeedInfoView { feed_publisher_url: value, ..v })
        } else if name == "feed_lang"@ {
            Ok(FeedInfoView { feed_lang: value, ..v })
        } else if name == "feed_start_date"@ {
            match spec_field_opt_date(value) {
                Ok(t) => Ok(FeedInfoView { feed_start_date: t, ..v }),
                Err(f) => Err(f),
            }
        } else if name == "feed_end_date"@ {
            match spec_field_opt_date(value) {
                Ok(t) => Ok(FeedInfoView { feed_end_date: t, ..v }),
                Err(f) => Err(f),
            }
        } else if name == "feed_version"@ {
            Ok(FeedInfoView { feed_version: Some(value), ..v })
        } else {
            Ok(v)
        }
    }

    fn init() -> (r: Self) {
        FeedInfo {
            feed_publisher_name: String::new(),
            feed_publisher_url: String::new(),
            feed_lang: String::new(),
            feed_start_date: None,
            feed_end_date: None,
            feed_version: None,
        }
    }

    fn apply(self, name: &str, value: &str) -> (r: Result<Self, FieldFailure>) {
        if str_eq(name, "feed_publisher_name") {
            Ok(FeedInfo { feed_publisher_name: String::from_str(value), ..self })
        } else if str_eq(name, "feed_publisher_url") {
            Ok(FeedInfo { feed_publisher_url: String::from_str(value), ..self })
        } else if str_eq(name, "feed_lang") {
            Ok(FeedInfo { feed_lang: String::from_str(value), ..self })
        } else if str_eq(name, "feed_start_date") {
            match field_opt_date(value) {
                Ok(t) => Ok(FeedInfo { feed_start_date: t, ..self }),
                Err(f) => Err(f),
            }
        } else if str_eq(name, "feed_end_date") {
            match field_opt_date(value) {
                Ok(t) => Ok(FeedInfo { feed_end_date: t, ..self }),
                Err(f) => Err(f),
            }
        } else if str_eq(name, "feed_version") {
            Ok(FeedInfo { feed_version: Some(String::from_str(value)), ..self })
        } else {
            Ok(self)
        }
    }
}

/// A trip-arrival record needs only its two columns.
impl Record for TripArrival {
    open spec fn spec_required() -> Seq<Seq<char>> {
        seq!["trip_id"@, "arrival_time"@]
    }

    fn required_columns() -> (r: Vec<String>) {
        let mut v: Vec<String> = Vec::new();
        v.push(String::from_str("trip_id"));
        v.push(String::from_str("arrival_time"));
        proof {
            assert(v.deep_view() =~~= Self::spec_required());
        }
        v
    }

    open spec fn spec_init() -> TripArrivalView {
        TripArrivalView {
            trip_id: Seq::empty(),
            arrival_time: TimeOffset { hours: 0, minutes: 0, seconds: 0 },
        }
    }

    open spec fn spec_apply(v: TripArrivalView, name: Seq<char>, value: Seq<char>) -> Result<
        TripArrivalView,
        FieldFail,
    > {
        if name == "trip_id"@ {
            Ok(TripArrivalView { trip_id: value, ..v })
        } else if name == "arrival_time"@ {
            match spec_field_time(value) {
                Ok(t) => Ok(TripArrivalView { arrival_time: t, ..v }),
                Err(f) => Err(f),
            }
        } else {
            Ok(v)
        }
    }

    fn init() -> (r: Self) {
        TripArrival {
            trip_id: String::new(),
            arrival_time: TimeOffset { hours: 0, minutes: 0, seconds: 0 },
        }
    }

    fn apply(self, name: &str, value: &str) -> (r: Result<Self, FieldFailure>) {
        if str_eq(name, "trip_id") {
            Ok(TripArrival { trip_id: String::from_str(value), ..self })
        } else if str_eq(name, "arrival_time") {
            match field_time(value) {
                Ok(t) => Ok(TripArrival { arrival_time: t, ..self }),
                Err(f) => Err(f),
            }
        } else {
            Ok(self)
        }
    }
}

/// An agency row can never fail to decode: every agency column is plain
/// text, so each cell application succeeds whatever the cell holds.
pub proof fn lemma_agency_row_decodes(header: Seq<Seq<char>>, row: Seq<Seq<char>>)
    ensures
        spec_decode_row::<Agency>(header, row) is Ok,
{
    lemma_agency_upto(header, row, vstd::math::min(header.len() as int, row.len() as int));
}

proof fn lemma_agency_upto(header: Seq<Seq<char>>, row: Seq<Seq<char>>, i: int)
    ensures
        spec_decode_upto::<Agency>(header, row, i) is Ok,
    decreases i,
{
    if i > 0 {
        lemma_agency_upto(header, row, i - 1);
    }
}

} // verus!
