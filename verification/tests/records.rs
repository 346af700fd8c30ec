use transitfeed::Agency;
use transitfeed::BikesAllowed;
use transitfeed::DropoffType;
use transitfeed::ExceptionType;
use transitfeed::FrequencyAccuracy;
use transitfeed::LocationType;
use transitfeed::PaymentMethod;
use transitfeed::PickupType;
use transitfeed::RouteType;
use transitfeed::Stop;
use transitfeed::StopTime;
use transitfeed::TimeOffset;
use transitfeed::Timepoint;
use transitfeed::TransferType;
use transitfeed::Transfers;
use transitfeed::WheelchairAccessible;
use transitfeed::WheelchairBoarding;
use transitfeed::gtfs::decode_row;
use transitfeed::gtfs::field_enum;
use transitfeed::transit::decode_enum;

fn owned(cells: &[&str]) -> Vec<String> {
    cells.iter().map(|c| c.to_string()).collect()
}

#[test]
fn test_parses_basic_row() {
    let header = owned(&["stop_id", "stop_name", "stop_lat", "stop_lon"]);
    let row = owned(&["1", "foo", "1", "1"]);
    let result: Stop = decode_row(&header, &row).unwrap();
    let expected = Stop {
        stop_id: "1".to_string(),
        stop_name: "foo".to_string(),
        stop_lat: "1".to_string(),
        stop_lon: "1".to_string(),
        stop_code: None,
        stop_desc: None,
        zone_id: None,
        stop_url: None,
        location_type: LocationType::Stop,
        parent_station: None,
        stop_timezone: None,
        wheelchair_boarding: WheelchairBoarding::NoInformation,
    };
    assert_eq!(expected, result);
}

#[test]
fn unknown_columns_are_ignored() {
    let header = owned(&["nonsense", "agency_name"]);
    let row = owned(&["whatever", "Metro"]);
    let agency: Agency = decode_row(&header, &row).unwrap();
    assert_eq!(agency.agency_name, "Metro");
    assert_eq!(agency.agency_id, None);
}

#[test]
fn last_duplicate_column_wins() {
    let header = owned(&["agency_name", "agency_name"]);
    let row = owned(&["First", "Second"]);
    let agency: Agency = decode_row(&header, &row).unwrap();
    assert_eq!(agency.agency_name, "Second");
}

#[test]
fn first_failing_cell_reports_its_column() {
    let header = owned(&["trip_id", "arrival_time", "stop_sequence"]);
    let row = owned(&["T1", "nonsense", "alsobad"]);
    let err = decode_row::<StopTime>(&header, &row).unwrap_err();
    assert_eq!(err.0, 1);
    assert_eq!(err.1.raw_value, "nonsense");
}

#[test]
fn stop_time_row_decodes_fully() {
    let header = owned(&[
        "trip_id",
        "arrival_time",
        "departure_time",
        "stop_id",
        "stop_sequence",
        "pickup_type",
        "dropoff_type",
        "shape_dist_traveled",
        "timepoint",
    ]);
    let row = owned(&["T1", "10:01:00", "25:30:00", "S9", "4", "2", "", "1.25", "0"]);
    let st: StopTime = decode_row(&header, &row).unwrap();
    assert_eq!(st.trip_id, "T1");
    assert_eq!(st.arrival_time, TimeOffset::from_hms(10, 1, 0));
    assert_eq!(st.departure_time, TimeOffset::from_hms(25, 30, 0));
    assert_eq!(st.stop_id, "S9");
    assert_eq!(st.stop_sequence, 4);
    assert_eq!(st.pickup_type, PickupType::MustPhoneAgency);
    assert_eq!(st.dropoff_type, DropoffType::RegularlyScheduled);
    assert_eq!(st.shape_dist_traveled, Some("1.25".to_string()));
    assert_eq!(st.timepoint, Timepoint::Approximate);
}

#[test]
fn calendar_row_decodes_days_and_dates() {
    let header = owned(&[
        "service_id",
        "monday",
        "tuesday",
        "wednesday",
        "thursday",
        "friday",
        "saturday",
        "sunday",
        "start_date",
        "end_date",
    ]);
    let row = owned(&["WE", "0", "0", "0", "0", "0", "1", "1", "20170101", "20171231"]);
    let cal: transitfeed::Calendar = decode_row(&header, &row).unwrap();
    assert!(!cal.monday);
    assert!(cal.saturday);
    assert!(cal.sunday);
    assert_eq!((cal.start_date.year, cal.start_date.month, cal.start_date.day), (2017, 1, 1));
    assert_eq!((cal.end_date.year, cal.end_date.month, cal.end_date.day), (2017, 12, 31));
}

#[test]
fn transfer_row_decodes_duration() {
    let header = owned(&["from_stop_id", "to_stop_id", "transfer_type", "min_transfer_time"]);
    let row = owned(&["A", "B", "2", "300"]);
    let tr: transitfeed::Transfer = decode_row(&header, &row).unwrap();
    assert_eq!(tr.transfer_type, TransferType::MinimumTime);
    assert_eq!(tr.min_transfer_time, Some(300));
}

#[test]
fn agency_row_decodes_required_and_optional_fields() {
    let header = owned(&["agency_id", "agency_name", "agency_url", "agency_timezone"]);
    let row = owned(&["MT", "Metro Transit", "http://metro.example", "America/Los_Angeles"]);
    let a: Agency = decode_row(&header, &row).unwrap();
    assert_eq!(a.agency_id, Some("MT".to_string()));
    assert_eq!(a.agency_name, "Metro Transit");
    assert_eq!(a.agency_url, "http://metro.example");
    assert_eq!(a.agency_timezone, "America/Los_Angeles");
    assert_eq!(a.agency_lang, None);
}

#[test]
fn route_row_decodes_route_type() {
    let header = owned(&["route_id", "route_short_name", "route_long_name", "route_type"]);
    let row = owned(&["R1", "1", "First Avenue", "0"]);
    let r: transitfeed::Route = decode_row(&header, &row).unwrap();
    assert_eq!(r.route_id, "R1");
    assert_eq!(r.route_type, RouteType::LightRail);
}

#[test]
fn trip_row_decodes_accessibility_fields() {
    let header = owned(&[
        "route_id",
        "service_id",
        "trip_id",
        "wheelchair_accessible",
        "bikes_allowed",
    ]);
    let row = owned(&["R1", "WK", "T7", "1", "2"]);
    let t: transitfeed::Trip = decode_row(&header, &row).unwrap();
    assert_eq!(t.trip_id, "T7");
    assert_eq!(t.wheelchair_accessible, WheelchairAccessible::SomeAccessibility);
    assert_eq!(t.bikes_allowed, BikesAllowed::NoBikes);
}

#[test]
fn calendar_date_row_decodes_exception() {
    let header = owned(&["service_id", "date", "exception_type"]);
    let row = owned(&["WK", "20170704", "2"]);
    let cd: transitfeed::CalendarDate = decode_row(&header, &row).unwrap();
    assert_eq!((cd.date.year, cd.date.month, cd.date.day), (2017, 7, 4));
    assert_eq!(cd.exception_type, ExceptionType::ServiceRemoved);
}

#[test]
fn fare_attribute_row_uses_blank_transfer_default() {
    let header = owned(&[
        "fare_id",
        "price",
        "currency_type",
        "payment_method",
        "transfers",
        "transfer_duration",
    ]);
    let row = owned(&["F1", "2.75", "USD", "1", "", "5400"]);
    let fa: transitfeed::FareAttribute = decode_row(&header, &row).unwrap();
    assert_eq!(fa.price, "2.75");
    assert_eq!(fa.payment_method, PaymentMethod::PaidBefore);
    assert_eq!(fa.transfers, Transfers::Unlimited);
    assert_eq!(fa.transfer_duration, Some(5400));
}

#[test]
fn shape_row_keeps_coordinates_as_validated_text() {
    let header = owned(&[
        "shape_id",
        "shape_pt_lat",
        "shape_pt_lon",
        "shape_pt_sequence",
        "shape_dist_traveled",
    ]);
    let row = owned(&["SH", "47.5997", "-122.3358", "12", ""]);
    let sh: transitfeed::Shape = decode_row(&header, &row).unwrap();
    assert_eq!(sh.shape_pt_lat, "47.5997");
    assert_eq!(sh.shape_pt_sequence, 12);
    assert_eq!(sh.shape_dist_traveled, None);
}

#[test]
fn frequency_row_decodes_window() {
    let header = owned(&["trip_id", "start_time", "end_time", "headway_secs", "exact_times"]);
    let row = owned(&["T7", "06:00:00", "09:30:00", "600", "1"]);
    let fr: transitfeed::Frequency = decode_row(&header, &row).unwrap();
    assert_eq!(fr.start_time, TimeOffset::from_hms(6, 0, 0));
    assert_eq!(fr.end_time, TimeOffset::from_hms(9, 30, 0));
    assert_eq!(fr.headway_secs, 600);
    assert_eq!(fr.exact_times, FrequencyAccuracy::Exact);
}

#[test]
fn feed_info_row_treats_blank_dates_as_absent() {
    let header = owned(&[
        "feed_publisher_name",
        "feed_publisher_url",
        "feed_lang",
        "feed_start_date",
        "feed_end_date",
        "feed_version",
    ]);
    let row = owned(&["Pub", "http://pub.example", "en", "20170101", "", "v9"]);
    let fi: transitfeed::FeedInfo = decode_row(&header, &row).unwrap();
    let start = fi.feed_start_date.unwrap();
    assert_eq!((start.year, start.month, start.day), (2017, 1, 1));
    assert_eq!(fi.feed_end_date, None);
    assert_eq!(fi.feed_version, Some("v9".to_string()));
}

#[test]
fn fare_rule_row_decodes_zones() {
    let header = owned(&["fare_id", "route_id", "origin_id"]);
    let row = owned(&["F1", "R1", "Z1"]);
    let fr: transitfeed::FareRule = decode_row(&header, &row).unwrap();
    assert_eq!(fr.fare_id, "F1");
    assert_eq!(fr.route_id, Some("R1".to_string()));
    assert_eq!(fr.destination_id, None);
}

#[test]
fn decode_enum_empty_selects_each_documented_default() {
    assert_eq!(decode_enum::<LocationType>(""), Some(LocationType::Stop));
    assert_eq!(
        decode_enum::<WheelchairBoarding>(""),
        Some(WheelchairBoarding::NoInformation)
    );
    assert_eq!(
        decode_enum::<WheelchairAccessible>(""),
        Some(WheelchairAccessible::NoInformation)
    );
    assert_eq!(decode_enum::<BikesAllowed>(""), Some(BikesAllowed::NoInformation));
    assert_eq!(decode_enum::<PickupType>(""), Some(PickupType::RegularlyScheduled));
    assert_eq!(decode_enum::<DropoffType>(""), Some(DropoffType::RegularlyScheduled));
    assert_eq!(decode_enum::<Timepoint>(""), Some(Timepoint::Exact));
    assert_eq!(decode_enum::<Transfers>(""), Some(Transfers::Unlimited));
    assert_eq!(
        decode_enum::<FrequencyAccuracy>(""),
        Some(FrequencyAccuracy::Approximate)
    );
}

#[test]
fn decode_enum_without_default_rejects_empty() {
    assert_eq!(decode_enum::<RouteType>(""), None);
    assert_eq!(decode_enum::<ExceptionType>(""), None);
    assert_eq!(decode_enum::<PaymentMethod>(""), None);
    assert_eq!(decode_enum::<TransferType>(""), None);
}

#[test]
fn decode_enum_out_of_range_fails_with_raw_value() {
    let f = field_enum::<LocationType>("99").unwrap_err();
    assert_eq!(f.raw_value, "99");
    assert_eq!(f.reason, "Location type must (currently) be 0 or 1");
    let f = field_enum::<RouteType>("99").unwrap_err();
    assert_eq!(f.raw_value, "99");
    let f = field_enum::<Transfers>("99").unwrap_err();
    assert_eq!(f.raw_value, "99");
    let f = field_enum::<Timepoint>("99").unwrap_err();
    assert_eq!(f.raw_value, "99");
}

#[test]
fn decode_enum_reads_codes_and_trims() {
    assert_eq!(decode_enum::<RouteType>("3"), Some(RouteType::Bus));
    assert_eq!(decode_enum::<RouteType>(" 7 "), Some(RouteType::Funicular));
    assert_eq!(decode_enum::<ExceptionType>("1"), Some(ExceptionType::ServiceAdded));
    assert_eq!(decode_enum::<ExceptionType>("2"), Some(ExceptionType::ServiceRemoved));
    assert_eq!(decode_enum::<ExceptionType>("0"), None);
    assert_eq!(decode_enum::<PaymentMethod>("0"), Some(PaymentMethod::PaidOnboard));
    assert_eq!(decode_enum::<LocationType>("not a code"), None);
}
