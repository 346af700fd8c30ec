use transitfeed::Agency;
use transitfeed::Error;
use transitfeed::GTFSIterator;
use transitfeed::Stop;
use transitfeed::TimeOffset;
use transitfeed::TripArrival;

#[test]
fn missing_header_on_empty_input() {
    let r: Result<GTFSIterator<Agency>, Error> = GTFSIterator::new(Vec::new(), "agency.txt");
    match r {
        Err(Error::MissingHeader { file }) => assert_eq!(file, "agency.txt"),
        other => panic!("expected a missing header, got {:?}", other.err()),
    }
}

#[test]
fn header_alone_yields_no_records() {
    let data = b"agency_name,agency_url,agency_timezone\n".to_vec();
    let mut it: GTFSIterator<Agency> = GTFSIterator::new(data, "agency.txt").unwrap();
    assert!(it.next().is_none());
    assert!(it.next().is_none());
}

#[test]
fn row_structure_error_reports_counts_then_recovers() {
    let data = b"trip_id,arrival_time\nA\nB,08:00:00\n".to_vec();
    let mut it: GTFSIterator<TripArrival> = GTFSIterator::new(data, "stop_times.txt").unwrap();
    let first = it.next().unwrap().unwrap_err();
    match &first {
        Error::RowStructureError {
            file,
            line,
            expected_count,
            actual_count,
        } => {
            assert_eq!(file, "stop_times.txt");
            assert_eq!(*line, 1);
            assert_eq!(*expected_count, 2);
            assert_eq!(*actual_count, 1);
        }
        other => panic!("expected a row structure error, got {:?}", other),
    }
    assert_eq!(
        first.message(),
        "error parsing stop_times.txt:1 - expected 2 fields but got 1 fields"
    );
    let second = it.next().unwrap().unwrap();
    assert_eq!(second.trip_id, "B");
    assert_eq!(second.arrival_time, TimeOffset::from_hms(8, 0, 0));
    assert!(it.next().is_none());
}

#[test]
fn three_row_table_end_to_end() {
    let data = b"trip_id,arrival_time\nA,08:00:00\nB,bogus\nC,09:15:00\n".to_vec();
    let mut it: GTFSIterator<TripArrival> = GTFSIterator::new(data, "stop_times.txt").unwrap();

    let first = it.next().unwrap().unwrap();
    assert_eq!(first.trip_id, "A");
    assert_eq!(first.arrival_time, TimeOffset::from_hms(8, 0, 0));

    let second = it.next().unwrap().unwrap_err();
    match &second {
        Error::FieldError {
            file,
            line,
            field_name,
            raw_value,
            ..
        } => {
            assert_eq!(file, "stop_times.txt");
            assert_eq!(*line, 2);
            assert_eq!(field_name.as_deref(), Some("arrival_time"));
            assert_eq!(raw_value, "bogus");
        }
        other => panic!("expected a field error, got {:?}", other),
    }

    let third = it.next().unwrap().unwrap();
    assert_eq!(third.trip_id, "C");
    assert_eq!(third.arrival_time, TimeOffset::from_hms(9, 15, 0));

    assert!(it.next().is_none());
}

#[test]
fn quoted_cells_pass_through_the_tokenizer() {
    let data =
        b"agency_name,agency_url,agency_timezone\n\"City, Transit\",http://example.com,UTC\n"
            .to_vec();
    let mut it: GTFSIterator<Agency> = GTFSIterator::new(data, "agency.txt").unwrap();
    let agency = it.next().unwrap().unwrap();
    assert_eq!(agency.agency_name, "City, Transit");
    assert_eq!(agency.agency_url, "http://example.com");
}

#[test]
fn invalid_bytes_surface_as_transport_error() {
    let mut data = b"agency_name,agency_url,agency_timezone\n".to_vec();
    data.extend_from_slice(&[0xff, 0xfe]);
    data.extend_from_slice(b",u,z\n");
    let mut it: GTFSIterator<Agency> = GTFSIterator::new(data, "agency.txt").unwrap();
    match it.next() {
        Some(Err(Error::TransportError { file, .. })) => assert_eq!(file, "agency.txt"),
        other => panic!("expected a transport error, got {:?}", other),
    }
}

#[test]
fn line_counter_counts_rows_not_physical_lines() {
    let data = b"trip_id,arrival_time\n\"A\nB\",08:00:00\nC,bogus\n".to_vec();
    let mut it: GTFSIterator<TripArrival> = GTFSIterator::new(data, "stop_times.txt").unwrap();
    let first = it.next().unwrap().unwrap();
    assert_eq!(first.trip_id, "A\nB");
    match it.next().unwrap().unwrap_err() {
        Error::FieldError { line, .. } => assert_eq!(line, 2),
        other => panic!("expected a field error, got {:?}", other),
    }
}

#[test]
fn carriage_return_line_endings_are_accepted() {
    let data = b"trip_id,arrival_time\r\nA,08:00:00\r\n".to_vec();
    let mut it: GTFSIterator<TripArrival> = GTFSIterator::new(data, "stop_times.txt").unwrap();
    let first = it.next().unwrap().unwrap();
    assert_eq!(first.trip_id, "A");
    assert_eq!(first.arrival_time, TimeOffset::from_hms(8, 0, 0));
    assert!(it.next().is_none());
}

#[test]
fn full_stop_table_decodes() {
    let data = b"stop_id,stop_name,stop_desc,stop_lat,stop_lon,location_type,wheelchair_boarding\n\
S1,Main St,,47.6,-122.3,1,2\n\
S2,Second St,corner stop,47.61,-122.33,,\n"
        .to_vec();
    let mut it: GTFSIterator<transitfeed::Stop> = GTFSIterator::new(data, "stops.txt").unwrap();
    let s1 = it.next().unwrap().unwrap();
    assert_eq!(s1.stop_id, "S1");
    assert_eq!(s1.stop_lat, "47.6");
    assert_eq!(s1.stop_lon, "-122.3");
    assert_eq!(s1.location_type, transitfeed::LocationType::Station);
    assert_eq!(
        s1.wheelchair_boarding,
        transitfeed::WheelchairBoarding::NoAccessibility
    );
    assert_eq!(s1.stop_desc, Some("".to_string()));
    let s2 = it.next().unwrap().unwrap();
    assert_eq!(s2.location_type, transitfeed::LocationType::Stop);
    assert_eq!(
        s2.wheelchair_boarding,
        transitfeed::WheelchairBoarding::NoInformation
    );
    assert!(it.next().is_none());
}

#[test]
fn header_must_carry_required_columns() {
    let data = b"stop_name\nfoo\n".to_vec();
    let r: Result<GTFSIterator<Stop>, Error> = GTFSIterator::new(data, "stops.txt");
    match r {
        Err(Error::MissingColumn { file, column }) => {
            assert_eq!(file, "stops.txt");
            assert_eq!(column, "stop_id");
        }
        other => panic!("expected a missing column, got {:?}", other.err()),
    }
}

#[test]
fn required_columns_satisfied_in_any_order() {
    let data = b"stop_lon,stop_lat,stop_name,stop_id\n-122.3,47.6,Main St,S1\n".to_vec();
    let mut it: GTFSIterator<Stop> = GTFSIterator::new(data, "stops.txt").unwrap();
    let s = it.next().unwrap().unwrap();
    assert_eq!(s.stop_id, "S1");
    assert_eq!(s.stop_lat, "47.6");
}

#[test]
fn missing_column_message_names_the_column() {
    let err = Error::MissingColumn {
        file: "trips.txt".to_string(),
        column: "trip_id".to_string(),
    };
    assert_eq!(
        err.message(),
        "error parsing trips.txt - missing required column trip_id"
    );
}

#[test]
fn field_error_message_formats() {
    let with_name = Error::FieldError {
        file: "test.txt".to_string(),
        line: 2,
        field_name: Some("bar".to_string()),
        raw_value: "w".to_string(),
        reason: "invalid float literal".to_string(),
    };
    assert_eq!(
        with_name.message(),
        "error parsing bar in test.txt:2 - invalid float literal"
    );
    let without_name = Error::FieldError {
        file: "test.txt".to_string(),
        line: 2,
        field_name: None,
        raw_value: "3".to_string(),
        reason: "day of week field was not 0 or 1".to_string(),
    };
    assert_eq!(
        without_name.message(),
        "error parsing test.txt:2 - day of week field was not 0 or 1"
    );
}

#[test]
fn file_level_message_formats() {
    let archive = Error::ArchiveError {
        cause: "Invalid Zip archive: Invalid zip header".to_string(),
    };
    assert_eq!(
        archive.message(),
        "error in feed - Invalid Zip archive: Invalid zip header"
    );
    let header = Error::MissingHeader {
        file: "stops.txt".to_string(),
    };
    assert_eq!(header.message(), "error parsing stops.txt - missing header");
    let transport = Error::TransportError {
        file: "stops.txt".to_string(),
        reason: "bad bytes".to_string(),
    };
    assert_eq!(transport.message(), "error parsing stops.txt - bad bytes");
}

#[test]
fn large_line_numbers_render_in_full() {
    let err = Error::RowStructureError {
        file: "t.txt".to_string(),
        line: 1048576,
        expected_count: 10,
        actual_count: 0,
    };
    assert_eq!(
        err.message(),
        "error parsing t.txt:1048576 - expected 10 fields but got 0 fields"
    );
}
