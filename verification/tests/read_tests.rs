//! Typed reads: keywords, table columns, image sections and regions,
//! and the column iterator.

use fitsio::columns::{col_buffer, ColumnReadCommand};
use fitsio::datatype::DataType;
use fitsio::errors::Error;
use fitsio::fitsfile::{fetch_hdu_info, ColumnDescription, FitsFile, RawHdu};
use fitsio::images::Coordinate;
use fitsio::keys::{KeyValue, MAX_VALUE_LENGTH};
use fitsio::stringutils::buf_to_string;

fn image_session() -> FitsFile {
    FitsFile::open(
        "input.fits",
        RawHdu::Image {
            dimensions: 2,
            shape: vec![100, 100],
        },
        0,
    )
    .unwrap()
}

fn table_session() -> FitsFile {
    FitsFile::open(
        "input.fits",
        RawHdu::Table {
            num_rows: 50,
            column_names: vec![
                b"intcol\0".to_vec(),
                b"floatcol\0".to_vec(),
                b"doublecol\0".to_vec(),
            ],
            column_types: vec![b"J\0".to_vec(), b"E\0".to_vec(), b"D\0".to_vec()],
        },
        0,
    )
    .unwrap()
}

#[test]
fn resolving_a_column_is_one_based_and_spans_all_rows() {
    let f = table_session();
    let cmd = f.read_col_command::<i32>("intcol").unwrap();
    assert_eq!(
        cmd,
        ColumnReadCommand {
            column_number: 1,
            first_row: 1,
            first_element: 1,
            num_elements: 50,
            data_type: DataType::TINT,
        }
    );
    let cmd = f.read_col_command::<i64>("doublecol").unwrap();
    assert_eq!(cmd.column_number, 3);
    assert_eq!(cmd.data_type, DataType::TLONG);
}

#[test]
fn a_missing_column_is_a_checked_error() {
    let f = table_session();
    assert!(matches!(
        f.read_col_command::<i32>("nocol"),
        Err(Error::Message(_))
    ));
}

#[test]
fn reading_a_column_from_an_image_is_a_mismatch_error() {
    let f = image_session();
    assert!(matches!(
        f.read_col_command::<i32>("intcol"),
        Err(Error::Message(_))
    ));
    assert!(matches!(
        f.read_col::<i32>(vec![0; 50], 0),
        Err(Error::Message(_))
    ));
}

#[test]
fn a_column_read_returns_exactly_one_value_per_row() {
    let f = table_session();
    let buffer = col_buffer::<i32>(50);
    assert_eq!(buffer.len(), 50);
    assert!(buffer.iter().all(|&v| v == 0));
    let data = f.read_col::<i32>(buffer, 0).unwrap();
    assert_eq!(data.len(), 50);
}

#[test]
fn a_failed_column_read_is_an_engine_error() {
    let f = table_session();
    match f.read_col::<i32>(col_buffer(50), 302) {
        Err(Error::Fits(e)) => assert_eq!(e.status, 302),
        other => panic!("expected an engine error, got {:?}", other),
    }
    assert!(matches!(
        f.read_col::<i32>(col_buffer(49), 0),
        Err(Error::Message(_))
    ));
}

#[test]
fn image_sections_are_one_based_and_contiguous() {
    let f = image_session();
    let first = f.read_section_command::<i32>(0, 100).unwrap();
    assert_eq!(first.first_pixel, 1);
    assert_eq!(first.num_elements, 100);
    assert_eq!(first.data_type, DataType::TINT);

    let second = f.read_section_command::<i32>(100, 200).unwrap();
    assert_eq!(second.first_pixel, 101);
    assert_eq!(second.num_elements, 100);

    // The two adjacent sections tile the whole range without a gap or an
    // overlap.
    let whole = f.read_section_command::<i32>(0, 200).unwrap();
    assert_eq!(second.first_pixel, first.first_pixel + first.num_elements);
    assert_eq!(whole.first_pixel, first.first_pixel);
    assert_eq!(whole.num_elements, first.num_elements + second.num_elements);
}

#[test]
fn an_inverted_section_is_rejected_before_the_engine() {
    let f = image_session();
    match f.read_section_command::<i32>(5, 2) {
        Err(Error::Index(e)) => assert_eq!(e.given, 5..2),
        other => panic!("expected an index error, got {:?}", other),
    }
}

#[test]
fn finishing_a_section_read_checks_status_and_length() {
    let f = image_session();
    let data = f.read_section::<i32>(0, 100, vec![7; 100], 0).unwrap();
    assert_eq!(data.len(), 100);
    assert!(matches!(
        f.read_section::<i32>(0, 100, vec![7; 100], 108),
        Err(Error::Fits(_))
    ));
    assert!(matches!(
        f.read_section::<i32>(0, 100, vec![7; 99], 0),
        Err(Error::Message(_))
    ));
    let g = table_session();
    assert!(matches!(
        g.read_section::<i32>(0, 100, vec![7; 100], 0),
        Err(Error::Message(_))
    ));
}

#[test]
fn an_image_region_counts_both_bounds_inclusive() {
    let f = image_session();
    let lower_left = Coordinate { x: 0, y: 0 };
    let upper_right = Coordinate { x: 10, y: 10 };
    let cmd = f
        .read_region_command::<i32>(&lower_left, &upper_right)
        .unwrap();
    assert_eq!(cmd.first_pixel, (1, 1));
    assert_eq!(cmd.last_pixel, (11, 11));
    assert_eq!(cmd.increments, (1, 1));
    assert_eq!(cmd.num_elements, 11 * 11);
}

#[test]
fn an_inverted_region_is_rejected_before_the_engine() {
    let f = image_session();
    let lower_left = Coordinate { x: 9, y: 0 };
    let upper_right = Coordinate { x: 3, y: 10 };
    assert!(matches!(
        f.read_region_command::<i32>(&lower_left, &upper_right),
        Err(Error::Index(_))
    ));
}

#[test]
fn finishing_a_region_read_checks_status_and_length() {
    let f = image_session();
    let lower_left = Coordinate { x: 0, y: 0 };
    let upper_right = Coordinate { x: 10, y: 10 };
    let data = f
        .read_region::<i32>(&lower_left, &upper_right, vec![3; 121], 0)
        .unwrap();
    assert_eq!(data.len(), 121);
    assert!(matches!(
        f.read_region::<i32>(&lower_left, &upper_right, vec![3; 121], 108),
        Err(Error::Fits(_))
    ));
    assert!(matches!(
        f.read_region::<i32>(&lower_left, &upper_right, vec![3; 120], 0),
        Err(Error::Message(_))
    ));
}

#[test]
fn column_requests_come_in_descriptor_order() {
    let f = table_session();
    let mut it = f.columns().unwrap();
    let mut names: Vec<String> = Vec::new();
    let mut numbers: Vec<i32> = Vec::new();
    while let Some(step) = it.next() {
        let request = step.unwrap();
        assert_eq!(request.command.num_elements, 50);
        numbers.push(request.command.column_number);
        names.push(request.name);
    }
    assert_eq!(names, vec!["intcol", "floatcol", "doublecol"]);
    assert_eq!(numbers, vec![1, 2, 3]);
}

#[test]
fn iterating_an_image_is_a_checked_error() {
    let f = image_session();
    assert!(matches!(f.columns(), Err(Error::Message(_))));
}

#[test]
fn an_unsupported_column_type_stops_iteration_loudly() {
    let raw = RawHdu::Table {
        num_rows: 3,
        column_names: vec![b"textcol\0".to_vec(), b"oddcol\0".to_vec()],
        column_types: vec![b"A\0".to_vec(), b"Z\0".to_vec()],
    };
    let info = fetch_hdu_info(raw, 0).unwrap();
    let f = FitsFile {
        filename: "input.fits".to_string(),
        hdu_info: info,
    };
    let mut it = f.columns().unwrap();
    match it.next() {
        Some(Err(Error::UnsupportedType(t))) => assert_eq!(t, "A"),
        other => panic!("expected an unsupported-type error, got {:?}", other),
    }
    match it.next() {
        Some(Err(Error::UnsupportedType(t))) => assert_eq!(t, "Z"),
        other => panic!("expected an unsupported-type error, got {:?}", other),
    }
    assert!(it.next().is_none());
}

#[test]
fn reading_integer_keywords() {
    let f = image_session();
    let value: i64 = f.read_key(KeyValue::Integer(42), 0).unwrap();
    assert_eq!(value, 42);
    let flag: i32 = f.read_key(KeyValue::Logical(1), 0).unwrap();
    assert_eq!(flag, 1);
}

#[test]
fn reading_a_string_keyword_strips_the_padding() {
    let f = image_session();
    let mut buffer = b"value".to_vec();
    buffer.resize(MAX_VALUE_LENGTH, 0);
    let value: String = f.read_key(KeyValue::Text(buffer), 0).unwrap();
    assert_eq!(value, "value");
}

#[test]
fn a_written_keyword_value_survives_the_trip_back() {
    // The engine stores a keyword's text and hands it back NUL-padded;
    // decoding returns the stored text exactly.
    let f = image_session();
    let stored = "baz";
    let mut buffer = stored.as_bytes().to_vec();
    buffer.resize(MAX_VALUE_LENGTH, 0);
    let value: String = f.read_key(KeyValue::Text(buffer), 0).unwrap();
    assert_eq!(value, stored);
}

#[test]
fn a_missing_keyword_is_an_engine_error() {
    let f = image_session();
    match f.read_key::<i64>(KeyValue::Integer(0), 202) {
        Err(Error::Fits(e)) => {
            assert_eq!(e.status, 202);
            assert_eq!(e.message, "keyword not found in header");
        }
        other => panic!("expected an engine error, got {:?}", other),
    }
}

#[test]
fn a_keyword_reply_of_the_wrong_shape_is_rejected() {
    let f = image_session();
    assert!(matches!(
        f.read_key::<i64>(KeyValue::Logical(1), 0),
        Err(Error::Message(_))
    ));
}

#[test]
fn keyword_bytes_that_are_not_text_are_rejected() {
    let f = image_session();
    match f.read_key::<String>(KeyValue::Text(vec![0xc3, 0x28, 0]), 0) {
        Err(Error::Utf8(bytes)) => assert_eq!(bytes, vec![0xc3, 0x28]),
        other => panic!("expected a text error, got {:?}", other),
    }
}

#[test]
fn keyword_commands_carry_the_wire_type() {
    let f = image_session();
    assert_eq!(
        f.read_key_command::<i64>("INTTEST").data_type,
        DataType::TLONG
    );
    assert_eq!(
        f.read_key_command::<i32>("LOGTEST").data_type,
        DataType::TLOGICAL
    );
    let c = f.read_key_command::<String>("TEST");
    assert_eq!(c.name, "TEST");
    assert_eq!(c.data_type, DataType::TSTRING);
}

#[test]
fn buffers_are_cut_at_the_first_nul() {
    assert_eq!(buf_to_string(&b"hello\0world".to_vec()).unwrap(), "hello");
    assert_eq!(buf_to_string(&b"\0".to_vec()).unwrap(), "");
    assert_eq!(buf_to_string(&b"plain".to_vec()).unwrap(), "plain");
}

#[test]
fn wire_type_codes_match_the_engine() {
    assert_eq!(DataType::TBIT.code(), 1);
    assert_eq!(DataType::TLOGICAL.code(), 14);
    assert_eq!(DataType::TSTRING.code(), 16);
    assert_eq!(DataType::TSHORT.code(), 21);
    assert_eq!(DataType::TLONG.code(), 41);
    assert_eq!(DataType::TFLOAT.code(), 42);
    assert_eq!(DataType::TLONGLONG.code(), 81);
    assert_eq!(DataType::TDOUBLE.code(), 82);
    assert_eq!(DataType::TDBLCOMPLEX.code(), 163);
}

#[test]
fn unsupported_typechars_are_reported_as_such() {
    match fitsio::datatype::typechar_to_data_type("Q") {
        Err(Error::UnsupportedType(t)) => assert_eq!(t, "Q"),
        other => panic!("expected an unsupported-type error, got {:?}", other),
    }
    assert!(matches!(
        fitsio::datatype::typechar_to_data_type("1J"),
        Err(Error::UnsupportedType(_))
    ));
}
