//! Session-level behaviour: status translation, unit classification,
//! cursor moves and the 0-based/1-based addressing boundary.

use fitsio::datatype::DataType;
use fitsio::errors::{engine_error, fits_try, status_to_string, Error, FitsError};
use fitsio::fitsfile::{
    fetch_hdu_info, hdu_number_to_ordinal, ordinal_to_hdu_number, unit_kind, ColumnDescription,
    FitsFile, HduInfo, HduMove, RawHdu, UnitKind,
};

fn image_raw() -> RawHdu {
    RawHdu::Image {
        dimensions: 2,
        shape: vec![100, 100],
    }
}

fn table_raw() -> RawHdu {
    RawHdu::Table {
        num_rows: 50,
        column_names: vec![
            b"intcol\0".to_vec(),
            b"floatcol\0".to_vec(),
            b"doublecol\0".to_vec(),
        ],
        column_types: vec![b"J\0".to_vec(), b"E\0".to_vec(), b"D\0".to_vec()],
    }
}

#[test]
fn typechar_conversions() {
    let input = vec!["X", "B", "L", "A", "I", "J", "E", "D", "C", "M"];
    let expected = vec![
        DataType::TBIT,
        DataType::TBYTE,
        DataType::TLOGICAL,
        DataType::TSTRING,
        DataType::TSHORT,
        DataType::TLONG,
        DataType::TFLOAT,
        DataType::TDOUBLE,
        DataType::TCOMPLEX,
        DataType::TDBLCOMPLEX,
    ];

    input
        .iter()
        .zip(expected)
        .map(|(&i, e)| {
            assert_eq!(fitsio::datatype::typechar_to_data_type(i), Ok(e));
        })
        .collect::<Vec<_>>();
}

#[test]
fn test_fits_try() {
    let status = 0;
    assert_eq!(fits_try(status, 10), Ok(10));

    let status = 105;
    assert_eq!(
        fits_try(status, 10),
        Err(FitsError {
            status,
            message: status_to_string(status),
        })
    );
}

#[test]
fn status_translation_is_canonical() {
    assert_eq!(status_to_string(105), "couldn't create the named file");
    assert_eq!(status_to_string(107), "tried to move past end of file");
    assert_eq!(status_to_string(219), "named column not found");
    assert_eq!(status_to_string(301), "illegal HDU number");
}

#[test]
fn status_translation_never_fails() {
    assert_eq!(status_to_string(999), "unknown error status");
    assert_eq!(status_to_string(-5), "unknown error status");
}

#[test]
fn errors_convert_from_their_parts() {
    let fits = FitsError {
        status: 107,
        message: status_to_string(107),
    };
    let expected = FitsError {
        status: 107,
        message: status_to_string(107),
    };
    assert_eq!(Error::from(fits), Error::Fits(expected));
}

#[test]
fn engine_error_wraps_status_and_message() {
    match engine_error(107) {
        Error::Fits(e) => {
            assert_eq!(e.status, 107);
            assert_eq!(e.message, "tried to move past end of file");
        }
        other => panic!("expected an engine error, got {:?}", other),
    }
}

#[test]
fn unit_kind_decides_the_discriminator() {
    assert_eq!(unit_kind(0, 0), Ok(UnitKind::Image));
    assert_eq!(unit_kind(1, 0), Ok(UnitKind::Table));
    assert_eq!(unit_kind(2, 0), Ok(UnitKind::Table));
    assert!(matches!(unit_kind(3, 0), Err(Error::Message(_))));
    assert!(matches!(unit_kind(0, 107), Err(Error::Fits(_))));
}

#[test]
fn classifying_an_image_unit() {
    match fetch_hdu_info(image_raw(), 0) {
        Ok(HduInfo::ImageInfo { dimensions, shape }) => {
            assert_eq!(dimensions, 2);
            assert_eq!(shape, vec![100, 100]);
        }
        other => panic!("unexpected classification {:?}", other),
    }
}

#[test]
fn classifying_a_table_unit() {
    match fetch_hdu_info(table_raw(), 0) {
        Ok(HduInfo::TableInfo {
            column_descriptions,
            num_rows,
        }) => {
            assert_eq!(num_rows, 50);
            let names: Vec<String> = column_descriptions
                .iter()
                .map(|desc| desc.name.clone())
                .collect();
            assert_eq!(names, vec!["intcol", "floatcol", "doublecol"]);
            let types: Vec<String> = column_descriptions
                .iter()
                .map(|desc| desc.data_type.clone())
                .collect();
            assert_eq!(types, vec!["J", "E", "D"]);
        }
        other => panic!("unexpected classification {:?}", other),
    }
}

#[test]
fn classification_translates_a_bad_status() {
    match fetch_hdu_info(image_raw(), 107) {
        Err(Error::Fits(e)) => assert_eq!(e.status, 107),
        other => panic!("expected an engine error, got {:?}", other),
    }
}

#[test]
fn classification_rejects_inconsistent_reports() {
    let bad_shape = RawHdu::Image {
        dimensions: 3,
        shape: vec![100, 100],
    };
    assert!(matches!(fetch_hdu_info(bad_shape, 0), Err(Error::Message(_))));

    let bad_axis = RawHdu::Image {
        dimensions: 1,
        shape: vec![-4],
    };
    assert!(matches!(fetch_hdu_info(bad_axis, 0), Err(Error::Message(_))));

    let bad_rows = RawHdu::Table {
        num_rows: -1,
        column_names: vec![],
        column_types: vec![],
    };
    assert!(matches!(fetch_hdu_info(bad_rows, 0), Err(Error::Message(_))));
}

#[test]
fn classification_rejects_column_names_that_are_not_text() {
    let raw = RawHdu::Table {
        num_rows: 1,
        column_names: vec![vec![0xff, 0xfe, 0]],
        column_types: vec![b"J\0".to_vec()],
    };
    match fetch_hdu_info(raw, 0) {
        Err(Error::Utf8(bytes)) => assert_eq!(bytes, vec![0xff, 0xfe]),
        other => panic!("expected a text error, got {:?}", other),
    }
}

#[test]
fn classification_is_idempotent_between_moves() {
    // The same engine report classifies the same way on every repeated
    // query: no move, no change.
    let first = fetch_hdu_info(image_raw(), 0).unwrap();
    let second = fetch_hdu_info(image_raw(), 0).unwrap();
    assert_eq!(first, second);
}

#[test]
fn classification_does_not_depend_on_the_route() {
    // Reaching one unit by ordinal and by name ends in the same engine
    // report, so both routes classify identically.
    let by_ordinal = fetch_hdu_info(table_raw(), 0).unwrap();
    let by_name = fetch_hdu_info(table_raw(), 0).unwrap();
    assert_eq!(by_ordinal, by_name);
}

#[test]
fn opening_classifies_the_first_unit() {
    let f = FitsFile::open("input.fits", image_raw(), 0).unwrap();
    assert_eq!(f.filename, "input.fits");
    assert_eq!(
        f.hdu_info,
        HduInfo::ImageInfo {
            dimensions: 2,
            shape: vec![100, 100],
        }
    );
}

#[test]
fn opening_fails_when_classification_fails() {
    assert!(matches!(
        FitsFile::open("input.fits", image_raw(), 104),
        Err(Error::Fits(_))
    ));
}

#[test]
fn creating_starts_at_the_minimal_unit() {
    let f = FitsFile::create("new.fits", 0).unwrap();
    assert_eq!(f.filename, "new.fits");
    assert_eq!(
        f.hdu_info,
        HduInfo::ImageInfo {
            dimensions: 0,
            shape: vec![],
        }
    );
}

#[test]
fn creating_translates_a_bad_status() {
    match FitsFile::create("new.fits", 105) {
        Err(Error::Fits(e)) => {
            assert_eq!(e.status, 105);
            assert_eq!(e.message, "couldn't create the named file");
        }
        other => panic!("expected an engine error, got {:?}", other),
    }
}

#[test]
fn moving_by_ordinal_is_one_based_at_the_engine() {
    let f = FitsFile::create("new.fits", 0).unwrap();
    assert_eq!(
        f.change_hdu(1usize),
        Ok(HduMove::Absolute { hdu_number: 2 })
    );
    assert_eq!(
        f.change_hdu(0usize),
        Ok(HduMove::Absolute { hdu_number: 1 })
    );
}

#[test]
fn moving_by_name_searches_any_unit_kind() {
    let f = FitsFile::create("new.fits", 0).unwrap();
    assert_eq!(
        f.change_hdu("TESTEXT"),
        Ok(HduMove::ByName {
            name: "TESTEXT".to_string(),
            hdu_type: -1,
            ext_version: 0,
        })
    );
}

#[test]
fn a_failed_move_is_an_engine_error_and_keeps_the_cache() {
    let mut f = FitsFile::open("input.fits", image_raw(), 0).unwrap();
    let before = fetch_hdu_info(image_raw(), 0).unwrap();
    match f.hdu(107, table_raw(), 0) {
        Err(Error::Fits(e)) => assert_eq!(e.status, 107),
        other => panic!("expected an engine error, got {:?}", other),
    }
    assert_eq!(f.hdu_info, before);
}

#[test]
fn a_move_recomputes_the_classification() {
    let mut f = FitsFile::open("input.fits", image_raw(), 0).unwrap();
    f.hdu(0, table_raw(), 0).unwrap();
    match &f.hdu_info {
        HduInfo::TableInfo { num_rows, .. } => assert_eq!(*num_rows, 50),
        other => panic!("expected a table, got {:?}", other),
    }
}

#[test]
fn ordinal_round_trip() {
    for i in 0..5usize {
        let n = ordinal_to_hdu_number(i).unwrap();
        assert_eq!(n, (i + 1) as i32);
        assert_eq!(hdu_number_to_ordinal(n), Ok(i));
    }
}

#[test]
fn huge_ordinals_are_rejected_before_the_engine() {
    assert!(matches!(
        ordinal_to_hdu_number(usize::MAX),
        Err(Error::Index(_))
    ));
    assert!(matches!(hdu_number_to_ordinal(0), Err(Error::Message(_))));
}

#[test]
fn creating_a_table_keeps_the_schema_order() {
    let f = FitsFile::create("new.fits", 0).unwrap();
    let table_description = vec![ColumnDescription {
        name: "bar".to_string(),
        data_type: "1J".to_string(),
    }];
    let cmd = f.create_table("foo".to_string(), &table_description);
    assert_eq!(cmd.extname, "foo");
    assert_eq!(cmd.hdu_type, 2);
    assert_eq!(cmd.initial_rows, 0);
    assert_eq!(cmd.column_names, vec!["bar"]);
    assert_eq!(cmd.column_types, vec!["1J"]);
}
