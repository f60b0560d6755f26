use ppot_verifier::{parse_u64, ContentRange, ContentRangeParseError, FieldError};

#[test]
fn parses_a_full_range() {
    assert_eq!(
        ContentRange::from_str("bytes 10-19/20"),
        Ok(ContentRange::Full { start: 10, end: 19, size: 20 })
    );
}

#[test]
fn parses_a_size_alone() {
    assert_eq!(ContentRange::from_str("bytes */20"), Ok(ContentRange::Size(20)));
}

#[test]
fn junk_misses_the_space() {
    assert_eq!(ContentRange::from_str("junk"), Err(ContentRangeParseError::MissingSpace));
    assert_eq!(ContentRange::from_str(""), Err(ContentRangeParseError::MissingSpace));
}

#[test]
fn another_unit_misses_the_bytes_tag() {
    assert_eq!(
        ContentRange::from_str("lines 10-19/20"),
        Err(ContentRangeParseError::MissingBytesTag)
    );
    assert_eq!(ContentRange::from_str(" 10-19/20"), Err(ContentRangeParseError::MissingBytesTag));
    assert_eq!(
        ContentRange::from_str("Bytes 10-19/20"),
        Err(ContentRangeParseError::MissingBytesTag)
    );
}

#[test]
fn a_range_without_slash_misses_it() {
    assert_eq!(ContentRange::from_str("bytes 10-19"), Err(ContentRangeParseError::MissingSlash));
    assert_eq!(ContentRange::from_str("bytes *"), Err(ContentRangeParseError::MissingSlash));
    assert_eq!(ContentRange::from_str("bytes "), Err(ContentRangeParseError::MissingSlash));
}

#[test]
fn a_size_without_star_misses_it() {
    assert_eq!(ContentRange::from_str("bytes 10/20"), Err(ContentRangeParseError::MissingStar));
    assert_eq!(ContentRange::from_str("bytes /20"), Err(ContentRangeParseError::MissingStar));
    assert_eq!(ContentRange::from_str("bytes **/20"), Err(ContentRangeParseError::MissingStar));
}

#[test]
fn malformed_fields_are_told_apart() {
    assert_eq!(
        ContentRange::from_str("bytes x-19/20"),
        Err(ContentRangeParseError::InvalidStart(FieldError::InvalidDigit))
    );
    assert_eq!(
        ContentRange::from_str("bytes -19/20"),
        Err(ContentRangeParseError::InvalidStart(FieldError::Empty))
    );
    assert_eq!(
        ContentRange::from_str("bytes 10-/20"),
        Err(ContentRangeParseError::InvalidEnd(FieldError::Empty))
    );
    assert_eq!(
        ContentRange::from_str("bytes 10-1 9/20"),
        Err(ContentRangeParseError::InvalidEnd(FieldError::InvalidDigit))
    );
    assert_eq!(
        ContentRange::from_str("bytes 10-19/"),
        Err(ContentRangeParseError::InvalidSize(FieldError::Empty))
    );
    assert_eq!(
        ContentRange::from_str("bytes 10-19/18446744073709551616"),
        Err(ContentRangeParseError::InvalidSize(FieldError::Overflow))
    );
    assert_eq!(
        ContentRange::from_str("bytes */x"),
        Err(ContentRangeParseError::InvalidSize(FieldError::InvalidDigit))
    );
}

#[test]
fn the_first_malformed_field_is_reported() {
    assert_eq!(
        ContentRange::from_str("bytes x-y/z"),
        Err(ContentRangeParseError::InvalidStart(FieldError::InvalidDigit))
    );
    assert_eq!(
        ContentRange::from_str("bytes 1-y/z"),
        Err(ContentRangeParseError::InvalidEnd(FieldError::InvalidDigit))
    );
}

#[test]
fn the_second_hyphen_belongs_to_the_end() {
    assert_eq!(
        ContentRange::from_str("bytes 1-2-3/4"),
        Err(ContentRangeParseError::InvalidEnd(FieldError::InvalidDigit))
    );
}

#[test]
fn the_largest_numbers_are_read() {
    assert_eq!(
        ContentRange::from_str("bytes 0-18446744073709551614/18446744073709551615"),
        Ok(ContentRange::Full { start: 0, end: u64::MAX - 1, size: u64::MAX })
    );
}

#[test]
fn bytes_and_text_parse_alike() {
    for header in ["bytes 10-19/20", "bytes */20", "junk", "bytes 1-2", "bytes +1-+2/+3"] {
        assert_eq!(ContentRange::from_bytes(header.as_bytes()), ContentRange::from_str(header));
    }
}

#[test]
fn a_range_outside_the_data_is_refused() {
    for header in ["bytes 5-3/2", "bytes 19-10/5", "bytes 0-20/20", "bytes 0-0/0", "bytes 7-6/9"] {
        assert_eq!(ContentRange::from_str(header), Err(ContentRangeParseError::InvalidRange));
        assert_eq!(ContentRange::from_response(Some(header.as_bytes())), None);
    }
    assert_eq!(
        ContentRange::from_str("bytes 0-0/1"),
        Ok(ContentRange::Full { start: 0, end: 0, size: 1 })
    );
    assert_eq!(
        ContentRange::from_str("bytes 7-8/9"),
        Ok(ContentRange::Full { start: 7, end: 8, size: 9 })
    );
}

#[test]
fn a_malformed_field_comes_before_the_range() {
    assert_eq!(
        ContentRange::from_str("bytes 19-10/x"),
        Err(ContentRangeParseError::InvalidSize(FieldError::InvalidDigit))
    );
    assert_eq!(
        ContentRange::from_str("bytes 19-/5"),
        Err(ContentRangeParseError::InvalidEnd(FieldError::Empty))
    );
}

#[test]
fn what_parses_is_well_formed_and_announced() {
    let headers = [
        "bytes 10-19/20", "bytes */20", "bytes */0", "bytes +1-+2/+3", "bytes 0-0/1",
        "bytes 5-3/2", "bytes 3-5/5", "junk", "bytes 1-2", "bytes 1-2/x", "byte 1-2/3",
    ];
    for header in headers {
        let parsed = ContentRange::from_str(header);
        if let Ok(range) = parsed {
            assert!(range.is_well_formed());
        }
        assert_eq!(ContentRange::from_response(Some(header.as_bytes())), parsed.ok());
    }
}

#[test]
fn well_formed_ranges_lie_inside_the_data() {
    assert!(ContentRange::Full { start: 0, end: 0, size: 1 }.is_well_formed());
    assert!(ContentRange::Full { start: 10, end: 19, size: 20 }.is_well_formed());
    assert!(!ContentRange::Full { start: 10, end: 20, size: 20 }.is_well_formed());
    assert!(!ContentRange::Full { start: 11, end: 10, size: 20 }.is_well_formed());
    assert!(!ContentRange::Full { start: 0, end: 0, size: 0 }.is_well_formed());
    assert!(ContentRange::Size(0).is_well_formed());
}

#[test]
fn a_response_announces_what_its_header_holds() {
    assert_eq!(
        ContentRange::from_response(Some(b"bytes 10-19/20".as_slice())),
        Some(ContentRange::Full { start: 10, end: 19, size: 20 })
    );
    assert_eq!(
        ContentRange::from_response(Some(b"bytes */20".as_slice())),
        Some(ContentRange::Size(20))
    );
}

#[test]
fn a_response_without_usable_header_announces_nothing() {
    assert_eq!(ContentRange::from_response(None), None);
    assert_eq!(ContentRange::from_response(Some(b"junk".as_slice())), None);
    assert_eq!(ContentRange::from_response(Some(b"bytes 5-3/2".as_slice())), None);
    assert_eq!(ContentRange::from_response(Some(b"bytes 0-20/20".as_slice())), None);
    assert_eq!(ContentRange::from_response(Some(b"bytes 10-19/20\x7f".as_slice())), None);
    assert_eq!(ContentRange::from_response(Some(b"bytes 10-19/20\xc3\xa9".as_slice())), None);
    assert_eq!(ContentRange::from_response(Some(b"bytes\t10-19/20".as_slice())), None);
}

#[test]
fn numbers_are_read_as_the_standard_library_reads_them() {
    let fields = [
        "", "0", "7", "007", "+7", "+", "-", "-7", "++7", "7+", " 7", "7 ", "1_000", "0x10",
        "18446744073709551615", "18446744073709551616", "99999999999999999999999",
        "184467440737095516150", "1x99999999999999999999999", "99999999999999999999999x",
        "+18446744073709551615", "00000000000000000000000000042", "٣",
    ];
    for field in fields {
        let expected = match field.parse::<u64>() {
            Ok(value) => Ok(value),
            Err(error) => Err(match error.kind() {
                std::num::IntErrorKind::Empty => FieldError::Empty,
                std::num::IntErrorKind::InvalidDigit => FieldError::InvalidDigit,
                std::num::IntErrorKind::PosOverflow => FieldError::Overflow,
                other => panic!("{:?}", other),
            }),
        };
        assert_eq!(parse_u64(field.as_bytes()), expected, "{:?}", field);
    }
}

#[test]
fn exact_values_of_numbers() {
    assert_eq!(parse_u64(b"0"), Ok(0));
    assert_eq!(parse_u64(b"1234567890"), Ok(1234567890));
    assert_eq!(parse_u64(b"+42"), Ok(42));
    assert_eq!(parse_u64(b"18446744073709551615"), Ok(u64::MAX));
    assert_eq!(parse_u64(b""), Err(FieldError::Empty));
    assert_eq!(parse_u64(b"+"), Err(FieldError::InvalidDigit));
    assert_eq!(parse_u64(b"18446744073709551616"), Err(FieldError::Overflow));
}

#[test]
fn text_parses_through_the_standard_trait() {
    for header in ["bytes 10-19/20", "bytes */20", "junk", "bytes 1-2", "bytes x-2/3"] {
        assert_eq!(header.parse::<ContentRange>(), ContentRange::from_str(header));
    }
    assert_eq!("bytes 0-0/1".parse(), Ok(ContentRange::Full { start: 0, end: 0, size: 1 }));
}
