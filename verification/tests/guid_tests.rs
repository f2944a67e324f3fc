use occt_rs::guid::{GuidParseError, OcGuid};
use occt_rs::markers::OcIFunction;

#[test]
fn guid_display_and_parse_round_trip() {
    let g = OcGuid::from_fields(
        0x12345678,
        0x1234,
        0x5678,
        0x9abc,
        [0xde, 0xf0, 0x12, 0x34, 0x56, 0x78],
    );
    let s = g.to_string();
    assert_eq!(s, "12345678-1234-5678-9abc-def012345678");
    let parsed: OcGuid = s.parse().unwrap();
    assert_eq!(parsed, g);
}

#[test]
fn guid_parse_rejects_malformed() {
    assert!("not-a-guid".parse::<OcGuid>().is_err());
    assert!("12345678-1234-5678-9abc".parse::<OcGuid>().is_err());
}

#[test]
fn guid_text_is_zero_padded_lowercase() {
    let g = OcGuid::from_fields(0x0000_00af, 0x0001, 0x00b0, 0x0c00, [0, 1, 0x0a, 0xf0, 0xff, 0x10]);
    assert_eq!(g.to_string(), "000000af-0001-00b0-0c00-00010af0ff10");
}

#[test]
fn guid_round_trip_extremes() {
    for g in [
        OcGuid::from_fields(0, 0, 0, 0, [0; 6]),
        OcGuid::from_fields(u32::MAX, u16::MAX, u16::MAX, u16::MAX, [0xff; 6]),
        OcGuid::from_fields(0x00000000, 0x0000, 0x0000, 0x0000, [0, 0, 0, 0, 0, 1]),
    ] {
        assert_eq!(OcGuid::parse(&g.to_string()), Ok(g));
    }
}

#[test]
fn guid_parse_accepts_uppercase() {
    let g = OcGuid::parse("ABCDEF01-ABCD-EF01-ABCD-ABCDEF012345").unwrap();
    assert_eq!(g.to_string(), "abcdef01-abcd-ef01-abcd-abcdef012345");
}

#[test]
fn guid_parse_accepts_only_the_canonical_form() {
    // short groups, a leading '+', trailing text and extra groups are all errors
    assert_eq!(OcGuid::parse("+1-2-3-4-000000000000"), Err(GuidParseError::InvalidDigit));
    assert_eq!(OcGuid::parse("1-0002-0003-0004-000000000000"), Err(GuidParseError::WrongLength));
    assert_eq!(
        OcGuid::parse("12345678-1234-5678-9abc-def012345678EXTRA"),
        Err(GuidParseError::InvalidDigit)
    );
    assert_eq!(
        OcGuid::parse("12345678-1234-5678-9abc-def012345678ab"),
        Err(GuidParseError::WrongLength)
    );
    assert_eq!(
        OcGuid::parse("12345678-1234-5678-9abc-def012345678-ff"),
        Err(GuidParseError::WrongGroupCount)
    );
    assert!("12345678-1234-5678-9abc-def012345678-ff".parse::<OcGuid>().is_err());
    assert_eq!(
        OcGuid::parse("12345678-1234-5678-9abc-def012345678-"),
        Err(GuidParseError::WrongGroupCount)
    );
}

#[test]
fn guid_parse_error_kinds() {
    assert_eq!(OcGuid::parse(""), Err(GuidParseError::Empty));
    assert_eq!(OcGuid::parse("-1-1-1-000000000000"), Err(GuidParseError::Empty));
    assert_eq!(OcGuid::parse("not-a-guid"), Err(GuidParseError::InvalidDigit));
    assert_eq!(OcGuid::parse("12345678-1234-5678-9abc"), Err(GuidParseError::Empty));
    assert_eq!(OcGuid::parse("123456789-0000-0000-0000-000000000000"), Err(GuidParseError::WrongLength));
    assert_eq!(OcGuid::parse("12345678-10000-0000-0000-000000000000"), Err(GuidParseError::WrongLength));
    assert_eq!(OcGuid::parse("12345678-0000-0000-0000-0000000000"), Err(GuidParseError::WrongLength));
    assert_eq!(OcGuid::parse("12345678-0000-0000-0000-00000000000g"), Err(GuidParseError::InvalidDigit));
    // the first group that fails decides
    assert_eq!(OcGuid::parse("1-g-0-0-000000000000"), Err(GuidParseError::WrongLength));
    assert_eq!(OcGuid::parse("1234567g-00-0-0-0"), Err(GuidParseError::InvalidDigit));
}

#[test]
fn guid_parse_rejects_non_ascii() {
    assert_eq!(
        OcGuid::parse("12345678-1234-5678-9abc-0\u{e9}0000000000"),
        Err(GuidParseError::InvalidDigit)
    );
    assert_eq!(
        OcGuid::parse("\u{e9}2345678-1234-5678-9abc-000000000000"),
        Err(GuidParseError::InvalidDigit)
    );
}

#[test]
fn guid_from_str_matches_parse() {
    let s = "00000000-0000-0000-0000-000000000001";
    assert_eq!(s.parse::<OcGuid>(), OcGuid::parse(s));
}

#[test]
fn guid_from_uuid_fields_layout() {
    let g = OcGuid::from_uuid_fields(0x01020304, 0x0506, 0x0708, [9, 10, 11, 12, 13, 14, 15, 16]);
    assert_eq!(g, OcGuid::from_fields(0x01020304, 0x0506, 0x0708, 0x090a, [11, 12, 13, 14, 15, 16]));
}

#[test]
fn function_guid_reads_uuid_fields() {
    let u = uuid::Uuid::from_bytes([1, 2, 3, 4, 5, 6, 7, 8, 9, 10, 11, 12, 13, 14, 15, 16]);
    let g = OcIFunction::function_guid(&u);
    assert_eq!(g.to_string(), "01020304-0506-0708-090a-0b0c0d0e0f10");
    let same = uuid::Uuid::from_bytes([3; 16]);
    assert_eq!(
        OcIFunction::function_guid(&same),
        OcGuid::from_fields(0x03030303, 0x0303, 0x0303, 0x0303, [3; 6])
    );
}

#[test]
fn guid_fields_give_back_what_was_stored() {
    let g = OcGuid::from_fields(0x0123_4567, 0x89ab, 0xcdef, 0x0f1e, [1, 2, 3, 4, 5, 6]);
    assert_eq!(
        g.fields(),
        (0x0123_4567, 0x89ab, 0xcdef, 0x0f1e, [1, 2, 3, 4, 5, 6])
    );
    let parsed: OcGuid = "ffffffff-0000-abcd-1234-a0b0c0d0e0f0".parse().unwrap();
    assert_eq!(
        parsed.fields(),
        (0xffff_ffff, 0, 0xabcd, 0x1234, [0xa0, 0xb0, 0xc0, 0xd0, 0xe0, 0xf0])
    );
}
