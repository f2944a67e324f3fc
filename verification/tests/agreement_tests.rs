//! The verified parsers agree with direct readings of their formats on
//! tricky inputs.
use occt_rs::error::{parse_occt_exception, OcctErrorKind};
use occt_rs::guid::{GuidParseError, OcGuid};
use occt_rs::label_path::LabelPath;

/// A direct reading of the canonical form: five `-`-separated groups of
/// 8, 4, 4, 4 and 12 hexadecimal digits, checked in order.
fn reference_guid(s: &str) -> Result<String, GuidParseError> {
    let parts: Vec<&str> = s.split('-').collect();
    for (k, width) in [8usize, 4, 4, 4, 12].into_iter().enumerate() {
        let g = parts.get(k).copied().unwrap_or("");
        if g.is_empty() {
            return Err(GuidParseError::Empty);
        }
        if !g.bytes().all(|c| c.is_ascii_hexdigit()) {
            return Err(GuidParseError::InvalidDigit);
        }
        if g.len() != width {
            return Err(GuidParseError::WrongLength);
        }
    }
    if parts.len() > 5 {
        return Err(GuidParseError::WrongGroupCount);
    }
    let p = |k: usize| parts[k];
    let a32b = u32::from_str_radix(p(0), 16).unwrap();
    let a16b1 = u16::from_str_radix(p(1), 16).unwrap();
    let a16b2 = u16::from_str_radix(p(2), 16).unwrap();
    let a16b3 = u16::from_str_radix(p(3), 16).unwrap();
    let mut a8 = [0u8; 6];
    for (i, byte) in a8.iter_mut().enumerate() {
        *byte = u8::from_str_radix(&p(4)[2 * i..2 * i + 2], 16).unwrap();
    }
    Ok(OcGuid::from_fields(a32b, a16b1, a16b2, a16b3, a8).to_string())
}

const GUID_INPUTS: &[&str] = &[
    "",
    "-",
    "+",
    "--",
    "not-a-guid",
    "12345678-1234-5678-9abc",
    "12345678-1234-5678-9abc-def012345678",
    "12345678-1234-5678-9ABC-DEF012345678",
    "12345678-1234-5678-9abc-def012345678x",
    "12345678-1234-5678-9abc-def0123456",
    "12345678-1234-5678-9abc-def01234567",
    "12345678-1234-5678-9abc-def012345678-ff",
    "12345678-1234-5678-9abc-def012345678-",
    "+12345678-+1234-+5678-+9abc-def012345678",
    "+2345678-1234-5678-9abc-def012345678",
    "-12345678-1234-5678-9abc-def012345678",
    "123456789-1234-5678-9abc-def012345678",
    "1-2-3-4-000000000000",
    "1-2-3-4-+0+0+0+0+0+0",
    "12345678-1234-5678-9abc-0\u{e9}0000000000",
    "12345678-1234-5678-9abc-\u{e9}00000000000",
    "\u{e9}-2-3-4-000000000000",
    "1 -2-3-4-000000000000",
    "12345678-1234-5678-9abc-000000000000-5-6",
];

#[test]
fn guid_parse_agrees_with_reference() {
    for s in GUID_INPUTS {
        let ours = OcGuid::parse(s).map(|g| g.to_string());
        assert_eq!(ours, reference_guid(s), "input {s:?}");
    }
}

fn std_path(s: &str) -> Result<Vec<i32>, String> {
    if s.is_empty() {
        return Ok(Vec::new());
    }
    s.split(':')
        .map(|seg| seg.parse::<i32>().map_err(|_| seg.to_string()))
        .collect()
}

#[test]
fn label_path_parse_agrees_with_str_parse() {
    for s in [
        "", ":", "::", "1", "1:2", "1:2:", ":1", "+1", "-1", "+", "-", "+-1", "00:01", "2147483647",
        "2147483648", "-2147483648", "-2147483649", "99999999999", "1:\u{e9}", " 1", "1 ",
    ] {
        let ours = LabelPath::parse(s)
            .map(|p| p.0)
            .map_err(|e| e.segment().to_string());
        assert_eq!(ours, std_path(s), "input {s:?}");
    }
}

#[test]
fn exception_parse_agrees_with_strip_prefix() {
    for s in [
        "",
        "OCCT",
        "OCCT:",
        "OCCT::",
        "OCCT:a",
        "OCCT:a:",
        "OCCT:a:b:c",
        "OCCT:Standard_DomainError:x",
        "xOCCT:a:b",
        "OCCT:\u{e9}:\u{e9}",
    ] {
        let e = parse_occt_exception(s);
        let (kind, message) = match s.strip_prefix("OCCT:").and_then(|r| r.split_once(':')) {
            Some((k, m)) => (OcctErrorKind::from_class_name(k), m.to_string()),
            None => (OcctErrorKind::Other(String::new()), s.to_string()),
        };
        assert_eq!((e.kind, e.message), (kind, message), "input {s:?}");
    }
}
