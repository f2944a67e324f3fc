use occt_rs::error::{parse_occt_exception, CommonError, FuseError, OcctError, OcctErrorKind};

#[test]
fn parse_construction_error() {
    let e = parse_occt_exception("OCCT:Standard_ConstructionError:null magnitude in gp_Dir");
    assert_eq!(e.kind, OcctErrorKind::ConstructionError);
    assert_eq!(e.message, "null magnitude in gp_Dir");
}

#[test]
fn parse_null_magnitude() {
    let e = parse_occt_exception("OCCT:gp_VectorWithNullMagnitude:gp_Vec : cannot be normalized");
    assert_eq!(e.kind, OcctErrorKind::NullMagnitude);
}

#[test]
fn parse_message_with_internal_colons() {
    let e = parse_occt_exception(
        "OCCT:Standard_DomainError:gp_Vec : coplanar: cannot compute AngleWithRef",
    );
    assert_eq!(e.kind, OcctErrorKind::DomainError);
    assert_eq!(e.message, "gp_Vec : coplanar: cannot compute AngleWithRef");
}

#[test]
fn parse_unknown_prefix_falls_back() {
    let e = parse_occt_exception("something unexpected");
    assert_eq!(e.kind, OcctErrorKind::Other(String::new()));
}

#[test]
fn parse_out_of_range() {
    let e = parse_occt_exception("OCCT:Standard_OutOfRange:index 9");
    assert_eq!(e.kind, OcctErrorKind::OutOfRange);
    assert_eq!(e.message, "index 9");
}

#[test]
fn parse_unknown_class_keeps_its_name() {
    let e = parse_occt_exception("OCCT:Standard_NoSuchObject:gone");
    assert_eq!(e.kind, OcctErrorKind::Other("Standard_NoSuchObject".to_string()));
    assert_eq!(e.message, "gone");
}

#[test]
fn parse_empty_class_and_message() {
    let e = parse_occt_exception("OCCT::");
    assert_eq!(e.kind, OcctErrorKind::Other(String::new()));
    assert_eq!(e.message, "");
}

#[test]
fn parse_prefix_without_second_colon_falls_back() {
    let e = parse_occt_exception("OCCT:Standard_DomainError");
    assert_eq!(e.kind, OcctErrorKind::Other(String::new()));
    assert_eq!(e.message, "OCCT:Standard_DomainError");
}

#[test]
fn parse_empty_text_falls_back() {
    let e = parse_occt_exception("");
    assert_eq!(e.kind, OcctErrorKind::Other(String::new()));
    assert_eq!(e.message, "");
}

#[test]
fn parse_prefix_is_case_sensitive() {
    let e = parse_occt_exception("occt:Standard_DomainError:x");
    assert_eq!(e.kind, OcctErrorKind::Other(String::new()));
    assert_eq!(e.message, "occt:Standard_DomainError:x");
}

#[test]
fn parse_non_ascii_message() {
    let e = parse_occt_exception("OCCT:Standard_DomainError:angle \u{2220} \u{3b1}");
    assert_eq!(e.kind, OcctErrorKind::DomainError);
    assert_eq!(e.message, "angle \u{2220} \u{3b1}");
}

#[test]
fn from_class_name_table() {
    assert_eq!(
        OcctErrorKind::from_class_name("Standard_ConstructionError"),
        OcctErrorKind::ConstructionError
    );
    assert_eq!(
        OcctErrorKind::from_class_name("gp_VectorWithNullMagnitude"),
        OcctErrorKind::NullMagnitude
    );
    assert_eq!(
        OcctErrorKind::from_class_name("Standard_DomainError"),
        OcctErrorKind::DomainError
    );
    assert_eq!(
        OcctErrorKind::from_class_name("Standard_OutOfRange"),
        OcctErrorKind::OutOfRange
    );
    assert_eq!(
        OcctErrorKind::from_class_name("Standard_Failure"),
        OcctErrorKind::Other("Standard_Failure".to_string())
    );
    assert_eq!(
        OcctErrorKind::from_class_name("standard_outofrange"),
        OcctErrorKind::Other("standard_outofrange".to_string())
    );
}

#[test]
fn common_error_source() {
    let e = OcctError {
        kind: OcctErrorKind::DomainError,
        message: "m".to_string(),
    };
    let c = CommonError::Occt(e);
    assert_eq!(c.source().map(|e| e.message.clone()), Some("m".to_string()));
    assert!(CommonError::NoIntersection.source().is_none());
}

#[test]
fn fuse_error_source_is_the_occt_error() {
    let e = parse_occt_exception("OCCT:Standard_DomainError:boolean failed");
    let f: FuseError<u32> = FuseError::Occt(e);
    let s = f.source().unwrap();
    assert_eq!(s.kind, OcctErrorKind::DomainError);
    assert_eq!(s.message, "boolean failed");
    let d: FuseError<u32> = FuseError::DisjointInputs(7);
    assert!(d.source().is_none());
}

#[test]
fn error_texts() {
    let e = parse_occt_exception("OCCT:Standard_DomainError:bad input");
    assert_eq!(e.to_string(), "DomainError: bad input");
    let o = parse_occt_exception("OCCT:Foo_Bar:oops");
    assert_eq!(o.to_string(), "Other(\"Foo_Bar\"): oops");
    let plain = parse_occt_exception("no prefix");
    assert_eq!(plain.to_string(), "Other(\"\"): no prefix");
    assert_eq!(
        CommonError::NoIntersection.to_string(),
        "common: inputs do not intersect; result is empty"
    );
    assert_eq!(
        CommonError::Occt(e.clone()).to_string(),
        "common: OCCT error: DomainError: bad input"
    );
    let d: FuseError<u8> = FuseError::DisjointInputs(0);
    assert_eq!(d.to_string(), "fuse: inputs are disjoint; result is a compound");
    let f: FuseError<u8> = FuseError::Occt(e);
    assert_eq!(f.to_string(), "fuse: OCCT error: DomainError: bad input");
}
