use occt_rs::label_path::LabelPath;

#[test]
fn label_path_display_joins_with_colons() {
    assert_eq!(LabelPath(vec![1, 2, 3]).to_string(), "1:2:3");
    assert_eq!(LabelPath(vec![]).to_string(), "");
    assert_eq!(LabelPath(vec![0]).to_string(), "0");
    assert_eq!(LabelPath(vec![-5, 12, i32::MIN, i32::MAX]).to_string(), "-5:12:-2147483648:2147483647");
}

#[test]
fn label_path_parse_examples() {
    assert_eq!("1:2:3".parse::<LabelPath>().unwrap(), LabelPath(vec![1, 2, 3]));
    assert_eq!("".parse::<LabelPath>().unwrap(), LabelPath(vec![]));
    assert_eq!("+7:-8:007".parse::<LabelPath>().unwrap(), LabelPath(vec![7, -8, 7]));
    assert_eq!(LabelPath::parse("-2147483648").unwrap(), LabelPath(vec![i32::MIN]));
}

#[test]
fn label_path_parse_reports_first_bad_segment() {
    assert_eq!(LabelPath::parse("1:x:y").unwrap_err().segment(), "x");
    assert_eq!(LabelPath::parse("1::2").unwrap_err().segment(), "");
    assert_eq!(LabelPath::parse(":").unwrap_err().segment(), "");
    assert_eq!(LabelPath::parse("1:").unwrap_err().segment(), "");
    assert_eq!(LabelPath::parse("2147483648").unwrap_err().segment(), "2147483648");
    assert_eq!(LabelPath::parse("-2147483649").unwrap_err().segment(), "-2147483649");
    assert_eq!(LabelPath::parse("1:+").unwrap_err().segment(), "+");
    assert_eq!(LabelPath::parse("1: 2").unwrap_err().segment(), " 2");
    assert_eq!(LabelPath::parse("\u{e9}").unwrap_err().segment(), "\u{e9}");
}

#[test]
fn label_path_round_trip() {
    for p in [
        vec![],
        vec![0],
        vec![1, 3, 2],
        vec![i32::MIN, -1, 0, 1, i32::MAX],
        vec![10, 100, 1000],
    ] {
        let path = LabelPath(p);
        assert_eq!(LabelPath::parse(&path.to_string()).unwrap(), path);
    }
}

#[test]
fn label_path_error_text_quotes_the_segment() {
    let e = "1::2".parse::<LabelPath>().unwrap_err();
    assert_eq!(e.to_string(), "label path: invalid tag segment \"\"");
    let e = "1:x:y".parse::<LabelPath>().unwrap_err();
    assert_eq!(e.to_string(), "label path: invalid tag segment \"x\"");
    let e = LabelPath::parse("1:a\"b\\c\n").unwrap_err();
    assert_eq!(e.to_string(), format!("label path: invalid tag segment {:?}", "a\"b\\c\n"));
    let e = LabelPath::parse("it's").unwrap_err();
    assert_eq!(e.to_string(), "label path: invalid tag segment \"it's\"");
}
