use bilidown::resolution::{fnval, label_for_code, parse_code, qn, quality_labels, rsl};

#[test]
fn x() {
    let s = "HDR";
    println!("{}", qn(s));
    println!("{}", fnval(s));
    assert_eq!(qn(s), "125");
    assert_eq!(fnval(s), "80");
}

#[test]
fn every_label_maps_to_its_code_and_back() {
    let pairs = [
        ("HDR", "125"),
        ("4K", "120"),
        ("1080P+", "112"),
        ("1080P60", "116"),
        ("1080P", "80"),
        ("720P", "64"),
        ("480P", "32"),
        ("360P", "16"),
    ];
    for (label, code) in pairs {
        assert_eq!(qn(label), code);
        assert_eq!(rsl(code), label);
        let n: i64 = code.parse().unwrap();
        assert_eq!(label_for_code(n), label);
    }
}

#[test]
fn unknown_label_maps_to_empty_code() {
    assert_eq!(qn("potato"), "");
    assert_eq!(parse_code(qn("potato")), None);
    assert_eq!(rsl("potato"), "");
    assert_eq!(label_for_code(7), "");
}

#[test]
fn format_flags_default_to_sixteen() {
    assert_eq!(fnval("4K"), "144");
    assert_eq!(fnval("1080P"), "16");
    assert_eq!(fnval(""), "16");
}

#[test]
fn parse_code_reads_decimal_text() {
    assert_eq!(parse_code("116"), Some(116));
    assert_eq!(parse_code("0"), Some(0));
    assert_eq!(parse_code(""), None);
    assert_eq!(parse_code("12a"), None);
    assert_eq!(parse_code("-5"), None);
    assert_eq!(parse_code("9223372036854775807"), Some(i64::MAX));
    assert_eq!(parse_code("9223372036854775808"), None);
}

#[test]
fn quality_labels_highest_first() {
    let l = quality_labels();
    assert_eq!(l, vec!["HDR", "4K", "1080P+", "1080P60", "1080P", "720P", "480P", "360P"]);
}
