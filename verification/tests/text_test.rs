use reviewist::json::read_text;
use reviewist::text::decimal;

#[test]
fn decimal_writes_digits_and_sign() {
    assert_eq!(decimal(0), "0");
    assert_eq!(decimal(9), "9");
    assert_eq!(decimal(10), "10");
    assert_eq!(decimal(1234567890), "1234567890");
    assert_eq!(decimal(-1), "-1");
    assert_eq!(decimal(-100), "-100");
    assert_eq!(decimal(i64::MAX), i64::MAX.to_string());
    assert_eq!(decimal(i64::MIN), i64::MIN.to_string());
}

#[test]
fn decimal_agrees_with_the_standard_formatting() {
    let mut n: i64 = 1;
    for _ in 0..62 {
        assert_eq!(decimal(n), n.to_string());
        assert_eq!(decimal(-n), (-n).to_string());
        assert_eq!(decimal(n - 1), (n - 1).to_string());
        n *= 2;
    }
}

#[test]
fn read_text_wants_a_string_member_of_an_object() {
    let v: serde_json::Value =
        serde_json::from_str(r#"{"a": "text", "b": 1, "c": null, "d": {"a": "inner"}}"#).expect("test JSON");
    assert_eq!(read_text(&v, "a").as_deref(), Some("text"));
    assert_eq!(read_text(&v, "b"), None);
    assert_eq!(read_text(&v, "c"), None);
    assert_eq!(read_text(&v, "d"), None);
    assert_eq!(read_text(&v, "missing"), None);
    let list: serde_json::Value = serde_json::from_str(r#"["a"]"#).expect("test JSON");
    assert_eq!(read_text(&list, "a"), None);
}
