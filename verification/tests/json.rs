use victron_energy_api::json::{object, push_member, Json, Number};

#[test]
fn parse_reads_scalars() {
    assert_eq!(Json::parse(b"null"), Some(Json::Null));
    assert_eq!(Json::parse(b"true"), Some(Json::Bool(true)));
    assert_eq!(Json::parse(b"false"), Some(Json::Bool(false)));
    assert_eq!(Json::parse(b"\"abc\""), Some(Json::String("abc".to_string())));
}

#[test]
fn parse_keeps_the_three_forms_of_a_number() {
    assert_eq!(Json::parse(b"42"), Some(Json::Number(Number::PosInt(42))));
    assert_eq!(Json::parse(b"0"), Some(Json::Number(Number::PosInt(0))));
    assert_eq!(
        Json::parse(b"18446744073709551615"),
        Some(Json::Number(Number::PosInt(u64::MAX)))
    );
    assert_eq!(Json::parse(b"-7"), Some(Json::Number(Number::NegInt(-7))));
    assert_eq!(
        Json::parse(b"-9223372036854775808"),
        Some(Json::Number(Number::NegInt(i64::MIN)))
    );
    assert_eq!(
        Json::parse(b"1.5"),
        Some(Json::Number(Number::Float(1.5f64.to_bits())))
    );
    assert_eq!(
        Json::parse(b"-0.25"),
        Some(Json::Number(Number::Float((-0.25f64).to_bits())))
    );
    assert_eq!(
        Json::parse(b"1e3"),
        Some(Json::Number(Number::Float(1000f64.to_bits())))
    );
}

#[test]
fn parse_reads_lists_in_order() {
    assert_eq!(
        Json::parse(b"[1, \"two\", [null]]"),
        Some(Json::Array(vec![
            Json::Number(Number::PosInt(1)),
            Json::String("two".to_string()),
            Json::Array(vec![Json::Null]),
        ]))
    );
    assert_eq!(Json::parse(b"[]"), Some(Json::Array(vec![])));
}

#[test]
fn parse_reads_objects() {
    let parsed = Json::parse(b"{\"b\": 1, \"a\": {\"c\": true}}").unwrap();
    assert_eq!(parsed.get("b"), Some(&Json::Number(Number::PosInt(1))));
    assert_eq!(
        parsed.get("a"),
        Some(&Json::Object(vec![("c".to_string(), Json::Bool(true))]))
    );
    assert_eq!(parsed.get("c"), None);
    assert!(parsed.is_object());
    assert_eq!(Json::parse(b"{}"), Some(Json::Object(vec![])));
}

#[test]
fn parse_refuses_what_is_no_json() {
    assert_eq!(Json::parse(b""), None);
    assert_eq!(Json::parse(b"{"), None);
    assert_eq!(Json::parse(b"{\"a\": }"), None);
    assert_eq!(Json::parse(b"<html></html>"), None);
    assert_eq!(Json::parse(b"1 2"), None);
    assert_eq!(Json::parse(&[0xff, 0xfe]), None);
}

#[test]
fn get_takes_the_first_member_with_a_key() {
    let document = Json::Object(vec![
        ("a".to_string(), Json::Bool(true)),
        ("b".to_string(), Json::Null),
        ("a".to_string(), Json::Bool(false)),
    ]);
    assert_eq!(document.get("a"), Some(&Json::Bool(true)));
    assert_eq!(document.get("b"), Some(&Json::Null));
    assert_eq!(document.get(""), None);
}

#[test]
fn get_finds_nothing_outside_objects() {
    assert_eq!(Json::Null.get("a"), None);
    assert_eq!(Json::Array(vec![Json::Null]).get("a"), None);
    assert_eq!(Json::String("a".to_string()).get("a"), None);
    assert!(!Json::Array(vec![]).is_object());
}

#[test]
fn clone_copies_the_whole_document() {
    let document = Json::parse(b"{\"a\": [1, {\"b\": \"c\"}], \"d\": -2.5}").unwrap();
    assert_eq!(document.clone(), document);
}

#[test]
fn integer_keeps_the_sign() {
    assert_eq!(Json::integer(0), Json::Number(Number::PosInt(0)));
    assert_eq!(Json::integer(17), Json::Number(Number::PosInt(17)));
    assert_eq!(Json::integer(-1), Json::Number(Number::NegInt(-1)));
    assert_eq!(
        Json::integer(i32::MIN),
        Json::Number(Number::NegInt(-2147483648))
    );
    assert_eq!(Json::integer(i32::MAX), Json::parse(b"2147483647").unwrap());
}

#[test]
fn object_is_built_member_by_member() {
    let mut members = Vec::new();
    push_member(&mut members, "a", Json::string("x"));
    push_member(&mut members, "b", Json::Bool(true));
    assert_eq!(
        object(members),
        Json::Object(vec![
            ("a".to_string(), Json::String("x".to_string())),
            ("b".to_string(), Json::Bool(true)),
        ])
    );
}
