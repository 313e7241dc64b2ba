use planning_poker::json::{array, no_members, object, put, text_or_null, Json};

fn member(name: &str, value: Json) -> (String, Json) {
    (name.to_string(), value)
}

#[test]
fn parse_reads_an_integer() {
    assert_eq!(Json::parse("5"), Some(Json::Int(5)));
    assert_eq!(Json::parse("-17"), Some(Json::Int(-17)));
    assert_eq!(Json::parse("9223372036854775807"), Some(Json::Int(i64::MAX)));
}

#[test]
fn parse_keeps_other_numbers_as_text() {
    assert_eq!(Json::parse("2.5"), Some(Json::Number("2.5".to_string())));
    assert_eq!(
        Json::parse("18446744073709551615"),
        Some(Json::Number("18446744073709551615".to_string()))
    );
}

#[test]
fn parse_reads_scalars() {
    assert_eq!(Json::parse("null"), Some(Json::Null));
    assert_eq!(Json::parse("true"), Some(Json::Bool(true)));
    assert_eq!(Json::parse("\"a\\nb\""), Some(Json::Str("a\nb".to_string())));
}

#[test]
fn parse_reads_nested_documents_in_order() {
    let doc = Json::parse("{\"b\": [1, {\"c\": null}], \"a\": \"x\"}").unwrap();
    let expected = Json::Object(vec![
        member(
            "b",
            Json::Array(vec![Json::Int(1), Json::Object(vec![member("c", Json::Null)])]),
        ),
        member("a", Json::Str("x".to_string())),
    ]);
    assert_eq!(doc, expected);
}

#[test]
fn parse_refuses_what_is_no_json() {
    assert_eq!(Json::parse(""), None);
    assert_eq!(Json::parse("{"), None);
    assert_eq!(Json::parse("{\"a\": }"), None);
    assert_eq!(Json::parse("hello"), None);
}

#[test]
fn render_writes_compact_json() {
    let doc = Json::Object(vec![
        member("n", Json::Int(-3)),
        member("s", Json::Str("a\"b".to_string())),
        member("l", Json::Array(vec![Json::Null, Json::Bool(false)])),
        member("f", Json::Number("2.5".to_string())),
    ]);
    assert_eq!(doc.render(), "{\"n\":-3,\"s\":\"a\\\"b\",\"l\":[null,false],\"f\":2.5}");
}

#[test]
fn render_then_parse_gives_the_document_back() {
    let doc = Json::Object(vec![
        member("id", Json::Str("abc".to_string())),
        member("votes", Json::Array(vec![Json::Int(1), Json::Int(2)])),
        member("none", Json::Null),
    ]);
    assert_eq!(Json::parse(&doc.render()), Some(doc));
}

#[test]
fn get_finds_the_last_member_of_a_name() {
    let doc = Json::Object(vec![
        member("a", Json::Int(1)),
        member("b", Json::Int(2)),
        member("a", Json::Int(3)),
    ]);
    assert_eq!(doc.get("a"), Some(&Json::Int(3)));
    assert_eq!(doc.get("b"), Some(&Json::Int(2)));
    assert_eq!(doc.get("c"), None);
    assert_eq!(Json::Int(1).get("a"), None);
}

#[test]
fn readers_tell_the_kinds_apart() {
    assert_eq!(Json::Str("x".to_string()).as_str(), Some("x"));
    assert_eq!(Json::Int(4).as_str(), None);
    assert_eq!(Json::Int(4).as_i64(), Some(4));
    assert_eq!(Json::Number("4.5".to_string()).as_i64(), None);
    assert_eq!(Json::Array(vec![Json::Null]).as_array(), Some(&vec![Json::Null]));
    assert_eq!(Json::Null.as_array(), None);
    assert!(Json::Null.is_null());
    assert!(!Json::Bool(false).is_null());
}

#[test]
fn field_readers_follow_their_rules() {
    let doc = Json::parse(
        "{\"t\": \"x\", \"n\": null, \"i\": 7, \"big\": 2147483648, \"small\": -2147483648}",
    )
    .unwrap();
    assert_eq!(doc.text_at("t"), Some("x".to_string()));
    assert_eq!(doc.text_at("n"), None);
    assert_eq!(doc.text_at("missing"), None);
    assert_eq!(doc.opt_text_at("t"), Some(Some("x".to_string())));
    assert_eq!(doc.opt_text_at("n"), Some(None));
    assert_eq!(doc.opt_text_at("missing"), Some(None));
    assert_eq!(doc.opt_text_at("i"), None);
    assert_eq!(doc.i64_at("i"), Some(7));
    assert_eq!(doc.i64_at("big"), Some(2147483648));
    assert_eq!(doc.i64_at("t"), None);
    assert_eq!(doc.i32_at("i"), Some(7));
    assert_eq!(doc.i32_at("big"), None);
    assert_eq!(doc.i32_at("small"), Some(i32::MIN));
    assert_eq!(doc.opt_i32_at("n"), Some(None));
    assert_eq!(doc.opt_i32_at("missing"), Some(None));
    assert_eq!(doc.opt_i32_at("i"), Some(Some(7)));
    assert_eq!(doc.opt_i32_at("big"), None);
    assert_eq!(doc.opt_i32_at("t"), None);
}

#[test]
fn builders_make_objects_and_arrays() {
    let mut members = no_members();
    put(&mut members, "a", Json::Int(1));
    put(&mut members, "b", text_or_null(&None));
    put(&mut members, "c", text_or_null(&Some("x".to_string())));
    let doc = object(members);
    assert_eq!(doc.render(), "{\"a\":1,\"b\":null,\"c\":\"x\"}");
    assert_eq!(array(vec![Json::Int(1)]).render(), "[1]");
}

#[test]
fn clone_copies_the_whole_document() {
    let doc = Json::parse("{\"a\": [1, {\"b\": \"c\"}, 2.5], \"d\": null}").unwrap();
    assert_eq!(doc.clone(), doc);
}
