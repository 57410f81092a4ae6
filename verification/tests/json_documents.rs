use ws_socket::json::{parse_json, Json, JsonNumber};

#[test]
fn reads_a_string_member() {
    let doc = parse_json("{\"s\":\"BTCUSDT\",\"n\":1}").unwrap();
    assert_eq!(doc.text_member("s").map(|s| s.as_str()), Some("BTCUSDT"));
    assert!(doc.text_member("n").is_none());
    assert!(doc.text_member("missing").is_none());
    assert!(matches!(doc, Json::Object(_)));
}

#[test]
fn numbers_are_told_apart() {
    let doc = parse_json("[0, 7, 18446744073709551615, -1, -9223372036854775808, 1.5, 1e3, -0.0]")
        .unwrap();
    let items = doc.items().unwrap();
    assert!(matches!(items[0], Json::Number(JsonNumber::Unsigned(0))));
    assert!(matches!(items[1], Json::Number(JsonNumber::Unsigned(7))));
    assert!(matches!(items[2], Json::Number(JsonNumber::Unsigned(18446744073709551615))));
    assert!(matches!(items[3], Json::Number(JsonNumber::Negative(-1))));
    assert!(matches!(items[4], Json::Number(JsonNumber::Negative(-9223372036854775808))));
    assert!(matches!(items[5], Json::Number(JsonNumber::Real)));
    assert!(matches!(items[6], Json::Number(JsonNumber::Real)));
    assert!(matches!(items[7], Json::Number(JsonNumber::Real)));
    assert_eq!(items[1].small_integer(), Some(7));
    assert_eq!(items[2].small_integer(), None);
    assert_eq!(items[3].small_integer(), Some(-1));
    assert_eq!(items[4].small_integer(), None);
    assert_eq!(items[5].small_integer(), None);
}

#[test]
fn every_kind_of_value_is_copied() {
    let doc = parse_json("{\"a\":null,\"b\":true,\"c\":false,\"d\":\"x\\ny\",\"e\":[[],{}],\"f\":{\"g\":[1]}}")
        .unwrap();
    assert!(matches!(doc.member("a"), Some(Json::Null)));
    assert!(matches!(doc.member("b"), Some(Json::Bool(true))));
    assert!(matches!(doc.member("c"), Some(Json::Bool(false))));
    assert_eq!(doc.text_member("d").unwrap(), "x\ny");
    let e = doc.member("e").unwrap().items().unwrap();
    assert_eq!(e.len(), 2);
    assert!(matches!(&e[0], Json::Array(items) if items.is_empty()));
    assert!(matches!(&e[1], Json::Object(members) if members.is_empty()));
    let g = doc.member("f").unwrap().member("g").unwrap().items().unwrap();
    assert_eq!(g[0].small_integer(), Some(1));
}

#[test]
fn only_an_object_has_members() {
    for text in ["null", "true", "1", "\"s\"", "[{\"s\":\"x\"}]"] {
        let doc = parse_json(text).unwrap();
        assert!(doc.member("s").is_none());
        assert!(doc.text_member("s").is_none());
    }
    assert!(parse_json("\"s\"").unwrap().text().is_some());
    assert!(parse_json("\"s\"").unwrap().items().is_none());
    assert!(parse_json("[]").unwrap().text().is_none());
}

#[test]
fn a_member_written_twice_counts_once() {
    let doc = parse_json("{\"s\":\"first\",\"s\":\"last\"}").unwrap();
    match &doc {
        Json::Object(members) => assert_eq!(members.len(), 1),
        other => panic!("{:?}", other),
    }
    assert_eq!(doc.text_member("s").unwrap(), "last");
}

#[test]
fn a_text_that_is_no_json_is_no_document() {
    for text in ["", " ", "{", "[1,]", "{\"a\":1,}", "01", "nul", "1 2", "\"open"] {
        assert!(parse_json(text).is_err(), "{:?}", text);
    }
}

#[test]
fn a_copy_holds_what_the_document_holds() {
    let text = "{\"a\":[1,-2,3.5,\"x\",null,true,{\"b\":[]}],\"c\":\"d\"}";
    let doc = parse_json(text).unwrap();
    let copy = doc.clone();
    assert_eq!(format!("{:?}", doc), format!("{:?}", copy));
}
