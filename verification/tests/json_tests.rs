use zeta2::json::{parse_bytes, parse_text, render_bytes, render_text, Json};

#[test]
fn parse_reads_every_sort_of_node() {
    let doc = parse_text(r#"{"a":null,"b":true,"c":-7,"d":"x","e":[1,2],"f":1.5}"#).unwrap();
    assert!(doc.field("a").unwrap().is_null());
    assert_eq!(doc.field("b").unwrap().as_bool(), Some(true));
    assert_eq!(doc.field("c").unwrap().as_int(), Some(-7));
    assert_eq!(doc.field("d").unwrap().as_text().unwrap().as_str(), "x");
    let items = doc.field("e").unwrap().as_items().unwrap();
    assert_eq!(items.len(), 2);
    assert_eq!(items[0].as_int(), Some(1));
    assert_eq!(items[1].as_int(), Some(2));
    assert!(matches!(doc.field("f").unwrap(), Json::Number));
    assert!(doc.field("g").is_none());
}

#[test]
fn parse_rejects_what_is_no_json() {
    assert!(parse_text("{not json").is_none());
    assert!(parse_text("").is_none());
    assert!(parse_bytes(&[0xff, 0xfe]).is_none());
    assert!(parse_text("1 2").is_none());
}

#[test]
fn parse_keeps_large_unsigned_numbers_apart() {
    let doc = parse_text("[9223372036854775807, 9223372036854775808]").unwrap();
    let items = doc.as_items().unwrap();
    assert_eq!(items[0].as_int(), Some(i64::MAX));
    assert_eq!(items[1].as_int(), None);
}

#[test]
fn render_writes_compact_text() {
    let doc = Json::Object(vec![
        ("type".to_string(), Json::Text("ping".to_string())),
        ("n".to_string(), Json::Int(3)),
        ("list".to_string(), Json::Array(vec![Json::Bool(false), Json::Null])),
    ]);
    let text = render_text(&doc);
    let back = parse_text(&text).unwrap();
    assert_eq!(back.field("type").unwrap().as_text().unwrap().as_str(), "ping");
    assert_eq!(back.field("n").unwrap().as_int(), Some(3));
    assert_eq!(back.field("list").unwrap().as_items().unwrap().len(), 2);
    assert_eq!(render_bytes(&doc), text.as_bytes().to_vec());
    assert_eq!(render_text(&Json::Text("a\"b".to_string())), r#""a\"b""#);
}

#[test]
fn parse_bytes_agrees_with_parse_text() {
    let doc = parse_bytes(br#"{"k":"v"}"#).unwrap();
    assert_eq!(doc.field("k").unwrap().as_text().unwrap().as_str(), "v");
}
