use emergence_client::decode::{
    decode, decode_parsed, property_from_json, record_from_json, records_from_json, Decoded,
    Property, Record,
};
use emergence_client::json::{parse_json, Json};
use emergence_client::text::strip_quotes;

fn text(s: &str) -> Json {
    Json::Text(s.to_string())
}

fn object(members: Vec<(&str, Json)>) -> Json {
    Json::Object(members.into_iter().map(|(k, v)| (k.to_string(), v)).collect())
}

fn property_json(name: &str, value: &str) -> Json {
    object(vec![("name", text(name)), ("value", text(value))])
}

fn property(name: &str, value: &str) -> Property {
    Property { name: name.to_string(), value: value.to_string() }
}

#[test]
fn structured_payload_decodes_to_records() {
    let body = "{\"embryo_list\":[{\"properties\":[{\"name\":\"url\",\"value\":\"http://x\"},{\"name\":\"resume\",\"value\":\"A very long resume text...\"}]}]}";
    let expected = Decoded::Records(vec![Record {
        properties: vec![
            property("url", "http://x"),
            property("resume", "A very long resume text..."),
        ],
    }]);
    assert_eq!(decode(body), expected);
}

#[test]
fn record_count_equals_list_length() {
    for n in 0..6usize {
        let one = "{\"properties\":[{\"name\":\"url\",\"value\":\"u\"}]}";
        let list = vec![one; n].join(",");
        let body = format!("{{\"embryo_list\":[{}]}}", list);
        match decode(&body) {
            Decoded::Records(rs) => assert_eq!(rs.len(), n),
            Decoded::Scalar(s) => panic!("scalar {:?}", s),
        }
    }
}

#[test]
fn empty_list_is_a_record_list() {
    assert_eq!(decode("{\"embryo_list\":[]}"), Decoded::Records(vec![]));
}

#[test]
fn bare_string_decodes_to_scalar() {
    assert_eq!(decode("\"http://y\""), Decoded::Scalar("http://y".to_string()));
}

#[test]
fn plain_text_decodes_to_scalar() {
    assert_eq!(decode("not json at all"), Decoded::Scalar("not json at all".to_string()));
    assert_eq!(decode(""), Decoded::Scalar(String::new()));
}

#[test]
fn schema_mismatch_decodes_to_scalar() {
    assert_eq!(decode("{\"other\":[]}"), Decoded::Scalar("{\"other\":[]}".to_string()));
    assert_eq!(decode("[1,2]"), Decoded::Scalar("[1,2]".to_string()));
    let body = "{\"embryo_list\":[{\"properties\":[{\"name\":\"url\"}]}]}";
    assert_eq!(decode(body), Decoded::Scalar(body.to_string()));
    let body = "{\"embryo_list\":[{\"properties\":[{\"name\":\"url\",\"value\":3}]}]}";
    assert_eq!(decode(body), Decoded::Scalar(body.to_string()));
    let body = "{\"embryo_list\":{\"properties\":[]}}";
    assert_eq!(decode(body), Decoded::Scalar(body.to_string()));
}

#[test]
fn strip_quotes_takes_at_most_one_from_each_end() {
    assert_eq!(strip_quotes("\"http://y\""), "http://y");
    assert_eq!(strip_quotes("\"\"a\"\""), "\"a\"");
    assert_eq!(strip_quotes("\"abc"), "abc");
    assert_eq!(strip_quotes("abc\""), "abc");
    assert_eq!(strip_quotes("abc"), "abc");
    assert_eq!(strip_quotes("\""), "");
    assert_eq!(strip_quotes("\"\""), "");
    assert_eq!(strip_quotes(""), "");
    assert_eq!(strip_quotes("\"é\""), "é");
}

#[test]
fn parse_json_builds_values() {
    assert_eq!(parse_json("null"), Some(Json::Null));
    assert_eq!(parse_json("true"), Some(Json::Bool(true)));
    assert_eq!(parse_json("12"), Some(Json::Number("12".to_string())));
    assert_eq!(parse_json("\"a\""), Some(text("a")));
    assert_eq!(
        parse_json("[1,\"b\"]"),
        Some(Json::Array(vec![Json::Number("1".to_string()), text("b")]))
    );
    assert_eq!(parse_json("{\"k\":[]}"), Some(object(vec![("k", Json::Array(vec![]))])));
    assert_eq!(parse_json("{"), None);
    assert_eq!(parse_json(""), None);
}

#[test]
fn decode_parsed_follows_the_parser_outcome() {
    assert_eq!(decode_parsed(None, "\"x\""), Decoded::Scalar("x".to_string()));
    assert_eq!(decode_parsed(Some(text("x")), "\"x\""), Decoded::Scalar("x".to_string()));
    let j = object(vec![("embryo_list", Json::Array(vec![]))]);
    assert_eq!(decode_parsed(Some(j), "ignored"), Decoded::Records(vec![]));
}

#[test]
fn property_needs_both_strings() {
    assert_eq!(property_from_json(&property_json("a", "b")), Some(property("a", "b")));
    assert_eq!(property_from_json(&object(vec![("name", text("a"))])), None);
    assert_eq!(property_from_json(&object(vec![("value", text("a"))])), None);
    assert_eq!(
        property_from_json(&object(vec![("name", Json::Null), ("value", text("a"))])),
        None
    );
    assert_eq!(property_from_json(&Json::Null), None);
}

#[test]
fn last_member_of_a_name_is_read() {
    let j = object(vec![("name", text("a")), ("value", text("b")), ("name", text("c"))]);
    assert_eq!(property_from_json(&j), Some(property("c", "b")));
}

#[test]
fn record_keeps_order_and_duplicates() {
    let j = object(vec![(
        "properties",
        Json::Array(vec![
            property_json("url", "1"),
            property_json("x", "2"),
            property_json("url", "3"),
        ]),
    )]);
    assert_eq!(
        record_from_json(&j),
        Some(Record {
            properties: vec![property("url", "1"), property("x", "2"), property("url", "3")]
        })
    );
    assert_eq!(record_from_json(&object(vec![("properties", Json::Null)])), None);
    let bad = object(vec![("properties", Json::Array(vec![property_json("a", "b"), Json::Null]))]);
    assert_eq!(record_from_json(&bad), None);
}

#[test]
fn records_need_every_element_to_match() {
    let good = object(vec![("properties", Json::Array(vec![]))]);
    let j = object(vec![("embryo_list", Json::Array(vec![good, Json::Bool(false)]))]);
    assert_eq!(records_from_json(&j), None);
    let good = object(vec![("properties", Json::Array(vec![]))]);
    let j = object(vec![("extra", Json::Null), ("embryo_list", Json::Array(vec![good]))]);
    assert_eq!(records_from_json(&j), Some(vec![Record { properties: vec![] }]));
}
