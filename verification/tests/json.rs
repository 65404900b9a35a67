use codex_usage_proxy::json::{parse_json, Json};

#[test]
fn values_of_every_kind_are_parsed() {
    let value = parse_json(r#"{"n":null,"b":true,"s":"é\n","a":[1,"x"],"o":{"k":-3}}"#).unwrap();
    assert!(matches!(value.get("n"), Some(Json::Null)));
    assert!(matches!(value.get("b"), Some(Json::Bool(true))));
    assert_eq!(value.str_at("s"), Some("é\n"));
    let items = value.array_at("a").unwrap();
    assert_eq!(items.len(), 2);
    assert_eq!(items[0].as_u64(), Some(1));
    assert_eq!(items[1].as_str(), Some("x"));
    assert_eq!(value.get("o").unwrap().get("k").unwrap().as_i64(), Some(-3));
}

#[test]
fn text_that_is_not_json_has_no_value() {
    for text in ["", "{", "{\"a\":}", "nul", "[1,]", "{} x", "'a'"] {
        assert!(parse_json(text).is_none(), "{}", text);
    }
    assert!(parse_json(" {} ").is_some());
}

#[test]
fn numbers_count_as_the_integers_they_are() {
    let value = parse_json("[0,18446744073709551615,-1,1.0,1e3,9223372036854775808]").unwrap();
    let items = value.as_array().unwrap();
    assert_eq!((items[0].as_u64(), items[0].as_i64()), (Some(0), Some(0)));
    assert_eq!((items[1].as_u64(), items[1].as_i64()), (Some(u64::MAX), None));
    assert_eq!((items[2].as_u64(), items[2].as_i64()), (None, Some(-1)));
    assert_eq!((items[3].as_u64(), items[3].as_i64()), (None, None));
    assert_eq!((items[4].as_u64(), items[4].as_i64()), (None, None));
    assert_eq!((items[5].as_u64(), items[5].as_i64()), (Some(1 << 63), None));
}

#[test]
fn the_later_of_two_members_counts() {
    let value = parse_json(r#"{"a":1,"b":2,"a":3}"#).unwrap();
    assert_eq!(value.u64_at("a"), Some(3));
    let built = Json::Object(vec![
        ("a".to_string(), Json::Text("first".to_string())),
        ("a".to_string(), Json::Text("second".to_string())),
    ]);
    assert_eq!(built.str_at("a"), Some("second"));
}

#[test]
fn reading_a_value_as_something_else_gives_nothing() {
    let value = parse_json(r#"{"s":"x","n":4,"a":[],"o":{"k":"v"}}"#).unwrap();
    assert_eq!(value.str_at("n"), None);
    assert_eq!(value.str_at("missing"), None);
    assert_eq!(value.u64_at("s"), None);
    assert_eq!(value.u64_at("missing"), None);
    assert!(value.array_at("o").is_none());
    assert!(value.array_at("missing").is_none());
    assert_eq!(value.str_at2("o", "k"), Some("v"));
    assert_eq!(value.str_at2("s", "k"), None);
    assert_eq!(value.str_at2("missing", "k"), None);
    assert!(value.get("s").unwrap().get("s").is_none());
    assert!(value.as_str().is_none());
    assert!(value.as_array().is_none());
    assert!(value.get("a").unwrap().as_i64().is_none());
}

#[test]
fn deep_values_are_parsed_as_far_as_the_parser_goes() {
    let deep = format!("{}1{}", "[".repeat(100), "]".repeat(100));
    assert!(parse_json(&deep).is_some());
    let deeper = format!("{}1{}", "[".repeat(1000), "]".repeat(1000));
    assert!(parse_json(&deeper).is_none());
}
