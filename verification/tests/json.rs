use dnac_client::json::Json;
use dnac_client::json::Member;

fn tree(v: &serde_json::Value) -> Json {
    match v {
        serde_json::Value::Null => Json::Null,
        serde_json::Value::Bool(b) => Json::Bool(*b),
        serde_json::Value::Number(n) => match n.as_u64() {
            Some(u) => Json::Unsigned(u),
            None => Json::Number(n.to_string()),
        },
        serde_json::Value::String(s) => Json::Text(s.clone()),
        serde_json::Value::Array(a) => Json::Array(a.iter().map(tree).collect()),
        serde_json::Value::Object(o) => Json::Object(
            o.iter().map(|(k, v)| Member { name: k.clone(), value: tree(v) }).collect(),
        ),
    }
}

fn json(text: &str) -> Json {
    tree(&serde_json::from_str(text).unwrap())
}

#[test]
fn get_finds_a_member_by_name() {
    let j = json(r#"{"a": 1, "b": "two", "c": null}"#);
    assert_eq!(j.get("a"), Some(&Json::Unsigned(1)));
    assert_eq!(j.get("b"), Some(&Json::Text("two".to_string())));
    assert_eq!(j.get("c"), Some(&Json::Null));
    assert_eq!(j.get("d"), None);
}

#[test]
fn get_takes_the_first_of_two_members_with_one_name() {
    let j = Json::object(vec![
        Member::new("k", Json::Unsigned(1)),
        Member::new("k", Json::Unsigned(2)),
    ]);
    assert_eq!(j.get("k"), Some(&Json::Unsigned(1)));
}

#[test]
fn get_on_what_is_no_object() {
    assert_eq!(json("[1, 2]").get("a"), None);
    assert_eq!(json("\"a\"").get("a"), None);
    assert_eq!(Json::Null.get("a"), None);
}

#[test]
fn accessors_tell_the_kinds_apart() {
    assert_eq!(json("\"x\"").as_text(), Some(&"x".to_string()));
    assert_eq!(json("1").as_text(), None);
    assert_eq!(json("18446744073709551615").as_unsigned(), Some(u64::MAX));
    assert_eq!(json("-1").as_unsigned(), None);
    assert_eq!(json("1.5").as_unsigned(), None);
    assert_eq!(json("true").as_bool(), Some(true));
    assert_eq!(json("0").as_bool(), None);
    assert_eq!(json("[]").as_array(), Some(&Vec::new()));
    assert_eq!(json("{}").as_array(), None);
    assert!(json("null").is_null());
    assert!(!json("0").is_null());
}

#[test]
fn required_text_wants_a_string() {
    let j = json(r#"{"a": "x", "b": 1, "c": null}"#);
    assert_eq!(j.required_text("a"), Some("x".to_string()));
    assert_eq!(j.required_text("b"), None);
    assert_eq!(j.required_text("c"), None);
    assert_eq!(j.required_text("d"), None);
}

#[test]
fn optional_text_takes_missing_and_null_for_absent() {
    let j = json(r#"{"a": "x", "b": 1, "c": null}"#);
    assert_eq!(j.optional_text("a"), Some(Some("x".to_string())));
    assert_eq!(j.optional_text("b"), None);
    assert_eq!(j.optional_text("c"), Some(None));
    assert_eq!(j.optional_text("d"), Some(None));
}

#[test]
fn unsigned_members() {
    let j = json(r#"{"a": 7, "b": "7", "c": null, "e": -7}"#);
    assert_eq!(j.required_unsigned("a"), Some(7));
    assert_eq!(j.required_unsigned("b"), None);
    assert_eq!(j.required_unsigned("c"), None);
    assert_eq!(j.optional_unsigned("a"), Some(Some(7)));
    assert_eq!(j.optional_unsigned("b"), None);
    assert_eq!(j.optional_unsigned("c"), Some(None));
    assert_eq!(j.optional_unsigned("d"), Some(None));
    assert_eq!(j.optional_unsigned("e"), None);
}

#[test]
fn bool_members() {
    let j = json(r#"{"a": false, "b": 0}"#);
    assert_eq!(j.required_bool("a"), Some(false));
    assert_eq!(j.required_bool("b"), None);
    assert_eq!(j.required_bool("c"), None);
}

#[test]
fn optional_value_copies_whatever_is_there() {
    let j = json(r#"{"a": [1, {"b": "c"}], "n": null}"#);
    assert_eq!(j.optional_value("a"), Some(json(r#"[1, {"b": "c"}]"#)));
    assert_eq!(j.optional_value("n"), None);
    assert_eq!(j.optional_value("z"), None);
}

#[test]
fn required_texts_wants_an_array_of_strings() {
    let j = json(r#"{"a": ["x", "y"], "b": ["x", 1], "c": [], "d": "x"}"#);
    assert_eq!(j.required_texts("a"), Some(vec!["x".to_string(), "y".to_string()]));
    assert_eq!(j.required_texts("b"), None);
    assert_eq!(j.required_texts("c"), Some(Vec::new()));
    assert_eq!(j.required_texts("d"), None);
    assert_eq!(j.required_texts("e"), None);
}

#[test]
fn duplicate_copies_the_whole_tree() {
    let j = json(r#"{"a": [1, "two", null, true, -3, 1.5, {"b": []}], "c": {"d": {"e": "f"}}}"#);
    assert_eq!(j.duplicate(), j);
    assert_eq!(j.clone(), j);
}

#[test]
fn builders_make_what_they_say() {
    assert_eq!(Json::text("x"), Json::Text("x".to_string()));
    assert_eq!(Json::texts(&vec!["a".to_string(), "b".to_string()]), json(r#"["a", "b"]"#));
    assert_eq!(Json::array(vec![Json::Null]), json("[null]"));
    assert_eq!(Json::object(vec![Member::new("k", Json::Bool(true))]), json(r#"{"k": true}"#));
}
