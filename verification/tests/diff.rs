use supabase_migrate::handlers::migrate::config_diff::{json_diff, render, value_eq};
use supabase_migrate::json::{find, parse_document, JsonDocument, JsonMember, JsonValue};
use supabase_migrate::models::migrate::ProjectDiffEntry;

fn entry(key: &str, source_value: &str, dest_value: &str) -> ProjectDiffEntry {
    ProjectDiffEntry {
        key: key.to_string(),
        source_value: source_value.to_string(),
        dest_value: dest_value.to_string(),
    }
}

fn doc(text: &str) -> JsonDocument {
    parse_document(text).expect("a JSON text")
}

#[test]
fn diff_of_two_configs_is_sorted_by_key() {
    let source = doc(r#"{"site_url":"a","jwt_exp":3600}"#);
    let dest = doc(r#"{"site_url":"b","disable_signup":true}"#);
    let diffs = json_diff("Auth".to_string(), &source, &dest).expect("two objects");
    assert_eq!(diffs.name, "Auth");
    assert_eq!(
        diffs.diffs,
        vec![
            entry("disable_signup", "", "true"),
            entry("jwt_exp", "3600", ""),
            entry("site_url", "a", "b"),
        ]
    );
}

#[test]
fn diff_of_a_document_with_itself_is_empty() {
    let x = doc(r#"{"site_url":"a","jwt_exp":3600,"nested":{"b":[1,2],"a":null}}"#);
    let diffs = json_diff("L".to_string(), &x, &x).expect("two objects");
    assert_eq!(diffs.name, "L");
    assert!(diffs.diffs.is_empty());
}

#[test]
fn diff_of_two_empty_objects_is_empty() {
    let diffs = json_diff("Auth".to_string(), &doc("{}"), &doc("{}")).expect("two objects");
    assert!(diffs.diffs.is_empty());
}

#[test]
fn diff_needs_two_objects() {
    let object = doc(r#"{"a":1}"#);
    assert!(json_diff("Auth".to_string(), &doc("[1,2]"), &object).is_none());
    assert!(json_diff("Auth".to_string(), &object, &doc("3")).is_none());
    assert!(json_diff("Auth".to_string(), &JsonDocument::Other, &JsonDocument::Other).is_none());
}

#[test]
fn diff_covers_keys_of_one_side_and_changed_values() {
    let source = doc(r#"{"b":1,"a":"x","same":true,"d":null}"#);
    let dest = doc(r#"{"c":false,"a":"y","same":true,"d":0}"#);
    let diffs = json_diff("Auth".to_string(), &source, &dest).expect("two objects");
    assert_eq!(
        diffs.diffs,
        vec![
            entry("a", "x", "y"),
            entry("b", "1", ""),
            entry("c", "", "false"),
            entry("d", "null", "0"),
        ]
    );
    for pair in diffs.diffs.windows(2) {
        assert!(pair[0].key < pair[1].key);
    }
}

#[test]
fn diff_of_hand_written_members_in_any_order() {
    let source = JsonDocument::Object(vec![
        JsonMember { key: "site_url".to_string(), value: JsonValue::Text("a".to_string()) },
        JsonMember { key: "jwt_exp".to_string(), value: JsonValue::Number("3600".to_string()) },
    ]);
    let dest = JsonDocument::Object(vec![
        JsonMember { key: "site_url".to_string(), value: JsonValue::Text("b".to_string()) },
        JsonMember { key: "disable_signup".to_string(), value: JsonValue::Bool(true) },
    ]);
    let diffs = json_diff("Auth".to_string(), &source, &dest).expect("two objects");
    assert_eq!(
        diffs.diffs,
        vec![
            entry("disable_signup", "", "true"),
            entry("jwt_exp", "3600", ""),
            entry("site_url", "a", "b"),
        ]
    );
}

#[test]
fn diff_takes_the_last_of_members_with_one_key() {
    let source = JsonDocument::Object(vec![
        JsonMember { key: "k".to_string(), value: JsonValue::Text("first".to_string()) },
        JsonMember { key: "k".to_string(), value: JsonValue::Text("last".to_string()) },
    ]);
    let dest = JsonDocument::Object(vec![JsonMember {
        key: "k".to_string(),
        value: JsonValue::Text("last".to_string()),
    }]);
    let diffs = json_diff("Auth".to_string(), &source, &dest).expect("two objects");
    assert!(diffs.diffs.is_empty());
}

#[test]
fn diff_renders_nested_values_as_canonical_json() {
    let source = doc(r#"{"n":{"b":1,"a":[true,"x"]},"s":"plain","t":"1"}"#);
    let dest = doc(r#"{"n":{"a":[true,"x"],"b":2},"s":"plain","t":1}"#);
    let diffs = json_diff("Auth".to_string(), &source, &dest).expect("two objects");
    assert_eq!(
        diffs.diffs,
        vec![
            entry("n", r#"{"a":[true,"x"],"b":1}"#, r#"{"a":[true,"x"],"b":2}"#),
            entry("t", "1", "1"),
        ]
    );
}

#[test]
fn nested_objects_that_differ_in_key_order_only_are_equal() {
    let source = doc(r#"{"n":{"b":1,"a":2}}"#);
    let dest = doc(r#"{"n":{"a":2,"b":1}}"#);
    let diffs = json_diff("Auth".to_string(), &source, &dest).expect("two objects");
    assert!(diffs.diffs.is_empty());
}

#[test]
fn parse_document_reads_members_by_kind() {
    let parsed = doc(r#"{"z":null,"b":false,"n":-2.5,"s":"a\"b","o":{"k":[]}}"#);
    let JsonDocument::Object(members) = parsed else {
        panic!("an object");
    };
    assert_eq!(find(&members, "z"), Some(&JsonValue::Null));
    assert_eq!(find(&members, "b"), Some(&JsonValue::Bool(false)));
    assert_eq!(find(&members, "n"), Some(&JsonValue::Number("-2.5".to_string())));
    assert_eq!(find(&members, "s"), Some(&JsonValue::Text("a\"b".to_string())));
    assert_eq!(find(&members, "o"), Some(&JsonValue::Composite(r#"{"k":[]}"#.to_string())));
    assert_eq!(find(&members, "missing"), None);
    let keys: Vec<&str> = members.iter().map(|m| m.key.as_str()).collect();
    assert_eq!(keys, vec!["b", "n", "o", "s", "z"]);
}

#[test]
fn parse_document_rejects_what_is_no_json() {
    assert!(parse_document("HTTP error - {}").is_none());
    assert!(parse_document("").is_none());
    assert!(parse_document("{\"a\":").is_none());
    assert_eq!(parse_document("[]"), Some(JsonDocument::Other));
    assert_eq!(parse_document("\"text\""), Some(JsonDocument::Other));
}

#[test]
fn values_are_equal_by_kind_and_text() {
    assert!(value_eq(&JsonValue::Null, &JsonValue::Null));
    assert!(value_eq(&JsonValue::Bool(true), &JsonValue::Bool(true)));
    assert!(!value_eq(&JsonValue::Bool(true), &JsonValue::Bool(false)));
    assert!(!value_eq(&JsonValue::Text("1".to_string()), &JsonValue::Number("1".to_string())));
    assert!(value_eq(&JsonValue::Number("1".to_string()), &JsonValue::Number("1".to_string())));
    assert!(!value_eq(&JsonValue::Null, &JsonValue::Text("null".to_string())));
}

#[test]
fn values_render_as_their_text() {
    assert_eq!(render(None), "");
    assert_eq!(render(Some(&JsonValue::Null)), "null");
    assert_eq!(render(Some(&JsonValue::Bool(true))), "true");
    assert_eq!(render(Some(&JsonValue::Bool(false))), "false");
    assert_eq!(render(Some(&JsonValue::Number("3600".to_string()))), "3600");
    assert_eq!(render(Some(&JsonValue::Text("a b".to_string()))), "a b");
    assert_eq!(render(Some(&JsonValue::Composite("[1]".to_string()))), "[1]");
}
