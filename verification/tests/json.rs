use aiecho::json::{JsonNumber, JsonValue};
use aiecho::protocol::{frame_message, split_message, DISCOVER_REQ, DISCOVER_RES, SERVICE_ANNOUNCE, SERVICE_GOODBYE};

fn obj(members: Vec<(&str, JsonValue)>) -> JsonValue {
    JsonValue::Object(members.into_iter().map(|(k, v)| (k.to_string(), v)).collect())
}

#[test]
fn get_takes_first_occurrence() {
    let v = obj(vec![("k", JsonValue::Str("first".to_string())), ("k", JsonValue::Str("second".to_string()))]);
    assert_eq!(v.str_field_or("k", "none"), "first");
    assert_eq!(v.str_field_or("missing", "none"), "none");
    assert!(v.get("K").is_none());
}

#[test]
fn get_on_non_objects_is_none() {
    assert!(JsonValue::Null.get("a").is_none());
    assert!(JsonValue::Array(vec![obj(vec![("a", JsonValue::Null)])]).get("a").is_none());
    assert!(JsonValue::Str("a".to_string()).get("a").is_none());
}

#[test]
fn scalar_accessors() {
    assert_eq!(JsonValue::uint(7).as_u64(), Some(7));
    assert_eq!(JsonValue::Number(JsonNumber::NegInt(-7)).as_u64(), None);
    assert_eq!(JsonValue::Number(JsonNumber::Float("7.5".to_string())).as_u64(), None);
    assert_eq!(JsonValue::string("x").as_str().map(|s| s.as_str()), Some("x"));
    assert!(JsonValue::Bool(true).as_str().is_none());
}

#[test]
fn field_defaults() {
    let v = obj(vec![("n", JsonValue::uint(u64::MAX)), ("s", JsonValue::Bool(false))]);
    assert_eq!(v.u64_field_or("n", 1), u64::MAX);
    assert_eq!(v.u64_field_or("s", 1), 1);
    assert_eq!(v.str_field_or("s", "d"), "d");
    assert!(v.str_list_field("n").is_empty());
}

#[test]
fn string_list_keeps_strings_in_order() {
    let v = obj(vec![(
        "tags",
        JsonValue::Array(vec![
            JsonValue::string("z"),
            JsonValue::uint(1),
            JsonValue::string("a"),
            JsonValue::Array(vec![JsonValue::string("nested")]),
        ]),
    )]);
    assert_eq!(v.str_list_field("tags"), vec!["z".to_string(), "a".to_string()]);
}

#[test]
fn string_array_builds_strings() {
    let items = vec!["a".to_string(), "b".to_string()];
    match JsonValue::str_array(&items) {
        JsonValue::Array(v) => {
            assert_eq!(v.len(), 2);
            assert_eq!(v[1].as_str().map(|s| s.as_str()), Some("b"));
        }
        _ => panic!("expected an array"),
    }
}

#[test]
fn copy_is_deep() {
    let v = obj(vec![(
        "a",
        JsonValue::Array(vec![JsonValue::Null, JsonValue::Number(JsonNumber::Float("1e3".to_string())), obj(vec![("b", JsonValue::Bool(true))])]),
    )]);
    let c = v.copy();
    match c.get("a") {
        Some(JsonValue::Array(items)) => {
            assert_eq!(items.len(), 3);
            assert!(matches!(&items[1], JsonValue::Number(JsonNumber::Float(s)) if s == "1e3"));
            assert!(matches!(items[2].get("b"), Some(JsonValue::Bool(true))));
        }
        _ => panic!("expected an array"),
    }
}

#[test]
fn every_command_round_trips() {
    for cmd in [DISCOVER_REQ, DISCOVER_RES, SERVICE_ANNOUNCE, SERVICE_GOODBYE] {
        let bytes = frame_message(cmd, "{\"k\":\"v\"}\n");
        match split_message(&bytes) {
            Ok((c, p)) => {
                assert_eq!(c, cmd);
                assert_eq!(p, "{\"k\":\"v\"}");
            }
            Err(_) => panic!("expected a message"),
        }
    }
}
