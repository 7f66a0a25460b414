use serde_json::Value;
use web_scaffolding::json::{Json, Number, Object};
use web_scaffolding::json_merge::{merge, merge_values};

fn number(n: &serde_json::Number) -> Number {
    if let Some(n) = n.as_u64() {
        Number::Unsigned(n)
    } else if let Some(n) = n.as_i64() {
        Number::Negative(n)
    } else {
        Number::Float { bits: n.as_f64().unwrap().to_bits() }
    }
}

fn document(value: &Value) -> Json {
    match value {
        Value::Null => Json::Null,
        Value::Bool(b) => Json::Bool(*b),
        Value::Number(n) => Json::Number(number(n)),
        Value::String(s) => Json::String(s.clone()),
        Value::Array(elements) => Json::Array(elements.iter().map(document).collect()),
        Value::Object(members) => {
            let mut object = Object::new();
            for (key, value) in members {
                object.insert(key.clone(), document(value));
            }
            Json::Object(object)
        }
    }
}

fn value(json: Json) -> Value {
    match json {
        Json::Null => Value::Null,
        Json::Bool(b) => Value::Bool(b),
        Json::Number(Number::Unsigned(n)) => Value::from(n),
        Json::Number(Number::Negative(n)) => Value::from(n),
        Json::Number(Number::Float { bits }) => Value::from(f64::from_bits(bits)),
        Json::String(s) => Value::String(s),
        Json::Array(elements) => Value::Array(elements.into_iter().map(value).collect()),
        Json::Object(object) => Value::Object(
            object.into_entries().into_iter().map(|(key, json)| (key, value(json))).collect(),
        ),
    }
}

fn parse(text: &str) -> Value {
    serde_json::from_str(text).unwrap()
}

fn merge_texts(texts: &[&str]) -> Value {
    let layers = texts.iter().map(|text| ("value", Some(Ok(document(&parse(text)))))).collect();
    value(merge(Ok(Json::Null), layers).unwrap())
}

#[test]
fn test_merge_objects() {
    let result = merge_texts(&[r#"{"a": 1}"#, r#"{"b": 2}"#]);
    assert_eq!(result, parse(r#"{"a": 1, "b": 2}"#));
}

#[test]
fn test_nested_merge() {
    let result = merge_texts(&[r#"{"obj": {"x": 1}}"#, r#"{"obj": {"y": 2}}"#]);
    assert_eq!(result, parse(r#"{"obj": {"x": 1, "y": 2}}"#));
}

#[test]
fn test_array_extend() {
    let result = merge_texts(&[r#"{"arr": [1]}"#, r#"{"arr": [2, 3]}"#]);
    assert_eq!(result, parse(r#"{"arr": [1, 2, 3]}"#));
}

#[test]
fn test_array_push_object() {
    let result = merge_texts(&[r#"{"arr": [1]}"#, r#"{"arr": {"key": "value"}}"#]);
    assert_eq!(result, parse(r#"{"arr": [1, {"key": "value"}]}"#));
}

#[test]
fn test_overwrite() {
    let result = merge_texts(&[r#"{"a": 1}"#, r#"{"a": 2}"#]);
    assert_eq!(result, parse(r#"{"a": 2}"#));
}

#[test]
fn test_skip_none() {
    let a = document(&parse(r#"{"a": 1}"#));
    let result = value(merge(Ok(Json::Null), vec![("a", Some(Ok(a))), ("b", None)]).unwrap());
    assert_eq!(result, parse(r#"{"a": 1}"#));
}

#[test]
fn null_changes_nothing() {
    let result = merge_texts(&[r#"{"a": {"b": -1.5}}"#, r#"{"a": null, "c": null}"#, "null"]);
    assert_eq!(result, parse(r#"{"a": {"b": -1.5}, "c": null}"#));
}

#[test]
fn scalar_replaces_array_and_object() {
    let result = merge_texts(&[r#"{"a": [1], "b": {"x": 1}}"#, r#"{"a": true, "b": -2}"#]);
    assert_eq!(result, parse(r#"{"a": true, "b": -2}"#));
}

#[test]
fn array_replaces_object() {
    assert_eq!(merge_texts(&[r#"{"x": 1}"#, "[1]"]), parse("[1]"));
}

#[test]
fn last_document_has_highest_priority() {
    let result = merge_texts(&[
        r#"{"x": {"p": "a", "q": "a", "r": "a"}}"#,
        r#"{"x": {"q": "b", "r": "b"}}"#,
        r#"{"x": {"r": "c"}}"#,
    ]);
    assert_eq!(result, parse(r#"{"x": {"p": "a", "q": "b", "r": "c"}}"#));
}

#[test]
fn merging_in_place_keeps_other_members() {
    let mut destination = document(&parse(r#"{"k": 1, "l": {"m": [1]}}"#));
    merge_values(&mut destination, &document(&parse(r#"{"l": {"m": [2]}, "n": "new"}"#)));
    assert_eq!(value(destination), parse(r#"{"k": 1, "l": {"m": [1, 2]}, "n": "new"}"#));
}

#[test]
fn nothing_merged_leaves_the_target() {
    let target = document(&parse(r#"{"a": [false]}"#));
    assert_eq!(value(merge(Ok(target), vec![]).unwrap()), parse(r#"{"a": [false]}"#));
}

#[test]
fn first_unrepresentable_value_is_reported() {
    let error = merge(
        Ok(Json::Null),
        vec![
            ("fine", Some(Ok(Json::Bool(true)))),
            ("broken", Some(Err("key must be a string".to_string()))),
            ("later", Some(Err("not reached".to_string()))),
        ],
    )
    .unwrap_err();
    assert_eq!(error.name, "broken");
    assert_eq!(error.cause, "key must be a string");
    assert_eq!(error.message(), "Cannot represent `broken` as a dynamic value");
}

#[test]
fn unrepresentable_target_is_reported_first() {
    let layers = vec![("broken", Some(Err("second".to_string())))];
    let error = merge(Err("first".to_string()), layers).unwrap_err();
    assert_eq!(error.message(), "Cannot represent `target` as a dynamic value");
    assert_eq!(error.cause, "first");
}

#[test]
fn object_members_can_be_read_back() {
    let mut object = Object::new();
    object.insert("a".to_string(), Json::Bool(true));
    object.insert("b".to_string(), Json::Null);
    object.insert("a".to_string(), Json::Number(Number::Unsigned(7)));
    assert_eq!(object.entries().len(), 2);
    assert!(matches!(object.get("a"), Some(Json::Number(Number::Unsigned(7)))));
    assert!(matches!(object.get("b"), Some(Json::Null)));
    assert!(object.get("c").is_none());
    assert_eq!(object.clone().entries().len(), 2);
}
