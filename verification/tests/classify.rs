use process_supervisor::classify::{classify_line, classify_parsed};
use process_supervisor::event::{LineKind, Payload};
use serde_json::{Number, Value};

fn object_x_1() -> Value {
    let mut map = serde_json::Map::new();
    map.insert("x".to_string(), Value::Number(Number::from(1)));
    Value::Object(map)
}

#[test]
fn a_json_object_is_structured_data() {
    let payload = classify_line("{\"x\":1}".to_string());
    assert_eq!(payload.kind(), LineKind::StructuredData);
    assert_eq!(payload, Payload::Structured(object_x_1()));
}

#[test]
fn the_parsed_value_is_not_the_line() {
    let line = "{ \"x\" :   1 }".to_string();
    assert_eq!(classify_line(line), Payload::Structured(object_x_1()));
}

#[test]
fn nested_values_are_parsed() {
    let payload = classify_line("{\"type\":\"result\",\"items\":[1,true,null,\"a\"]}".to_string());
    let mut map = serde_json::Map::new();
    map.insert("type".to_string(), Value::String("result".to_string()));
    map.insert(
        "items".to_string(),
        Value::Array(vec![
            Value::Number(Number::from(1)),
            Value::Bool(true),
            Value::Null,
            Value::String("a".to_string()),
        ]),
    );
    assert_eq!(payload, Payload::Structured(Value::Object(map)));
}

#[test]
fn scalars_are_structured_data_too() {
    assert_eq!(classify_line("42".to_string()), Payload::Structured(Value::Number(Number::from(42))));
    assert_eq!(classify_line("true".to_string()), Payload::Structured(Value::Bool(true)));
    assert_eq!(classify_line("null".to_string()), Payload::Structured(Value::Null));
    assert_eq!(
        classify_line("\"text\"".to_string()),
        Payload::Structured(Value::String("text".to_string()))
    );
}

#[test]
fn plain_text_is_raw_and_verbatim() {
    let payload = classify_line("Working on it...".to_string());
    assert_eq!(payload.kind(), LineKind::RawText);
    assert_eq!(payload, Payload::Raw("Working on it...".to_string()));
}

#[test]
fn an_empty_line_is_raw() {
    assert_eq!(classify_line(String::new()), Payload::Raw(String::new()));
}

#[test]
fn broken_json_is_raw_and_verbatim() {
    for line in ["{\"x\":1", "{x:1}", "{\"x\":1} trailing", "[1,2,", "{'x':1}", "nul", "  "] {
        assert_eq!(classify_line(line.to_string()), Payload::Raw(line.to_string()));
    }
}

#[test]
fn space_around_json_does_not_hurt() {
    assert_eq!(classify_line("  {\"x\":1}  ".to_string()), Payload::Structured(object_x_1()));
}

#[test]
fn the_parser_outcome_decides_the_payload() {
    assert_eq!(
        classify_parsed("ignored".to_string(), Some(Value::Bool(false))),
        Payload::Structured(Value::Bool(false))
    );
    assert_eq!(classify_parsed("kept".to_string(), None), Payload::Raw("kept".to_string()));
}

#[test]
fn a_line_that_parses_is_not_kept_as_text() {
    let payload = classify_parsed("{\"x\":1}".to_string(), Some(object_x_1()));
    assert_ne!(payload, Payload::Raw("{\"x\":1}".to_string()));
}
