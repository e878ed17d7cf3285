use axum_service_errors::json::{
    json_array, json_envelope, json_member, json_object, json_or_fallback,
};
use axum_service_errors::{
    FloatValue, JsonResponseBuilder, ParameterMap, ParameterValue, ResponseBuilder, ServiceError,
};

fn float(value: f64) -> FloatValue {
    let json = serde_json::to_string(&value).unwrap();
    FloatValue::new(value.to_bits(), value.to_string(), json)
}

fn text(value: &str) -> ParameterValue {
    ParameterValue::String(value.to_string())
}

fn some(value: &str) -> Option<String> {
    Some(value.to_string())
}

#[test]
fn members_from_their_parts() {
    assert_eq!(json_member(some("\"k\""), some("1")), some("\"k\":1"));
    assert_eq!(json_member(None, some("1")), None);
    assert_eq!(json_member(some("\"k\""), None), None);
    assert_eq!(json_member(None, None), None);
}

#[test]
fn arrays_from_their_parts() {
    assert_eq!(json_array(&Vec::new()), some("[]"));
    assert_eq!(json_array(&vec![some("1")]), some("[1]"));
    assert_eq!(json_array(&vec![some("1"), some("\"a\""), some("null")]), some("[1,\"a\",null]"));
    assert_eq!(json_array(&vec![some("1"), None, some("3")]), None);
    assert_eq!(json_array(&vec![None]), None);
}

#[test]
fn objects_from_their_parts() {
    assert_eq!(json_object(&Vec::new()), some("{}"));
    assert_eq!(json_object(&vec![some("\"a\":1"), some("\"b\":2")]), some("{\"a\":1,\"b\":2}"));
    assert_eq!(json_object(&vec![some("\"a\":1"), None]), None);
}

#[test]
fn envelope_from_its_parts() {
    assert_eq!(
        json_envelope(5, some("\"N\""), some("\"m\""), None),
        some("{\"code\":5,\"name\":\"N\",\"message\":\"m\"}")
    );
    assert_eq!(
        json_envelope(5, some("\"N\""), some("\"m\""), Some(some("{}"))),
        some("{\"code\":5,\"name\":\"N\",\"message\":\"m\",\"parameters\":{}}")
    );
    assert_eq!(json_envelope(5, None, some("\"m\""), None), None);
    assert_eq!(json_envelope(5, some("\"N\""), None, None), None);
    assert_eq!(json_envelope(5, some("\"N\""), some("\"m\""), Some(None)), None);
    assert_eq!(json_envelope(5, None, None, Some(None)), None);
}

#[test]
fn fallback_where_there_is_no_text() {
    assert_eq!(json_or_fallback(1001, some("{}")), "{}");
    assert_eq!(json_or_fallback(1001, None), "{\"error\":\"Failed to serialize error 1001\"}");
    assert_eq!(json_or_fallback(0, None), "{\"error\":\"Failed to serialize error 0\"}");
}

#[test]
fn strings_are_quoted_and_escaped() {
    assert_eq!(text("plain").to_json(), some("\"plain\""));
    assert_eq!(text("").to_json(), some("\"\""));
    assert_eq!(text("say \"hi\"").to_json(), some("\"say \\\"hi\\\"\""));
    assert_eq!(text("back\\slash").to_json(), some("\"back\\\\slash\""));
    assert_eq!(text("line\nbreak\ttab").to_json(), some("\"line\\nbreak\\ttab\""));
    assert_eq!(text("\u{1}").to_json(), some("\"\\u0001\""));
    assert_eq!(text("ünï✓").to_json(), some("\"ünï✓\""));
}

#[test]
fn scalars_as_json() {
    assert_eq!(ParameterValue::Integer(0).to_json(), some("0"));
    assert_eq!(ParameterValue::Integer(-12).to_json(), some("-12"));
    assert_eq!(ParameterValue::Integer(i64::MAX).to_json(), some("9223372036854775807"));
    assert_eq!(ParameterValue::Boolean(true).to_json(), some("true"));
    assert_eq!(ParameterValue::Boolean(false).to_json(), some("false"));
    assert_eq!(ParameterValue::Null.to_json(), some("null"));
    assert_eq!(ParameterValue::Float(float(1.0)).to_json(), some("1.0"));
    assert_eq!(ParameterValue::Float(float(-2.5)).to_json(), some("-2.5"));
    assert_eq!(ParameterValue::Float(float(f64::NAN)).to_json(), some("null"));
}

#[test]
fn nested_values_as_json() {
    let mut inner = ParameterMap::new();
    inner.insert("list".to_string(), ParameterValue::Array(vec![ParameterValue::Integer(1), text("a\"b")]));
    inner.insert("none".to_string(), ParameterValue::Null);
    inner.insert("key \"q\"".to_string(), ParameterValue::Boolean(true));
    assert_eq!(
        inner.to_json(),
        some("{\"list\":[1,\"a\\\"b\"],\"none\":null,\"key \\\"q\\\"\":true}")
    );
    let value = ParameterValue::Array(vec![ParameterValue::Object(inner), ParameterValue::Array(Vec::new())]);
    let rendered = value.to_json().unwrap();
    assert_eq!(rendered, "[{\"list\":[1,\"a\\\"b\"],\"none\":null,\"key \\\"q\\\"\":true},[]]");
    let parsed: serde_json::Value = serde_json::from_str(&rendered).unwrap();
    assert_eq!(parsed[0]["list"][1], serde_json::Value::String("a\"b".to_string()));
    assert_eq!(parsed[0]["key \"q\""], serde_json::Value::Bool(true));
    assert_eq!(parsed[1], serde_json::Value::Array(Vec::new()));
}

#[test]
fn error_as_json_is_exact() {
    let error = ServiceError::new(1001, "VALIDATION_ERROR", 400, "Invalid input")
        .parameter("field", "email")
        .bind("unused");
    assert_eq!(
        error.details.to_json(),
        some("{\"code\":1001,\"name\":\"VALIDATION_ERROR\",\"message\":\"Invalid input\",\"parameters\":{\"field\":\"email\"}}")
    );
}

#[test]
fn error_as_json_has_only_the_wire_fields() {
    let error = ServiceError::new(1001, "VALIDATION_ERROR", 400, "Invalid input")
        .parameter("field", "email")
        .bind("unused");
    let parsed: serde_json::Value = serde_json::from_str(&error.details.to_json().unwrap()).unwrap();
    let object = parsed.as_object().unwrap();
    let mut keys: Vec<&str> = object.keys().map(|k| k.as_str()).collect();
    keys.sort();
    assert_eq!(keys, vec!["code", "message", "name", "parameters"]);
    assert_eq!(object["code"], serde_json::Value::from(1001));
    assert_eq!(object["name"], serde_json::Value::from("VALIDATION_ERROR"));
    assert_eq!(object["message"], serde_json::Value::from("Invalid input"));
    assert_eq!(object["parameters"]["field"], serde_json::Value::from("email"));
    let rendered = error.details.to_json().unwrap();
    assert!(!rendered.contains("400"));
    assert!(!rendered.contains("unused"));
}

#[test]
fn error_as_json_without_parameters() {
    let error = ServiceError::new(3, "N", 400, "a \"quoted\" {0}").bind("word");
    assert_eq!(
        error.details.to_json(),
        some("{\"code\":3,\"name\":\"N\",\"message\":\"a \\\"quoted\\\" word\"}")
    );
    let none: Vec<(String, i64)> = Vec::new();
    let error = ServiceError::new(3, "N", 400, "m").parameters(none);
    assert_eq!(
        error.details.to_json(),
        some("{\"code\":3,\"name\":\"N\",\"message\":\"m\",\"parameters\":{}}")
    );
}

#[test]
fn json_text_is_always_there() {
    let awkward = "quote \" backslash \\ control \u{0} \u{1f} tab \t high \u{10ffff} é";
    assert!(text(awkward).to_json().is_some());
    let parsed: serde_json::Value = serde_json::from_str(&text(awkward).to_json().unwrap()).unwrap();
    assert_eq!(parsed, serde_json::Value::String(awkward.to_string()));
    let error = ServiceError::new(2, awkward, 400, awkward).parameter(awkward, awkward);
    let (body, _) = JsonResponseBuilder::new().build(&error.details);
    assert_eq!(Some(body.clone()), error.details.to_json());
    assert!(!body.contains("Failed to serialize"));
    let parsed: serde_json::Value = serde_json::from_str(&body).unwrap();
    assert_eq!(parsed["name"], serde_json::Value::String(awkward.to_string()));
    assert_eq!(parsed["parameters"][awkward], serde_json::Value::String(awkward.to_string()));
}

#[test]
fn json_builder_is_exact() {
    let error = ServiceError::new(1001, "VALIDATION_ERROR", 400, "Invalid {0} for {1}")
        .bind("value")
        .bind("field")
        .parameter("count", 3i64)
        .parameter("tags", vec!["a", "b"]);
    let (body, content_type) = JsonResponseBuilder::new().build(&error.details);
    assert_eq!(content_type, "application/json");
    assert_eq!(
        body,
        "{\"code\":1001,\"name\":\"VALIDATION_ERROR\",\"message\":\"Invalid value for field\",\"parameters\":{\"count\":3,\"tags\":[\"a\",\"b\"]}}"
    );
}
