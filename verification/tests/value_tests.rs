use axum_service_errors::equality::{numbers_equal, values_equal};
use axum_service_errors::{FloatValue, ParameterMap, ParameterValue};

fn float(value: f64) -> FloatValue {
    let json = if value.is_finite() { format!("{:?}", value) } else { "null".to_string() };
    FloatValue::new(value.to_bits(), value.to_string(), json)
}

fn text(value: &str) -> ParameterValue {
    ParameterValue::String(value.to_string())
}

fn map(pairs: Vec<(&str, ParameterValue)>) -> ParameterMap {
    let mut map = ParameterMap::new();
    for (key, value) in pairs {
        map.insert(key.to_string(), value);
    }
    map
}

#[test]
fn scalars_as_text() {
    assert_eq!(text("plain").to_string(), "plain");
    assert_eq!(text("").to_string(), "");
    assert_eq!(ParameterValue::Integer(0).to_string(), "0");
    assert_eq!(ParameterValue::Integer(-17).to_string(), "-17");
    assert_eq!(ParameterValue::Integer(i64::MIN).to_string(), "-9223372036854775808");
    assert_eq!(ParameterValue::Float(float(1.5)).to_string(), "1.5");
    assert_eq!(ParameterValue::Float(float(1.0)).to_string(), "1");
    assert_eq!(ParameterValue::Boolean(true).to_string(), "true");
    assert_eq!(ParameterValue::Boolean(false).to_string(), "false");
    assert_eq!(ParameterValue::Null.to_string(), "null");
}

#[test]
fn arrays_as_text() {
    assert_eq!(ParameterValue::Array(Vec::new()).to_string(), "[]");
    assert_eq!(ParameterValue::Array(vec![ParameterValue::Integer(1)]).to_string(), "[1]");
    let mixed = ParameterValue::Array(vec![
        ParameterValue::Integer(1),
        text("two"),
        ParameterValue::Null,
        ParameterValue::Boolean(true),
        ParameterValue::Float(float(2.5)),
    ]);
    assert_eq!(mixed.to_string(), "[1, two, null, true, 2.5]");
}

#[test]
fn objects_as_text_in_order_of_entry() {
    assert_eq!(ParameterValue::Object(ParameterMap::new()).to_string(), "{}");
    let one = ParameterValue::Object(map(vec![("k", text("v"))]));
    assert_eq!(one.to_string(), "{k: v}");
    let several = ParameterValue::Object(map(vec![
        ("zeta", ParameterValue::Integer(1)),
        ("alpha", ParameterValue::Integer(2)),
        ("mid", ParameterValue::Integer(3)),
    ]));
    assert_eq!(several.to_string(), "{zeta: 1, alpha: 2, mid: 3}");
}

#[test]
fn nested_values_as_text() {
    let inner = ParameterValue::Object(map(vec![
        ("list", ParameterValue::Array(vec![ParameterValue::Integer(1), ParameterValue::Integer(2)])),
        ("none", ParameterValue::Null),
    ]));
    let outer = ParameterValue::Array(vec![inner, ParameterValue::Array(Vec::new())]);
    assert_eq!(outer.to_string(), "[{list: [1, 2], none: null}, []]");
    let mut out = String::from("value=");
    outer.write_text(&mut out);
    assert_eq!(out, "value=[{list: [1, 2], none: null}, []]");
}

#[test]
fn deep_nesting_ends() {
    let mut value = ParameterValue::Integer(0);
    for _ in 0..200 {
        value = ParameterValue::Array(vec![value]);
    }
    let rendered = value.to_string();
    assert_eq!(rendered.len(), 401);
    assert!(rendered.starts_with("[[["));
    assert!(rendered.ends_with("0]]]") || rendered.ends_with("]]]"));
    assert!(value.clone() == value);
}

#[test]
fn map_keeps_each_key_once() {
    let mut map = ParameterMap::new();
    assert!(map.is_empty());
    assert_eq!(map.len(), 0);
    map.insert("a".to_string(), ParameterValue::Integer(1));
    map.insert("b".to_string(), ParameterValue::Integer(2));
    map.insert("a".to_string(), ParameterValue::Integer(3));
    assert!(!map.is_empty());
    assert_eq!(map.len(), 2);
    assert!(map.contains_key("a"));
    assert!(map.contains_key("b"));
    assert!(!map.contains_key("c"));
    assert!(!map.contains_key(""));
    assert!(map.get("a") == Some(&ParameterValue::Integer(3)));
    assert!(map.get("b") == Some(&ParameterValue::Integer(2)));
    assert!(map.get("c").is_none());
}

#[test]
fn map_replaces_in_place() {
    let mut map = ParameterMap::new();
    map.insert("first".to_string(), ParameterValue::Integer(1));
    map.insert("second".to_string(), ParameterValue::Integer(2));
    map.insert("first".to_string(), text("again"));
    let (key, value) = map.entry(0);
    assert_eq!(key, "first");
    assert!(*value == text("again"));
    let (key, value) = map.entry(1);
    assert_eq!(key, "second");
    assert!(*value == ParameterValue::Integer(2));
    let mut out = String::new();
    map.write_entries(&mut out);
    assert_eq!(out, "first: again, second: 2");
}

#[test]
fn map_extends_from_pairs() {
    let mut map = ParameterMap::new();
    map.insert("a".to_string(), ParameterValue::Integer(0));
    map.extend_from(vec![("b", 1i64), ("a", 2i64), ("b", 3i64)]);
    assert_eq!(map.len(), 2);
    assert!(map.get("a") == Some(&ParameterValue::Integer(2)));
    assert!(map.get("b") == Some(&ParameterValue::Integer(3)));
    assert_eq!(map.entry(0).0, "a");
    assert_eq!(map.entry(1).0, "b");
}

#[test]
fn copies_are_deep() {
    let source = ParameterValue::Object(map(vec![
        ("list", ParameterValue::Array(vec![text("x"), ParameterValue::Float(float(0.5))])),
        ("flag", ParameterValue::Boolean(false)),
    ]));
    let copy = source.clone();
    assert_eq!(copy.to_string(), "{list: [x, 0.5], flag: false}");
    assert_eq!(copy.to_string(), source.to_string());
    assert!(copy == source);
    let number = float(2.25);
    let same = number.clone();
    assert_eq!(same.bits, number.bits);
    assert_eq!(same.text, "2.25");
    assert_eq!(same.json, "2.25");
}

#[test]
fn values_of_different_kinds_differ() {
    assert!(text("1") != ParameterValue::Integer(1));
    assert!(ParameterValue::Integer(1) != ParameterValue::Float(float(1.0)));
    assert!(ParameterValue::Boolean(false) != ParameterValue::Null);
    assert!(ParameterValue::Array(Vec::new()) != ParameterValue::Object(ParameterMap::new()));
    assert!(ParameterValue::Null == ParameterValue::Null);
}

#[test]
fn scalars_compare_by_what_they_hold() {
    assert!(text("a") == text("a"));
    assert!(text("a") != text("b"));
    assert!(ParameterValue::Integer(5) == ParameterValue::Integer(5));
    assert!(ParameterValue::Integer(5) != ParameterValue::Integer(-5));
    assert!(ParameterValue::Boolean(true) == ParameterValue::Boolean(true));
    assert!(ParameterValue::Boolean(true) != ParameterValue::Boolean(false));
}

#[test]
fn floats_compare_as_numbers() {
    let values = [0.0f64, -0.0, 1.0, -1.0, 1.5, f64::MIN_POSITIVE, f64::MAX, f64::INFINITY, f64::NEG_INFINITY, f64::NAN, -f64::NAN, 5e-324];
    for a in values {
        for b in values {
            assert_eq!(numbers_equal(a.to_bits(), b.to_bits()), a == b);
            assert_eq!(
                ParameterValue::Float(float(a)) == ParameterValue::Float(float(b)),
                a == b
            );
        }
    }
}

#[test]
fn arrays_compare_place_by_place() {
    let a = ParameterValue::Array(vec![ParameterValue::Integer(1), text("x")]);
    let b = ParameterValue::Array(vec![ParameterValue::Integer(1), text("x")]);
    let swapped = ParameterValue::Array(vec![text("x"), ParameterValue::Integer(1)]);
    let shorter = ParameterValue::Array(vec![ParameterValue::Integer(1)]);
    assert!(values_equal(&a, &b));
    assert!(!values_equal(&a, &swapped));
    assert!(!values_equal(&a, &shorter));
    assert!(!values_equal(&shorter, &a));
}

#[test]
fn objects_compare_without_order() {
    let a = ParameterValue::Object(map(vec![("x", ParameterValue::Integer(1)), ("y", text("two"))]));
    let b = ParameterValue::Object(map(vec![("y", text("two")), ("x", ParameterValue::Integer(1))]));
    let other_value = ParameterValue::Object(map(vec![("x", ParameterValue::Integer(1)), ("y", text("2"))]));
    let other_key = ParameterValue::Object(map(vec![("x", ParameterValue::Integer(1)), ("z", text("two"))]));
    let smaller = ParameterValue::Object(map(vec![("x", ParameterValue::Integer(1))]));
    assert!(a == b);
    assert!(b == a);
    assert!(a != other_value);
    assert!(a != other_key);
    assert!(a != smaller);
    assert!(smaller != a);
    assert_ne!(a.to_string(), b.to_string());
}
