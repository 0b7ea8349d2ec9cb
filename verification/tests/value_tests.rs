//! The value bridge: structural conversion of an engine value into a
//! caller-requested shape, with shape errors on mismatch.

use midas::error::ErrorKind;
use midas::media_type::ModuleKind;
use midas::value::{bridge_entry, convert, module_from_namespace, Shape, Value};

fn obj(fields: Vec<(&str, Value)>) -> Value {
    Value::Obj(fields.into_iter().map(|(k, v)| (k.as_bytes().to_vec(), v)).collect())
}

fn shape_obj(fields: Vec<(&str, Shape)>) -> Shape {
    Shape::Obj(fields.into_iter().map(|(k, s)| (k.as_bytes().to_vec(), s)).collect())
}

#[test]
fn matching_object_converts() {
    let v = obj(vec![("a", Value::Int(1)), ("b", Value::Str(b"x".to_vec()))]);
    let s = shape_obj(vec![("a", Shape::Int), ("b", Shape::Str)]);
    let out = convert(&v, &s).unwrap();
    assert_eq!(out, &v);
}

#[test]
fn mismatched_field_type_is_a_shape_error() {
    let v = obj(vec![("a", Value::Int(1)), ("b", Value::Str(b"x".to_vec()))]);
    let s = shape_obj(vec![("a", Shape::Str)]);
    let e = convert(&v, &s).unwrap_err();
    assert_eq!(e.error_kind(), ErrorKind::Shape);
    assert_eq!(e.messages()[0], b"value does not fit the requested shape".to_vec());
}

#[test]
fn missing_required_field_is_a_shape_error() {
    let v = obj(vec![("a", Value::Int(1))]);
    let s = shape_obj(vec![("a", Shape::Int), ("b", Shape::Str)]);
    assert_eq!(convert(&v, &s).unwrap_err().error_kind(), ErrorKind::Shape);
}

#[test]
fn unknown_extra_fields_are_ignored() {
    let v = obj(vec![("a", Value::Int(1)), ("extra", Value::Bool(true))]);
    let s = shape_obj(vec![("a", Shape::Int)]);
    assert!(convert(&v, &s).is_ok());
}

#[test]
fn arrays_check_every_element() {
    let good = Value::Arr(vec![Value::Int(1), Value::Int(2)]);
    let bad = Value::Arr(vec![Value::Int(1), Value::Str(b"x".to_vec())]);
    let s = Shape::Arr(Box::new(Shape::Int));
    assert!(convert(&good, &s).is_ok());
    assert_eq!(convert(&bad, &s).unwrap_err().error_kind(), ErrorKind::Shape);
}

#[test]
fn any_shape_accepts_everything() {
    assert!(convert(&Value::Null, &Shape::Any).is_ok());
    assert!(convert(&Value::Bool(false), &Shape::Any).is_ok());
}

#[test]
fn default_binding_is_found_in_the_namespace() {
    let config = obj(vec![("port", Value::Int(8080))]);
    let ns = obj(vec![("default", config)]);
    let m = module_from_namespace(&ns).unwrap();
    match m.default() {
        Value::Obj(entries) => assert_eq!(entries[0].0, b"port".to_vec()),
        other => panic!("unexpected default binding: {:?}", other),
    }
}

#[test]
fn missing_default_binding_is_an_execution_error() {
    let ns = obj(vec![("other", Value::Int(1))]);
    let e = module_from_namespace(&ns).unwrap_err();
    assert_eq!(e.error_kind(), ErrorKind::Execution);
    assert_eq!(e.messages()[0], b"module namespace has no default binding".to_vec());
}

#[test]
fn structured_data_bridges_its_top_level_value() {
    // A `.json` module has no default binding: the bridge consumes the
    // top-level value itself.
    let parsed = obj(vec![("a", Value::Int(1))]);
    let out = bridge_entry(ModuleKind::StructuredData, &parsed).unwrap();
    assert_eq!(out, &parsed);
}

#[test]
fn code_modules_bridge_their_default_binding() {
    let ns = obj(vec![("default", Value::Int(7))]);
    let out = bridge_entry(ModuleKind::Code, &ns).unwrap();
    assert_eq!(out, &Value::Int(7));
}

#[test]
fn example_config_matches_its_declared_shape() {
    let config = obj(vec![
        ("databaseUrl", Value::Str(b"postgres://localhost:5432/mydb".to_vec())),
        ("port", Value::Int(8080)),
        (
            "features",
            Value::Arr(vec![Value::Str(b"auth".to_vec()), Value::Str(b"api".to_vec())]),
        ),
    ]);
    let shape = shape_obj(vec![
        ("databaseUrl", Shape::Str),
        ("port", Shape::Int),
        ("features", Shape::Arr(Box::new(Shape::Str))),
    ]);
    let out = convert(&config, &shape).unwrap();
    assert_eq!(out, &config);

    // With the port exported as the string "8080", the same shape must fail.
    let stringly = obj(vec![
        ("databaseUrl", Value::Str(b"postgres://localhost:5432/mydb".to_vec())),
        ("port", Value::Str(b"8080".to_vec())),
        (
            "features",
            Value::Arr(vec![Value::Str(b"auth".to_vec()), Value::Str(b"api".to_vec())]),
        ),
    ]);
    let e = convert(&stringly, &shape).unwrap_err();
    assert_eq!(e.error_kind(), ErrorKind::Shape);
}
