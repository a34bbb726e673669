use resweb::auth::Claims;
use resweb::json::JsonValue;
use resweb::json::eq_value;

fn obj(fields: Vec<(&str, JsonValue)>) -> JsonValue {
    JsonValue::Obj(fields.into_iter().map(|(k, v)| (k.to_string(), v)).collect())
}

fn s(t: &str) -> JsonValue {
    JsonValue::Str(t.to_string())
}

#[test]
fn get_path_nested_hit() {
    let claims = Claims(obj(vec![("a", obj(vec![("b", JsonValue::Int(1))]))]));
    assert_eq!(claims.get_path("a.b"), Some(&JsonValue::Int(1)));
}

#[test]
fn get_path_missing_leaf() {
    let claims = Claims(obj(vec![("a", obj(vec![("b", JsonValue::Int(1))]))]));
    assert_eq!(claims.get_path("a.c"), None);
}

#[test]
fn get_path_missing_root_key() {
    let claims = Claims(obj(vec![("a", obj(vec![("b", JsonValue::Int(1))]))]));
    assert_eq!(claims.get_path("x"), None);
}

#[test]
fn get_path_empty_path_yields_root() {
    let root = obj(vec![("a", JsonValue::Int(1))]);
    let claims = Claims(obj(vec![("a", JsonValue::Int(1))]));
    assert_eq!(claims.get_path(""), Some(&root));
}

#[test]
fn get_path_through_non_object_fails() {
    let claims = Claims(obj(vec![("a", JsonValue::Arr(vec![JsonValue::Int(1)]))]));
    assert_eq!(claims.get_path("a.b"), None);
    let scalar = Claims(obj(vec![("a", s("x"))]));
    assert_eq!(scalar.get_path("a.b"), None);
}

#[test]
fn get_path_empty_segments() {
    let claims = Claims(obj(vec![("", obj(vec![("", JsonValue::Int(5))]))]));
    assert_eq!(claims.get_path("."), Some(&JsonValue::Int(5)));
}

#[test]
fn get_path_first_field_wins() {
    let claims = Claims(JsonValue::Obj(vec![
        ("k".to_string(), JsonValue::Int(1)),
        ("k".to_string(), JsonValue::Int(2)),
    ]));
    assert_eq!(claims.get_path("k"), Some(&JsonValue::Int(1)));
}

#[test]
fn eq_value_scalars() {
    assert!(eq_value(&s("acme"), &s("acme")));
    assert!(!eq_value(&s("acme"), &s("ACME")));
    assert!(!eq_value(&s("1"), &JsonValue::Int(1)));
    assert!(eq_value(&JsonValue::Null, &JsonValue::Null));
    assert!(eq_value(&JsonValue::Bool(true), &JsonValue::Bool(true)));
    assert!(!eq_value(&JsonValue::Bool(true), &JsonValue::Bool(false)));
    assert!(!eq_value(&JsonValue::Null, &JsonValue::Bool(false)));
}

#[test]
fn eq_value_arrays() {
    let a = JsonValue::Arr(vec![s("u"), JsonValue::Int(3)]);
    let b = JsonValue::Arr(vec![s("u"), JsonValue::Int(3)]);
    let c = JsonValue::Arr(vec![JsonValue::Int(3), s("u")]);
    let d = JsonValue::Arr(vec![s("u")]);
    assert!(eq_value(&a, &b));
    assert!(!eq_value(&a, &c));
    assert!(!eq_value(&a, &d));
}

#[test]
fn eq_value_objects() {
    let a = obj(vec![("x", JsonValue::Int(1)), ("y", s("v"))]);
    let b = obj(vec![("x", JsonValue::Int(1)), ("y", s("v"))]);
    let c = obj(vec![("y", s("v")), ("x", JsonValue::Int(1))]);
    assert!(eq_value(&a, &b));
    assert!(!eq_value(&a, &c));
}

#[test]
fn eq_value_nested() {
    let a = obj(vec![("o", obj(vec![("r", JsonValue::Arr(vec![s("admin")]))]))]);
    let b = obj(vec![("o", obj(vec![("r", JsonValue::Arr(vec![s("admin")]))]))]);
    let c = obj(vec![("o", obj(vec![("r", JsonValue::Arr(vec![s("user")]))]))]);
    assert!(eq_value(&a, &b));
    assert!(!eq_value(&a, &c));
}
