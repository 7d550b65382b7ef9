//! The executor's argument resolution through JSON pointers.

use odoo_mcp::backend::OdooError;
use odoo_mcp::dispatcher::ok_text;
use odoo_mcp::executor::{opt_bool, opt_i64, opt_str, opt_vec_i64, ptr, req_str, req_vec_i64};
use odoo_mcp::json::Json;
use odoo_mcp::registry::OpSpec;

fn make_op(map: Vec<(String, String)>) -> OpSpec {
    OpSpec {
        op_type: "test".to_string(),
        map,
    }
}

fn one_entry(key: &str, pointer: &str) -> Vec<(String, String)> {
    vec![(key.to_string(), pointer.to_string())]
}

#[test]
fn test_ptr_finds_value_by_json_pointer() {
    let args = Json::Obj(vec![(
        "data".to_string(),
        Json::Obj(vec![("name".to_string(), Json::Str("test".to_string()))]),
    )]);
    let op = make_op(one_entry("key", "/data/name"));

    let result = ptr(&args, &op, "key");
    assert_eq!(result, Some(&Json::Str("test".to_string())));
}

#[test]
fn test_ptr_returns_none_for_missing_key() {
    let args = Json::Obj(vec![("data".to_string(), Json::Str("value".to_string()))]);
    let op = make_op(Vec::new());

    let result = ptr(&args, &op, "nonexistent");
    assert!(result.is_none());
}

#[test]
fn test_ptr_returns_none_for_invalid_pointer() {
    let args = Json::Obj(vec![("data".to_string(), Json::Str("value".to_string()))]);
    let op = make_op(one_entry("key", "/nonexistent/path"));

    let result = ptr(&args, &op, "key");
    assert!(result.is_none());
}

#[test]
fn test_req_str_success() {
    let args = Json::Obj(vec![("name".to_string(), Json::Str("test".to_string()))]);
    let op = make_op(one_entry("name", "/name"));

    let result = req_str(&args, &op, "name").unwrap();
    assert_eq!(result, "test");
}

#[test]
fn test_req_str_missing_returns_error() {
    let args = Json::Obj(Vec::new());
    let op = make_op(Vec::new());

    let result = req_str(&args, &op, "name");
    assert!(result.is_err());
}

#[test]
fn test_req_str_non_string_returns_error() {
    let args = Json::Obj(vec![("name".to_string(), Json::Int(123))]);
    let op = make_op(one_entry("name", "/name"));

    let result = req_str(&args, &op, "name");
    assert!(result.is_err());
    match result {
        Err(OdooError::InvalidResponse(m)) => {
            assert_eq!(m, "Argument 'name' must be string");
        }
        _ => panic!("expected a type error"),
    }
}

#[test]
fn test_opt_str_success() {
    let args = Json::Obj(vec![("name".to_string(), Json::Str("test".to_string()))]);
    let op = make_op(one_entry("name", "/name"));

    let result = opt_str(&args, &op, "name").unwrap();
    assert_eq!(result, Some("test".to_string()));
}

#[test]
fn test_opt_str_missing_returns_none() {
    let args = Json::Obj(Vec::new());
    let op = make_op(Vec::new());

    let result = opt_str(&args, &op, "name").unwrap();
    assert!(result.is_none());
}

#[test]
fn test_opt_str_null_returns_none() {
    let args = Json::Obj(vec![("name".to_string(), Json::Null)]);
    let op = make_op(one_entry("name", "/name"));

    let result = opt_str(&args, &op, "name").unwrap();
    assert!(result.is_none());
}

#[test]
fn test_opt_i64_success() {
    let args = Json::Obj(vec![("count".to_string(), Json::Int(42))]);
    let op = make_op(one_entry("count", "/count"));

    let result = opt_i64(&args, &op, "count").unwrap();
    assert_eq!(result, Some(42));
}

#[test]
fn test_opt_i64_missing_returns_none() {
    let args = Json::Obj(Vec::new());
    let op = make_op(Vec::new());

    let result = opt_i64(&args, &op, "count").unwrap();
    assert!(result.is_none());
}

#[test]
fn test_opt_i64_null_returns_none() {
    let args = Json::Obj(vec![("count".to_string(), Json::Null)]);
    let op = make_op(one_entry("count", "/count"));

    let result = opt_i64(&args, &op, "count").unwrap();
    assert!(result.is_none());
}

#[test]
fn test_opt_bool_success() {
    let args = Json::Obj(vec![("active".to_string(), Json::Bool(true))]);
    let op = make_op(one_entry("active", "/active"));

    let result = opt_bool(&args, &op, "active").unwrap();
    assert_eq!(result, Some(true));
}

#[test]
fn test_opt_bool_missing_returns_none() {
    let args = Json::Obj(Vec::new());
    let op = make_op(Vec::new());

    let result = opt_bool(&args, &op, "active").unwrap();
    assert!(result.is_none());
}

#[test]
fn test_ok_text_format() {
    let result = ok_text(Json::Obj(vec![(
        "data".to_string(),
        Json::Str("test".to_string()),
    )]));
    match result {
        Json::Obj(fields) => {
            assert_eq!(fields.len(), 1);
            assert_eq!(fields[0].0, "content");
            match &fields[0].1 {
                Json::Arr(content) => {
                    assert_eq!(content.len(), 1);
                    match &content[0] {
                        Json::Obj(entry) => {
                            assert_eq!(
                                entry[0],
                                ("type".to_string(), Json::Str("text".to_string()))
                            );
                        }
                        _ => panic!("expected entry object"),
                    }
                }
                _ => panic!("expected content array"),
            }
        }
        _ => panic!("expected object"),
    }
}

#[test]
fn test_ok_text_contains_json() {
    let data = Json::Obj(vec![("key".to_string(), Json::Str("value".to_string()))]);
    let result = ok_text(data);
    match result {
        Json::Obj(fields) => match &fields[0].1 {
            Json::Arr(content) => match &content[0] {
                Json::Obj(entry) => match &entry[1].1 {
                    Json::Str(text) => {
                        assert!(text.contains("key"));
                        assert!(text.contains("value"));
                    }
                    _ => panic!("expected text"),
                },
                _ => panic!("expected entry"),
            },
            _ => panic!("expected array"),
        },
        _ => panic!("expected object"),
    }
}

#[test]
fn test_opt_vec_i64_success() {
    let args = Json::Obj(vec![(
        "ids".to_string(),
        Json::Arr(vec![Json::Int(1), Json::Int(2), Json::Int(3)]),
    )]);
    let op = make_op(one_entry("ids", "/ids"));

    let result = opt_vec_i64(&args, &op, "ids").unwrap();
    assert_eq!(result, Some(vec![1, 2, 3]));
}

#[test]
fn test_opt_vec_i64_missing_returns_none() {
    let args = Json::Obj(Vec::new());
    let op = make_op(Vec::new());

    let result = opt_vec_i64(&args, &op, "ids").unwrap();
    assert!(result.is_none());
}

#[test]
fn test_opt_vec_i64_null_returns_none() {
    let args = Json::Obj(vec![("ids".to_string(), Json::Null)]);
    let op = make_op(one_entry("ids", "/ids"));

    let result = opt_vec_i64(&args, &op, "ids").unwrap();
    assert!(result.is_none());
}

#[test]
fn test_opt_vec_i64_invalid_item_returns_error() {
    let args = Json::Obj(vec![(
        "ids".to_string(),
        Json::Arr(vec![
            Json::Int(1),
            Json::Str("two".to_string()),
            Json::Int(3),
        ]),
    )]);
    let op = make_op(one_entry("ids", "/ids"));

    let result = opt_vec_i64(&args, &op, "ids");
    assert!(result.is_err());
}

#[test]
fn test_opt_vec_i64_empty_array() {
    let args = Json::Obj(vec![("ids".to_string(), Json::Arr(Vec::new()))]);
    let op = make_op(one_entry("ids", "/ids"));

    let result = opt_vec_i64(&args, &op, "ids").unwrap();
    assert_eq!(result, Some(vec![]));
}

#[test]
fn pointer_resolving_to_null_is_absent_not_falsy() {
    let args = Json::Obj(vec![
        ("flag".to_string(), Json::Null),
        ("zero".to_string(), Json::Int(0)),
        ("empty".to_string(), Json::Str(String::new())),
        ("off".to_string(), Json::Bool(false)),
    ]);
    let op = make_op(vec![
        ("flag".to_string(), "/flag".to_string()),
        ("zero".to_string(), "/zero".to_string()),
        ("empty".to_string(), "/empty".to_string()),
        ("off".to_string(), "/off".to_string()),
    ]);

    assert_eq!(opt_bool(&args, &op, "flag").unwrap(), None);
    assert_eq!(opt_i64(&args, &op, "zero").unwrap(), Some(0));
    assert_eq!(opt_str(&args, &op, "empty").unwrap(), Some(String::new()));
    assert_eq!(opt_bool(&args, &op, "off").unwrap(), Some(false));
}

#[test]
fn model_pointer_resolution_matches_and_rejects() {
    let op = make_op(one_entry("model", "/model"));

    let good = Json::Obj(vec![(
        "model".to_string(),
        Json::Str("res.partner".to_string()),
    )]);
    assert_eq!(req_str(&good, &op, "model").unwrap(), "res.partner");

    let wrong_type = Json::Obj(vec![("model".to_string(), Json::Int(123))]);
    match req_str(&wrong_type, &op, "model") {
        Err(OdooError::InvalidResponse(m)) => assert_eq!(m, "Argument 'model' must be string"),
        _ => panic!("expected a type error"),
    }

    let missing = Json::Obj(Vec::new());
    match req_str(&missing, &op, "model") {
        Err(OdooError::InvalidResponse(m)) => {
            assert_eq!(m, "Missing required argument 'model' (map)")
        }
        _ => panic!("expected a missing-argument error"),
    }
}

#[test]
fn array_index_pointers_and_escapes_resolve() {
    let args = Json::Obj(vec![
        (
            "items".to_string(),
            Json::Arr(vec![Json::Int(10), Json::Int(20)]),
        ),
        ("a/b".to_string(), Json::Str("slash".to_string())),
        ("t~e".to_string(), Json::Str("tilde".to_string())),
    ]);
    assert_eq!(args.pointer("/items/1"), Some(&Json::Int(20)));
    assert_eq!(args.pointer("/items/01"), None);
    assert_eq!(args.pointer("/items/2"), None);
    assert_eq!(args.pointer("/a~1b"), Some(&Json::Str("slash".to_string())));
    assert_eq!(args.pointer("/t~0e"), Some(&Json::Str("tilde".to_string())));
    assert_eq!(args.pointer(""), Some(&args));
    assert_eq!(args.pointer("items"), None);
}

#[test]
fn req_vec_i64_requires_an_integer_array() {
    let op = make_op(one_entry("ids", "/ids"));
    let good = Json::Obj(vec![(
        "ids".to_string(),
        Json::Arr(vec![Json::Int(7), Json::Int(9)]),
    )]);
    assert_eq!(req_vec_i64(&good, &op, "ids").unwrap(), vec![7, 9]);

    let not_array = Json::Obj(vec![("ids".to_string(), Json::Int(7))]);
    assert!(req_vec_i64(&not_array, &op, "ids").is_err());
}
