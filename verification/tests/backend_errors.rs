//! The backend error taxonomy and the retry policy.

use odoo_mcp::backend::{
    AttemptClass, AttemptOutcome, OdooError, OdooErrorBody, backoff_ms, classify_attempt,
    retry_run,
};
use odoo_mcp::json::Json;

#[test]
fn test_odoo_error_invalid_response() {
    let error = OdooError::InvalidResponse("Bad response".to_string());
    match error {
        OdooError::InvalidResponse(msg) => assert_eq!(msg, "Bad response"),
        _ => panic!("Expected InvalidResponse"),
    }
}

#[test]
fn test_odoo_error_api_with_body() {
    let body = OdooErrorBody {
        name: Some("AccessDenied".to_string()),
        message: Some("Access denied".to_string()),
        arguments: vec![],
        context: Json::Obj(Vec::new()),
        debug: None,
    };

    let error = OdooError::Api {
        status: 403,
        message: "Forbidden".to_string(),
        body: Some(body),
    };

    let display = error.message_text();
    assert!(display.contains("403"));
    assert!(display.contains("Forbidden"));
}

#[test]
fn test_odoo_error_api_without_body() {
    let error = OdooError::Api {
        status: 401,
        message: "Unauthorized".to_string(),
        body: None,
    };

    let display = error.message_text();
    assert!(display.contains("401"));
    assert!(display.contains("Unauthorized"));
}

#[test]
fn test_odoo_error_display() {
    let error = OdooError::InvalidResponse("Test error".to_string());
    let display_string = error.message_text();
    assert!(display_string.contains("Test error"));
}

#[test]
fn test_odoo_error_debug() {
    let error = OdooError::InvalidResponse("Debug test".to_string());
    let debug_string = format!("{:?}", error);
    assert!(debug_string.contains("InvalidResponse"));
}

#[test]
fn test_odoo_error_chain_message() {
    let error = OdooError::InvalidResponse("First error".to_string());
    let error_message = error.message_text();
    assert!(error_message.contains("First error"));
}

#[test]
fn test_multiple_error_types() {
    let error1 = OdooError::InvalidResponse("Invalid".to_string());
    let error2 = OdooError::Api {
        status: 404,
        message: "Not found".to_string(),
        body: None,
    };
    let error3 = OdooError::Api {
        status: 401,
        message: "Unauthorized".to_string(),
        body: None,
    };
    let error4 = OdooError::Api {
        status: 403,
        message: "Forbidden".to_string(),
        body: None,
    };

    assert!(error1.message_text().contains("Invalid"));
    assert!(error2.message_text().contains("404"));
    assert!(error3.message_text().contains("401"));
    assert!(error4.message_text().contains("403"));
}

#[test]
fn test_odoo_error_display_api_contains_status() {
    let err = OdooError::Api {
        status: 500,
        message: "Internal Server Error".to_string(),
        body: Some(OdooErrorBody {
            name: Some("ServerError".to_string()),
            message: Some("Something went wrong".to_string()),
            arguments: vec![],
            context: Json::Null,
            debug: None,
        }),
    };
    let display = err.message_text();
    assert!(display.contains("500"));
    assert!(display.contains("Internal Server Error"));
}

#[test]
fn test_odoo_error_display_api() {
    let err = OdooError::Api {
        status: 401,
        message: "Unauthorized".to_string(),
        body: None,
    };
    assert!(err.message_text().contains("401"));
    assert!(err.message_text().contains("Unauthorized"));
}

#[test]
fn test_odoo_error_display_invalid_response() {
    let err = OdooError::InvalidResponse("missing field".to_string());
    assert!(err.message_text().contains("missing field"));
}

#[test]
fn test_odoo_error_body_creation() {
    let body = OdooErrorBody {
        name: Some("ServerError".to_string()),
        message: Some("Internal Server Error".to_string()),
        arguments: vec![Json::Str("arg1".to_string()), Json::Int(123)],
        context: Json::Obj(Vec::new()),
        debug: Some("Traceback info".to_string()),
    };

    assert_eq!(body.name, Some("ServerError".to_string()));
    assert_eq!(body.message, Some("Internal Server Error".to_string()));
    assert_eq!(body.arguments.len(), 2);
    assert_eq!(body.debug, Some("Traceback info".to_string()));
}

#[test]
fn retry_two_transient_then_success_runs_three_attempts() {
    let classes = vec![
        classify_attempt(&AttemptOutcome::Status(503, "busy".to_string())),
        classify_attempt(&AttemptOutcome::Status(503, "busy".to_string())),
        classify_attempt(&AttemptOutcome::Status(200, "{}".to_string())),
        classify_attempt(&AttemptOutcome::Status(200, "{}".to_string())),
    ];
    let (used, delivered) = retry_run(&classes, 3);
    assert_eq!(used, 3);
    assert_eq!(delivered, AttemptClass::Success);
}

#[test]
fn retry_fatal_status_fails_without_retry() {
    let classes = vec![
        classify_attempt(&AttemptOutcome::Status(404, "missing".to_string())),
        classify_attempt(&AttemptOutcome::Status(200, "{}".to_string())),
    ];
    let (used, delivered) = retry_run(&classes, 1);
    assert_eq!(used, 1);
    assert_eq!(delivered, AttemptClass::Fatal);
}

#[test]
fn retry_exhausts_on_persistent_transient_failures() {
    let classes = vec![
        AttemptClass::Transient,
        AttemptClass::Transient,
        AttemptClass::Transient,
    ];
    let (used, delivered) = retry_run(&classes, 2);
    assert_eq!(used, 3);
    assert_eq!(delivered, AttemptClass::Transient);
}

#[test]
fn transport_failures_are_transient() {
    let c = classify_attempt(&AttemptOutcome::Transport("connection refused".to_string()));
    assert_eq!(c, AttemptClass::Transient);
    let c429 = classify_attempt(&AttemptOutcome::Status(429, "slow down".to_string()));
    assert_eq!(c429, AttemptClass::Transient);
}

#[test]
fn backoff_doubles_from_base() {
    assert_eq!(backoff_ms(0), 250);
    assert_eq!(backoff_ms(1), 500);
    assert_eq!(backoff_ms(2), 1000);
    assert_eq!(backoff_ms(3), 2000);
}

#[test]
fn test_odoo_error_body_with_none_fields() {
    let body = OdooErrorBody {
        name: None,
        message: None,
        arguments: vec![],
        context: Json::Obj(Vec::new()),
        debug: None,
    };

    assert_eq!(body.name, None);
    assert_eq!(body.message, None);
    assert!(body.arguments.is_empty());
    assert_eq!(body.debug, None);
}
