//! The session lifecycle, the dispatcher, the wire codec, the cache and
//! the dialect encoders, driven end to end on concrete exchanges.

use odoo_mcp::backend::{encode_base64, resolve_attempt, AttemptResolution};
use odoo_mcp::cache::MetadataCache;
use odoo_mcp::dialects::{
    build_jsonrpc_request, execute_kw_args, extract_jsonrpc_result, interpret_auth_result,
    json2_create_body, json2_endpoint_path, json2_search_body, report_pdf_path,
};
use odoo_mcp::dispatcher::{handle_method, initialize_result, Dispatch};
use odoo_mcp::executor::{plan_op, split_execute_args, ClientCall, OpPlan};
use odoo_mcp::json::Json;
use odoo_mcp::jsonrpc::{classify_message, DecodeError, Message};
use odoo_mcp::registry::{EnvSnapshot, OpSpec, Registry, ServerMeta, ToolDef};
use odoo_mcp::render::finish_report;
use odoo_mcp::session::{
    apply_notification, gate_request, http_gate, HttpDecision, NotificationAction,
    RequestDisposition, Session,
};

fn obj(fields: Vec<(&str, Json)>) -> Json {
    Json::Obj(
        fields
            .into_iter()
            .map(|(k, v)| (k.to_string(), v))
            .collect(),
    )
}

fn s(text: &str) -> Json {
    Json::Str(text.to_string())
}

fn default_server() -> ServerMeta {
    ServerMeta {
        server_name: "odoo-rust-mcp".to_string(),
        instructions: "Odoo MCP server".to_string(),
        protocol_version_default: Some("2025-11-05".to_string()),
    }
}

fn search_tool(name: &str) -> ToolDef {
    ToolDef {
        name: name.to_string(),
        description: "search records".to_string(),
        input_schema: obj(vec![("type", s("object"))]),
        op: OpSpec {
            op_type: "search".to_string(),
            map: vec![
                ("instance".to_string(), "/instance".to_string()),
                ("model".to_string(), "/model".to_string()),
                ("limit".to_string(), "/limit".to_string()),
            ],
        },
        guards: None,
    }
}

#[test]
fn second_initialize_on_initialized_session_fails() {
    let mut session = Session { initialized: false };
    assert_eq!(
        gate_request(&session, "initialize"),
        RequestDisposition::DoInitialize
    );
    apply_notification(&mut session, "initialized");
    assert!(session.initialized);
    assert_eq!(
        gate_request(&session, "initialize"),
        RequestDisposition::AlreadyInitialized
    );
}

#[test]
fn non_allow_listed_method_before_handshake_is_rejected() {
    let session = Session { initialized: false };
    assert_eq!(
        gate_request(&session, "tools/call"),
        RequestDisposition::NotInitialized
    );
    assert_eq!(
        gate_request(&session, "shutdown"),
        RequestDisposition::NotInitialized
    );
    for m in ["tools/list", "prompts/list", "resources/list"] {
        assert_eq!(gate_request(&session, m), RequestDisposition::Dispatch);
    }
}

#[test]
fn exit_notification_stops_the_serve_loop() {
    let mut session = Session { initialized: true };
    let action = apply_notification(&mut session, "exit");
    assert_eq!(action, NotificationAction::Stop);
    let other = apply_notification(&mut session, "progress");
    assert_eq!(other, NotificationAction::Ignore);
}

#[test]
fn http_gate_follows_the_streaming_rules() {
    assert_eq!(
        http_gate(false, false, "initialize", true),
        HttpDecision::StartSession
    );
    assert_eq!(
        http_gate(true, false, "initialized", false),
        HttpDecision::MarkInitialized
    );
    assert_eq!(
        http_gate(true, false, "tools/call", true),
        HttpDecision::RejectUninitialized
    );
    assert_eq!(
        http_gate(true, false, "tools/list", true),
        HttpDecision::DispatchRequest
    );
    assert_eq!(
        http_gate(false, false, "tools/call", true),
        HttpDecision::DispatchRequest
    );
    assert_eq!(
        http_gate(true, true, "whatever", false),
        HttpDecision::AcceptNotification
    );
}

#[test]
fn end_to_end_list_then_bad_call_then_good_call() {
    let mut session = Session { initialized: false };
    let mut registry = Registry::empty();
    registry
        .reload(vec![search_tool("search_records")], Vec::new(), default_server())
        .unwrap();
    let env = EnvSnapshot { vars: vec![] };
    let instances = vec!["production".to_string()];

    assert_eq!(
        gate_request(&session, "initialize"),
        RequestDisposition::DoInitialize
    );
    let init = initialize_result(
        Some(&obj(vec![("protocolVersion", s("2026-01-01"))])),
        "2025-11-05",
        vec![s("production")],
        "odoo-rust-mcp",
        "0.1.0",
        "Odoo MCP server",
    );
    match &init {
        Json::Obj(fields) => {
            assert_eq!(fields[0], ("protocolVersion".to_string(), s("2026-01-01")));
        }
        _ => panic!("expected object"),
    }
    apply_notification(&mut session, "initialized");

    match handle_method(&registry, &env, &instances, "tools/list", None) {
        Dispatch::Reply(p) => match p {
            Json::Obj(fields) => {
                assert_eq!(fields[0].0, "tools");
                match &fields[0].1 {
                    Json::Arr(tools) => assert_eq!(tools.len(), 1),
                    _ => panic!("expected tools array"),
                }
            }
            _ => panic!("expected object"),
        },
        _ => panic!("expected a reply"),
    }

    let bad_params = obj(vec![("name", s("no_such_tool"))]);
    match handle_method(&registry, &env, &instances, "tools/call", Some(&bad_params)) {
        Dispatch::Reply(p) => {
            let text = p.to_text();
            assert!(text.contains("isError"));
            assert!(text.contains("Unknown or disabled tool"));
        }
        _ => panic!("an unknown tool must still be a successful exchange"),
    }

    let good_params = obj(vec![
        ("name", s("search_records")),
        (
            "arguments",
            obj(vec![
                ("instance", s("production")),
                ("model", s("res.partner")),
                ("limit", Json::Int(10)),
            ]),
        ),
    ]);
    match handle_method(&registry, &env, &instances, "tools/call", Some(&good_params)) {
        Dispatch::InvokeTool { name, op, args } => {
            assert_eq!(name, "search_records");
            match plan_op(&op, &args).unwrap() {
                OpPlan::Call { instance, call } => {
                    assert_eq!(instance, "production");
                    match call {
                        ClientCall::Search { model, limit, .. } => {
                            assert_eq!(model, "res.partner");
                            assert_eq!(limit, Some(10));
                        }
                        _ => panic!("expected a search call"),
                    }
                }
                _ => panic!("expected a single call plan"),
            }
        }
        _ => panic!("expected a tool invocation"),
    }

    assert_eq!(
        apply_notification(&mut session, "exit"),
        NotificationAction::Stop
    );
}

#[test]
fn unknown_operation_type_is_a_configuration_error() {
    let op = OpSpec {
        op_type: "mystery".to_string(),
        map: vec![("instance".to_string(), "/instance".to_string())],
    };
    let args = obj(vec![("instance", s("production"))]);
    match plan_op(&op, &args) {
        Err(odoo_mcp::backend::OdooError::InvalidResponse(m)) => {
            assert_eq!(m, "Unknown op.type: mystery");
        }
        _ => panic!("expected a configuration error"),
    }
}

#[test]
fn create_batch_is_limited_to_one_hundred_records() {
    let op = OpSpec {
        op_type: "create_batch".to_string(),
        map: vec![
            ("instance".to_string(), "/instance".to_string()),
            ("model".to_string(), "/model".to_string()),
            ("values".to_string(), "/values".to_string()),
        ],
    };
    let mut too_many = Vec::new();
    for _ in 0..101 {
        too_many.push(obj(vec![("name", s("x"))]));
    }
    let args = obj(vec![
        ("instance", s("production")),
        ("model", s("res.partner")),
        ("values", Json::Arr(too_many)),
    ]);
    assert!(plan_op(&op, &args).is_err());

    let two = vec![obj(vec![("name", s("a"))]), obj(vec![("name", s("b"))])];
    let args_ok = obj(vec![
        ("instance", s("production")),
        ("model", s("res.partner")),
        ("values", Json::Arr(two)),
    ]);
    match plan_op(&op, &args_ok).unwrap() {
        OpPlan::CreateBatch { values, .. } => assert_eq!(values.len(), 2),
        _ => panic!("expected a batch plan"),
    }
}

#[test]
fn execute_args_of_one_integer_array_become_ids() {
    let (ids, params) = split_execute_args(
        Some(Json::Arr(vec![Json::Arr(vec![Json::Int(4), Json::Int(5)])])),
        None,
    );
    assert_eq!(ids, Some(vec![4, 5]));
    assert!(params.is_empty());

    let (ids2, params2) = split_execute_args(
        Some(Json::Arr(vec![s("positional")])),
        Some(obj(vec![("limit", Json::Int(1))])),
    );
    assert_eq!(ids2, None);
    assert_eq!(params2.len(), 2);
    assert_eq!(params2[0].0, "args");
    assert_eq!(params2[1], ("limit".to_string(), Json::Int(1)));
}

#[test]
fn cache_hits_until_expiry_and_zero_ttl_never_hits() {
    let mut cache = MetadataCache::new();
    let value = obj(vec![("fields", obj(vec![]))]);

    cache.insert("prod", "res.partner", value.clone(), 1_000, 1_000);
    assert_eq!(cache.get("prod", "res.partner", 1_000), Some(value.clone()));
    assert_eq!(cache.get("prod", "res.partner", 1_999), Some(value.clone()));
    assert_eq!(cache.get("prod", "res.partner", 2_000), None);
    assert_eq!(cache.get("prod", "res.partner", 2_001), None);
    assert_eq!(cache.get("prod", "other.model", 1_000), None);

    cache.insert("prod", "res.partner", value.clone(), 3_000, 0);
    assert_eq!(cache.get("prod", "res.partner", 3_000), None);

    cache.insert("prod", "a", value.clone(), 0, 10);
    cache.insert("prod", "b", value.clone(), 0, 10_000);
    assert_eq!(cache.len(), 3);
    cache.clear_expired(5_000);
    assert_eq!(cache.len(), 1);
    assert!(cache.get("prod", "b", 5_000).is_some());
    cache.clear_all();
    assert!(cache.is_empty());
}

#[test]
fn cache_insert_overwrites_unconditionally() {
    let mut cache = MetadataCache::new();
    cache.insert("prod", "m", Json::Int(1), 0, 100);
    cache.insert("prod", "m", Json::Int(2), 0, 100);
    assert_eq!(cache.len(), 1);
    assert_eq!(cache.get("prod", "m", 50), Some(Json::Int(2)));
}

#[test]
fn plain_messages_classify_by_method_and_id() {
    let req = obj(vec![
        ("jsonrpc", s("2.0")),
        ("id", Json::Int(1)),
        ("method", s("tools/list")),
    ]);
    match classify_message(&req).unwrap() {
        Message::Request(r) => assert_eq!(r.method, "tools/list"),
        _ => panic!("expected a request"),
    }

    let notif = obj(vec![("jsonrpc", s("2.0")), ("method", s("initialized"))]);
    match classify_message(&notif).unwrap() {
        Message::Notification(n) => assert_eq!(n.method, "initialized"),
        _ => panic!("expected a notification"),
    }

    let resp = obj(vec![("jsonrpc", s("2.0")), ("id", Json::Int(2)), ("result", obj(vec![]))]);
    match classify_message(&resp).unwrap() {
        Message::Response(_) => {}
        _ => panic!("expected a response"),
    }

    let junk = obj(vec![("jsonrpc", s("2.0"))]);
    assert_eq!(
        classify_message(&junk).unwrap_err(),
        DecodeError::Unclassifiable
    );
    assert_eq!(
        classify_message(&Json::Int(3)).unwrap_err(),
        DecodeError::NotAnObject
    );
}

#[test]
fn serializer_writes_compact_json() {
    let doc = obj(vec![
        ("name", s("a\"b")),
        ("n", Json::Int(-42)),
        ("list", Json::Arr(vec![Json::Bool(true), Json::Null])),
    ]);
    assert_eq!(doc.to_text(), "{\"name\":\"a\\\"b\",\"n\":-42,\"list\":[true,null]}");
    assert_eq!(Json::Str("\u{1}".to_string()).to_text(), "\"\\u0001\"");
    assert_eq!(Json::Num("2.5".to_string()).to_text(), "2.5");
}

#[test]
fn token_dialect_encodes_paths_and_bodies() {
    assert_eq!(
        json2_endpoint_path("res.partner", "search"),
        "/json/2/res.partner/search"
    );
    assert_eq!(
        report_pdf_path("sale.report_saleorder", &vec![1, 2, 3]),
        "/report/pdf/sale.report_saleorder/1,2,3"
    );

    let body = json2_search_body(
        Some(Json::Arr(vec![])),
        Some(5),
        None,
        Some("name".to_string()),
        None,
    );
    assert_eq!(body.to_text(), "{\"domain\":[],\"limit\":5,\"order\":\"name\"}");

    let create = json2_create_body(obj(vec![("name", s("Acme"))]), None);
    assert_eq!(create.to_text(), "{\"vals_list\":[{\"name\":\"Acme\"}]}");
}

#[test]
fn legacy_dialect_wraps_execute_kw() {
    let envelope = build_jsonrpc_request(
        "object",
        "execute_kw",
        execute_kw_args("db", 2, "pw", "res.partner", "search", Json::Arr(vec![]), None),
    );
    assert_eq!(
        envelope.to_text(),
        "{\"jsonrpc\":\"2.0\",\"method\":\"call\",\"params\":{\"service\":\"object\",\"method\":\"execute_kw\",\"args\":[\"db\",2,\"pw\",\"res.partner\",\"search\",[],{}]},\"id\":1}"
    );

    let ok = obj(vec![("jsonrpc", s("2.0")), ("result", Json::Int(7))]);
    assert_eq!(extract_jsonrpc_result(&ok).unwrap(), Json::Int(7));

    let err = obj(vec![(
        "error",
        obj(vec![("message", s("boom"))]),
    )]);
    match extract_jsonrpc_result(&err) {
        Err(odoo_mcp::backend::OdooError::Api { status, message, .. }) => {
            assert_eq!(status, 400);
            assert_eq!(message, "boom");
        }
        _ => panic!("expected an application error"),
    }

    assert_eq!(interpret_auth_result(&Json::Int(5), "admin").unwrap(), 5);
    assert!(interpret_auth_result(&Json::Int(0), "admin").is_err());
    assert!(interpret_auth_result(&Json::Bool(false), "admin").is_err());
}

#[test]
fn response_interpretation_follows_the_status_classes() {
    match resolve_attempt(200, "{\"a\":1}", Some(obj(vec![("a", Json::Int(1))]))) {
        AttemptResolution::Done(Ok(v)) => assert_eq!(v, obj(vec![("a", Json::Int(1))])),
        _ => panic!("a parsed 2xx settles successfully"),
    }
    match resolve_attempt(503, "busy", None) {
        AttemptResolution::Retry(_) => {}
        _ => panic!("a 5xx is retried"),
    }
    match resolve_attempt(404, "{\"message\":\"gone\"}", Some(obj(vec![("message", s("gone"))]))) {
        AttemptResolution::Done(Err(odoo_mcp::backend::OdooError::Api { status, message, .. })) => {
            assert_eq!(status, 404);
            assert_eq!(message, "gone");
        }
        _ => panic!("a plain 4xx fails at once"),
    }
}

#[test]
fn report_payload_carries_real_base64() {
    assert_eq!(encode_base64(&vec![77u8, 97u8, 110u8]), "TWFu");
    let payload = finish_report("sale.report", &vec![9], &vec![77u8, 97u8, 110u8]);
    let text = payload.to_text();
    assert!(text.contains("\"pdf_base64\":\"TWFu\""));
    assert!(text.contains("\"record_ids\":[9]"));
}

#[test]
fn unknown_method_fails_the_exchange_only() {
    let registry = Registry::empty();
    let env = EnvSnapshot { vars: vec![] };
    match handle_method(&registry, &env, &vec![], "bogus/method", None) {
        Dispatch::Fail { message, .. } => assert!(message.contains("Unknown method")),
        _ => panic!("expected a protocol failure"),
    }
    match handle_method(&registry, &env, &vec![], "prompts/get", None) {
        Dispatch::Fail { .. } => {}
        _ => panic!("missing params must fail the exchange"),
    }
}

#[test]
fn test_legacy_client_build_jsonrpc_request() {
    let request = build_jsonrpc_request("common", "version", Json::Arr(vec![]));
    match &request {
        Json::Obj(fields) => {
            assert_eq!(fields[0], ("jsonrpc".to_string(), Json::Str("2.0".to_string())));
            assert_eq!(fields[1], ("method".to_string(), Json::Str("call".to_string())));
            match &fields[2].1 {
                Json::Obj(params) => {
                    assert_eq!(
                        params[0],
                        ("service".to_string(), Json::Str("common".to_string()))
                    );
                    assert_eq!(
                        params[1],
                        ("method".to_string(), Json::Str("version".to_string()))
                    );
                }
                _ => panic!("expected params object"),
            }
        }
        _ => panic!("expected envelope object"),
    }
}

#[test]
fn batch_over_one_hundred_is_rejected_with_the_exact_message() {
    let op = OpSpec {
        op_type: "create_batch".to_string(),
        map: vec![
            ("instance".to_string(), "/instance".to_string()),
            ("model".to_string(), "/model".to_string()),
            ("values".to_string(), "/values".to_string()),
        ],
    };
    let mut too_many = Vec::new();
    for _ in 0..101 {
        too_many.push(obj(vec![("name", s("x"))]));
    }
    let args = obj(vec![
        ("instance", s("production")),
        ("model", s("res.partner")),
        ("values", Json::Arr(too_many)),
    ]);
    match plan_op(&op, &args) {
        Err(odoo_mcp::backend::OdooError::InvalidResponse(m)) => {
            assert_eq!(m, "Batch size limited to 100 records");
        }
        _ => panic!("101 records must be rejected"),
    }
}

#[test]
fn jsonrpc_error_message_prefers_data_message_then_message_then_default() {
    let with_data = obj(vec![(
        "error",
        obj(vec![
            ("message", s("outer")),
            ("data", obj(vec![("message", s("inner detail"))])),
        ]),
    )]);
    match extract_jsonrpc_result(&with_data) {
        Err(odoo_mcp::backend::OdooError::Api { status, message, .. }) => {
            assert_eq!(status, 400);
            assert_eq!(message, "inner detail");
        }
        _ => panic!("expected an application error"),
    }

    let bare = obj(vec![("error", obj(vec![("code", Json::Int(1))]))]);
    match extract_jsonrpc_result(&bare) {
        Err(odoo_mcp::backend::OdooError::Api { message, .. }) => {
            assert_eq!(message, "Unknown JSON-RPC error");
        }
        _ => panic!("expected an application error"),
    }
}

#[test]
fn created_id_decodes_array_head_bare_integer_and_rejects_the_rest() {
    assert_eq!(
        odoo_mcp::backend::decode_created_id(&Json::Arr(vec![Json::Int(9), Json::Int(10)])).unwrap(),
        9
    );
    assert_eq!(odoo_mcp::backend::decode_created_id(&Json::Int(42)).unwrap(), 42);
    assert!(odoo_mcp::backend::decode_created_id(&Json::Arr(Vec::new())).is_err());
    assert!(odoo_mcp::backend::decode_created_id(&Json::Str("7".to_string())).is_err());
    assert!(odoo_mcp::backend::decode_created_id(&Json::Arr(vec![Json::Str("7".to_string())])).is_err());
}

#[test]
fn pretty_text_matches_the_reference_pretty_form() {
    let doc = Json::Arr(vec![
        obj(vec![("name", s("a\"b"))]),
        Json::Int(-42),
        Json::Arr(vec![Json::Bool(true), Json::Null]),
        Json::Obj(Vec::new()),
        Json::Arr(Vec::new()),
    ]);
    let mut entry = serde_json::Map::new();
    entry.insert(
        "name".to_string(),
        serde_json::Value::String("a\"b".to_string()),
    );
    let reference = serde_json::to_string_pretty(&serde_json::Value::Array(vec![
        serde_json::Value::Object(entry),
        serde_json::Value::from(-42i64),
        serde_json::Value::Array(vec![serde_json::Value::Bool(true), serde_json::Value::Null]),
        serde_json::Value::Object(serde_json::Map::new()),
        serde_json::Value::Array(Vec::new()),
    ]))
    .unwrap();
    assert_eq!(doc.to_pretty_text(), reference);
}

#[test]
fn tool_payload_text_is_pretty_printed() {
    let payload = odoo_mcp::dispatcher::error_payload("kaput", "mytool");
    match &payload {
        Json::Obj(fields) => match &fields[0].1 {
            Json::Arr(content) => match &content[0] {
                Json::Obj(entry) => match &entry[1].1 {
                    Json::Str(text) => assert_eq!(
                        text,
                        "{\n  \"error\": \"kaput\",\n  \"tool\": \"mytool\"\n}"
                    ),
                    _ => panic!("expected text"),
                },
                _ => panic!("expected entry object"),
            },
            _ => panic!("expected content array"),
        },
        _ => panic!("expected payload object"),
    }
}

#[test]
fn unknown_prompt_fails_with_its_name_in_the_message() {
    let registry = Registry::empty();
    let env = EnvSnapshot { vars: vec![] };
    let params = obj(vec![("name", s("nope"))]);
    match handle_method(&registry, &env, &vec![], "prompts/get", Some(&params)) {
        Dispatch::Fail { message, .. } => assert_eq!(message, "Unknown prompt: nope"),
        _ => panic!("an unknown prompt is a protocol failure"),
    }
}

#[test]
fn metadata_description_comes_from_the_first_record_or_the_model_name() {
    let fields_info = obj(vec![("id", obj(vec![("type", s("integer"))]))]);
    let info = Json::Arr(vec![obj(vec![
        ("name", s("Contact")),
        ("model", s("res.partner")),
    ])]);
    match odoo_mcp::render::metadata_from_results("res.partner", fields_info.clone(), info) {
        Json::Obj(outer) => match &outer[0].1 {
            Json::Obj(model) => {
                assert_eq!(model[0], ("name".to_string(), s("res.partner")));
                assert_eq!(model[1], ("description".to_string(), s("Contact")));
                assert_eq!(model[2].0, "fields");
            }
            _ => panic!("expected model object"),
        },
        _ => panic!("expected payload object"),
    }
    match odoo_mcp::render::metadata_from_results("res.partner", fields_info, Json::Arr(Vec::new())) {
        Json::Obj(outer) => match &outer[0].1 {
            Json::Obj(model) => {
                assert_eq!(model[1], ("description".to_string(), s("res.partner")));
            }
            _ => panic!("expected model object"),
        },
        _ => panic!("expected payload object"),
    }
}

#[test]
fn a_well_typed_response_object_decodes_with_its_error_details() {
    let doc = obj(vec![
        ("id", Json::Int(3)),
        (
            "error",
            obj(vec![
                ("code", Json::Int(-32600)),
                ("message", s("bad request")),
                ("data", s("extra")),
            ]),
        ),
    ]);
    match classify_message(&doc) {
        Ok(Message::Response(resp)) => {
            let err = resp.error.expect("error member decoded");
            assert_eq!(err.code, -32600);
            assert_eq!(err.message, "bad request");
            assert_eq!(err.data, Some(s("extra")));
        }
        _ => panic!("expected a response message"),
    }
}

#[test]
fn call_results_are_shaped_by_the_call_kind() {
    let search = ClientCall::Search {
        model: "res.partner".to_string(),
        domain: None,
        limit: None,
        offset: None,
        order: None,
        context: None,
    };
    let plan = odoo_mcp::render::call_render_plan("search", &search);
    let payload = odoo_mcp::render::finish_call(plan, Json::Arr(vec![Json::Int(3), Json::Int(5)])).unwrap();
    assert_eq!(
        payload,
        obj(vec![
            ("ids", Json::Arr(vec![Json::Int(3), Json::Int(5)])),
            ("count", Json::Int(2)),
        ])
    );
    let plan = odoo_mcp::render::call_render_plan("search", &search);
    assert!(odoo_mcp::render::finish_call(plan, Json::Arr(vec![s("seven")])).is_err());

    let write = ClientCall::Write {
        model: "res.partner".to_string(),
        ids: vec![1, 2, 3],
        values: Json::Obj(Vec::new()),
        context: None,
    };
    let plan = odoo_mcp::render::call_render_plan("update_record", &write);
    let payload = odoo_mcp::render::finish_call(plan, Json::Bool(true)).unwrap();
    assert_eq!(
        payload,
        obj(vec![("success", Json::Bool(true)), ("updated_count", Json::Int(3))])
    );

    let named = ClientCall::CallNamed {
        model: "sale.order".to_string(),
        method: "action_confirm".to_string(),
        ids: Some(vec![7]),
        params: Vec::new(),
        context: None,
    };
    let plan = odoo_mcp::render::call_render_plan("workflow_action", &named);
    assert!(matches!(plan, odoo_mcp::render::RenderPlan::Workflow { .. }));
    let payload = odoo_mcp::render::finish_call(plan, Json::Bool(true)).unwrap();
    assert_eq!(
        payload,
        obj(vec![
            ("result", Json::Bool(true)),
            ("executed_on", Json::Arr(vec![Json::Int(7)])),
        ])
    );

    let listing = ClientCall::SearchRead {
        model: "ir.model".to_string(),
        domain: None,
        fields: None,
        limit: None,
        offset: None,
        order: None,
        context: None,
    };
    let plan = odoo_mcp::render::call_render_plan("list_models", &listing);
    let payload = odoo_mcp::render::finish_call(plan, Json::Arr(Vec::new())).unwrap();
    assert_eq!(payload, obj(vec![("models", Json::Arr(Vec::new()))]));
}
