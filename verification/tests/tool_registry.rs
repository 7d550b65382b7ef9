//! Tool definitions, guards, schema safety, and the reload rules.

use odoo_mcp::json::Json;
use odoo_mcp::registry::{ConfigError, EnvSnapshot, OpSpec, Prompt, Registry, ServerMeta, ToolDef, ToolGuards, env_truthy_value,
    guards_allow, validate_cursor_schema,
};

fn map_get<'a>(map: &'a [(String, String)], key: &str) -> Option<&'a String> {
    map.iter().find(|(k, _)| k == key).map(|(_, v)| v)
}

fn schema_obj(ty: &str) -> Json {
    Json::Obj(vec![("type".to_string(), Json::Str(ty.to_string()))])
}

fn simple_tool(name: &str, guards: Option<ToolGuards>) -> ToolDef {
    ToolDef {
        name: name.to_string(),
        description: format!("tool {}", name),
        input_schema: schema_obj("object"),
        op: OpSpec {
            op_type: "search".to_string(),
            map: Vec::new(),
        },
        guards,
    }
}

fn default_server() -> ServerMeta {
    ServerMeta {
        server_name: "odoo-rust-mcp".to_string(),
        instructions: "Odoo MCP server".to_string(),
        protocol_version_default: Some("2025-11-05".to_string()),
    }
}

#[test]
fn test_tool_def_creation() {
    let tool = ToolDef {
        name: "search_partners".to_string(),
        description: "Search for partners in Odoo".to_string(),
        op: OpSpec {
            op_type: "search".to_string(),
            map: Vec::new(),
        },
        input_schema: Json::Obj(vec![
            ("type".to_string(), Json::Str("object".to_string())),
            (
                "properties".to_string(),
                Json::Obj(vec![(
                    "search_term".to_string(),
                    Json::Obj(vec![("type".to_string(), Json::Str("string".to_string()))]),
                )]),
            ),
        ]),
        guards: None,
    };

    assert_eq!(tool.name, "search_partners");
    assert_eq!(tool.op.op_type, "search");
    assert!(tool.op.map.is_empty());
}

#[test]
fn test_op_spec_with_map_entries() {
    let map = vec![
        ("model".to_string(), "res.partner".to_string()),
        (
            "domain".to_string(),
            "[['name', 'ilike', 'acme']]".to_string(),
        ),
    ];

    let op = OpSpec {
        op_type: "search".to_string(),
        map,
    };

    assert_eq!(op.op_type, "search");
    assert_eq!(op.map.len(), 2);
    assert_eq!(map_get(&op.map, "model"), Some(&"res.partner".to_string()));
    assert_eq!(
        map_get(&op.map, "domain"),
        Some(&"[['name', 'ilike', 'acme']]".to_string())
    );
}

#[test]
fn test_op_spec_create_operation() {
    let op = OpSpec {
        op_type: "create".to_string(),
        map: Vec::new(),
    };

    assert_eq!(op.op_type, "create");
    assert!(op.map.is_empty());
}

#[test]
fn test_op_spec_read_operation() {
    let map = vec![
        ("model".to_string(), "account.move".to_string()),
        ("record_id".to_string(), "123".to_string()),
    ];

    let op = OpSpec {
        op_type: "read".to_string(),
        map,
    };

    assert_eq!(op.op_type, "read");
    assert_eq!(op.map.len(), 2);
    assert_eq!(map_get(&op.map, "record_id"), Some(&"123".to_string()));
}

#[test]
fn test_tool_def_with_guards() {
    let tool = ToolDef {
        name: "admin_tool".to_string(),
        description: "Admin-only tool".to_string(),
        op: OpSpec {
            op_type: "admin_action".to_string(),
            map: Vec::new(),
        },
        input_schema: schema_obj("object"),
        guards: Some(ToolGuards {
            requires_env_true: Some("ADMIN_MODE".to_string()),
        }),
    };

    assert_eq!(tool.name, "admin_tool");
    assert!(tool.guards.is_some());
    let guards = tool.guards.unwrap();
    assert_eq!(guards.requires_env_true, Some("ADMIN_MODE".to_string()));
}

#[test]
fn truthy_values_enable_a_guard() {
    for v in ["1", "true", "yes", "y", "on", "TRUE", "  Yes ", "ON"] {
        assert!(env_truthy_value(v), "{v} should be truthy");
    }
    for v in ["", "0", "false", "no", "off", "2", "enabled"] {
        assert!(!env_truthy_value(v), "{v} should not be truthy");
    }
}

#[test]
fn guarded_tool_is_hidden_and_unknown_until_enabled() {
    let mut registry = Registry::empty();
    let tools = vec![
        simple_tool("plain", None),
        simple_tool(
            "guarded",
            Some(ToolGuards {
                requires_env_true: Some("FEATURE_FLAG".to_string()),
            }),
        ),
    ];
    registry
        .reload(tools, Vec::new(), default_server())
        .unwrap();

    let env_off = EnvSnapshot { vars: vec![] };
    let listed = registry.list_tools(&env_off);
    assert_eq!(listed.len(), 1);
    assert!(registry.get_tool("guarded", &env_off).is_none());
    assert!(registry.get_tool("plain", &env_off).is_some());

    let env_falsy = EnvSnapshot {
        vars: vec![("FEATURE_FLAG".to_string(), "0".to_string())],
    };
    assert!(registry.get_tool("guarded", &env_falsy).is_none());
    assert_eq!(registry.list_tools(&env_falsy).len(), 1);

    let env_on = EnvSnapshot {
        vars: vec![("FEATURE_FLAG".to_string(), "yes".to_string())],
    };
    assert!(registry.get_tool("guarded", &env_on).is_some());
    assert_eq!(registry.list_tools(&env_on).len(), 2);
}

#[test]
fn reload_with_duplicate_tool_name_keeps_prior_snapshot() {
    let mut registry = Registry::empty();
    registry
        .reload(vec![simple_tool("alpha", None)], Vec::new(), default_server())
        .unwrap();

    let dup = vec![simple_tool("beta", None), simple_tool("beta", None)];
    let result = registry.reload(dup, Vec::new(), default_server());
    match result {
        Err(ConfigError::DuplicateTool { name }) => assert_eq!(name, "beta"),
        other => panic!("expected the duplicated tool name, got {other:?}"),
    }

    let env = EnvSnapshot { vars: vec![] };
    assert!(registry.get_tool("alpha", &env).is_some());
    assert!(registry.get_tool("beta", &env).is_none());
    assert_eq!(registry.list_tools(&env).len(), 1);
}

#[test]
fn reload_with_duplicate_prompt_name_keeps_prior_snapshot() {
    let mut registry = Registry::empty();
    let p = |name: &str| Prompt {
        name: name.to_string(),
        description: "d".to_string(),
        content: "c".to_string(),
    };
    registry
        .reload(Vec::new(), vec![p("one")], default_server())
        .unwrap();

    let result = registry.reload(Vec::new(), vec![p("two"), p("two")], default_server());
    match result {
        Err(ConfigError::DuplicatePrompt { name }) => assert_eq!(name, "two"),
        other => panic!("expected the duplicated prompt name, got {other:?}"),
    }

    assert!(registry.get_prompt("one").is_some());
    assert!(registry.get_prompt("two").is_none());
}

#[test]
fn reload_rejects_hostile_schema_constructs() {
    let mut registry = Registry::empty();
    let mut bad = simple_tool("bad", None);
    bad.input_schema = Json::Obj(vec![(
        "anyOf".to_string(),
        Json::Arr(vec![schema_obj("string")]),
    )]);
    let result = registry.reload(vec![bad], Vec::new(), default_server());
    match result {
        Err(ConfigError::InvalidSchema { tool, message }) => {
            assert_eq!(tool, "bad");
            assert_eq!(message, "schema contains forbidden key 'anyOf'");
        }
        other => panic!("expected a schema rejection, got {other:?}"),
    }
}

#[test]
fn schema_validation_rejects_each_forbidden_key() {
    for key in ["anyOf", "oneOf", "allOf", "$ref", "definitions"] {
        let schema = Json::Obj(vec![(key.to_string(), Json::Obj(Vec::new()))]);
        let rejection = validate_cursor_schema(&schema);
        assert_eq!(
            rejection,
            Err(format!("schema contains forbidden key '{key}'")),
            "{key} should be rejected"
        );
    }
    let type_array = Json::Obj(vec![(
        "type".to_string(),
        Json::Arr(vec![Json::Str("string".to_string())]),
    )]);
    assert_eq!(
        validate_cursor_schema(&type_array),
        Err("schema contains type array".to_string())
    );

    let nested_bad = Json::Obj(vec![(
        "properties".to_string(),
        Json::Obj(vec![(
            "x".to_string(),
            Json::Obj(vec![("$ref".to_string(), Json::Str("#/defs/x".to_string()))]),
        )]),
    )]);
    assert_eq!(
        validate_cursor_schema(&nested_bad),
        Err("schema contains forbidden key '$ref'".to_string())
    );

    let good = Json::Obj(vec![
        ("type".to_string(), Json::Str("object".to_string())),
        (
            "properties".to_string(),
            Json::Obj(vec![("name".to_string(), schema_obj("string"))]),
        ),
    ]);
    assert!(validate_cursor_schema(&good).is_ok());
}

#[test]
fn guards_allow_without_guards_is_true() {
    let env = EnvSnapshot { vars: vec![] };
    assert!(guards_allow(None, &env));
    let g = ToolGuards {
        requires_env_true: None,
    };
    assert!(guards_allow(Some(&g), &env));
}

#[test]
fn server_defaults_are_kept_until_a_load() {
    let registry = Registry::empty();
    assert_eq!(registry.server_name(), "odoo-rust-mcp");
    assert_eq!(registry.instructions(), "Odoo MCP server");
    assert_eq!(registry.protocol_version_default(), "2025-11-05");
}
