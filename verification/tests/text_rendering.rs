//! Decimal rendering, version parsing details, and the seeded environment
//! template.

use odoo_mcp::config::{generate_default_env_template, OdooAuthMode, OdooInstanceConfig};
use odoo_mcp::json::Json;
use odoo_mcp::strutil::{i64_to_string, u64_to_string};

fn versioned(version: &str) -> OdooInstanceConfig {
    OdooInstanceConfig {
        url: "http://localhost".to_string(),
        db: Some("db".to_string()),
        api_key: Some("key".to_string()),
        username: None,
        password: None,
        version: Some(version.to_string()),
        timeout_ms: None,
        max_retries: None,
        extra: Vec::new(),
    }
}

#[test]
fn decimal_rendering_matches_std() {
    for n in [0u64, 1, 9, 10, 99, 100, 12345, u64::MAX] {
        assert_eq!(u64_to_string(n), n.to_string());
    }
    for n in [0i64, 7, -7, -10, 250, i64::MAX, i64::MIN] {
        assert_eq!(i64_to_string(n), n.to_string());
    }
}

#[test]
fn dotted_versions_use_their_major_part() {
    // An explicit version below nineteen selects the legacy dialect even
    // when a key is configured.
    assert_eq!(versioned("18.04").auth_mode(), OdooAuthMode::Password);
    assert_eq!(versioned("19.1").auth_mode(), OdooAuthMode::ApiKey);
    // An unparsable version falls through to the credential rule.
    assert_eq!(versioned("stable").auth_mode(), OdooAuthMode::ApiKey);
}

#[test]
fn env_template_points_at_the_config_directory() {
    let t = generate_default_env_template("/home/someone/.config/odoo-rust-mcp");
    assert!(t.contains("MCP_TOOLS_JSON=/home/someone/.config/odoo-rust-mcp/tools.json"));
    assert!(t.contains("MCP_PROMPTS_JSON=/home/someone/.config/odoo-rust-mcp/prompts.json"));
    assert!(t.contains("MCP_SERVER_JSON=/home/someone/.config/odoo-rust-mcp/server.json"));
    assert!(t.contains("CONFIG_UI_USERNAME=admin"));
}

#[test]
fn serializer_renders_empty_containers_and_keys() {
    assert_eq!(Json::Obj(Vec::new()).to_text(), "{}");
    assert_eq!(Json::Arr(Vec::new()).to_text(), "[]");
    let doc = Json::Obj(vec![(String::new(), Json::Null)]);
    assert_eq!(doc.to_text(), "{\"\":null}");
}

#[test]
fn pointer_empty_token_names_the_empty_key() {
    let doc = Json::Obj(vec![(String::new(), Json::Int(3))]);
    assert_eq!(doc.pointer("/"), Some(&Json::Int(3)));
}
