//! Backend configuration: URL normalization and authentication mode
//! selection.

use odoo_mcp::config::{
    resolve_instance, EnvConfigError, GlobalCreds, OdooAuthMode, OdooEnvConfig,
    OdooInstanceConfig, normalize_url,
};

fn plain_config(url: &str, api_key: Option<&str>, version: Option<&str>) -> OdooInstanceConfig {
    OdooInstanceConfig {
        url: url.to_string(),
        db: None,
        api_key: api_key.map(|s| s.to_string()),
        username: None,
        password: None,
        version: version.map(|s| s.to_string()),
        timeout_ms: None,
        max_retries: None,
        extra: Vec::new(),
    }
}

#[test]
fn test_normalize_url_with_scheme() {
    assert_eq!(normalize_url("https://example.com"), "https://example.com");
    assert_eq!(
        normalize_url("http://localhost:8069"),
        "http://localhost:8069"
    );
}

#[test]
fn test_normalize_url_without_scheme() {
    assert_eq!(normalize_url("localhost:8069"), "http://localhost:8069");
    assert_eq!(normalize_url("example.com"), "http://example.com");
}

#[test]
fn test_normalize_url_with_whitespace() {
    assert_eq!(normalize_url("  localhost:8069  "), "http://localhost:8069");
}

#[test]
fn test_auth_mode_api_key_default() {
    let config = plain_config("http://localhost", Some("test-key"), None);
    assert_eq!(config.auth_mode(), OdooAuthMode::ApiKey);
}

#[test]
fn test_auth_mode_password_by_version() {
    let config = OdooInstanceConfig {
        url: "http://localhost".to_string(),
        db: Some("mydb".to_string()),
        api_key: None,
        username: Some("admin".to_string()),
        password: Some("admin".to_string()),
        version: Some("18".to_string()),
        timeout_ms: None,
        max_retries: None,
        extra: Vec::new(),
    };
    assert_eq!(config.auth_mode(), OdooAuthMode::Password);
}

#[test]
fn test_auth_mode_password_by_credentials() {
    let config = OdooInstanceConfig {
        url: "http://localhost".to_string(),
        db: Some("mydb".to_string()),
        api_key: None,
        username: Some("admin".to_string()),
        password: Some("admin".to_string()),
        version: None,
        timeout_ms: None,
        max_retries: None,
        extra: Vec::new(),
    };
    assert_eq!(config.auth_mode(), OdooAuthMode::Password);
}

#[test]
fn test_auth_mode_api_key_version_19() {
    let config = plain_config("http://localhost", Some("test-key"), Some("19"));
    assert_eq!(config.auth_mode(), OdooAuthMode::ApiKey);
}

#[test]
fn test_auth_mode_selects_correct_client() {
    let modern_cfg = OdooInstanceConfig {
        url: "http://localhost:8069".to_string(),
        db: Some("test".to_string()),
        api_key: Some("test-key".to_string()),
        username: None,
        password: None,
        version: Some("19".to_string()),
        timeout_ms: None,
        max_retries: None,
        extra: Vec::new(),
    };
    assert_eq!(modern_cfg.auth_mode(), OdooAuthMode::ApiKey);

    let legacy_cfg = OdooInstanceConfig {
        url: "http://localhost:8069".to_string(),
        db: Some("test".to_string()),
        api_key: None,
        username: Some("admin".to_string()),
        password: Some("admin".to_string()),
        version: Some("18".to_string()),
        timeout_ms: None,
        max_retries: None,
        extra: Vec::new(),
    };
    assert_eq!(legacy_cfg.auth_mode(), OdooAuthMode::Password);
}

#[test]
fn test_odoo_client_is_legacy_modern() {
    // The dialect choice is decided by the configuration's auth mode; the
    // selection itself is covered by the auth-mode tests above.
}

#[test]
fn test_odoo_instance_config_creation() {
    let config = OdooInstanceConfig {
        url: "http://localhost:8069".to_string(),
        db: Some("test_db".to_string()),
        api_key: Some("test_key".to_string()),
        username: None,
        password: None,
        version: Some("19".to_string()),
        timeout_ms: Some(30_000),
        max_retries: Some(3),
        extra: Vec::new(),
    };

    assert_eq!(config.url, "http://localhost:8069");
    assert_eq!(config.db, Some("test_db".to_string()));
    assert_eq!(config.api_key, Some("test_key".to_string()));
    assert_eq!(config.timeout_ms, Some(30_000));
    assert_eq!(config.max_retries, Some(3));
}

#[test]
fn test_odoo_instance_config_optional_fields() {
    let config = OdooInstanceConfig {
        url: "http://localhost:8069".to_string(),
        db: None,
        api_key: None,
        username: None,
        password: None,
        version: None,
        timeout_ms: None,
        max_retries: None,
        extra: Vec::new(),
    };

    assert_eq!(config.db, None);
    assert_eq!(config.api_key, None);
    assert_eq!(config.timeout_ms, None);
    assert_eq!(config.max_retries, None);
}

#[test]
fn test_odoo_env_config_creation() {
    let mut instances = Vec::new();
    instances.push((
        "prod".to_string(),
        OdooInstanceConfig {
            url: "https://prod.example.com".to_string(),
            db: Some("production".to_string()),
            api_key: Some("prod_key".to_string()),
            username: None,
            password: None,
            version: Some("19".to_string()),
            timeout_ms: Some(30_000),
            max_retries: Some(5),
            extra: Vec::new(),
        },
    ));

    let config = OdooEnvConfig { instances };

    assert!(config.instances.iter().any(|(n, _)| n == "prod"));
    let prod = &config.instances.iter().find(|(n, _)| n == "prod").unwrap().1;
    assert_eq!(prod.url, "https://prod.example.com");
}

#[test]
fn test_odoo_env_config_multiple_instances() {
    let mut instances = Vec::new();
    instances.push((
        "dev".to_string(),
        plain_config("http://dev.local:8069", Some("dev_key"), Some("19")),
    ));
    instances.push((
        "staging".to_string(),
        plain_config("http://staging.local:8069", Some("staging_key"), Some("19")),
    ));

    let config = OdooEnvConfig { instances };

    assert_eq!(config.instances.len(), 2);
    assert!(config.instances.iter().any(|(n, _)| n == "staging"));
}

#[test]
fn test_auth_mode_password_with_credentials() {
    let config = OdooInstanceConfig {
        url: "http://localhost:8069".to_string(),
        db: Some("db".to_string()),
        api_key: None,
        username: Some("user".to_string()),
        password: Some("pass".to_string()),
        version: None,
        timeout_ms: None,
        max_retries: None,
        extra: Vec::new(),
    };
    assert_eq!(config.auth_mode(), OdooAuthMode::Password);
}

#[test]
fn odoo_config_test_auth_mode_api_key_default() {
    let config = plain_config("https://example.odoo.com", Some("token123"), Some("19"));
    assert_eq!(config.auth_mode(), OdooAuthMode::ApiKey);
}

#[test]
fn resolution_fills_credentials_from_the_globals() {
    let globals = GlobalCreds {
        api_key: Some("global-key".to_string()),
        username: Some("admin".to_string()),
        password: Some("pw".to_string()),
        version: None,
    };

    let mut cfg = plain_config("localhost:8069", Some("   "), None);
    resolve_instance("prod", &mut cfg, &globals).unwrap();
    assert_eq!(cfg.url, "http://localhost:8069");
    assert_eq!(cfg.api_key, Some("global-key".to_string()));

    let mut cfg = plain_config("http://h", Some("own-key"), None);
    resolve_instance("prod", &mut cfg, &globals).unwrap();
    assert_eq!(cfg.api_key, Some("own-key".to_string()));

    let mut legacy = plain_config("http://h", None, Some("16"));
    legacy.db = Some("mydb".to_string());
    resolve_instance("old", &mut legacy, &globals).unwrap();
    assert_eq!(legacy.username, Some("admin".to_string()));
    assert_eq!(legacy.password, Some("pw".to_string()));

    let mut no_db = plain_config("http://h", None, Some("16"));
    no_db.db = None;
    match resolve_instance("old", &mut no_db, &globals) {
        Err(EnvConfigError::MissingDb { instance }) => assert_eq!(instance, "old"),
        other => panic!("expected the missing database fault, got {other:?}"),
    }

    let empty = GlobalCreds {
        api_key: None,
        username: None,
        password: None,
        version: None,
    };
    let mut keyless = plain_config("http://h", None, None);
    match resolve_instance("prod", &mut keyless, &empty) {
        Err(EnvConfigError::MissingApiKey { instance }) => assert_eq!(instance, "prod"),
        other => panic!("expected the missing key fault, got {other:?}"),
    }
}
