//! Resource URI parsing and printing.

use odoo_mcp::resources::ResourceUri;

#[test]
fn test_parse_instances_uri() {
    let uri = ResourceUri::parse("odoo://instances").unwrap();
    assert_eq!(uri, ResourceUri::Instances);
}

#[test]
fn test_parse_models_uri() {
    let uri = ResourceUri::parse("odoo://prod/models").unwrap();
    assert_eq!(
        uri,
        ResourceUri::Models {
            instance: "prod".to_string()
        }
    );
}

#[test]
fn test_parse_metadata_uri() {
    let uri = ResourceUri::parse("odoo://prod/metadata/sale.order").unwrap();
    assert_eq!(
        uri,
        ResourceUri::Metadata {
            instance: "prod".to_string(),
            model: "sale.order".to_string()
        }
    );
}

#[test]
fn test_parse_invalid_scheme() {
    let result = ResourceUri::parse("http://example.com");
    assert!(result.is_err());
}

#[test]
fn test_parse_missing_resource_type() {
    let result = ResourceUri::parse("odoo://prod");
    assert!(result.is_err());
}

#[test]
fn test_parse_invalid_resource_type() {
    let result = ResourceUri::parse("odoo://prod/invalid");
    assert!(result.is_err());
}

#[test]
fn test_parse_metadata_missing_model() {
    let result = ResourceUri::parse("odoo://prod/metadata/");
    assert!(result.is_err());
}

#[test]
fn test_to_uri_instances() {
    let uri = ResourceUri::Instances;
    assert_eq!(uri.to_uri(), "odoo://instances");
}

#[test]
fn test_to_uri_models() {
    let uri = ResourceUri::Models {
        instance: "prod".to_string(),
    };
    assert_eq!(uri.to_uri(), "odoo://prod/models");
}

#[test]
fn test_to_uri_metadata() {
    let uri = ResourceUri::Metadata {
        instance: "prod".to_string(),
        model: "sale.order".to_string(),
    };
    assert_eq!(uri.to_uri(), "odoo://prod/metadata/sale.order");
}

#[test]
fn test_roundtrip_instances() {
    let original = "odoo://instances";
    let parsed = ResourceUri::parse(original).unwrap();
    assert_eq!(parsed.to_uri(), original);
}

#[test]
fn test_roundtrip_models() {
    let original = "odoo://production/models";
    let parsed = ResourceUri::parse(original).unwrap();
    assert_eq!(parsed.to_uri(), original);
}

#[test]
fn test_roundtrip_metadata() {
    let original = "odoo://staging/metadata/account.invoice";
    let parsed = ResourceUri::parse(original).unwrap();
    assert_eq!(parsed.to_uri(), original);
}

#[test]
fn test_metadata_with_special_chars() {
    let uri = "odoo://prod/metadata/sale.order.line";
    let parsed = ResourceUri::parse(uri).unwrap();
    assert_eq!(parsed.to_uri(), uri);
}

#[test]
fn test_parse_models_hyphenated_instance() {
    let uri = ResourceUri::parse("odoo://prod-db/models").unwrap();
    assert_eq!(
        uri,
        ResourceUri::Models {
            instance: "prod-db".to_string()
        }
    );
}

#[test]
fn test_parse_metadata_underscore_instance() {
    let uri = ResourceUri::parse("odoo://prod_db/metadata/res.partner").unwrap();
    assert_eq!(
        uri,
        ResourceUri::Metadata {
            instance: "prod_db".to_string(),
            model: "res.partner".to_string()
        }
    );
}

#[test]
fn test_parse_metadata_complex_model_name() {
    let uri = ResourceUri::parse("odoo://prod/metadata/account.invoice.line.tax").unwrap();
    assert_eq!(
        uri,
        ResourceUri::Metadata {
            instance: "prod".to_string(),
            model: "account.invoice.line.tax".to_string()
        }
    );
}

#[test]
fn test_parse_empty_string() {
    let result = ResourceUri::parse("");
    assert!(result.is_err());
}

#[test]
fn test_parse_just_odoo_prefix() {
    let result = ResourceUri::parse("odoo://");
    assert!(result.is_err());
}

#[test]
fn test_parse_case_sensitive_scheme() {
    let result = ResourceUri::parse("ODOO://instances");
    assert!(result.is_err());
}

#[test]
fn test_parse_case_sensitive_instances() {
    let result = ResourceUri::parse("odoo://Instances");
    assert!(result.is_err());
}

#[test]
fn test_parse_whitespace_in_uri() {
    let result = ResourceUri::parse("odoo://prod /models");
    match result {
        Ok(ResourceUri::Models { instance }) => {
            assert_eq!(instance, "prod ");
        }
        _ => panic!("Expected Models variant"),
    }
}

#[test]
fn test_parse_double_slash_in_model() {
    let result = ResourceUri::parse("odoo://prod/metadata/model//name");
    match result {
        Ok(ResourceUri::Metadata { model, .. }) => {
            assert_eq!(model, "model//name");
        }
        _ => panic!("Expected Metadata variant"),
    }
}

#[test]
fn test_resource_uri_debug() {
    let uri = ResourceUri::Instances;
    let debug_str = format!("{:?}", uri);
    assert!(debug_str.contains("Instances"));
}

#[test]
fn test_resource_uri_clone() {
    let uri1 = ResourceUri::Metadata {
        instance: "prod".to_string(),
        model: "sale.order".to_string(),
    };
    let uri2 = uri1.clone();
    assert_eq!(uri1, uri2);
}

#[test]
fn test_resource_uri_eq() {
    let uri1 = ResourceUri::Models {
        instance: "prod".to_string(),
    };
    let uri2 = ResourceUri::Models {
        instance: "prod".to_string(),
    };
    assert_eq!(uri1, uri2);
}

#[test]
fn test_resource_uri_ne() {
    let uri1 = ResourceUri::Models {
        instance: "prod".to_string(),
    };
    let uri2 = ResourceUri::Models {
        instance: "staging".to_string(),
    };
    assert_ne!(uri1, uri2);
}

#[test]
fn test_multiple_metadata_calls() {
    let uri1 = "odoo://prod/metadata/sale.order";
    let uri2 = "odoo://staging/metadata/sale.order";

    let parsed1 = ResourceUri::parse(uri1).unwrap();
    let parsed2 = ResourceUri::parse(uri2).unwrap();

    assert_ne!(parsed1, parsed2);
    assert_eq!(parsed1.to_uri(), uri1);
    assert_eq!(parsed2.to_uri(), uri2);
}

#[test]
fn test_numeric_instance_name() {
    let uri = ResourceUri::parse("odoo://123/models").unwrap();
    match uri {
        ResourceUri::Models { instance } => {
            assert_eq!(instance, "123");
        }
        _ => panic!("Expected Models variant"),
    }
}

#[test]
fn test_alphanumeric_model_name() {
    let uri = ResourceUri::parse("odoo://prod/metadata/model123v2").unwrap();
    match uri {
        ResourceUri::Metadata { model, .. } => {
            assert_eq!(model, "model123v2");
        }
        _ => panic!("Expected Metadata variant"),
    }
}

#[test]
fn test_parse_models_extra_slash() {
    let result = ResourceUri::parse("odoo://prod/models/");
    assert!(result.is_err());
}

#[test]
fn test_all_resource_types_to_uri() {
    let uris = vec![
        ("odoo://instances", ResourceUri::Instances),
        (
            "odoo://prod/models",
            ResourceUri::Models {
                instance: "prod".to_string(),
            },
        ),
        (
            "odoo://prod/metadata/res.partner",
            ResourceUri::Metadata {
                instance: "prod".to_string(),
                model: "res.partner".to_string(),
            },
        ),
    ];

    for (original, parsed) in uris {
        assert_eq!(parsed.to_uri(), original);
    }
}

#[test]
fn instance_with_separator_does_not_round_trip() {
    // The grammar splits on the first path separator, so an instance name
    // holding one cannot survive printing and reparsing.
    let printed = ResourceUri::Models {
        instance: "a/b".to_string(),
    }
    .to_uri();
    assert_eq!(printed, "odoo://a/b/models");
    assert!(ResourceUri::parse(&printed).is_err());
}

#[test]
fn rejection_messages_carry_the_offending_uri() {
    match ResourceUri::parse("http://example.com") {
        Err(m) => assert_eq!(
            m,
            "Invalid URI scheme: expected 'odoo://', got 'http://example.com'"
        ),
        _ => panic!("wrong scheme must be rejected"),
    }
    match ResourceUri::parse("odoo://prod") {
        Err(m) => assert_eq!(m, "Invalid resource URI: odoo://prod"),
        _ => panic!("a bare instance must be rejected"),
    }
    match ResourceUri::parse("odoo://prod/invalid") {
        Err(m) => assert_eq!(m, "Invalid resource type in URI: odoo://prod/invalid"),
        _ => panic!("an unknown resource type must be rejected"),
    }
}
