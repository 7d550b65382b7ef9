//! Prompt definitions and the prompt reply payloads.

use odoo_mcp::json::Json;
use odoo_mcp::prompts::{PromptDef, default_prompts, get_prompt_result, list_prompts_result};
use odoo_mcp::registry::Prompt;

#[test]
fn test_prompt_def_creation() {
    let prompt = PromptDef {
        name: "odoo_intro",
        description: "Introduction to Odoo",
        content: "Odoo is an open-source business application suite",
    };

    assert_eq!(prompt.name, "odoo_intro");
    assert_eq!(prompt.description, "Introduction to Odoo");
    assert!(prompt.content.contains("Odoo"));
}

#[test]
fn test_prompt_struct() {
    let prompt = Prompt {
        name: "test_prompt".to_string(),
        description: "Test prompt description".to_string(),
        content: "Test content for prompt".to_string(),
    };

    assert_eq!(prompt.name, "test_prompt");
    assert_eq!(prompt.description, "Test prompt description");
    assert_eq!(prompt.content, "Test content for prompt");
}

#[test]
fn test_prompts_constant_not_empty() {
    assert!(!default_prompts().is_empty());
}

#[test]
fn test_prompts_have_required_fields() {
    for prompt in default_prompts().iter() {
        assert!(!prompt.name.is_empty());
        assert!(!prompt.description.is_empty());
        assert!(!prompt.content.is_empty());
    }
}

#[test]
fn test_specific_prompts_exist() {
    let prompt_names: Vec<String> = default_prompts().iter().map(|p| p.name.clone()).collect();

    assert!(
        prompt_names.contains(&"odoo_common_models".to_string()),
        "odoo_common_models prompt should exist"
    );
    assert!(
        prompt_names.contains(&"odoo_domain_filters".to_string()),
        "odoo_domain_filters prompt should exist"
    );
}

#[test]
fn test_prompt_to_struct_conversion() {
    let def = PromptDef {
        name: "test",
        description: "desc",
        content: "content",
    };

    let prompt = Prompt {
        name: def.name.to_string(),
        description: def.description.to_string(),
        content: def.content.to_string(),
    };

    assert_eq!(prompt.name, def.name);
    assert_eq!(prompt.description, def.description);
    assert_eq!(prompt.content, def.content);
}

#[test]
fn test_prompts_have_unique_names() {
    let names: Vec<String> = default_prompts().iter().map(|p| p.name.clone()).collect();
    let mut unique_names = names.clone();
    unique_names.sort();
    unique_names.dedup();

    assert_eq!(
        names.len(),
        unique_names.len(),
        "All prompt names should be unique"
    );
}

#[test]
fn test_prompt_content_length() {
    for prompt in default_prompts().iter() {
        assert!(
            prompt.content.len() > 10,
            "Prompt '{}' should have meaningful content",
            prompt.name
        );
    }
}

#[test]
fn test_prompts_constant_has_odoo_models() {
    let found = default_prompts().iter().any(|p| p.name == "odoo_common_models");
    assert!(found);
}

#[test]
fn test_prompts_constant_has_domain_filters() {
    let found = default_prompts().iter().any(|p| p.name == "odoo_domain_filters");
    assert!(found);
}

#[test]
fn test_default_prompts_not_empty() {
    let prompts = default_prompts();
    assert!(!prompts.is_empty());
    assert!(prompts.len() >= 2);
}

#[test]
fn test_default_prompts_have_content() {
    let prompts = default_prompts();
    for p in prompts {
        assert!(!p.name.is_empty());
        assert!(!p.description.is_empty());
        assert!(!p.content.is_empty());
    }
}

#[test]
fn test_list_prompts_result_format() {
    let prompts = vec![
        ("test_prompt".to_string(), "A test prompt".to_string()),
        ("another".to_string(), "Another prompt".to_string()),
    ];
    let result = list_prompts_result(&prompts);

    match result {
        Json::Obj(fields) => {
            assert_eq!(fields.len(), 1);
            assert_eq!(fields[0].0, "prompts");
            match &fields[0].1 {
                Json::Arr(items) => {
                    assert_eq!(items.len(), 2);
                    match &items[0] {
                        Json::Obj(entry) => {
                            assert_eq!(entry[0], ("name".to_string(), Json::Str("test_prompt".to_string())));
                            assert_eq!(
                                entry[1],
                                ("description".to_string(), Json::Str("A test prompt".to_string()))
                            );
                        }
                        _ => panic!("expected object entry"),
                    }
                }
                _ => panic!("expected prompts array"),
            }
        }
        _ => panic!("expected object"),
    }
}

#[test]
fn test_get_prompt_result_format() {
    let prompt = Prompt {
        name: "test".to_string(),
        description: "Test description".to_string(),
        content: "Test content here".to_string(),
    };
    let result = get_prompt_result(&prompt);

    match result {
        Json::Obj(fields) => {
            assert_eq!(fields[0], ("description".to_string(), Json::Str("Test description".to_string())));
            match &fields[1].1 {
                Json::Arr(messages) => {
                    assert_eq!(messages.len(), 1);
                    match &messages[0] {
                        Json::Obj(msg) => {
                            assert_eq!(msg[0], ("role".to_string(), Json::Str("user".to_string())));
                            match &msg[1].1 {
                                Json::Obj(content) => {
                                    assert_eq!(
                                        content[0],
                                        ("type".to_string(), Json::Str("text".to_string()))
                                    );
                                    assert_eq!(
                                        content[1],
                                        ("text".to_string(), Json::Str("Test content here".to_string()))
                                    );
                                }
                                _ => panic!("expected content object"),
                            }
                        }
                        _ => panic!("expected message object"),
                    }
                }
                _ => panic!("expected messages array"),
            }
        }
        _ => panic!("expected object"),
    }
}

#[test]
fn built_in_prompts_carry_their_descriptions() {
    let prompts = default_prompts();
    assert_eq!(prompts[0].description, "List of commonly used Odoo models");
    assert_eq!(prompts[1].description, "Guide for Odoo domain filter syntax");
    assert!(prompts[0]
        .content
        .contains("res.partner - Contacts/Customers/Vendors"));
    assert!(prompts[1].content.contains("not in"));
}
