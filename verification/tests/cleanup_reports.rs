//! The cleanup workflows' option and report types.

use chrono::Utc;
use odoo_mcp::cleanup::{
    CleanupOptions, CleanupReport, CleanupReportSummary, DeepCleanupDetail, DeepCleanupOptions,
    DeepCleanupReport, DeepCleanupSummary,
};

fn zero_deep_summary() -> DeepCleanupSummary {
    DeepCleanupSummary {
        partners_removed: 0,
        sales_orders_removed: 0,
        invoices_removed: 0,
        purchase_orders_removed: 0,
        stock_moves_removed: 0,
        documents_removed: 0,
        contacts_removed: 0,
        leads_removed: 0,
        opportunities_removed: 0,
        projects_removed: 0,
        tasks_removed: 0,
        attendees_removed: 0,
        events_removed: 0,
        journals_removed: 0,
        accounts_removed: 0,
        products_removed: 0,
        stock_locations_removed: 0,
        warehouses_removed: 0,
        employees_removed: 0,
        departments_removed: 0,
        logs_and_attachments: 0,
        total_records_removed: 0,
    }
}

#[test]
fn test_deep_cleanup_summary_zero_values() {
    let summary = zero_deep_summary();
    assert_eq!(summary.total_records_removed, 0);
}

#[test]
fn test_deep_cleanup_options_creation() {
    let options = DeepCleanupOptions {
        dry_run: Some(true),
        keep_company_defaults: Some(true),
        keep_user_accounts: Some(false),
        keep_menus: Some(true),
        keep_groups: Some(false),
    };

    assert_eq!(options.dry_run, Some(true));
    assert_eq!(options.keep_company_defaults, Some(true));
    assert_eq!(options.keep_user_accounts, Some(false));
}

#[test]
fn cleanup_deep_test_deep_cleanup_options_defaults() {
    let options = DeepCleanupOptions {
        dry_run: None,
        keep_company_defaults: None,
        keep_user_accounts: None,
        keep_menus: None,
        keep_groups: None,
    };

    assert!(options.dry_run.is_none());
    assert!(options.keep_company_defaults.is_none());
}

#[test]
fn cleanup_deep_test_deep_cleanup_report_creation() {
    let summary = DeepCleanupSummary {
        partners_removed: 100,
        sales_orders_removed: 50,
        invoices_removed: 30,
        purchase_orders_removed: 20,
        stock_moves_removed: 15,
        documents_removed: 10,
        contacts_removed: 5,
        leads_removed: 0,
        opportunities_removed: 0,
        projects_removed: 0,
        tasks_removed: 0,
        attendees_removed: 0,
        events_removed: 0,
        journals_removed: 0,
        accounts_removed: 0,
        products_removed: 0,
        stock_locations_removed: 0,
        warehouses_removed: 0,
        employees_removed: 0,
        departments_removed: 0,
        logs_and_attachments: 500,
        total_records_removed: 730,
    };

    let report = DeepCleanupReport {
        success: true,
        timestamp: "2026-01-27T00:00:00Z".to_string(),
        summary,
        details: vec![],
        warnings: vec![],
        errors: vec![],
        dry_run: true,
        default_data_retained: vec![],
    };

    assert!(report.success);
    assert_eq!(report.summary.total_records_removed, 730);
    assert!(report.dry_run);
}

#[test]
fn test_deep_cleanup_detail() {
    let detail = DeepCleanupDetail {
        model: "res.partner".to_string(),
        records_removed: 42,
        details: "Removed 42 partner records".to_string(),
        status: "success".to_string(),
    };

    assert_eq!(detail.model, "res.partner");
    assert_eq!(detail.records_removed, 42);
    assert_eq!(detail.status, "success");
}

#[test]
fn cleanup_types_test_deep_cleanup_options_defaults() {
    let options = DeepCleanupOptions {
        dry_run: Some(true),
        keep_company_defaults: Some(true),
        keep_user_accounts: Some(true),
        keep_menus: Some(false),
        keep_groups: Some(false),
    };

    assert_eq!(options.dry_run, Some(true));
    assert_eq!(options.keep_company_defaults, Some(true));
    assert_eq!(options.keep_user_accounts, Some(true));
    assert_eq!(options.keep_menus, Some(false));
    assert_eq!(options.keep_groups, Some(false));
}

#[test]
fn test_deep_cleanup_options_all_none() {
    let options = DeepCleanupOptions {
        dry_run: None,
        keep_company_defaults: None,
        keep_user_accounts: None,
        keep_menus: None,
        keep_groups: None,
    };

    assert_eq!(options.dry_run, None);
    assert_eq!(options.keep_company_defaults, None);
}

#[test]
fn test_deep_cleanup_summary_creation() {
    let summary = DeepCleanupSummary {
        partners_removed: 10,
        sales_orders_removed: 5,
        invoices_removed: 15,
        purchase_orders_removed: 3,
        stock_moves_removed: 20,
        documents_removed: 0,
        contacts_removed: 8,
        leads_removed: 12,
        opportunities_removed: 4,
        projects_removed: 2,
        tasks_removed: 18,
        attendees_removed: 25,
        events_removed: 6,
        journals_removed: 1,
        accounts_removed: 0,
        products_removed: 0,
        stock_locations_removed: 0,
        warehouses_removed: 0,
        employees_removed: 0,
        departments_removed: 0,
        logs_and_attachments: 50,
        total_records_removed: 179,
    };

    assert_eq!(summary.partners_removed, 10);
    assert_eq!(summary.sales_orders_removed, 5);
    assert_eq!(summary.total_records_removed, 179);
}

#[test]
fn test_deep_cleanup_detail_success() {
    let detail = DeepCleanupDetail {
        model: "res.partner".to_string(),
        records_removed: 15,
        details: "Removed 15 partners".to_string(),
        status: "success".to_string(),
    };

    assert_eq!(detail.model, "res.partner");
    assert_eq!(detail.records_removed, 15);
    assert_eq!(detail.status, "success");
}

#[test]
fn test_deep_cleanup_detail_warning() {
    let detail = DeepCleanupDetail {
        model: "account.account".to_string(),
        records_removed: 0,
        details: "Could not remove accounts with active balance".to_string(),
        status: "warning".to_string(),
    };

    assert_eq!(detail.status, "warning");
    assert_eq!(detail.records_removed, 0);
}

#[test]
fn test_deep_cleanup_detail_error() {
    let detail = DeepCleanupDetail {
        model: "res.users".to_string(),
        records_removed: 0,
        details: "Cannot remove admin user".to_string(),
        status: "error".to_string(),
    };

    assert_eq!(detail.status, "error");
}

#[test]
fn test_deep_cleanup_report_creation() {
    let summary = DeepCleanupSummary {
        partners_removed: 5,
        sales_orders_removed: 0,
        invoices_removed: 0,
        purchase_orders_removed: 0,
        stock_moves_removed: 0,
        documents_removed: 0,
        contacts_removed: 0,
        leads_removed: 0,
        opportunities_removed: 0,
        projects_removed: 0,
        tasks_removed: 0,
        attendees_removed: 0,
        events_removed: 0,
        journals_removed: 0,
        accounts_removed: 0,
        products_removed: 0,
        stock_locations_removed: 0,
        warehouses_removed: 0,
        employees_removed: 0,
        departments_removed: 0,
        logs_and_attachments: 0,
        total_records_removed: 5,
    };

    let report = DeepCleanupReport {
        success: true,
        timestamp: Utc::now().to_rfc3339(),
        summary,
        details: vec![],
        warnings: vec![],
        errors: vec![],
        dry_run: false,
        default_data_retained: vec![],
    };

    assert!(report.success);
    assert!(!report.dry_run);
    assert!(report.details.is_empty());
}

#[test]
fn test_deep_cleanup_report_with_warnings() {
    let report = DeepCleanupReport {
        success: false,
        timestamp: Utc::now().to_rfc3339(),
        summary: zero_deep_summary(),
        details: vec![],
        warnings: vec!["Some records could not be removed".to_string()],
        errors: vec!["Critical error occurred".to_string()],
        dry_run: true,
        default_data_retained: vec!["company_1".to_string()],
    };

    assert!(!report.success);
    assert!(report.dry_run);
    assert_eq!(report.warnings.len(), 1);
    assert_eq!(report.errors.len(), 1);
    assert_eq!(report.default_data_retained.len(), 1);
}

#[test]
fn test_deep_cleanup_report_dry_run() {
    let summary = DeepCleanupSummary {
        partners_removed: 100,
        sales_orders_removed: 50,
        invoices_removed: 75,
        purchase_orders_removed: 25,
        stock_moves_removed: 150,
        documents_removed: 0,
        contacts_removed: 30,
        leads_removed: 40,
        opportunities_removed: 20,
        projects_removed: 5,
        tasks_removed: 60,
        attendees_removed: 80,
        events_removed: 15,
        journals_removed: 2,
        accounts_removed: 0,
        products_removed: 0,
        stock_locations_removed: 0,
        warehouses_removed: 0,
        employees_removed: 0,
        departments_removed: 0,
        logs_and_attachments: 200,
        total_records_removed: 752,
    };

    let report = DeepCleanupReport {
        success: true,
        timestamp: Utc::now().to_rfc3339(),
        summary,
        details: vec![],
        warnings: vec![],
        errors: vec![],
        dry_run: true,
        default_data_retained: vec!["company_1".to_string(), "default_warehouse".to_string()],
    };

    assert!(report.dry_run);
    assert_eq!(report.summary.total_records_removed, 752);
    assert_eq!(report.default_data_retained.len(), 2);
}

#[test]
fn test_cleanup_report_new() {
    let report = CleanupReport {
        success: true,
        timestamp: "2026-01-22T00:00:00Z".to_string(),
        summary: CleanupReportSummary {
            test_data_removed: 0,
            inactive_records_archived: 0,
            drafts_cleaned: 0,
            orphan_records_removed: 0,
            logs_cleaned: 0,
            attachments_cleaned: 0,
            cache_cleared: false,
            total_records_processed: 0,
        },
        details: vec![],
        warnings: vec!["warning1".to_string()],
        errors: vec![],
        dry_run: true,
    };

    assert!(report.success);
    assert!(report.dry_run);
    assert_eq!(report.warnings.len(), 1);
    assert!(report.errors.is_empty());
}

#[test]
fn test_deep_cleanup_report_new() {
    let report = DeepCleanupReport {
        success: true,
        timestamp: "2026-01-22T00:00:00Z".to_string(),
        summary: zero_deep_summary(),
        details: vec![],
        warnings: vec![],
        errors: vec![],
        dry_run: true,
        default_data_retained: vec![],
    };

    assert!(report.success);
    assert!(report.dry_run);
    assert!(report.default_data_retained.is_empty());
}

#[test]
fn test_cleanup_options_all_flags_set() {
    let options = CleanupOptions {
        remove_test_data: Some(false),
        remove_inactive_records: Some(true),
        cleanup_drafts: Some(false),
        archive_old_records: Some(true),
        optimize_database: Some(false),
        days_threshold: Some(365),
        dry_run: Some(false),
    };
    assert_eq!(options.remove_test_data, Some(false));
    assert_eq!(options.remove_inactive_records, Some(true));
    assert_eq!(options.cleanup_drafts, Some(false));
    assert_eq!(options.archive_old_records, Some(true));
    assert_eq!(options.optimize_database, Some(false));
    assert_eq!(options.days_threshold, Some(365));
    assert_eq!(options.dry_run, Some(false));
}
