//! The report and option types of the two bulk cleanup workflows. The
//! workflows themselves are sequences of generic backend calls and live
//! with the caller; these types are their interface.

use vstd::prelude::*;

verus! {

/// What the full cleanup is asked to do.
#[derive(Debug, Clone)]
pub struct CleanupOptions {
    pub remove_test_data: Option<bool>,
    pub remove_inactive_records: Option<bool>,
    pub cleanup_drafts: Option<bool>,
    pub archive_old_records: Option<bool>,
    pub optimize_database: Option<bool>,
    pub days_threshold: Option<i64>,
    pub dry_run: Option<bool>,
}

/// Counters of the full cleanup.
#[derive(Debug, Clone)]
pub struct CleanupReportSummary {
    pub test_data_removed: i64,
    pub inactive_records_archived: i64,
    pub drafts_cleaned: i64,
    pub orphan_records_removed: i64,
    pub logs_cleaned: i64,
    pub attachments_cleaned: i64,
    pub cache_cleared: bool,
    pub total_records_processed: i64,
}

/// One step of a cleanup run.
#[derive(Debug, Clone)]
pub struct CleanupDetail {
    pub operation: String,
    pub model: String,
    pub records_affected: i64,
    pub details: String,
    pub status: String,
}

/// The outcome of a full cleanup run.
#[derive(Debug, Clone)]
pub struct CleanupReport {
    pub success: bool,
    pub timestamp: String,
    pub summary: CleanupReportSummary,
    pub details: Vec<CleanupDetail>,
    pub warnings: Vec<String>,
    pub errors: Vec<String>,
    pub dry_run: bool,
}

/// What the deep cleanup is asked to keep.
#[derive(Debug, Clone)]
pub struct DeepCleanupOptions {
    pub dry_run: Option<bool>,
    pub keep_company_defaults: Option<bool>,
    pub keep_user_accounts: Option<bool>,
    pub keep_menus: Option<bool>,
    pub keep_groups: Option<bool>,
}

/// Counters of the deep cleanup, by record family.
#[derive(Debug, Clone)]
pub struct DeepCleanupSummary {
    pub partners_removed: i64,
    pub sales_orders_removed: i64,
    pub invoices_removed: i64,
    pub purchase_orders_removed: i64,
    pub stock_moves_removed: i64,
    pub documents_removed: i64,
    pub contacts_removed: i64,
    pub leads_removed: i64,
    pub opportunities_removed: i64,
    pub projects_removed: i64,
    pub tasks_removed: i64,
    pub attendees_removed: i64,
    pub events_removed: i64,
    pub journals_removed: i64,
    pub accounts_removed: i64,
    pub products_removed: i64,
    pub stock_locations_removed: i64,
    pub warehouses_removed: i64,
    pub employees_removed: i64,
    pub departments_removed: i64,
    pub logs_and_attachments: i64,
    pub total_records_removed: i64,
}

/// One step of a deep cleanup run.
#[derive(Debug, Clone)]
pub struct DeepCleanupDetail {
    pub model: String,
    pub records_removed: i64,
    pub details: String,
    pub status: String,
}

/// The outcome of a deep cleanup run.
#[derive(Debug, Clone)]
pub struct DeepCleanupReport {
    pub success: bool,
    pub timestamp: String,
    pub summary: DeepCleanupSummary,
    pub details: Vec<DeepCleanupDetail>,
    pub warnings: Vec<String>,
    pub errors: Vec<String>,
    pub dry_run: bool,
    pub default_data_retained: Vec<String>,
}

} // verus!
