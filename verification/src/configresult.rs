//! The uniform outcome type of configuration-management operations.

use vstd::prelude::*;

verus! {

/// Outcome of one configuration operation: success or failure with a
/// message, an optional warning, and whether a rollback was performed.
#[derive(Debug, Clone)]
pub struct ConfigResult {
    pub success: bool,
    pub message: String,
    pub warning: Option<String>,
    pub rollback_performed: bool,
}

impl ConfigResult {
    /// A successful outcome.
    pub fn ok(message: &str) -> (r: ConfigResult)
        ensures
            r.success,
            r.message@ == message@,
            r.warning is None,
            !r.rollback_performed,
    {
        ConfigResult {
            success: true,
            message: message.to_owned(),
            warning: None,
            rollback_performed: false,
        }
    }

    /// A failed outcome.
    pub fn error(message: &str) -> (r: ConfigResult)
        ensures
            !r.success,
            r.message@ == message@,
            r.warning is None,
            !r.rollback_performed,
    {
        ConfigResult {
            success: false,
            message: message.to_owned(),
            warning: None,
            rollback_performed: false,
        }
    }

    /// The same outcome with this warning; a later warning replaces an
    /// earlier one.
    pub fn with_warning(self, warning: &str) -> (r: ConfigResult)
        ensures
            r.success == self.success,
            r.message == self.message,
            r.warning matches Some(w) && w@ == warning@,
            r.rollback_performed == self.rollback_performed,
    {
        ConfigResult { warning: Some(warning.to_owned()), ..self }
    }

    /// The same outcome marked as rolled back.
    pub fn with_rollback(self) -> (r: ConfigResult)
        ensures
            r.success == self.success,
            r.message == self.message,
            r.warning == self.warning,
            r.rollback_performed,
    {
        ConfigResult { rollback_performed: true, ..self }
    }
}

} // verus!
