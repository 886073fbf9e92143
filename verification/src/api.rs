//! Parameters of the audit endpoints.

use vstd::prelude::*;

verus! {

/// Query parameters of the audit endpoints.
#[derive(Debug, Clone, Copy, PartialEq, Eq, Structural)]
pub struct AuditQueryParams {
    /// Whether to pass the cache by and fetch a new audit.
    pub refresh: bool,
}

impl Default for AuditQueryParams {
    fn default() -> (params: AuditQueryParams)
        ensures
            !params.refresh,
    {
        AuditQueryParams { refresh: false }
    }
}

} // verus!
