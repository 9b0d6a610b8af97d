//! Connector errors of the AppFS connector SDK.

use vstd::prelude::*;

verus! {

/// The version of the AppFS connector SDK surface.
pub const APPFS_CONNECTOR_SDK_VERSION: &'static str = "0.4.0";

/// The error code of an operation that the connector does not support.
pub const NOT_SUPPORTED: &'static str = "NOT_SUPPORTED";

/// The message of the error that a connector without app structure sync returns.
pub const STRUCTURE_SYNC_NOT_SUPPORTED_MESSAGE: &'static str =
    "app structure sync is not supported by this connector";

/// An error that a connector reports to the runtime.
#[derive(Debug, Clone, PartialEq, Eq)]
pub struct ConnectorError {
    pub code: String,
    pub message: String,
    pub retryable: bool,
    pub details: Option<String>,
}

/// The error of a connector that does not support app structure sync: code
/// `NOT_SUPPORTED`, not retryable, without details.
pub fn not_supported_structure_sync() -> (r: ConnectorError)
    ensures
        r.code@ == NOT_SUPPORTED@,
        r.message@ == STRUCTURE_SYNC_NOT_SUPPORTED_MESSAGE@,
        !r.retryable,
        r.details is None,
{
    ConnectorError {
        code: String::from_str(NOT_SUPPORTED),
        message: String::from_str(STRUCTURE_SYNC_NOT_SUPPORTED_MESSAGE),
        retryable: false,
        details: None,
    }
}

} // verus!
