//! The directive a poll response carries: what to render next and when to poll again.

use vstd::prelude::*;

verus! {

/// Status value in a response body that marks the documented server-side failure.
///
/// Every other status is treated as success; whether plain success is exactly 0
/// is left open by the service, so the orchestrator branches on this value alone.
pub const SERVER_ERROR_STATUS: u16 = 500;

/// Parsed body of one poll response. The orchestration core branches on
/// `status`, `error`, `image_url` and `refresh_rate`; the remaining fields are
/// pass-through data for other collaborators.
#[derive(Debug, PartialEq)]
pub struct DisplayResponse {
    /// Semantic result of the request; the transport status is ignored.
    pub status: u16,
    /// Error message, present only on failure.
    pub error: Option<String>,
    /// Where to fetch the bitmap. Absence on success is a contract violation.
    pub image_url: Option<String>,
    /// Name the service gives the image; not consumed by the core.
    pub filename: Option<String>,
    /// Seconds until the next poll; absence means the default interval.
    pub refresh_rate: Option<u64>,
    /// Firmware flags and target; pass-through, not consumed by the core.
    pub reset_firmware: bool,
    pub update_firmware: Option<bool>,
    pub firmware_url: Option<String>,
    /// Tag of a special device function; pass-through, not consumed by the core.
    pub special_function: Option<String>,
}

impl DisplayResponse {
    /// The body signals the documented server-side failure.
    pub open spec fn is_server_error(self) -> bool {
        self.status == SERVER_ERROR_STATUS
    }
}

} // verus!
