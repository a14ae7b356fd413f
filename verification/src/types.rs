//! Plain data carried between the orchestrator and its callers.

use vstd::prelude::*;

verus! {

/// A data payload: an identifier, free-form content, and string attributes.
/// Attributes are kept as key/value pairs; the orchestrator only carries them
/// through, it never inspects them.
pub struct DataPayload {
    pub id: String,
    pub content: String,
    pub attributes: Vec<(String, String)>,
}

/// The inbound processing request. The payload may be absent; the identifier
/// used downstream then defaults to the empty string.
pub struct ProcessRequest {
    pub payload: Option<DataPayload>,
}

/// Correlation metadata attached to every downstream request.
pub struct RequestMetadata {
    pub request_id: String,
    pub trace_id: String,
    pub caller_service: String,
    pub timestamp_ms: i64,
}

/// The request sent to the computer, except for its fixed numeric input
/// sequence, which the transport layer attaches: the orchestration logic
/// never reads those values.
pub struct ComputeRequest {
    pub metadata: RequestMetadata,
    pub operation: String,
}

/// The request sent to the validator: metadata, the inbound payload (cloned),
/// and a fixed list of validation rule names.
pub struct ValidationRequest {
    pub metadata: RequestMetadata,
    pub data: Option<DataPayload>,
    pub validation_rules: Vec<String>,
}

/// The aggregated outcome of a request: a success flag, a human-readable
/// message, and a numeric error code that this layer never sets.
pub struct ResponseStatus {
    pub success: bool,
    pub message: String,
    pub error_code: i32,
}

/// Per-request processing metrics.
pub struct ProcessingMetrics {
    pub processing_time_ms: i64,
    pub items_processed: i32,
    pub processor_id: String,
}

/// The full response to an inbound request.
pub struct ProcessResponse {
    pub status: ResponseStatus,
    pub result: DataPayload,
    pub metrics: ProcessingMetrics,
}

} // verus!
