//! Assembly of the aggregated response from the two downstream outcomes.
//!
//! The orchestration of one inbound request is a strictly linear sequence:
//! extract the payload identifier, wait a short simulated processing delay,
//! call the computer, call the validator, then fold both outcomes and the
//! elapsed time into one response. The waiting and the calls themselves are
//! the transport layer's work; everything that decides or builds a value is
//! here, with the outcomes handed in as plain values.

use vstd::prelude::*;
use vstd::string::StringExecFns;
use crate::types::{
    DataPayload, ProcessRequest, ProcessResponse, ProcessingMetrics, ResponseStatus,
};

verus! {

/// The identifier taken from the inbound request: the payload's identifier,
/// or the empty sequence where the payload is absent.
pub open spec fn spec_payload_id(req: ProcessRequest) -> Seq<char> {
    match req.payload {
        Some(p) => p.id@,
        None => Seq::<char>::empty(),
    }
}

/// The error text a downstream call ended in, or `None` where it succeeded.
pub open spec fn spec_err_text(r: Result<(), String>) -> Option<Seq<char>> {
    match r {
        Ok(_) => None,
        Err(e) => Some(e@),
    }
}

/// A request counts as successful exactly when neither downstream call
/// produced an error.
pub open spec fn spec_overall_success(c: Option<Seq<char>>, v: Option<Seq<char>>) -> bool {
    c is None && v is None
}

/// The downstream errors, each under its dependency's name, joined with
/// `"; "` — the computer's error always first.
pub open spec fn spec_joined_errors(c: Option<Seq<char>>, v: Option<Seq<char>>) -> Seq<char> {
    match (c, v) {
        (Some(ce), Some(ve)) => "Computer: "@ + ce + "; "@ + "Validator: "@ + ve,
        (Some(ce), None) => "Computer: "@ + ce,
        (None, Some(ve)) => "Validator: "@ + ve,
        (None, None) => Seq::<char>::empty(),
    }
}

/// The status message: the fixed completion message on success, otherwise
/// `"Partial failure: "` followed by the joined error descriptions.
pub open spec fn spec_status_message(c: Option<Seq<char>>, v: Option<Seq<char>>) -> Seq<char> {
    if spec_overall_success(c, v) {
        "Processing completed successfully"@
    } else {
        "Partial failure: "@ + spec_joined_errors(c, v)
    }
}

/// The identifier of the synthesized result payload.
pub open spec fn spec_result_id(data_id: Seq<char>) -> Seq<char> {
    "processed-"@ + data_id
}

/// Extract the payload identifier from the inbound request, defaulting to the
/// empty string where the payload is absent.
pub fn payload_id(req: &ProcessRequest) -> (id: String)
    ensures
        id@ == spec_payload_id(*req),
{
    match &req.payload {
        Some(p) => p.id.clone(),
        None => String::new(),
    }
}

/// Assemble the aggregated response from the two downstream outcomes and the
/// elapsed processing time.
pub fn assemble_response(
    data_id: &String,
    compute_result: &Result<(), String>,
    validate_result: &Result<(), String>,
    duration_ms: i64,
) -> (resp: ProcessResponse)
    ensures
        resp.status.success == spec_overall_success(
            spec_err_text(*compute_result),
            spec_err_text(*validate_result),
        ),
        resp.status.message@ == spec_status_message(
            spec_err_text(*compute_result),
            spec_err_text(*validate_result),
        ),
        resp.status.error_code == 0,
        resp.result.id@ == spec_result_id(data_id@),
        resp.result.content@ == "Processed data"@,
        resp.result.attributes@.len() == 0,
        resp.metrics.processing_time_ms == duration_ms,
        resp.metrics.items_processed == 1,
        resp.metrics.processor_id@ == "service-b-processor"@,
        resp.metrics.processor_id@.len() > 0,
{
    proof {
        reveal_strlit("service-b-processor");
    }
    let success = compute_result.is_ok() && validate_result.is_ok();
    let message: String = if success {
        "Processing completed successfully".to_owned()
    } else {
        let mut m: String = "Partial failure: ".to_owned();
        if let Err(e) = compute_result {
            m.append("Computer: ");
            m.append(e.as_str());
            if validate_result.is_err() {
                m.append("; ");
            }
        }
        if let Err(e) = validate_result {
            m.append("Validator: ");
            m.append(e.as_str());
        }
        proof {
            assert(m@ =~= spec_status_message(
                spec_err_text(*compute_result),
                spec_err_text(*validate_result),
            ));
        }
        m
    };
    let mut rid: String = "processed-".to_owned();
    rid.append(data_id.as_str());
    ProcessResponse {
        status: ResponseStatus { success, message, error_code: 0 },
        result: DataPayload {
            id: rid,
            content: "Processed data".to_owned(),
            attributes: Vec::new(),
        },
        metrics: ProcessingMetrics {
            processing_time_ms: duration_ms,
            items_processed: 1,
            processor_id: "service-b-processor".to_owned(),
        },
    }
}

/// The label under which a finished request is counted, by its outcome.
pub fn metrics_status_label(success: bool) -> (s: &'static str)
    ensures
        success ==> s@ == "ok"@,
        !success ==> s@ == "error"@,
{
    if success {
        "ok"
    } else {
        "error"
    }
}

/// Relies on rand's `thread_rng` and `Rng::gen_range` on an inclusive integer
/// range: the sample lies within the given bounds.
#[verifier::external_body]
fn sample_uniform_inclusive(lo: u64, hi: u64) -> (d: u64)
    requires
        lo <= hi,
    ensures
        lo <= d <= hi,
{
    rand::Rng::gen_range(&mut rand::thread_rng(), lo..=hi)
}

/// Draw the simulated processing delay: a sample from the inclusive range of
/// 10 to 20 milliseconds.
pub fn sample_processing_delay_ms() -> (d: u64)
    ensures
        10 <= d <= 20,
{
    sample_uniform_inclusive(10, 20)
}

/// Relies on std's `SystemTime::now` and `duration_since` the Unix epoch:
/// the milliseconds the clock reads past the epoch, or zero where it reads
/// earlier than the epoch.
#[verifier::external_body]
fn unix_epoch_millis() -> (t: u128) {
    match std::time::SystemTime::now().duration_since(std::time::UNIX_EPOCH) {
        Ok(d) => d.as_millis(),
        Err(_) => 0,
    }
}

/// The current wall-clock time as non-negative milliseconds since the Unix
/// epoch, saturated where the count does not fit the result type.
pub fn chrono_timestamp_ms() -> (t: i64)
    ensures
        t >= 0,
{
    let ms: u128 = unix_epoch_millis();
    if ms > i64::MAX as u128 {
        i64::MAX
    } else {
        ms as i64
    }
}

/// Law: the synthesized result identifier is `"processed-"` followed by the
/// inbound payload's identifier, which is the empty sequence where the
/// payload is absent.
pub proof fn lemma_result_identifier(req: ProcessRequest)
    ensures
        spec_result_id(spec_payload_id(req)) == "processed-"@ + spec_payload_id(req),
        req.payload is None ==> spec_result_id(spec_payload_id(req)) == "processed-"@,
{
    assert(("processed-"@ + Seq::<char>::empty()) =~= "processed-"@);
}

/// Law: when both downstream calls succeed, the status reports success and
/// carries the fixed completion message.
pub proof fn lemma_both_succeed(c: Result<(), String>, v: Result<(), String>)
    requires
        c is Ok,
        v is Ok,
    ensures
        spec_overall_success(spec_err_text(c), spec_err_text(v)),
        spec_status_message(spec_err_text(c), spec_err_text(v))
            == "Processing completed successfully"@,
{
}

/// Law: when only the computer fails, with error text `e`, the status message
/// is `"Partial failure: Computer: "` followed by `e`.
pub proof fn lemma_computer_only_failure(e: Seq<char>)
    ensures
        spec_status_message(Some(e), None) == "Partial failure: Computer: "@ + e,
{
    reveal_strlit("Partial failure: ");
    reveal_strlit("Computer: ");
    reveal_strlit("Partial failure: Computer: ");
    assert(spec_status_message(Some(e), None) =~= "Partial failure: Computer: "@ + e);
}

/// Law: when only the validator fails, with error text `e`, the status
/// message is `"Partial failure: Validator: "` followed by `e`.
pub proof fn lemma_validator_only_failure(e: Seq<char>)
    ensures
        spec_status_message(None, Some(e)) == "Partial failure: Validator: "@ + e,
{
    reveal_strlit("Partial failure: ");
    reveal_strlit("Validator: ");
    reveal_strlit("Partial failure: Validator: ");
    assert(spec_status_message(None, Some(e)) =~= "Partial failure: Validator: "@ + e);
}

/// Law: when both downstream calls fail, with the computer's error text `e1`
/// and the validator's `e2`, the status message names the computer first
/// whatever order the calls completed in.
pub proof fn lemma_both_failures(e1: Seq<char>, e2: Seq<char>)
    ensures
        spec_status_message(Some(e1), Some(e2)) == "Partial failure: Computer: "@ + e1
            + "; Validator: "@ + e2,
{
    reveal_strlit("Partial failure: ");
    reveal_strlit("Computer: ");
    reveal_strlit("; ");
    reveal_strlit("Validator: ");
    reveal_strlit("Partial failure: Computer: ");
    reveal_strlit("; Validator: ");
    assert(spec_status_message(Some(e1), Some(e2)) =~= "Partial failure: Computer: "@ + e1
        + "; Validator: "@ + e2);
}

/// Law: every response carries the fixed, non-empty processor identifier.
pub proof fn lemma_processor_identifier_nonempty()
    ensures
        "service-b-processor"@.len() > 0,
{
    reveal_strlit("service-b-processor");
}

} // verus!
