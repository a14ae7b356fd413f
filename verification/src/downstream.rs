//! Classification of a downstream call's outcome, and construction of the
//! requests sent downstream.
//!
//! Each downstream call ends in one of three failure tiers — the connection
//! could not be established, the call itself failed in transport, or the
//! remote answered but reported a logical failure — or in success. Every
//! failure is folded into one descriptive string; the orchestrator never
//! distinguishes the tiers beyond that string.

use vstd::prelude::*;
use vstd::string::StringExecFns;
use crate::types::{
    ComputeRequest, DataPayload, RequestMetadata, ResponseStatus, ValidationRequest,
};

verus! {

/// Which downstream dependency a call went to.
#[derive(Clone, Copy)]
pub enum DownstreamRole {
    Computer,
    Validator,
}

/// How a single downstream call ended, as the transport layer reports it:
/// the connection failed with an error text, the call itself failed with an
/// error text, or the call completed and the remote's status (if it sent one)
/// is carried through.
pub enum CallOutcome {
    ConnectFailed(String),
    CallFailed(String),
    Completed(Option<ResponseStatus>),
}

/// The display name of a downstream dependency.
pub open spec fn spec_role_name(role: DownstreamRole) -> Seq<char> {
    match role {
        DownstreamRole::Computer => "Computer"@,
        DownstreamRole::Validator => "Validator"@,
    }
}

/// The error text that an outcome classifies to, or `None` where the call
/// counts as successful. A completed call with no status, or with a status
/// whose success flag is set, is a success; each failure tier carries its own
/// prefix followed by the underlying text.
pub open spec fn spec_classified_error(role: DownstreamRole, outcome: CallOutcome) -> Option<
    Seq<char>,
> {
    match outcome {
        CallOutcome::ConnectFailed(e) => Some(
            "Failed to connect to "@ + spec_role_name(role) + ": "@ + e@,
        ),
        CallOutcome::CallFailed(e) => Some(spec_role_name(role) + " call failed: "@ + e@),
        CallOutcome::Completed(st) => match st {
            Some(s) => if s.success {
                None
            } else {
                Some(spec_role_name(role) + " returned failure: "@ + s.message@)
            },
            None => None,
        },
    }
}

/// The display name of a downstream dependency.
pub fn role_name(role: DownstreamRole) -> (s: &'static str)
    ensures
        s@ == spec_role_name(role),
{
    match role {
        DownstreamRole::Computer => "Computer",
        DownstreamRole::Validator => "Validator",
    }
}

/// Classify how a downstream call ended: success, or a single descriptive
/// error string with the prefix of the failing tier.
pub fn classify_outcome(role: DownstreamRole, outcome: &CallOutcome) -> (r: Result<(), String>)
    ensures
        match r {
            Ok(_) => spec_classified_error(role, *outcome) is None,
            Err(e) => spec_classified_error(role, *outcome) == Some(e@),
        },
{
    match outcome {
        CallOutcome::ConnectFailed(e) => {
            let mut m: String = "Failed to connect to ".to_owned();
            m.append(role_name(role));
            m.append(": ");
            m.append(e.as_str());
            Err(m)
        },
        CallOutcome::CallFailed(e) => {
            let mut m: String = role_name(role).to_owned();
            m.append(" call failed: ");
            m.append(e.as_str());
            Err(m)
        },
        CallOutcome::Completed(st) => match st {
            Some(s) => {
                if s.success {
                    Ok(())
                } else {
                    let mut m: String = role_name(role).to_owned();
                    m.append(" returned failure: ");
                    m.append(s.message.as_str());
                    Err(m)
                }
            },
            None => Ok(()),
        },
    }
}

/// Two payloads hold the same data.
pub open spec fn spec_payload_like(a: DataPayload, b: DataPayload) -> bool {
    a.id == b.id && a.content == b.content && a.attributes@ == b.attributes@
}

/// Two optional payloads hold the same data.
pub open spec fn spec_option_payload_like(a: Option<DataPayload>, b: Option<DataPayload>) -> bool {
    match (a, b) {
        (Option::None, Option::None) => true,
        (Option::Some(x), Option::Some(y)) => spec_payload_like(x, y),
        _ => false,
    }
}

/// Copy a payload's attribute pairs.
fn clone_attributes(a: &Vec<(String, String)>) -> (r: Vec<(String, String)>)
    ensures
        r@ == a@,
{
    let mut r: Vec<(String, String)> = Vec::new();
    let mut i: usize = 0;
    while i < a.len()
        invariant
            i <= a@.len(),
            r@ == a@.subrange(0, i as int),
        decreases a@.len() - i,
    {
        let pair = &a[i];
        r.push((pair.0.clone(), pair.1.clone()));
        i = i + 1;
        assert(r@ =~= a@.subrange(0, i as int));
    }
    assert(a@.subrange(0, a@.len() as int) =~= a@);
    r
}

/// Copy a payload.
pub fn clone_payload(p: &DataPayload) -> (r: DataPayload)
    ensures
        spec_payload_like(r, *p),
{
    DataPayload {
        id: p.id.clone(),
        content: p.content.clone(),
        attributes: clone_attributes(&p.attributes),
    }
}

/// Fresh correlation metadata for a downstream request: empty request and
/// trace identifiers, the fixed caller-service name, and the given timestamp.
fn fresh_metadata(timestamp_ms: i64) -> (m: RequestMetadata)
    ensures
        m.request_id@ == Seq::<char>::empty(),
        m.trace_id@ == Seq::<char>::empty(),
        m.caller_service@ == "service-b"@,
        m.timestamp_ms == timestamp_ms,
{
    RequestMetadata {
        request_id: String::new(),
        trace_id: String::new(),
        caller_service: "service-b".to_owned(),
        timestamp_ms,
    }
}

/// Build the request for the computer: fresh metadata and the fixed operation
/// name. Its numeric inputs are a fixed sample sequence that the transport
/// layer attaches; the orchestration logic never derives them from the
/// inbound payload.
pub fn build_compute_request(timestamp_ms: i64) -> (r: ComputeRequest)
    ensures
        r.metadata.request_id@ == Seq::<char>::empty(),
        r.metadata.trace_id@ == Seq::<char>::empty(),
        r.metadata.caller_service@ == "service-b"@,
        r.metadata.timestamp_ms == timestamp_ms,
        r.operation@ == "sum"@,
{
    ComputeRequest { metadata: fresh_metadata(timestamp_ms), operation: "sum".to_owned() }
}

/// Build the request for the validator: fresh metadata, a copy of the inbound
/// payload, and the fixed two-element rule list.
pub fn build_validation_request(payload: &Option<DataPayload>, timestamp_ms: i64) -> (r:
    ValidationRequest)
    ensures
        r.metadata.request_id@ == Seq::<char>::empty(),
        r.metadata.trace_id@ == Seq::<char>::empty(),
        r.metadata.caller_service@ == "service-b"@,
        r.metadata.timestamp_ms == timestamp_ms,
        spec_option_payload_like(r.data, *payload),
        r.validation_rules@.len() == 2,
        r.validation_rules@[0]@ == "required"@,
        r.validation_rules@[1]@ == "format"@,
{
    let data: Option<DataPayload> = match payload {
        Some(p) => Some(clone_payload(p)),
        None => None,
    };
    let mut rules: Vec<String> = Vec::new();
    rules.push("required".to_owned());
    rules.push("format".to_owned());
    ValidationRequest { metadata: fresh_metadata(timestamp_ms), data, validation_rules: rules }
}

} // verus!
