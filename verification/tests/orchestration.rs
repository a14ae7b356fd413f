use orchestrator::downstream::{
    build_compute_request, build_validation_request, classify_outcome, clone_payload, role_name,
    CallOutcome, DownstreamRole,
};
use orchestrator::orchestrator::{
    assemble_response, chrono_timestamp_ms, metrics_status_label, payload_id,
    sample_processing_delay_ms,
};
use orchestrator::types::{DataPayload, ProcessRequest, ResponseStatus};

fn payload(id: &str) -> DataPayload {
    DataPayload {
        id: id.to_string(),
        content: String::from("some content"),
        attributes: vec![(String::from("k"), String::from("v"))],
    }
}

#[test]
fn result_identifier_prefixes_payload_id() {
    let req = ProcessRequest {
        payload: Some(payload("abc")),
    };
    let id = payload_id(&req);
    assert_eq!(id, "abc");
    let resp = assemble_response(&id, &Ok(()), &Ok(()), 15);
    assert_eq!(resp.result.id, "processed-abc");
}

#[test]
fn result_identifier_with_absent_payload() {
    let req = ProcessRequest { payload: None };
    let id = payload_id(&req);
    assert_eq!(id, "");
    let resp = assemble_response(&id, &Ok(()), &Ok(()), 15);
    assert_eq!(resp.result.id, "processed-");
}

#[test]
fn both_succeed_scenario() {
    let req = ProcessRequest {
        payload: Some(payload("x1")),
    };
    let id = payload_id(&req);
    let resp = assemble_response(&id, &Ok(()), &Ok(()), 14);
    assert_eq!(resp.result.id, "processed-x1");
    assert!(resp.status.success);
    assert_eq!(resp.status.message, "Processing completed successfully");
    assert_eq!(resp.status.error_code, 0);
}

#[test]
fn computer_unreachable_scenario() {
    let req = ProcessRequest { payload: None };
    let id = payload_id(&req);
    let compute = classify_outcome(
        DownstreamRole::Computer,
        &CallOutcome::ConnectFailed(String::from("connection refused")),
    );
    let validate = classify_outcome(DownstreamRole::Validator, &CallOutcome::Completed(None));
    assert_eq!(
        compute,
        Err(String::from(
            "Failed to connect to Computer: connection refused"
        ))
    );
    assert_eq!(validate, Ok(()));
    let resp = assemble_response(&id, &compute, &validate, 11);
    assert!(!resp.status.success);
    assert!(resp.status.message.starts_with(
        "Partial failure: Computer: Failed to connect to Computer: connection refused"
    ));
    assert_eq!(
        resp.status.message,
        "Partial failure: Computer: Failed to connect to Computer: connection refused"
    );
}

#[test]
fn both_logical_failures_scenario() {
    let compute = classify_outcome(
        DownstreamRole::Computer,
        &CallOutcome::Completed(Some(ResponseStatus {
            success: false,
            message: String::from("bad schema"),
            error_code: 0,
        })),
    );
    let validate = classify_outcome(
        DownstreamRole::Validator,
        &CallOutcome::Completed(Some(ResponseStatus {
            success: false,
            message: String::from("missing field"),
            error_code: 0,
        })),
    );
    let id = String::new();
    let resp = assemble_response(&id, &compute, &validate, 30);
    assert!(!resp.status.success);
    assert_eq!(
        resp.status.message,
        "Partial failure: Computer: Computer returned failure: bad schema; \
         Validator: Validator returned failure: missing field"
    );
}

#[test]
fn validator_only_failure_message() {
    let id = String::from("q");
    let resp = assemble_response(&id, &Ok(()), &Err(String::from("nope")), 10);
    assert!(!resp.status.success);
    assert_eq!(resp.status.message, "Partial failure: Validator: nope");
}

#[test]
fn classify_transport_failure() {
    let r = classify_outcome(
        DownstreamRole::Computer,
        &CallOutcome::CallFailed(String::from("deadline exceeded")),
    );
    assert_eq!(r, Err(String::from("Computer call failed: deadline exceeded")));
    let r = classify_outcome(
        DownstreamRole::Validator,
        &CallOutcome::CallFailed(String::from("reset")),
    );
    assert_eq!(r, Err(String::from("Validator call failed: reset")));
}

#[test]
fn classify_connect_failure_validator() {
    let r = classify_outcome(
        DownstreamRole::Validator,
        &CallOutcome::ConnectFailed(String::from("timed out")),
    );
    assert_eq!(
        r,
        Err(String::from("Failed to connect to Validator: timed out"))
    );
}

#[test]
fn classify_success_cases() {
    let ok_status = ResponseStatus {
        success: true,
        message: String::from("fine"),
        error_code: 0,
    };
    let r = classify_outcome(
        DownstreamRole::Computer,
        &CallOutcome::Completed(Some(ok_status)),
    );
    assert_eq!(r, Ok(()));
    let r = classify_outcome(DownstreamRole::Validator, &CallOutcome::Completed(None));
    assert_eq!(r, Ok(()));
}

#[test]
fn role_names() {
    assert_eq!(role_name(DownstreamRole::Computer), "Computer");
    assert_eq!(role_name(DownstreamRole::Validator), "Validator");
}

#[test]
fn metrics_fields_are_fixed() {
    let id = String::from("z");
    let resp = assemble_response(&id, &Ok(()), &Ok(()), 42);
    assert_eq!(resp.metrics.processing_time_ms, 42);
    assert_eq!(resp.metrics.items_processed, 1);
    assert_eq!(resp.metrics.processor_id, "service-b-processor");
    assert!(!resp.metrics.processor_id.is_empty());
    assert_eq!(resp.result.content, "Processed data");
    assert!(resp.result.attributes.is_empty());
}

#[test]
fn status_labels() {
    assert_eq!(metrics_status_label(true), "ok");
    assert_eq!(metrics_status_label(false), "error");
}

#[test]
fn compute_request_is_fixed() {
    let r = build_compute_request(123456);
    assert_eq!(r.metadata.request_id, "");
    assert_eq!(r.metadata.trace_id, "");
    assert_eq!(r.metadata.caller_service, "service-b");
    assert_eq!(r.metadata.timestamp_ms, 123456);
    assert_eq!(r.operation, "sum");
}

#[test]
fn validation_request_carries_payload_and_rules() {
    let p = payload("v9");
    let r = build_validation_request(&Some(p), 7);
    assert_eq!(r.metadata.caller_service, "service-b");
    assert_eq!(r.metadata.timestamp_ms, 7);
    let data = r.data.expect("payload must be carried through");
    assert_eq!(data.id, "v9");
    assert_eq!(data.content, "some content");
    assert_eq!(
        data.attributes,
        vec![(String::from("k"), String::from("v"))]
    );
    assert_eq!(
        r.validation_rules,
        vec![String::from("required"), String::from("format")]
    );
}

#[test]
fn validation_request_with_absent_payload() {
    let r = build_validation_request(&None, 0);
    assert!(r.data.is_none());
    assert_eq!(
        r.validation_rules,
        vec![String::from("required"), String::from("format")]
    );
}

#[test]
fn clone_payload_copies_everything() {
    let p = payload("c3");
    let c = clone_payload(&p);
    assert_eq!(c.id, p.id);
    assert_eq!(c.content, p.content);
    assert_eq!(c.attributes, p.attributes);
}

#[test]
fn delay_stays_in_bounds() {
    for _ in 0..200 {
        let d = sample_processing_delay_ms();
        assert!((10..=20).contains(&d));
    }
}

#[test]
fn timestamp_is_nonnegative_and_current() {
    let t = chrono_timestamp_ms();
    assert!(t >= 0);
    // A timestamp taken today is well past the first day of 2020.
    assert!(t > 1_577_836_800_000);
}
