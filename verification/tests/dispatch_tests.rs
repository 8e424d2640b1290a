//! End-to-end replays of the dispatch loop and unit tests of its steps.

use llm_sdk::dispatch::{
    dispatch_step, dispatch_with_outcomes, summary_of, AttemptRecord, DispatchStep, LlmSdk,
    OutcomeSummary, Tap, DEFAULT_TIMEOUT_MS, MAX_RETRY_CAP,
};
use llm_sdk::http::{retry_eligible, FormField, Header, PendingRequest};
use llm_sdk::outcome::{outcome_of_response, AttemptOutcome, FailureKind};
use llm_sdk::retry::{RetryBudget, RetryDecision};

fn budget(max_attempts: u32) -> RetryBudget {
    RetryBudget::new(max_attempts, 500, 2, 0).unwrap()
}

fn json_request() -> PendingRequest {
    PendingRequest::new_json(
        String::from("https://api.example.test/v1/chat/completions"),
        b"{\"messages\":[]}".to_vec(),
    )
}

fn multipart_request() -> PendingRequest {
    PendingRequest::new_multipart(
        String::from("https://api.example.test/v1/audio/transcriptions"),
        vec![1, 2, 3],
        vec![FormField { name: String::from("model"), value: String::from("whisper-1") }],
    )
}

fn transient(status: u16, body: &str) -> AttemptOutcome {
    outcome_of_response(status, Vec::new(), String::from(body))
}

#[test]
fn two_server_errors_then_success_uses_three_attempts() {
    let req = json_request();
    let b = budget(3);
    let outcomes = vec![
        transient(503, "upstream unavailable"),
        transient(503, "upstream unavailable"),
        outcome_of_response(200, b"{\"ok\":true}".to_vec(), String::new()),
    ];
    let mut tap = Tap::new();
    let r = dispatch_with_outcomes(&req, &b, &outcomes, 0, &mut tap);
    let ok = r.expect("third attempt succeeded");
    assert_eq!(ok.status, 200);
    assert_eq!(ok.body, b"{\"ok\":true}".to_vec());
    assert_eq!(tap.len(), 3);
    assert_eq!(tap.records[0].attempt, 1);
    assert_eq!(tap.records[1].attempt, 2);
    assert_eq!(tap.records[2].attempt, 3);
    assert_eq!(tap.records[0].summary, OutcomeSummary::FailedTransient { status: Some(503) });
    assert_eq!(tap.records[2].summary, OutcomeSummary::Succeeded { status: 200 });
    assert_eq!(tap.records[0].url, req.url);
}

#[test]
fn multipart_server_error_fails_after_one_attempt() {
    let req = multipart_request();
    let b = budget(3);
    let outcomes = vec![transient(500, "boom")];
    let mut tap = Tap::new();
    let r = dispatch_with_outcomes(&req, &b, &outcomes, 0, &mut tap);
    let e = r.expect_err("multipart failures are not retried");
    assert_eq!(e.kind, FailureKind::MultipartNonRetryable);
    assert_eq!(e.status, Some(500));
    assert_eq!(e.body, "boom");
    assert_eq!(tap.len(), 1);
    assert_eq!(tap.records[0].attempt, 1);
}

#[test]
fn not_found_fails_on_first_attempt_with_literal_body() {
    let req = json_request();
    let b = budget(3);
    let body_text = "{\"error\":\"model not found\"}";
    let outcomes = vec![outcome_of_response(404, Vec::new(), String::from(body_text))];
    let mut tap = Tap::new();
    let r = dispatch_with_outcomes(&req, &b, &outcomes, 0, &mut tap);
    let e = r.expect_err("404 is a permanent failure");
    assert_eq!(e.kind, FailureKind::HttpClient);
    assert_eq!(e.status, Some(404));
    assert_eq!(e.body, body_text);
    assert_eq!(tap.len(), 1);
}

#[test]
fn immediate_success_makes_one_attempt() {
    let req = json_request();
    let b = budget(3);
    let outcomes = vec![outcome_of_response(204, Vec::new(), String::new())];
    let mut tap = Tap::new();
    let r = dispatch_with_outcomes(&req, &b, &outcomes, 0, &mut tap);
    let ok = r.expect("2xx is a success");
    assert_eq!(ok.status, 204);
    assert_eq!(tap.len(), 1);
}

#[test]
fn budget_exhaustion_surfaces_last_transient_failure() {
    let req = json_request();
    let b = budget(2);
    let outcomes = vec![
        transient(503, "first"),
        transient(503, "second"),
        transient(503, "third"),
    ];
    let mut tap = Tap::new();
    let r = dispatch_with_outcomes(&req, &b, &outcomes, 0, &mut tap);
    let e = r.expect_err("budget ran out");
    assert_eq!(e.kind, FailureKind::HttpServer);
    assert_eq!(e.status, Some(503));
    assert_eq!(e.body, "third");
    assert_eq!(tap.len(), 3);
}

#[test]
fn transport_error_with_exhausted_budget_is_a_transport_failure() {
    let req = json_request();
    let b = budget(0);
    let outcomes = vec![AttemptOutcome::TransientFailure {
        status: None,
        body: String::from("connection refused"),
    }];
    let mut tap = Tap::new();
    let r = dispatch_with_outcomes(&req, &b, &outcomes, 0, &mut tap);
    let e = r.expect_err("no budget, so the transport error surfaces");
    assert_eq!(e.kind, FailureKind::Transport);
    assert_eq!(e.status, None);
    assert_eq!(e.body, "connection refused");
    assert_eq!(tap.len(), 1);
}

#[test]
fn dispatch_step_advances_the_attempt_counter_only_on_retry() {
    let req = json_request();
    let b = budget(2);
    let mut attempts: u32 = 0;
    let step = dispatch_step(&req.headers, &b, &mut attempts, transient(503, "x"), 0);
    match step {
        DispatchStep::RetryAfter { delay_ms } => assert_eq!(delay_ms, 500),
        DispatchStep::Done { .. } => panic!("first transient failure should be retried"),
    }
    assert_eq!(attempts, 1);
    let step = dispatch_step(&req.headers, &b, &mut attempts, transient(503, "x"), 0);
    match step {
        DispatchStep::RetryAfter { delay_ms } => assert_eq!(delay_ms, 1000),
        DispatchStep::Done { .. } => panic!("second transient failure should be retried"),
    }
    assert_eq!(attempts, 2);
    let step = dispatch_step(&req.headers, &b, &mut attempts, transient(503, "give up now"), 0);
    match step {
        DispatchStep::RetryAfter { .. } => panic!("budget is exhausted"),
        DispatchStep::Done { result } => {
            let e = result.expect_err("transient failure at the end of the budget");
            assert_eq!(e.kind, FailureKind::HttpServer);
            assert_eq!(e.body, "give up now");
        },
    }
    assert_eq!(attempts, 2);
}

#[test]
fn sdk_new_clamps_retries_and_sets_timeout() {
    let sdk = LlmSdk::new(
        String::from("https://api.example.test/v1"),
        String::from("SECRET-REDACTED"),
        3,
    );
    assert_eq!(sdk.timeout_ms, DEFAULT_TIMEOUT_MS);
    assert_eq!(sdk.budget.max_attempts, 3);
    assert_eq!(sdk.budget.base_ms, 500);
    assert_eq!(sdk.budget.multiplier, 2);
    let wide = LlmSdk::new(String::from("https://api.example.test/v1"), String::new(), 1000);
    assert_eq!(wide.budget.max_attempts, MAX_RETRY_CAP);
}

#[test]
fn construction_overrides_apply() {
    let sdk = LlmSdk::new(String::from("https://api.example.test/v1"), String::new(), 3)
        .with_timeout_ms(5000)
        .with_budget(RetryBudget::new(5, 100, 3, 50).unwrap());
    assert_eq!(sdk.timeout_ms, 5000);
    assert_eq!(sdk.budget.max_attempts, 5);
    assert_eq!(sdk.budget.base_ms, 100);
    let mut req = json_request();
    sdk.prepare(&mut req);
    assert_eq!(req.timeout_ms, Some(5000));
}

#[test]
fn prepare_attaches_auth_and_timeout() {
    let sdk = LlmSdk::new(
        String::from("https://api.example.test/v1"),
        String::from("SECRET-REDACTED"),
        3,
    );
    let mut req = json_request();
    let before = req.headers.len();
    sdk.prepare(&mut req);
    assert_eq!(req.timeout_ms, Some(DEFAULT_TIMEOUT_MS));
    assert_eq!(req.headers.len(), before + 1);
    let last = req.headers.last().unwrap();
    assert_eq!(last.name, "authorization");
    assert_eq!(last.value, format!("Bearer {}", "SECRET-REDACTED"));
    assert!(retry_eligible(&req.headers));
}

#[test]
fn prepare_without_token_adds_no_header() {
    let sdk = LlmSdk::new(String::from("https://api.example.test/v1"), String::new(), 3);
    let mut req = json_request();
    let before = req.headers.len();
    sdk.prepare(&mut req);
    assert_eq!(req.headers.len(), before);
    assert_eq!(req.timeout_ms, Some(DEFAULT_TIMEOUT_MS));
}

#[test]
fn summary_of_reports_each_outcome_kind() {
    assert_eq!(
        summary_of(&outcome_of_response(200, Vec::new(), String::new())),
        OutcomeSummary::Succeeded { status: 200 }
    );
    assert_eq!(
        summary_of(&outcome_of_response(503, Vec::new(), String::new())),
        OutcomeSummary::FailedTransient { status: Some(503) }
    );
    assert_eq!(
        summary_of(&outcome_of_response(404, Vec::new(), String::new())),
        OutcomeSummary::FailedPermanent { status: 404 }
    );
}

#[test]
fn tap_records_in_order() {
    let mut tap = Tap::new();
    assert_eq!(tap.len(), 0);
    tap.record(AttemptRecord {
        attempt: 1,
        method: json_request().method,
        url: String::from("u"),
        duration_ms: 12,
        summary: OutcomeSummary::Succeeded { status: 200 },
    });
    assert_eq!(tap.len(), 1);
    assert_eq!(tap.records[0].duration_ms, 12);
}

#[test]
fn evaluator_never_retries_multipart_even_with_budget() {
    let req = multipart_request();
    let b = budget(5);
    let mut attempts: u32 = 0;
    let step = dispatch_step(&req.headers, &b, &mut attempts, transient(503, "x"), 0);
    assert!(matches!(step, DispatchStep::Done { .. }));
    assert_eq!(attempts, 0);
}

#[test]
fn budget_constructor_rejects_degenerate_schedules() {
    assert!(RetryBudget::new(3, 0, 2, 0).is_none());
    assert!(RetryBudget::new(3, 500, 1, 0).is_none());
    assert!(RetryBudget::new(64, u64::MAX / 2, 2, 0).is_none());
    let b = RetryBudget::new(0, 500, 2, 0).unwrap();
    assert_eq!(b.max_attempts, 0);
}

#[test]
fn retry_cap_is_the_machine_limit_of_the_default_schedule() {
    // The delay before attempt MAX_RETRY_CAP + 1 would overflow a u64 of
    // milliseconds; at the cap itself the schedule still fits.
    assert!(RetryBudget::new(MAX_RETRY_CAP, 500, 2, 1000).is_some());
    assert!(RetryBudget::new(MAX_RETRY_CAP + 1, 500, 2, 1000).is_none());
    let sdk = LlmSdk::new(String::from("https://api.example.test/v1"), String::new(), 40);
    assert_eq!(sdk.budget.max_attempts, 40);
}

#[test]
fn zero_budget_disables_retrying() {
    let req = json_request();
    let b = budget(0);
    let mut attempts: u32 = 0;
    let step = dispatch_step(&req.headers, &b, &mut attempts, transient(503, "x"), 0);
    match step {
        DispatchStep::RetryAfter { .. } => panic!("budget zero must not retry"),
        DispatchStep::Done { result } => {
            assert!(result.is_err());
        },
    }
    assert_eq!(attempts, 0);
}

#[test]
fn retry_decision_carries_jitter() {
    let req = json_request();
    let b = RetryBudget::new(3, 500, 2, 1000).unwrap();
    let mut attempts: u32 = 0;
    let step = dispatch_step(&req.headers, &b, &mut attempts, transient(429, "slow down"), 250);
    match step {
        DispatchStep::RetryAfter { delay_ms } => assert_eq!(delay_ms, 750),
        DispatchStep::Done { .. } => panic!("429 within budget should be retried"),
    }
    let _ = RetryDecision::GiveUp;
}
