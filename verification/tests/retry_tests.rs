//! Unit tests of the retry policy evaluator, the backoff schedule and the
//! outcome classifier.

use llm_sdk::http::{content_type_of, retry_eligible, Header, PendingRequest};
use llm_sdk::outcome::{classify, outcome_of_response, AttemptOutcome, FailureKind};
use llm_sdk::retry::{backoff_ms, evaluate, RetryBudget, RetryDecision};
use llm_sdk::strutil::{str_contains, str_eq};

fn header(name: &str, value: &str) -> Header {
    Header { name: String::from(name), value: String::from(value) }
}

fn transient() -> AttemptOutcome {
    AttemptOutcome::TransientFailure { status: Some(503), body: String::new() }
}

#[test]
fn multipart_gives_up_on_every_outcome() {
    let headers = vec![header("content-type", "multipart/form-data; boundary=xyz")];
    let b = RetryBudget::new(5, 500, 2, 0).unwrap();
    let outcomes = vec![
        AttemptOutcome::Success { status: 200, body: Vec::new() },
        transient(),
        AttemptOutcome::PermanentFailure { status: 404, body: String::new() },
        AttemptOutcome::TransientFailure { status: None, body: String::from("timeout") },
    ];
    for o in &outcomes {
        assert_eq!(evaluate(&headers, o, 0, &b, 0), RetryDecision::GiveUp);
    }
}

#[test]
fn octet_stream_gives_up_too() {
    let headers = vec![header("content-type", "application/octet-stream")];
    let b = RetryBudget::new(5, 500, 2, 0).unwrap();
    assert_eq!(evaluate(&headers, &transient(), 0, &b, 0), RetryDecision::GiveUp);
}

#[test]
fn json_transient_retries_until_the_budget_is_spent() {
    let headers = vec![header("content-type", "application/json")];
    let b = RetryBudget::new(3, 500, 2, 0).unwrap();
    assert_eq!(evaluate(&headers, &transient(), 0, &b, 0), RetryDecision::Retry { after_ms: 500 });
    assert_eq!(evaluate(&headers, &transient(), 1, &b, 0), RetryDecision::Retry { after_ms: 1000 });
    assert_eq!(evaluate(&headers, &transient(), 2, &b, 0), RetryDecision::Retry { after_ms: 2000 });
    assert_eq!(evaluate(&headers, &transient(), 3, &b, 0), RetryDecision::GiveUp);
    assert_eq!(evaluate(&headers, &transient(), 4, &b, 0), RetryDecision::GiveUp);
}

#[test]
fn missing_or_odd_content_type_is_still_eligible() {
    let no_header: Vec<Header> = Vec::new();
    let b = RetryBudget::new(1, 500, 2, 0).unwrap();
    assert_eq!(evaluate(&no_header, &transient(), 0, &b, 0), RetryDecision::Retry { after_ms: 500 });
    let odd = vec![header("content-type", "not a mime type at all")];
    assert_eq!(evaluate(&odd, &transient(), 0, &b, 0), RetryDecision::Retry { after_ms: 500 });
}

#[test]
fn backoff_grows_strictly() {
    let b = RetryBudget::new(6, 250, 3, 0).unwrap();
    let mut last = 0u64;
    for a in 0..6u32 {
        let d = backoff_ms(&b, a);
        assert!(d > last);
        last = d;
    }
    assert_eq!(backoff_ms(&b, 0), 250);
    assert_eq!(backoff_ms(&b, 1), 750);
    assert_eq!(backoff_ms(&b, 2), 2250);
}

#[test]
fn success_and_permanent_outcomes_give_up_with_budget_left() {
    let headers = vec![header("content-type", "application/json")];
    let b = RetryBudget::new(3, 500, 2, 0).unwrap();
    let ok = AttemptOutcome::Success { status: 201, body: Vec::new() };
    assert_eq!(evaluate(&headers, &ok, 0, &b, 0), RetryDecision::GiveUp);
    let gone = AttemptOutcome::PermanentFailure { status: 410, body: String::new() };
    assert_eq!(evaluate(&headers, &gone, 0, &b, 0), RetryDecision::GiveUp);
}

#[test]
fn outcome_of_response_sorts_statuses() {
    assert!(matches!(
        outcome_of_response(200, b"ok".to_vec(), String::new()),
        AttemptOutcome::Success { status: 200, .. }
    ));
    assert!(matches!(
        outcome_of_response(302, Vec::new(), String::new()),
        AttemptOutcome::Success { status: 302, .. }
    ));
    assert!(matches!(
        outcome_of_response(408, Vec::new(), String::new()),
        AttemptOutcome::TransientFailure { status: Some(408), .. }
    ));
    assert!(matches!(
        outcome_of_response(429, Vec::new(), String::new()),
        AttemptOutcome::TransientFailure { status: Some(429), .. }
    ));
    assert!(matches!(
        outcome_of_response(500, Vec::new(), String::new()),
        AttemptOutcome::TransientFailure { status: Some(500), .. }
    ));
    assert!(matches!(
        outcome_of_response(599, Vec::new(), String::new()),
        AttemptOutcome::TransientFailure { status: Some(599), .. }
    ));
    assert!(matches!(
        outcome_of_response(400, Vec::new(), String::new()),
        AttemptOutcome::PermanentFailure { status: 400, .. }
    ));
    assert!(matches!(
        outcome_of_response(404, Vec::new(), String::new()),
        AttemptOutcome::PermanentFailure { status: 404, .. }
    ));
}

#[test]
fn classify_maps_statuses_to_failure_kinds() {
    let ok = classify(outcome_of_response(200, b"body".to_vec(), String::new())).unwrap();
    assert_eq!(ok.status, 200);
    assert_eq!(ok.body, b"body".to_vec());

    let e = classify(outcome_of_response(429, Vec::new(), String::from("slow down")))
        .expect_err("429 fails");
    assert_eq!(e.kind, FailureKind::RateLimited);
    assert_eq!(e.status, Some(429));
    assert_eq!(e.body, "slow down");

    let e = classify(outcome_of_response(500, Vec::new(), String::from("boom")))
        .expect_err("500 fails");
    assert_eq!(e.kind, FailureKind::HttpServer);

    let e = classify(outcome_of_response(403, Vec::new(), String::from("denied")))
        .expect_err("403 fails");
    assert_eq!(e.kind, FailureKind::HttpClient);

    let e = classify(AttemptOutcome::TransientFailure {
        status: None,
        body: String::from("dns failure"),
    })
    .expect_err("transport errors fail");
    assert_eq!(e.kind, FailureKind::Transport);
    assert_eq!(e.status, None);
}

#[test]
fn content_type_lookup_finds_the_first_match() {
    let headers = vec![
        header("accept", "application/json"),
        header("content-type", "application/json"),
        header("content-type", "text/plain"),
    ];
    assert_eq!(content_type_of(&headers).unwrap(), "application/json");
    let none: Vec<Header> = Vec::new();
    assert!(content_type_of(&none).is_none());
}

#[test]
fn eligibility_follows_the_content_type() {
    assert!(retry_eligible(&vec![header("content-type", "application/json")]));
    assert!(retry_eligible(&vec![header("content-type", "text/plain")]));
    assert!(!retry_eligible(&vec![header("content-type", "multipart/form-data")]));
    assert!(!retry_eligible(&vec![header(
        "content-type",
        "multipart/form-data; boundary=abc123"
    )]));
    assert!(!retry_eligible(&vec![header("content-type", "application/octet-stream")]));
    // Only the exact octet-stream value is excluded; a parameter makes it a
    // different value, and substring search applies to multipart alone.
    assert!(retry_eligible(&vec![header("content-type", "application/octet-stream; x=1")]));
}

#[test]
fn request_constructors_fix_eligibility() {
    let json = PendingRequest::new_json(String::from("u"), Vec::new());
    assert!(retry_eligible(&json.headers));
    let multi = PendingRequest::new_multipart(String::from("u"), Vec::new(), Vec::new());
    assert!(!retry_eligible(&multi.headers));
}

#[test]
fn string_helpers_behave() {
    assert!(str_eq("abc", "abc"));
    assert!(!str_eq("abc", "abd"));
    assert!(!str_eq("abc", "ab"));
    assert!(str_contains("multipart/form-data; boundary=x", "multipart/form-data"));
    assert!(str_contains("abc", ""));
    assert!(!str_contains("ab", "abc"));
    assert!(str_contains("xxabyy", "ab"));
    assert!(!str_contains("xxayybzz", "ab"));
}
