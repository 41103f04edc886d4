//! The request executor on concrete outcome scripts: single-attempt
//! failures, retry-until-response, exhaustion, and the fixed backoff.

use lecto::{
    execute_script, retry_step, LectoError, RawResponse, RetryDecision, TransportOutcome,
    BACKOFF_MS,
};

fn response(status: u16, body: &str) -> TransportOutcome {
    TransportOutcome::Response(RawResponse {
        status,
        body: body.to_owned(),
    })
}

fn failure(detail: &str) -> TransportOutcome {
    TransportOutcome::Failure(detail.to_owned())
}

#[test]
fn single_attempt_transport_failure_is_returned_without_retry() {
    let (result, attempts, waits) = execute_script(vec![failure("connection refused")], 1);
    match result {
        Err(LectoError::Transport { detail }) => assert_eq!(detail, "connection refused"),
        other => panic!("expected a transport error, got {:?}", other),
    }
    assert_eq!(attempts, 1);
    assert!(waits.is_empty());
}

#[test]
fn retries_stop_on_first_response_with_fixed_backoff() {
    let script = vec![
        failure("timeout"),
        failure("timeout"),
        response(500, "server fault"),
        response(200, "unreached"),
    ];
    let (result, attempts, waits) = execute_script(script, 5);
    match result {
        Ok(resp) => {
            assert_eq!(resp.status, 500);
            assert_eq!(resp.body, "server fault");
        }
        other => panic!("expected a response, got {:?}", other),
    }
    assert_eq!(attempts, 3);
    assert_eq!(waits, vec![BACKOFF_MS, BACKOFF_MS]);
}

#[test]
fn exhausted_attempts_surface_the_final_failure() {
    let script = vec![failure("first"), failure("second"), failure("third")];
    let (result, attempts, waits) = execute_script(script, 3);
    match result {
        Err(LectoError::Transport { detail }) => assert_eq!(detail, "third"),
        other => panic!("expected a transport error, got {:?}", other),
    }
    assert_eq!(attempts, 3);
    assert_eq!(waits, vec![BACKOFF_MS, BACKOFF_MS]);
}

#[test]
fn first_attempt_response_finishes_at_once() {
    let (result, attempts, waits) = execute_script(vec![response(200, "ok")], 1);
    assert_eq!(result.unwrap().body, "ok");
    assert_eq!(attempts, 1);
    assert!(waits.is_empty());
}

#[test]
fn zero_max_attempts_means_one_attempt() {
    let (result, attempts, _) = execute_script(vec![failure("boom")], 0);
    assert!(matches!(result, Err(LectoError::Transport { .. })));
    assert_eq!(attempts, 1);
}

#[test]
fn retry_step_retries_early_failures_only() {
    match retry_step(1, 3, failure("boom")) {
        RetryDecision::RetryAfter(ms) => assert_eq!(ms, 1000),
        other => panic!("expected a retry, got {:?}", other),
    }
    match retry_step(3, 3, failure("boom")) {
        RetryDecision::Finish(Err(LectoError::Transport { detail })) => assert_eq!(detail, "boom"),
        other => panic!("expected the transport error, got {:?}", other),
    }
    match retry_step(2, 3, response(404, "missing")) {
        RetryDecision::Finish(Ok(resp)) => assert_eq!(resp.status, 404),
        other => panic!("expected the response, got {:?}", other),
    }
}
