use service_berry::error::Error;
use service_berry::geosubmit::client::{
    backoff_delay_ms, report, status_is_transient, AttemptOutcome, NextStep, Submission,
    ATTEMPT_TIMEOUT_SECS, BASE_DELAY_MS, MAX_ATTEMPTS, MAX_DELAY_MS,
};

fn answer(status: u16) -> AttemptOutcome {
    AttemptOutcome::Response { status, body: "body".to_string() }
}

#[test]
fn four_transient_answers_then_success_take_five_attempts() {
    let mut submission = Submission::new();
    let mut delays = vec![];
    for _ in 0..4 {
        match submission.record(answer(503)) {
            NextStep::Retry { delay_ms } => delays.push(delay_ms),
            other => panic!("{:?}", other),
        }
    }
    assert_eq!(submission.record(answer(200)), NextStep::Done(Ok(())));
    assert_eq!(submission.attempts(), 5);
    assert_eq!(delays, vec![1000, 2000, 4000, 8000]);
    assert!(delays.windows(2).all(|pair| pair[0] <= pair[1]));
}

#[test]
fn the_fifth_failure_ends_the_submission() {
    let mut submission = Submission::new();
    for _ in 0..4 {
        assert!(matches!(submission.record(answer(500)), NextStep::Retry { .. }));
    }
    assert_eq!(
        submission.record(answer(500)),
        NextStep::Done(Err(Error::HttpStatus { status: 500, body: "body".to_string() }))
    );
    assert_eq!(submission.attempts(), MAX_ATTEMPTS);
    assert_eq!(
        submission.record(answer(500)),
        NextStep::Done(Err(Error::HttpStatus { status: 500, body: "body".to_string() }))
    );
    assert_eq!(submission.attempts(), MAX_ATTEMPTS);
}

#[test]
fn transport_failures_are_retried_and_then_reported() {
    let mut submission = Submission::new();
    let lost = || AttemptOutcome::Transport("connection reset".to_string());
    assert_eq!(submission.record(lost()), NextStep::Retry { delay_ms: 1000 });
    assert_eq!(submission.record(lost()), NextStep::Retry { delay_ms: 2000 });
    assert_eq!(submission.record(lost()), NextStep::Retry { delay_ms: 4000 });
    assert_eq!(submission.record(lost()), NextStep::Retry { delay_ms: 8000 });
    assert_eq!(
        submission.record(lost()),
        NextStep::Done(Err(Error::Transport("connection reset".to_string())))
    );
}

#[test]
fn a_failure_that_cannot_pass_is_not_retried() {
    for status in [400, 401, 403, 404, 422, 300, 199, 600] {
        let mut submission = Submission::new();
        assert_eq!(
            submission.record(answer(status)),
            NextStep::Done(Err(Error::HttpStatus { status, body: "body".to_string() }))
        );
        assert_eq!(submission.attempts(), 1);
    }
}

#[test]
fn a_success_ends_the_submission_at_once() {
    for status in [200, 201, 204, 299] {
        let mut submission = Submission::new();
        assert_eq!(submission.record(answer(status)), NextStep::Done(Ok(())));
        assert_eq!(submission.attempts(), 1);
    }
}

#[test]
fn transient_statuses_are_server_errors_timeouts_and_throttling() {
    for status in [500, 502, 503, 599, 408, 429] {
        assert!(status_is_transient(status), "{}", status);
        assert_eq!(Submission::new().record(answer(status)), NextStep::Retry { delay_ms: 1000 });
    }
    for status in [200, 400, 404, 407, 409, 428, 430, 499, 600] {
        assert!(!status_is_transient(status), "{}", status);
    }
}

#[test]
fn the_wait_doubles_up_to_its_cap() {
    assert_eq!(backoff_delay_ms(0), BASE_DELAY_MS);
    assert_eq!(backoff_delay_ms(1), 2000);
    assert_eq!(backoff_delay_ms(4), 16000);
    assert_eq!(backoff_delay_ms(10), 1_024_000);
    assert_eq!(backoff_delay_ms(11), MAX_DELAY_MS);
    assert_eq!(backoff_delay_ms(64), MAX_DELAY_MS);
    assert_eq!(backoff_delay_ms(u32::MAX), MAX_DELAY_MS);
    for retry in 0..40 {
        assert!(backoff_delay_ms(retry) <= backoff_delay_ms(retry + 1));
    }
}

#[test]
fn the_limits_are_those_of_the_policy() {
    assert_eq!(MAX_ATTEMPTS, 5);
    assert_eq!(ATTEMPT_TIMEOUT_SECS, 10);
    assert_eq!(Submission::new().attempts(), 0);
}

#[test]
fn report_writes_the_line_for_the_log() {
    assert_eq!(report(&Ok(())), "Successfully sent geolocation data");
    assert_eq!(
        report(&Err(Error::HttpStatus { status: 503, body: "busy".to_string() })),
        "Geosubmit error: HTTP 503: busy"
    );
    assert_eq!(
        report(&Err(Error::Transport("timed out".to_string()))),
        "Geosubmit error: Transport error: timed out"
    );
}
