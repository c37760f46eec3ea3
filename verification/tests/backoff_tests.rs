use dyndns::backoff::{Backoff, RetryDecision, SendOutcome};

#[test]
fn test_backoff_starts_at_one_and_doubles() {
    let mut backoff = Backoff::new();
    assert_eq!(backoff.delay_seconds, 1);

    let mut expected_delay: u64 = 1;
    for _ in 0..5 {
        let d = backoff.on_send_outcome(SendOutcome::TransportFailed);
        match d {
            RetryDecision::RetryAfter { delay_seconds } => {
                assert_eq!(delay_seconds, expected_delay);
            }
            RetryDecision::Accept { .. } => panic!("a transport failure must retry"),
        }
        expected_delay *= 2;
        assert_eq!(backoff.delay_seconds, expected_delay);
    }
}

#[test]
fn test_http_error_status_is_not_retried() {
    let mut backoff = Backoff::new();
    // Even a server error status is a completed exchange: it is handed to
    // the caller untouched and the backoff state does not move.
    let d = backoff.on_send_outcome(SendOutcome::Delivered {
        status: 500,
        body: "server error".to_string(),
    });
    match d {
        RetryDecision::Accept { status, body } => {
            assert_eq!(status, 500);
            assert_eq!(body, "server error");
        }
        RetryDecision::RetryAfter { .. } => panic!("a delivered response must be accepted"),
    }
    assert_eq!(backoff.delay_seconds, 1);
}

#[test]
fn test_success_after_failures_is_accepted() {
    let mut backoff = Backoff::new();
    backoff.on_send_outcome(SendOutcome::TransportFailed);
    backoff.on_send_outcome(SendOutcome::TransportFailed);
    let d = backoff.on_send_outcome(SendOutcome::Delivered {
        status: 200,
        body: "ok".to_string(),
    });
    assert!(matches!(d, RetryDecision::Accept { status: 200, .. }));
    assert_eq!(backoff.delay_seconds, 4);
}
