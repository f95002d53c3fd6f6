use sidecar_supervisor::health::{
    HealthCheckConfig, HealthCheckResult, HealthPoller, PollAction, PollStatus,
};

fn outcome(status: Option<u16>, at_ms: u64) -> HealthCheckResult {
    HealthCheckResult {
        status_code: status,
        latency_ms: 5,
        timestamp_ms: at_ms,
        error: if status.is_none() { Some("connection refused".to_string()) } else { None },
    }
}

fn short_config() -> HealthCheckConfig {
    HealthCheckConfig {
        url: "http://127.0.0.1:8123/".to_string(),
        poll_interval_ms: 500,
        timeout_ms: 2000,
        request_timeout_ms: 100,
    }
}

#[test]
fn is_healthy_means_status_200() {
    assert!(outcome(Some(200), 0).is_healthy());
    assert!(!outcome(Some(503), 0).is_healthy());
    assert!(!outcome(Some(302), 0).is_healthy());
    assert!(!outcome(None, 0).is_healthy());
}

#[test]
fn default_config_bounds() {
    let c = HealthCheckConfig::default();
    assert_eq!(c.url, "http://127.0.0.1:8123/");
    assert_eq!(c.poll_interval_ms, 500);
    assert_eq!(c.timeout_ms, 30000);
    assert_eq!(c.request_timeout_ms, 3000);
    assert_eq!(c.max_attempts(), 60);
}

#[test]
fn budget_is_whole_intervals_in_the_timeout() {
    assert_eq!(short_config().max_attempts(), 4);
}

// With a 500 ms interval and a 2000 ms budget against a target that never
// answers 200, polling makes exactly 4 attempts, waits between them but not
// after the last, and ends in a timeout.
#[test]
fn never_healthy_times_out_after_four_attempts() {
    let config = short_config();
    let mut poller = HealthPoller::new(&config);
    let mut attempts = 0u64;
    let mut waited_ms = 0u64;
    let mut elapsed_ms = 0u64;
    loop {
        match poller.next_action() {
            PollAction::Request => {
                attempts += 1;
                elapsed_ms += 10; // the request itself is quick
                let action = poller.observe(&outcome(Some(503), elapsed_ms), elapsed_ms);
                if let PollAction::Wait { duration_ms } = action {
                    waited_ms += duration_ms;
                    elapsed_ms += duration_ms;
                }
            }
            PollAction::Wait { .. } => unreachable!("wait is returned by observe"),
            PollAction::Succeed => panic!("never healthy"),
            PollAction::Fail => break,
        }
    }
    assert_eq!(attempts, 4);
    assert_eq!(poller.attempts_made, 4);
    assert_eq!(waited_ms, 1500); // three intervals; none after the last attempt
    assert_eq!(poller.status, PollStatus::TimedOut);
}

// A target that answers 200 on the third attempt: success after exactly 3
// attempts and two intervals (about 1000 ms) of waiting.
#[test]
fn healthy_on_third_attempt_succeeds_after_two_intervals() {
    let config = short_config();
    let mut poller = HealthPoller::new(&config);

    let a1 = poller.observe(&outcome(None, 10), 10);
    assert_eq!(a1, PollAction::Wait { duration_ms: 500 });
    let a2 = poller.observe(&outcome(Some(503), 520), 520);
    assert_eq!(a2, PollAction::Wait { duration_ms: 500 });
    let a3 = poller.observe(&outcome(Some(200), 1030), 1030);
    assert_eq!(a3, PollAction::Succeed);

    assert_eq!(poller.attempts_made, 3);
    assert_eq!(poller.status, PollStatus::Succeeded);
}

#[test]
fn healthy_on_first_attempt_succeeds_immediately() {
    let config = HealthCheckConfig::default();
    let mut poller = HealthPoller::new(&config);
    let action = poller.observe(&outcome(Some(200), 3), 3);
    assert_eq!(action, PollAction::Succeed);
    assert_eq!(poller.attempts_made, 1);
    assert_eq!(poller.status, PollStatus::Succeeded);
}

// Exceeding the total budget fails the run at once, even though attempts
// remain in the budget.
#[test]
fn elapsed_over_budget_times_out_mid_budget() {
    let config = short_config();
    let mut poller = HealthPoller::new(&config);
    let a1 = poller.observe(&outcome(Some(503), 30), 30);
    assert_eq!(a1, PollAction::Wait { duration_ms: 500 });
    // the second request hung far beyond the per-request cap
    let a2 = poller.observe(&outcome(None, 2100), 2100);
    assert_eq!(a2, PollAction::Fail);
    assert_eq!(poller.attempts_made, 2);
    assert_eq!(poller.status, PollStatus::TimedOut);
}

#[test]
fn transport_error_and_non_200_keep_polling_alike() {
    let config = HealthCheckConfig::default();
    let mut poller = HealthPoller::new(&config);
    let a1 = poller.observe(&outcome(None, 10), 10);
    let a2 = poller.observe(&outcome(Some(500), 520), 520);
    assert_eq!(a1, PollAction::Wait { duration_ms: 500 });
    assert_eq!(a2, PollAction::Wait { duration_ms: 500 });
    assert_eq!(poller.status, PollStatus::InProgress);
}
