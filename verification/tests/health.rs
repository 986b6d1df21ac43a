use go_magic_desktop::health::{
    health_request, ReadinessWait, StartingReport, WaitDecision, BACKEND_STATUS_INTERVAL_MS,
    BACKEND_STOP_TIMEOUT_MS, HEALTH_CHECK_INTERVAL_MS, HEALTH_CHECK_TIMEOUT_MS,
    HEALTH_PROBE_TIMEOUT_MS,
};
use std::time::Duration;

#[test]
fn health_check_timing_constants_are_sane() {
    let health_check_timeout = Duration::from_millis(HEALTH_CHECK_TIMEOUT_MS);
    let health_check_interval = Duration::from_millis(HEALTH_CHECK_INTERVAL_MS);
    let backend_status_interval = Duration::from_millis(BACKEND_STATUS_INTERVAL_MS);
    let backend_stop_timeout = Duration::from_millis(BACKEND_STOP_TIMEOUT_MS);
    let health_probe_timeout = Duration::from_millis(HEALTH_PROBE_TIMEOUT_MS);
    assert!(health_check_interval < health_check_timeout);
    assert!(backend_status_interval >= health_check_interval);
    assert!(backend_stop_timeout <= health_check_timeout);
    assert!(health_probe_timeout < health_check_timeout);
    assert!(health_check_timeout >= Duration::from_secs(10));
}

#[test]
fn health_request_names_port_and_version() {
    assert_eq!(
        health_request(5000, "1.2.3"),
        "GET /health HTTP/1.1\r\nHost: 127.0.0.1:5000\r\nUser-Agent: go-magic-desktop/1.2.3\r\nAccept: */*\r\nConnection: close\r\n\r\n"
    );
    assert!(health_request(8, "0.0.0-dev").contains("Host: 127.0.0.1:8\r\n"));
    assert!(health_request(65535, "x").contains("Host: 127.0.0.1:65535\r\n"));
}

#[test]
fn progress_reports_are_throttled_to_one_per_interval() {
    let mut wait = ReadinessWait::new();
    assert!(wait.report_due(0, 5000).is_none());
    assert!(wait.report_due(999, 5000).is_none());
    match wait.report_due(1000, 5000) {
        Some(StartingReport { elapsed_secs, port }) => {
            assert_eq!(elapsed_secs, 1);
            assert_eq!(port, 5000);
        }
        None => panic!("a report was due"),
    }
    assert!(wait.report_due(1500, 5000).is_none());
    assert!(wait.report_due(1999, 5000).is_none());
    match wait.report_due(2750, 5001) {
        Some(report) => {
            assert_eq!(report.elapsed_secs, 2);
            assert_eq!(report.port, 5001);
        }
        None => panic!("a report was due"),
    }
    assert!(wait.report_due(3000, 5001).is_none());
    assert!(wait.report_due(3750, 5001).is_some());
}

#[test]
fn the_wait_ends_when_healthy_or_when_the_budget_is_spent() {
    let wait = ReadinessWait::new();
    assert!(matches!(wait.after_probe(true, 0), WaitDecision::Ready));
    assert!(matches!(wait.after_probe(true, 120_000), WaitDecision::Ready));
    assert!(matches!(
        wait.after_probe(false, 59_999),
        WaitDecision::RetryAfter(500)
    ));
    assert!(matches!(wait.after_probe(false, 60_000), WaitDecision::GiveUp));
    assert!(matches!(wait.after_probe(false, 61_000), WaitDecision::GiveUp));
}
