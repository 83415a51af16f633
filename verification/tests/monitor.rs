use reach_monitor::monitor::run_transitions;
use reach_monitor::monitor::step;
use reach_monitor::monitor::AlertEvent;
use reach_monitor::monitor::LogEvent;
use reach_monitor::monitor::ProbeOutcome;
use reach_monitor::monitor::Reachability;
use reach_monitor::monitor::LogLevel;
use reach_monitor::monitor::Severity;

fn success(latency_millis: u64) -> ProbeOutcome {
    ProbeOutcome::Success { latency_millis }
}

fn failure() -> ProbeOutcome {
    ProbeOutcome::Failure { cause: String::from("connection refused") }
}

#[test]
fn first_success_below_threshold_logs_without_alert() {
    let t = step(Reachability::Unknown, &success(20), 100);
    assert_eq!(t.state, Reachability::Healthy);
    assert_eq!(t.log, Some(LogEvent::Recovered { latency_millis: 20 }));
    assert_eq!(t.alert, None);
}

#[test]
fn first_success_above_threshold_logs_info_and_alerts() {
    let t = step(Reachability::Unknown, &success(150), 100);
    assert_eq!(t.state, Reachability::Healthy);
    assert_eq!(t.log, Some(LogEvent::Recovered { latency_millis: 150 }));
    assert_eq!(t.log.unwrap().level(), LogLevel::Info);
    assert_eq!(t.alert, Some(AlertEvent::HighLatency { latency_millis: 150 }));
}

#[test]
fn latency_exactly_at_threshold_raises_no_alert() {
    let t = step(Reachability::Unknown, &success(100), 100);
    assert_eq!(t.log, Some(LogEvent::Recovered { latency_millis: 100 }));
    assert_eq!(t.alert, None);
}

#[test]
fn latency_one_above_threshold_raises_alert() {
    let t = step(Reachability::Unknown, &success(101), 100);
    assert_eq!(t.log, Some(LogEvent::Recovered { latency_millis: 101 }));
    assert_eq!(t.alert, Some(AlertEvent::HighLatency { latency_millis: 101 }));
}

#[test]
fn first_failure_logs_and_alerts() {
    let t = step(Reachability::Unknown, &failure(), 100);
    assert_eq!(t.state, Reachability::Unhealthy);
    assert_eq!(t.log, Some(LogEvent::Down));
    assert_eq!(t.alert, Some(AlertEvent::Down));
}

#[test]
fn repeated_success_is_silent() {
    let t = step(Reachability::Healthy, &success(30), 100);
    assert_eq!(t.state, Reachability::Healthy);
    assert_eq!(t.log, None);
    assert_eq!(t.alert, None);
}

#[test]
fn repeated_failure_is_silent() {
    let t = step(Reachability::Unhealthy, &failure(), 100);
    assert_eq!(t.state, Reachability::Unhealthy);
    assert_eq!(t.log, None);
    assert_eq!(t.alert, None);
}

#[test]
fn recovery_after_failure_logs() {
    let t = step(Reachability::Unhealthy, &success(40), 100);
    assert_eq!(t.state, Reachability::Healthy);
    assert_eq!(t.log, Some(LogEvent::Recovered { latency_millis: 40 }));
    assert_eq!(t.alert, None);
}

#[test]
fn identical_outcomes_notify_once() {
    let outcomes = vec![success(10), success(11), success(12), success(13), success(14)];
    let ts = run_transitions(Reachability::Unknown, &outcomes, 100);
    let logs = ts.iter().filter(|t| t.log.is_some()).count();
    let alerts = ts.iter().filter(|t| t.alert.is_some()).count();
    assert_eq!(logs, 1);
    assert_eq!(alerts, 0);

    let outcomes = vec![failure(), failure(), failure(), failure()];
    let ts = run_transitions(Reachability::Unknown, &outcomes, 100);
    let logs = ts.iter().filter(|t| t.log.is_some()).count();
    let alerts = ts.iter().filter(|t| t.alert.is_some()).count();
    assert_eq!(logs, 1);
    assert_eq!(alerts, 1);
}

#[test]
fn events_only_at_transitions() {
    let outcomes = vec![success(10), success(10), failure(), failure(), success(10)];
    let ts = run_transitions(Reachability::Unknown, &outcomes, 100);
    assert_eq!(ts.len(), 5);
    assert!(ts[0].log.is_some());
    assert!(ts[1].log.is_none());
    assert!(ts[2].log.is_some());
    assert!(ts[3].log.is_none());
    assert!(ts[4].log.is_some());
    let events = ts.iter().filter(|t| t.log.is_some()).count();
    assert_eq!(events, 3);
    assert_eq!(ts[0].log, Some(LogEvent::Recovered { latency_millis: 10 }));
    assert_eq!(ts[2].log, Some(LogEvent::Down));
    assert_eq!(ts[2].alert, Some(AlertEvent::Down));
    assert_eq!(ts[4].log, Some(LogEvent::Recovered { latency_millis: 10 }));
    assert_eq!(ts[4].alert, None);
}

#[test]
fn alert_severities() {
    assert_eq!(AlertEvent::HighLatency { latency_millis: 500 }.severity(), Severity::Warning);
    assert_eq!(AlertEvent::Down.severity(), Severity::Critical);
}

#[test]
fn log_levels() {
    assert_eq!(LogEvent::Recovered { latency_millis: 5 }.level(), LogLevel::Info);
    assert_eq!(LogEvent::Down.level(), LogLevel::Error);
}
