use ambry::health::{probe_outcome, HealthMonitor};
use ambry::types::Health;

#[test]
fn unknown_connection_is_disconnected() {
    let monitor = HealthMonitor::new();
    assert_eq!(monitor.status("nope"), Health::Disconnected);
}

#[test]
fn healthy_immediately_then_disconnected_after_stop() {
    let mut monitor = HealthMonitor::new();
    monitor.start("c1".into());
    assert_eq!(monitor.status("c1"), Health::Healthy);
    monitor.stop("c1");
    assert_eq!(monitor.status("c1"), Health::Disconnected);
}

#[test]
fn probes_record_only_for_the_current_watch() {
    let mut monitor = HealthMonitor::new();
    let first = monitor.start("c1".into());
    let second = monitor.start("c1".into());
    assert_ne!(first, second);
    assert!(!monitor.record("c1", first, Health::Degraded));
    assert_eq!(monitor.status("c1"), Health::Healthy);
    assert!(monitor.record("c1", second, Health::Degraded));
    assert_eq!(monitor.status("c1"), Health::Degraded);
    monitor.stop("c1");
    assert!(!monitor.record("c1", second, Health::Healthy));
    assert_eq!(monitor.status("c1"), Health::Disconnected);
}

#[test]
fn watches_are_independent() {
    let mut monitor = HealthMonitor::new();
    let a = monitor.start("a".into());
    monitor.start("b".into());
    monitor.record("a", a, Health::Disconnected);
    monitor.stop("b");
    assert_eq!(monitor.status("a"), Health::Disconnected);
    assert_eq!(monitor.status("b"), Health::Disconnected);
    let a2 = monitor.start("a".into());
    monitor.record("a", a2, Health::Degraded);
    assert_eq!(monitor.status("a"), Health::Degraded);
}

#[test]
fn probe_outcomes() {
    assert_eq!(probe_outcome(false, true), Health::Disconnected);
    assert_eq!(probe_outcome(false, false), Health::Disconnected);
    assert_eq!(probe_outcome(true, true), Health::Healthy);
    assert_eq!(probe_outcome(true, false), Health::Degraded);
}
