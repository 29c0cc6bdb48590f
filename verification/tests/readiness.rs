use beacon_supervisor::readiness::{wait_ready_outcome, ReadinessWaiter};

#[test]
fn all_probes_fail_returns_false_at_timeout() {
    let probes = vec![false; 10];
    let r = wait_ready_outcome(&probes, 1000, 100);
    assert!(!r.ready);
    assert_eq!(r.attempts, 10);
    assert_eq!(r.elapsed_ms, 1000);
    assert!(r.elapsed_ms >= 1000 && r.elapsed_ms < 1200);
}

#[test]
fn success_on_third_attempt_returns_at_its_instant() {
    let mut probes = vec![false; 10];
    probes[2] = true;
    let r = wait_ready_outcome(&probes, 1000, 100);
    assert!(r.ready);
    assert_eq!(r.attempts, 3);
    assert_eq!(r.elapsed_ms, 200);
}

#[test]
fn immediate_success_returns_at_time_zero() {
    let probes = vec![true];
    let r = wait_ready_outcome(&probes, 100, 100);
    assert!(r.ready);
    assert_eq!(r.attempts, 1);
    assert_eq!(r.elapsed_ms, 0);
}

#[test]
fn zero_timeout_probes_nothing() {
    let probes: Vec<bool> = vec![];
    let r = wait_ready_outcome(&probes, 0, 100);
    assert!(!r.ready);
    assert_eq!(r.attempts, 0);
    assert_eq!(r.elapsed_ms, 0);
}

#[test]
fn uneven_timeout_allows_one_final_partial_interval() {
    // probes at 0, 100 and 200 ms cover a 250 ms timeout
    let probes = vec![false; 3];
    let r = wait_ready_outcome(&probes, 250, 100);
    assert!(!r.ready);
    assert_eq!(r.attempts, 3);
    assert_eq!(r.elapsed_ms, 300);
    assert!(r.elapsed_ms >= 250 && r.elapsed_ms < 350);
}

#[test]
fn waiter_steps_mirror_the_policy() {
    let mut w = ReadinessWaiter::new(250, 100);
    assert!(!w.expired());
    w.record_failure();
    assert_eq!(w.elapsed_ms, 100);
    assert!(!w.expired());
    w.record_failure();
    assert!(!w.expired());
    w.record_failure();
    assert_eq!(w.attempts, 3);
    assert_eq!(w.elapsed_ms, 300);
    assert!(w.expired());
}
