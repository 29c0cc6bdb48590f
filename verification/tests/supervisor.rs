use beacon_supervisor::state::ProcessHandle;
use beacon_supervisor::supervisor::{GatewayError, Supervisor};

fn connected_sidecar(pid: u32, url: &str) -> Supervisor {
    let mut s = Supervisor::new(Some("http://localhost:18790".to_string()));
    s.begin_bringup();
    let displaced = s.attach_sidecar(ProcessHandle { pid });
    assert!(displaced.is_none());
    s.bringup_ready(url.to_string());
    s
}

#[test]
fn new_supervisor_is_disconnected() {
    let s = Supervisor::new(None);
    let st = s.status();
    assert_eq!(st.state, "disconnected");
    assert_eq!(st.url, None);
    assert!(!st.is_sidecar);
    assert_eq!(st.error, None);
    assert!(!s.is_connected());
}

#[test]
fn stop_on_disconnected_is_noop() {
    let mut s = Supervisor::new(None);
    let released = s.stop();
    assert!(released.is_none());
    assert_eq!(s.status().state, "disconnected");
}

#[test]
fn stop_releases_sidecar_handle() {
    let mut s = connected_sidecar(41, "http://localhost:18790");
    let released = s.stop();
    assert_eq!(released, Some(ProcessHandle { pid: 41 }));
    assert_eq!(s.status().state, "disconnected");
}

#[test]
fn stop_twice_is_idempotent() {
    let mut s = connected_sidecar(42, "http://localhost:18790");
    let first = s.stop();
    assert_eq!(first, Some(ProcessHandle { pid: 42 }));
    assert_eq!(s.status().state, "disconnected");
    let second = s.stop();
    assert!(second.is_none());
    assert_eq!(s.status().state, "disconnected");
}

#[test]
fn failed_connect_leaves_connected_state_untouched() {
    let mut s = connected_sidecar(7, "http://localhost:18790");
    let r = s.connect_external("http://bad-host".to_string(), false);
    match r {
        Err(GatewayError::ConnectFailed { url }) => assert_eq!(url, "http://bad-host"),
        _ => panic!("expected a connect failure"),
    }
    let st = s.status();
    assert_eq!(st.state, "connected");
    assert_eq!(st.url.as_deref(), Some("http://localhost:18790"));
    assert!(st.is_sidecar);
}

#[test]
fn successful_connect_becomes_external_and_releases_handle() {
    let mut s = connected_sidecar(9, "http://localhost:18790");
    let r = s.connect_external("http://example.net:18790".to_string(), true);
    let released = r.expect("probe succeeded");
    assert_eq!(released, Some(ProcessHandle { pid: 9 }));
    let st = s.status();
    assert_eq!(st.state, "connected");
    assert_eq!(st.url.as_deref(), Some("http://example.net:18790"));
    assert!(!st.is_sidecar);
    assert_eq!(
        s.auto_connect_target().as_deref(),
        Some("http://example.net:18790")
    );
}

#[test]
fn unexpected_exit_then_restart_swaps_handles() {
    let mut s = connected_sidecar(7, "http://localhost:18790");
    assert_eq!(s.monitor_target().as_deref(), Some("http://localhost:18790"));

    let released = s.record_unexpected_exit("gateway exited with status: 1".to_string());
    assert_eq!(released, Some(ProcessHandle { pid: 7 }));
    let st = s.status();
    assert_eq!(st.state, "failed");
    assert_eq!(st.error.as_deref(), Some("gateway exited with status: 1"));
    assert!(s.monitor_target().is_none());

    s.begin_bringup();
    let displaced = s.attach_sidecar(ProcessHandle { pid: 8 });
    assert!(displaced.is_none());
    s.bringup_ready("http://localhost:18790".to_string());
    let st = s.status();
    assert_eq!(st.state, "connected");
    assert!(st.is_sidecar);
    assert_eq!(s.stop(), Some(ProcessHandle { pid: 8 }));
}

#[test]
fn bringup_timeout_releases_handle_and_records_error() {
    let mut s = Supervisor::new(None);
    s.begin_bringup();
    assert_eq!(s.status().state, "starting");
    let displaced = s.attach_sidecar(ProcessHandle { pid: 3 });
    assert!(displaced.is_none());
    let released = s.bringup_timeout();
    assert_eq!(released, Some(ProcessHandle { pid: 3 }));
    let st = s.status();
    assert_eq!(st.state, "failed");
    assert_eq!(
        st.error.as_deref(),
        Some("gateway failed to start within timeout")
    );
}

#[test]
fn fail_bringup_records_diagnostic() {
    let mut s = Supervisor::new(None);
    s.begin_bringup();
    s.fail_bringup("beacon-gateway binary not found".to_string());
    let st = s.status();
    assert_eq!(st.state, "failed");
    assert_eq!(st.error.as_deref(), Some("beacon-gateway binary not found"));
}

#[test]
fn starting_status_reports_sidecar_launch() {
    let mut s = Supervisor::new(None);
    s.begin_bringup();
    let st = s.status();
    assert_eq!(st.state, "starting");
    assert_eq!(st.url, None);
    assert!(st.is_sidecar);
    assert_eq!(st.error, None);
}

#[test]
fn gateway_url_prefers_connected_address() {
    let mut s = Supervisor::new(Some("http://configured:18790".to_string()));
    assert_eq!(s.gateway_url().as_deref(), Some("http://configured:18790"));
    let r = s.connect_external("http://live:18790".to_string(), true);
    assert!(r.is_ok());
    assert_eq!(s.gateway_url().as_deref(), Some("http://live:18790"));
    s.stop();
    assert_eq!(s.gateway_url().as_deref(), Some("http://live:18790"));
}

#[test]
fn monitor_target_ignores_external_connection() {
    let mut s = Supervisor::new(None);
    let r = s.connect_external("http://remote:18790".to_string(), true);
    assert!(r.is_ok());
    assert!(s.is_connected());
    assert!(s.monitor_target().is_none());
}
