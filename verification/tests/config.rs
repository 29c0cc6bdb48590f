use beacon_supervisor::config;
use beacon_supervisor::state::GatewayState;
use beacon_supervisor::status::status_of;

#[test]
fn timing_constants_match_the_design() {
    assert_eq!(config::STARTUP_TIMEOUT_MS, 10_000);
    assert_eq!(config::READINESS_INTERVAL_MS, 100);
    assert_eq!(config::PROBE_TIMEOUT_MS, 2_000);
    assert_eq!(config::HEALTH_CHECK_INTERVAL_MS, 5_000);
    assert_eq!(config::SHUTDOWN_GRACE_MS, 2_000);
    assert_eq!(config::RESTART_DELAY_MS, 1_000);
    assert_eq!(config::GATEWAY_PORT, 18_790);
}

#[test]
fn fixed_addresses_and_paths() {
    assert_eq!(config::default_gateway_url(), "http://localhost:18790");
    assert_eq!(config::health_path(), "/health");
    assert_eq!(config::binary_override_var(), "BEACON_GATEWAY_PATH");
    assert_eq!(config::gateway_url_var(), "BEACON_GATEWAY_URL");
    assert_eq!(config::port_var(), "BEACON_API_PORT");
    assert_eq!(config::port_value(), "18790");
    assert_eq!(config::binary_name(), "beacon");
    assert_eq!(
        config::binary_not_found_text(),
        "beacon-gateway binary not found"
    );
}

#[test]
fn spawn_arguments_are_fixed() {
    assert_eq!(config::sidecar_args(), vec!["--persona", "orin"]);
}

#[test]
fn candidate_lists_are_ordered() {
    assert_eq!(
        config::sidecar_candidate_names(),
        vec![
            "beacon-gateway",
            "beacon",
            "../Resources/beacon-gateway",
            "../Resources/beacon",
        ]
    );
    assert_eq!(
        config::dev_candidate_paths(),
        vec![
            "../../beacon-gateway/target/debug/beacon",
            "../../beacon-gateway/target/release/beacon",
            "../../../services/beacon-gateway/target/debug/beacon",
            "../../../services/beacon-gateway/target/release/beacon",
        ]
    );
}

#[test]
fn status_of_maps_every_variant() {
    let st = status_of(&GatewayState::Disconnected);
    assert_eq!(st.state, "disconnected");
    assert_eq!(st.url, None);
    assert!(!st.is_sidecar);
    assert_eq!(st.error, None);

    let st = status_of(&GatewayState::Starting);
    assert_eq!(st.state, "starting");
    assert!(st.is_sidecar);

    let st = status_of(&GatewayState::Connected {
        url: "http://localhost:18790".to_string(),
        is_sidecar: false,
    });
    assert_eq!(st.state, "connected");
    assert_eq!(st.url.as_deref(), Some("http://localhost:18790"));
    assert!(!st.is_sidecar);

    let st = status_of(&GatewayState::Failed {
        error: "gateway exited with status: 9".to_string(),
    });
    assert_eq!(st.state, "failed");
    assert_eq!(st.error.as_deref(), Some("gateway exited with status: 9"));
}
