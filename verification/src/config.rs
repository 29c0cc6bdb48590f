//! Fixed configuration of the supervised gateway: timing constants, the
//! default address, the liveness path, the binary's names and candidate
//! locations, and the fixed spawn arguments and environment.
//!
//! The values are contracts of the surrounding system — the child process
//! is spawned with exactly these arguments and this port variable, and the
//! liveness endpoint sits at exactly this path — so each accessor pins its
//! result.

use vstd::prelude::*;

verus! {

/// How long a freshly launched sidecar may take to answer its first
/// successful probe, in milliseconds.
pub const STARTUP_TIMEOUT_MS: u64 = 10_000;

/// Time between the starts of two readiness probes, in milliseconds.
pub const READINESS_INTERVAL_MS: u64 = 100;

/// Timeout of one liveness probe, in milliseconds.
pub const PROBE_TIMEOUT_MS: u64 = 2_000;

/// Time between two health-monitor ticks, in milliseconds.
pub const HEALTH_CHECK_INTERVAL_MS: u64 = 5_000;

/// Grace period between the polite termination request and the forced
/// kill, in milliseconds.
pub const SHUTDOWN_GRACE_MS: u64 = 2_000;

/// Delay before an automatic restart after an unexpected exit, in
/// milliseconds.
pub const RESTART_DELAY_MS: u64 = 1_000;

/// Port the sidecar is told to listen on.
pub const GATEWAY_PORT: u16 = 18_790;

/// Address of a locally launched sidecar, and the default configured
/// address.
pub fn default_gateway_url() -> (s: String)
    ensures
        s@ == "http://localhost:18790"@,
{
    "http://localhost:18790".to_owned()
}

/// Relative path of the liveness endpoint under the gateway's base
/// address.
pub fn health_path() -> (s: String)
    ensures
        s@ == "/health"@,
{
    "/health".to_owned()
}

/// Environment variable overriding the gateway binary's path.
pub fn binary_override_var() -> (s: String)
    ensures
        s@ == "BEACON_GATEWAY_PATH"@,
{
    "BEACON_GATEWAY_PATH".to_owned()
}

/// Environment variable overriding the default gateway address.
pub fn gateway_url_var() -> (s: String)
    ensures
        s@ == "BEACON_GATEWAY_URL"@,
{
    "BEACON_GATEWAY_URL".to_owned()
}

/// Environment variable naming the sidecar's listen port, set at spawn
/// time.
pub fn port_var() -> (s: String)
    ensures
        s@ == "BEACON_API_PORT"@,
{
    "BEACON_API_PORT".to_owned()
}

/// The value the port variable is set to at spawn time.
pub fn port_value() -> (s: String)
    ensures
        s@ == "18790"@,
{
    "18790".to_owned()
}

/// The fixed argument list the sidecar is spawned with.
pub fn sidecar_args() -> (v: Vec<String>)
    ensures
        v@.len() == 2,
        v@[0]@ == "--persona"@,
        v@[1]@ == "orin"@,
{
    let mut v: Vec<String> = Vec::new();
    v.push("--persona".to_owned());
    v.push("orin".to_owned());
    v
}

/// The well-known binary name looked up on the system search path.
pub fn binary_name() -> (s: String)
    ensures
        s@ == "beacon"@,
{
    "beacon".to_owned()
}

/// Candidate binary names relative to the host application's executable
/// directory, in the order they are to be tried.
pub fn sidecar_candidate_names() -> (v: Vec<String>)
    ensures
        v@.len() == 4,
        v@[0]@ == "beacon-gateway"@,
        v@[1]@ == "beacon"@,
        v@[2]@ == "../Resources/beacon-gateway"@,
        v@[3]@ == "../Resources/beacon"@,
{
    let mut v: Vec<String> = Vec::new();
    v.push("beacon-gateway".to_owned());
    v.push("beacon".to_owned());
    v.push("../Resources/beacon-gateway".to_owned());
    v.push("../Resources/beacon".to_owned());
    v
}

/// Development-tree build locations, debug and release at two nesting
/// depths, in the order they are to be tried.
pub fn dev_candidate_paths() -> (v: Vec<String>)
    ensures
        v@.len() == 4,
        v@[0]@ == "../../beacon-gateway/target/debug/beacon"@,
        v@[1]@ == "../../beacon-gateway/target/release/beacon"@,
        v@[2]@ == "../../../services/beacon-gateway/target/debug/beacon"@,
        v@[3]@ == "../../../services/beacon-gateway/target/release/beacon"@,
{
    let mut v: Vec<String> = Vec::new();
    v.push("../../beacon-gateway/target/debug/beacon".to_owned());
    v.push("../../beacon-gateway/target/release/beacon".to_owned());
    v.push("../../../services/beacon-gateway/target/debug/beacon".to_owned());
    v.push("../../../services/beacon-gateway/target/release/beacon".to_owned());
    v
}

/// Diagnostic recorded when no gateway executable is found.
pub fn binary_not_found_text() -> (s: String)
    ensures
        s@ == "beacon-gateway binary not found"@,
{
    "beacon-gateway binary not found".to_owned()
}

} // verus!
