//! Supervisor for a companion gateway service.
//!
//! The library models the lifecycle of exactly one supervised gateway: it may
//! already be running as an external process, may be launched as a managed
//! child ("sidecar"), or may be unreachable.  Every decision the supervisor
//! makes — state transitions, binary-location precedence, readiness polling,
//! shutdown sequencing, health-monitor reactions — lives here as verified
//! code, as does the small keyed store of consumer secrets beside it.
//! The caller performs the surrounding effects (network probes, process
//! spawning, sleeps) and feeds their outcomes back in as plain values.

pub mod state;
pub mod supervisor;
pub mod locator;
pub mod readiness;
pub mod config;
pub mod status;
pub mod storage;
