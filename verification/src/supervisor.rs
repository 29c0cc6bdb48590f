//! The lifecycle state machine that owns the gateway connection state.
//!
//! A [`Supervisor`] holds the current [`GatewayState`], the configured
//! gateway address, and the handle of a sidecar process it owns, if any.
//! Each transition is an ordinary method whose result is pinned, via the
//! supervisor's model, to a specification-level transition function; the
//! laws at the end of the module are proved over those functions.
//!
//! The supervisor never performs an effect itself.  Where the lifecycle
//! needs one — probe an address, spawn a binary, terminate a process,
//! sleep — the caller performs it and passes the outcome in, and
//! any process handle the supervisor no longer owns is handed back to the
//! caller for reaping.  Exactly one owner exists for a handle at any time.

use vstd::prelude::*;

use crate::state::{GatewayState, ProcessHandle, StateModel};

verus! {

/// Mathematical model of a [`Supervisor`].
#[verifier::ext_equal]
pub struct SupervisorModel {
    /// Current connection state.
    pub state: StateModel,
    /// Configured gateway address, if any.
    pub configured_url: Option<Seq<char>>,
    /// Handle of the sidecar process this supervisor owns, if any.
    pub sidecar: Option<ProcessHandle>,
}

impl SupervisorModel {
    /// Well-formedness: a process handle is never held while disconnected
    /// or while connected to an externally managed gateway, and is always
    /// held while connected to an owned sidecar.
    pub open spec fn wf(self) -> bool {
        &&& (self.state is Disconnected ==> self.sidecar is None)
        &&& (self.state matches StateModel::Connected { is_sidecar, .. } ==> (is_sidecar
            <==> self.sidecar is Some))
    }
}

/// Diagnostic recorded when a freshly launched sidecar never answers a
/// probe within the startup timeout.
pub open spec fn startup_timeout_message() -> Seq<char> {
    "gateway failed to start within timeout"@
}

/// Transition for an explicit connect to an external address, given the
/// outcome of the caller's probe of that address.  On success the
/// supervisor connects and persists the address, releasing any sidecar
/// handle it held; on failure nothing changes.
pub open spec fn spec_connect_external(
    m: SupervisorModel,
    url: Seq<char>,
    probe_ok: bool,
) -> (SupervisorModel, Option<ProcessHandle>) {
    if probe_ok {
        (
            SupervisorModel {
                state: StateModel::Connected { url, is_sidecar: false },
                configured_url: Some(url),
                sidecar: None,
            },
            m.sidecar,
        )
    } else {
        (m, None)
    }
}

/// Transition entering sidecar bring-up: the state becomes `Starting`,
/// nothing else moves.
pub open spec fn spec_begin_bringup(m: SupervisorModel) -> SupervisorModel {
    SupervisorModel { state: StateModel::Starting, ..m }
}

/// Transition recording a bring-up failure (binary not found, spawn
/// refused): the state becomes `Failed` with the given diagnostic.
pub open spec fn spec_fail_bringup(m: SupervisorModel, error: Seq<char>) -> SupervisorModel {
    SupervisorModel { state: StateModel::Failed { error }, ..m }
}

/// Transition installing the handle of a freshly spawned sidecar; a handle
/// still present from an earlier launch is displaced, never overwritten
/// silently.
pub open spec fn spec_attach_sidecar(m: SupervisorModel, handle: ProcessHandle) -> (
    SupervisorModel,
    Option<ProcessHandle>,
) {
    (SupervisorModel { sidecar: Some(handle), ..m }, m.sidecar)
}

/// Transition for a sidecar that became ready at `url` within the startup
/// timeout.
pub open spec fn spec_bringup_ready(m: SupervisorModel, url: Seq<char>) -> SupervisorModel {
    SupervisorModel { state: StateModel::Connected { url, is_sidecar: true }, ..m }
}

/// Transition for a sidecar that never became ready: the handle is
/// released for termination and the state records the startup timeout.
pub open spec fn spec_bringup_timeout(m: SupervisorModel) -> (SupervisorModel, Option<
    ProcessHandle,
>) {
    (
        SupervisorModel {
            state: StateModel::Failed { error: startup_timeout_message() },
            sidecar: None,
            ..m
        },
        m.sidecar,
    )
}

/// Transition for an explicit stop: any owned handle is released for
/// termination and the state always ends `Disconnected`.
pub open spec fn spec_stop(m: SupervisorModel) -> (SupervisorModel, Option<ProcessHandle>) {
    (SupervisorModel { state: StateModel::Disconnected, sidecar: None, ..m }, m.sidecar)
}

/// Transition for an owned sidecar found exited during monitoring: the
/// (already dead) handle is released for reaping and the state records the
/// exit diagnostic.
pub open spec fn spec_unexpected_exit(m: SupervisorModel, error: Seq<char>) -> (
    SupervisorModel,
    Option<ProcessHandle>,
) {
    (
        SupervisorModel { state: StateModel::Failed { error }, sidecar: None, ..m },
        m.sidecar,
    )
}

/// Address the health monitor should probe on a tick: the connected
/// sidecar's address, or nothing when the tick is a no-op.
pub open spec fn spec_monitor_target(m: SupervisorModel) -> Option<Seq<char>> {
    match m.state {
        StateModel::Connected { url, is_sidecar } => if is_sidecar {
            Some(url)
        } else {
            None
        },
        _ => None,
    }
}

/// Address reported to consumers: the connected one, else the configured
/// one.
pub open spec fn spec_gateway_url(m: SupervisorModel) -> Option<Seq<char>> {
    match m.state {
        StateModel::Connected { url, .. } => Some(url),
        _ => m.configured_url,
    }
}

/// The lifecycle state machine.  Mutated only through its transition
/// methods, each of which keeps [`SupervisorModel::wf`].
pub struct Supervisor {
    state: GatewayState,
    configured_url: Option<String>,
    sidecar: Option<ProcessHandle>,
}

impl View for Supervisor {
    type V = SupervisorModel;

    closed spec fn view(&self) -> SupervisorModel {
        SupervisorModel {
            state: self.state@,
            configured_url: match self.configured_url {
                Some(u) => Some(u@),
                None => None,
            },
            sidecar: self.sidecar,
        }
    }
}

impl Supervisor {
    /// A fresh supervisor: disconnected, owning no process, remembering
    /// the configured address, if one was supplied.
    pub fn new(configured_url: Option<String>) -> (s: Supervisor)
        ensures
            s@.state is Disconnected,
            s@.sidecar is None,
            s@.configured_url == (match configured_url {
                Some(u) => Some(u@),
                None => None::<Seq<char>>,
            }),
            s@.wf(),
    {
        Supervisor { state: GatewayState::Disconnected, configured_url, sidecar: None }
    }

    /// Read-only snapshot of the connection state.
    pub fn state(&self) -> (st: &GatewayState)
        ensures
            st@ == self@.state,
    {
        &self.state
    }

    /// Whether a gateway — sidecar or external — currently answers.
    pub fn is_connected(&self) -> (r: bool)
        ensures
            r == (self@.state is Connected),
    {
        match &self.state {
            GatewayState::Connected { .. } => true,
            _ => false,
        }
    }

    /// The address consumers should talk to: the connected gateway's, or
    /// the configured one while not connected.
    pub fn gateway_url(&self) -> (r: Option<String>)
        ensures
            (match r {
                Some(u) => Some(u@),
                None => None::<Seq<char>>,
            }) == spec_gateway_url(self@),
    {
        match &self.state {
            GatewayState::Connected { url, .. } => Some(url.clone()),
            _ => match &self.configured_url {
                Some(u) => Some(u.clone()),
                None => None,
            },
        }
    }

    /// Explicit connect to an external gateway at `url`; `probe_ok` is the
    /// outcome of the caller's liveness probe of that address.  On success
    /// the released handle, if any, must be shut down by the caller; on
    /// failure the supervisor is left exactly as it was and the error
    /// carries the refused address.
    pub fn connect_external(&mut self, url: String, probe_ok: bool) -> (r: Result<
        Option<ProcessHandle>,
        GatewayError,
    >)
        ensures
            probe_ok ==> (r matches Ok(released) && (final(self)@, released)
                == spec_connect_external(old(self)@, url@, true)),
            !probe_ok ==> (r matches Err(e) && e is ConnectFailed && e->ConnectFailed_url@ == url@
                && final(self)@ == old(self)@),
            old(self)@.wf() ==> final(self)@.wf(),
    {
        if probe_ok {
            let released = self.sidecar;
            self.sidecar = None;
            self.configured_url = Some(url.clone());
            self.state = GatewayState::Connected { url, is_sidecar: false };
            proof {
                assert(self@ =~= spec_connect_external(old(self)@, url@, true).0);
            }
            Ok(released)
        } else {
            Err(GatewayError::ConnectFailed { url })
        }
    }

    /// Enter sidecar bring-up: the state becomes `Starting`.
    pub fn begin_bringup(&mut self)
        ensures
            final(self)@ == spec_begin_bringup(old(self)@),
            old(self)@.wf() ==> final(self)@.wf(),
    {
        self.state = GatewayState::Starting;
        proof {
            assert(self@ =~= spec_begin_bringup(old(self)@));
        }
    }

    /// Record a bring-up failure — the binary was not found, or the
    /// operating system refused to spawn it — with its diagnostic.
    pub fn fail_bringup(&mut self, error: String)
        ensures
            final(self)@ == spec_fail_bringup(old(self)@, error@),
            old(self)@.wf() ==> final(self)@.wf(),
    {
        self.state = GatewayState::Failed { error };
        proof {
            assert(self@ =~= spec_fail_bringup(old(self)@, error@));
        }
    }

    /// Install the handle of the sidecar the caller just spawned.  Allowed
    /// only during bring-up; a handle left over from an earlier launch is
    /// handed back for the caller to reap, never dropped.
    pub fn attach_sidecar(&mut self, handle: ProcessHandle) -> (displaced: Option<ProcessHandle>)
        requires
            old(self)@.state is Starting,
        ensures
            (final(self)@, displaced) == spec_attach_sidecar(old(self)@, handle),
            final(self)@.wf(),
    {
        let displaced = self.sidecar;
        self.sidecar = Some(handle);
        proof {
            assert(self@ =~= spec_attach_sidecar(old(self)@, handle).0);
        }
        displaced
    }

    /// The spawned sidecar answered a probe at `url` in time: connect to
    /// it as an owned process.
    pub fn bringup_ready(&mut self, url: String)
        requires
            old(self)@.state is Starting,
            old(self)@.sidecar is Some,
        ensures
            final(self)@ == spec_bringup_ready(old(self)@, url@),
            final(self)@.wf(),
    {
        self.state = GatewayState::Connected { url, is_sidecar: true };
        proof {
            assert(self@ =~= spec_bringup_ready(old(self)@, url@));
        }
    }

    /// The spawned sidecar never became ready: release its handle for
    /// termination and record the startup timeout.
    pub fn bringup_timeout(&mut self) -> (released: Option<ProcessHandle>)
        ensures
            (final(self)@, released) == spec_bringup_timeout(old(self)@),
            final(self)@.wf(),
    {
        let released = self.sidecar;
        self.sidecar = None;
        self.state = GatewayState::Failed {
            error: "gateway failed to start within timeout".to_owned(),
        };
        proof {
            assert(self@ =~= spec_bringup_timeout(old(self)@).0);
        }
        released
    }

    /// Explicit stop.  Any owned sidecar handle is handed back for the
    /// two-phase termination; an externally managed gateway is left
    /// untouched.  The state always ends `Disconnected`.
    pub fn stop(&mut self) -> (released: Option<ProcessHandle>)
        ensures
            (final(self)@, released) == spec_stop(old(self)@),
            final(self)@.wf(),
    {
        let released = self.sidecar;
        self.sidecar = None;
        self.state = GatewayState::Disconnected;
        proof {
            assert(self@ =~= spec_stop(old(self)@).0);
        }
        released
    }

    /// The owned sidecar was found exited during monitoring: hand its dead
    /// handle back for reaping and record the exit diagnostic.  The caller
    /// follows up with a fresh bring-up after the restart delay.
    pub fn record_unexpected_exit(&mut self, error: String) -> (released: Option<ProcessHandle>)
        requires
            old(self)@.state matches StateModel::Connected { is_sidecar: true, .. },
        ensures
            (final(self)@, released) == spec_unexpected_exit(old(self)@, error@),
            final(self)@.wf(),
    {
        let released = self.sidecar;
        self.sidecar = None;
        self.state = GatewayState::Failed { error };
        proof {
            assert(self@ =~= spec_unexpected_exit(old(self)@, error@).0);
        }
        released
    }

    /// Address the health monitor must probe on this tick, or nothing when
    /// the tick is a no-op (not connected, or connected to an external
    /// gateway).
    pub fn monitor_target(&self) -> (r: Option<String>)
        ensures
            (match r {
                Some(u) => Some(u@),
                None => None::<Seq<char>>,
            }) == spec_monitor_target(self@),
    {
        match &self.state {
            GatewayState::Connected { url, is_sidecar } => if *is_sidecar {
                Some(url.clone())
            } else {
                None
            },
            _ => None,
        }
    }

    /// Address the one-shot startup task should probe before falling back
    /// to sidecar bring-up: the configured address, if any.
    pub fn auto_connect_target(&self) -> (r: Option<String>)
        ensures
            (match r {
                Some(u) => Some(u@),
                None => None::<Seq<char>>,
            }) == self@.configured_url,
    {
        match &self.configured_url {
            Some(u) => Some(u.clone()),
            None => None,
        }
    }
}

/// Why an explicit start or connect request failed.
#[derive(Debug)]
pub enum GatewayError {
    /// An explicitly requested external address did not answer a probe.
    ConnectFailed { url: String },
    /// No gateway executable was found in any candidate location.
    BinaryNotFound,
}

/// One command of the supervisor's surface together with the outcome of
/// whatever effect the caller performed for it, as the model sees it.
pub enum SupervisorEvent {
    /// Explicit connect to an external address, with the probe outcome.
    ConnectExternal { url: Seq<char>, probe_ok: bool },
    /// Bring-up entered.
    BeginBringup,
    /// Bring-up failed before a process existed.
    FailBringup { error: Seq<char> },
    /// A spawned sidecar's handle was installed.
    AttachSidecar { handle: ProcessHandle },
    /// The spawned sidecar became ready at `url`.
    BringupReady { url: Seq<char> },
    /// The spawned sidecar never became ready.
    BringupTimeout,
    /// Explicit stop.
    Stop,
    /// The owned sidecar was found exited during monitoring.
    UnexpectedExit { error: Seq<char> },
}

/// Whether an event's transition may fire in `m`: exactly the `requires`
/// of the corresponding method.
pub open spec fn event_enabled(m: SupervisorModel, ev: SupervisorEvent) -> bool {
    match ev {
        SupervisorEvent::AttachSidecar { .. } => m.state is Starting,
        SupervisorEvent::BringupReady { .. } => m.state is Starting && m.sidecar is Some,
        SupervisorEvent::UnexpectedExit { .. } => m.state matches StateModel::Connected {
            is_sidecar: true,
            ..
        },
        _ => true,
    }
}

/// The supervisor model after one event; an event whose transition may not
/// fire leaves the model unchanged.
pub open spec fn spec_step(m: SupervisorModel, ev: SupervisorEvent) -> SupervisorModel {
    if event_enabled(m, ev) {
        match ev {
            SupervisorEvent::ConnectExternal { url, probe_ok } => spec_connect_external(
                m,
                url,
                probe_ok,
            ).0,
            SupervisorEvent::BeginBringup => spec_begin_bringup(m),
            SupervisorEvent::FailBringup { error } => spec_fail_bringup(m, error),
            SupervisorEvent::AttachSidecar { handle } => spec_attach_sidecar(m, handle).0,
            SupervisorEvent::BringupReady { url } => spec_bringup_ready(m, url),
            SupervisorEvent::BringupTimeout => spec_bringup_timeout(m).0,
            SupervisorEvent::Stop => spec_stop(m).0,
            SupervisorEvent::UnexpectedExit { error } => spec_unexpected_exit(m, error).0,
        }
    } else {
        m
    }
}

/// The supervisor model after a whole sequence of events, applied in
/// order.
pub open spec fn spec_run(m: SupervisorModel, events: Seq<SupervisorEvent>) -> SupervisorModel
    decreases events.len(),
{
    if events.len() == 0 {
        m
    } else {
        spec_step(spec_run(m, events.drop_last()), events.last())
    }
}

/// Law: a single event keeps the supervisor well-formed.
pub proof fn lemma_step_preserves_wf(m: SupervisorModel, ev: SupervisorEvent)
    requires
        m.wf(),
    ensures
        spec_step(m, ev).wf(),
{
}

/// Law: over every sequence of commands — starts, stops, bring-up steps,
/// monitor findings — the supervisor never holds a process handle while
/// `Disconnected` or externally connected, and never lacks one while
/// connected to an owned sidecar.
pub proof fn lemma_wf_invariant(m: SupervisorModel, events: Seq<SupervisorEvent>)
    requires
        m.wf(),
    ensures
        spec_run(m, events).wf(),
    decreases events.len(),
{
    if events.len() > 0 {
        lemma_wf_invariant(m, events.drop_last());
        lemma_step_preserves_wf(spec_run(m, events.drop_last()), events.last());
    }
}

/// Law: a stop while already disconnected is a no-op — the state stays
/// `Disconnected`, nothing else moves, and no handle is handed out.
pub proof fn lemma_stop_on_disconnected_is_noop(m: SupervisorModel)
    requires
        m.wf(),
        m.state is Disconnected,
    ensures
        spec_stop(m).0 == m,
        spec_stop(m).1 is None,
{
    assert(spec_stop(m).0 =~= m);
}

/// Law: stopping is idempotent — a second stop ends in the same
/// `Disconnected` model as the first, and releases no handle, so no
/// process resource can be handed out twice.
pub proof fn lemma_stop_idempotent(m: SupervisorModel)
    ensures
        spec_stop(spec_stop(m).0).0 == spec_stop(m).0,
        spec_stop(spec_stop(m).0).1 is None,
{
    assert(spec_stop(spec_stop(m).0).0 =~= spec_stop(m).0);
}

/// Law: an explicit connect whose probe failed changes nothing — in
/// particular it never clobbers an existing `Connected` state — and
/// releases no handle.
pub proof fn lemma_failed_connect_leaves_state(m: SupervisorModel, url: Seq<char>)
    ensures
        spec_connect_external(m, url, false).0 == m,
        spec_connect_external(m, url, false).1 is None,
{
}

/// The model after a whole sidecar bring-up, composed from its steps:
/// enter `Starting`; record a failure when no binary was found or when
/// the spawn was refused; otherwise install the spawned handle and either
/// connect on readiness or release the handle on timeout.
pub open spec fn spec_bringup(
    m: SupervisorModel,
    located: bool,
    locate_error: Seq<char>,
    spawned: Option<ProcessHandle>,
    spawn_error: Seq<char>,
    ready: bool,
    url: Seq<char>,
) -> SupervisorModel {
    let started = spec_begin_bringup(m);
    if !located {
        spec_fail_bringup(started, locate_error)
    } else {
        match spawned {
            None => spec_fail_bringup(started, spawn_error),
            Some(handle) => {
                let attached = spec_attach_sidecar(started, handle).0;
                if ready {
                    spec_bringup_ready(attached, url)
                } else {
                    spec_bringup_timeout(attached).0
                }
            },
        }
    }
}

/// Law: a sidecar bring-up ends in exactly one of three states — `Failed`
/// with the respective diagnostic when no binary was found or the spawn
/// was refused, `Connected` to the owned sidecar when it became ready,
/// and `Failed` with the startup-timeout diagnostic, owning no process,
/// when it never did.
pub proof fn lemma_bringup_outcomes(
    m: SupervisorModel,
    located: bool,
    locate_error: Seq<char>,
    spawned: Option<ProcessHandle>,
    spawn_error: Seq<char>,
    ready: bool,
    url: Seq<char>,
)
    ensures
        !located ==> spec_bringup(m, located, locate_error, spawned, spawn_error, ready, url).state
            == (StateModel::Failed { error: locate_error }),
        located && spawned is None ==> spec_bringup(
            m,
            located,
            locate_error,
            spawned,
            spawn_error,
            ready,
            url,
        ).state == (StateModel::Failed { error: spawn_error }),
        located && spawned is Some && ready ==> spec_bringup(
            m,
            located,
            locate_error,
            spawned,
            spawn_error,
            ready,
            url,
        ) == (SupervisorModel {
            state: StateModel::Connected { url, is_sidecar: true },
            configured_url: m.configured_url,
            sidecar: spawned,
        }),
        located && spawned is Some && !ready ==> spec_bringup(
            m,
            located,
            locate_error,
            spawned,
            spawn_error,
            ready,
            url,
        ) == (SupervisorModel {
            state: StateModel::Failed { error: startup_timeout_message() },
            configured_url: m.configured_url,
            sidecar: None,
        }),
        spec_bringup(m, located, locate_error, spawned, spawn_error, ready, url).wf(),
{
    if located && spawned is Some {
        let handle = spawned->0;
        let attached = spec_attach_sidecar(spec_begin_bringup(m), handle).0;
        if ready {
            assert(spec_bringup_ready(attached, url) =~= (SupervisorModel {
                state: StateModel::Connected { url, is_sidecar: true },
                configured_url: m.configured_url,
                sidecar: spawned,
            }));
        } else {
            assert(spec_bringup_timeout(attached).0 =~= (SupervisorModel {
                state: StateModel::Failed { error: startup_timeout_message() },
                configured_url: m.configured_url,
                sidecar: None,
            }));
        }
    }
}

/// Law: after an unexpected exit of the owned sidecar, the old handle is
/// released exactly once, the state records the exit, and a subsequent
/// successful bring-up connects to the new process — the new handle is
/// owned, the old one is gone.
pub proof fn lemma_monitor_restart_cycle(
    m: SupervisorModel,
    exit_error: Seq<char>,
    handle: ProcessHandle,
    url: Seq<char>,
)
    requires
        m.wf(),
        m.state matches StateModel::Connected { is_sidecar: true, .. },
    ensures
        spec_unexpected_exit(m, exit_error).1 is Some,
        spec_unexpected_exit(m, exit_error).0.state == (StateModel::Failed { error: exit_error }),
        spec_attach_sidecar(
            spec_begin_bringup(spec_unexpected_exit(m, exit_error).0),
            handle,
        ).1 is None,
        spec_bringup_ready(
            spec_attach_sidecar(spec_begin_bringup(spec_unexpected_exit(m, exit_error).0), handle).0,
            url,
        ) == (SupervisorModel {
            state: StateModel::Connected { url, is_sidecar: true },
            configured_url: m.configured_url,
            sidecar: Some(handle),
        }),
        spec_bringup_ready(
            spec_attach_sidecar(spec_begin_bringup(spec_unexpected_exit(m, exit_error).0), handle).0,
            url,
        ).wf(),
{
    assert(spec_bringup_ready(
        spec_attach_sidecar(spec_begin_bringup(spec_unexpected_exit(m, exit_error).0), handle).0,
        url,
    ) =~= (SupervisorModel {
        state: StateModel::Connected { url, is_sidecar: true },
        configured_url: m.configured_url,
        sidecar: Some(handle),
    }));
}

} // verus!
