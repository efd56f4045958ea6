//! The supervisor of one tunnel: connects its backend, checks its health at a fixed
//! interval, restarts it when it fails and the tunnel's policy asks for restarts, and
//! disconnects it on shutdown.
//!
//! The supervisor's decisions are a state machine: the caller performs each action
//! (connecting, checking, waiting, disconnecting) and reports what came of it as the
//! next event; a change of the shutdown signal is an event too.

use vstd::prelude::*;
use crate::config::TunnelConfig;
use crate::state::{DaemonState, TunnelHandle};

verus! {

/// Milliseconds between restart attempts and health checks when the policy sets none.
pub const DEFAULT_RESTART_INTERVAL: u64 = 1000;

/// The interval of a tunnel's supervisor: the policy's, else the default.
pub open spec fn interval_of(config: TunnelConfig) -> u64 {
    match config.mgr {
        Some(m) => match m.auto_restart_interval {
            Some(i) => i,
            None => DEFAULT_RESTART_INTERVAL,
        },
        None => DEFAULT_RESTART_INTERVAL,
    }
}

/// Whether a tunnel's policy asks for restarts after failures.
pub open spec fn restarts(config: TunnelConfig) -> bool {
    config.mgr matches Some(m) && m.auto_restart == Some(true)
}

/// What the supervisor knows between steps.
#[derive(Debug, Clone, Copy, PartialEq, Eq, Structural)]
pub struct Supervisor {
    /// A backend is connected (it may have died since the last check).
    pub connected: bool,
    /// The supervisor is disconnecting in order to end.
    pub stopping: bool,
    /// Failures are followed by a restart.
    pub auto_restart: bool,
    /// Milliseconds to wait between health checks and before a restart.
    pub interval: u64,
}

/// What the supervisor asks its caller to do next.
#[derive(Debug, Clone, Copy, PartialEq, Eq, Structural)]
pub enum SupervisorAction {
    /// Create and connect the backend.
    Connect,
    /// Ask the backend whether it is alive.
    CheckHealth,
    /// Wait this many milliseconds.
    Wait(u64),
    /// Disconnect the backend.
    Disconnect,
    /// End the supervisor.
    Exit,
}

/// What the caller reports back.
#[derive(Debug, Clone, Copy, PartialEq, Eq, Structural)]
pub enum SupervisorEvent {
    /// The backend connected.
    Connected,
    /// Connecting the backend failed.
    ConnectFailed,
    /// The backend is alive.
    Alive,
    /// The backend died.
    Dead,
    /// The wait is over.
    Waited,
    /// The backend was disconnected (whether or not that succeeded).
    Disconnected,
    /// The shutdown signal changed to this value.
    Shutdown(bool),
}

/// The next action when nothing is pending: connect if not connected, else check.
pub open spec fn resume(s: Supervisor) -> SupervisorAction {
    if s.connected {
        SupervisorAction::CheckHealth
    } else {
        SupervisorAction::Connect
    }
}

/// One decision of the supervisor: the state after `e`, and the next action.
pub open spec fn supervisor_step(s: Supervisor, e: SupervisorEvent) -> (Supervisor, SupervisorAction) {
    match e {
        SupervisorEvent::Connected => (Supervisor { connected: true, ..s }, SupervisorAction::CheckHealth),
        SupervisorEvent::ConnectFailed => if s.auto_restart {
            (Supervisor { connected: false, ..s }, SupervisorAction::Wait(s.interval))
        } else {
            (Supervisor { connected: false, ..s }, SupervisorAction::Exit)
        },
        SupervisorEvent::Alive => (s, SupervisorAction::Wait(s.interval)),
        SupervisorEvent::Dead => (Supervisor { stopping: s.stopping || !s.auto_restart, ..s }, SupervisorAction::Disconnect),
        SupervisorEvent::Waited => (s, resume(s)),
        SupervisorEvent::Disconnected => if s.stopping {
            (Supervisor { connected: false, ..s }, SupervisorAction::Exit)
        } else {
            (Supervisor { connected: false, ..s }, SupervisorAction::Wait(s.interval))
        },
        SupervisorEvent::Shutdown(true) => if s.connected {
            (Supervisor { stopping: true, ..s }, SupervisorAction::Disconnect)
        } else {
            (s, SupervisorAction::Exit)
        },
        SupervisorEvent::Shutdown(false) => (s, resume(s)),
    }
}

impl Supervisor {
    /// The supervisor of a tunnel as it starts, not connected, and its first action:
    /// connecting.
    pub fn new(config: &TunnelConfig) -> (r: (Supervisor, SupervisorAction))
        ensures
            r.0 == (Supervisor {
                connected: false,
                stopping: false,
                auto_restart: restarts(*config),
                interval: interval_of(*config),
            }),
            r.1 == SupervisorAction::Connect,
    {
        let (auto_restart, interval) = match config.mgr {
            Some(m) => (
                match m.auto_restart {
                    Some(b) => b,
                    None => false,
                },
                match m.auto_restart_interval {
                    Some(i) => i,
                    None => DEFAULT_RESTART_INTERVAL,
                },
            ),
            None => (false, DEFAULT_RESTART_INTERVAL),
        };
        (Supervisor { connected: false, stopping: false, auto_restart, interval }, SupervisorAction::Connect)
    }

    /// One decision: the state after `event` and the next action.
    pub fn step(self, event: SupervisorEvent) -> (r: (Supervisor, SupervisorAction))
        ensures
            r == supervisor_step(self, event),
    {
        let resume = if self.connected {
            SupervisorAction::CheckHealth
        } else {
            SupervisorAction::Connect
        };
        match event {
            SupervisorEvent::Connected => (Supervisor { connected: true, ..self }, SupervisorAction::CheckHealth),
            SupervisorEvent::ConnectFailed => if self.auto_restart {
                (Supervisor { connected: false, ..self }, SupervisorAction::Wait(self.interval))
            } else {
                (Supervisor { connected: false, ..self }, SupervisorAction::Exit)
            },
            SupervisorEvent::Alive => (self, SupervisorAction::Wait(self.interval)),
            SupervisorEvent::Dead => (Supervisor { stopping: self.stopping || !self.auto_restart, ..self }, SupervisorAction::Disconnect),
            SupervisorEvent::Waited => (self, resume),
            SupervisorEvent::Disconnected => if self.stopping {
                (Supervisor { connected: false, ..self }, SupervisorAction::Exit)
            } else {
                (Supervisor { connected: false, ..self }, SupervisorAction::Wait(self.interval))
            },
            SupervisorEvent::Shutdown(signal) => if signal {
                if self.connected {
                    (Supervisor { stopping: true, ..self }, SupervisorAction::Disconnect)
                } else {
                    (self, SupervisorAction::Exit)
                }
            } else {
                (self, resume)
            },
        }
    }
}

/// A shutdown signal ends the supervisor: at once when no backend is connected,
/// else right after the backend is disconnected, whatever the restart policy.
pub proof fn lemma_shutdown_ends(s: Supervisor)
    ensures
        !s.connected ==> supervisor_step(s, SupervisorEvent::Shutdown(true)).1 == SupervisorAction::Exit,
        s.connected ==> {
            let (t, a) = supervisor_step(s, SupervisorEvent::Shutdown(true));
            &&& a == SupervisorAction::Disconnect
            &&& supervisor_step(t, SupervisorEvent::Disconnected).1 == SupervisorAction::Exit
        },
{
}

/// With restarts asked for, only a shutdown ends the supervisor: from a state that is
/// not stopping, no other event leads to an exit.
pub proof fn lemma_restart_only_shutdown_ends(s: Supervisor, e: SupervisorEvent)
    requires
        s.auto_restart,
        !s.stopping,
        !(e matches SupervisorEvent::Shutdown(true)),
    ensures
        supervisor_step(s, e).1 != SupervisorAction::Exit,
        !supervisor_step(s, e).0.stopping,
        supervisor_step(s, e).0.auto_restart,
{
}

/// Without restarts, a failure ends the supervisor: a failed connection at once, a
/// dead backend right after its disconnection.
pub proof fn lemma_failure_ends_without_restart(s: Supervisor)
    requires
        !s.auto_restart,
    ensures
        supervisor_step(s, SupervisorEvent::ConnectFailed).1 == SupervisorAction::Exit,
        supervisor_step(s, SupervisorEvent::Dead).1 == SupervisorAction::Disconnect,
        supervisor_step(supervisor_step(s, SupervisorEvent::Dead).0, SupervisorEvent::Disconnected).1
            == SupervisorAction::Exit,
{
}

/// With restarts asked for, a dead backend is disconnected, then the supervisor waits
/// its interval, then connects again.
pub proof fn lemma_restart_waits_after_death(s: Supervisor)
    requires
        s.auto_restart,
        !s.stopping,
        s.connected,
    ensures
        ({
            let (t1, a1) = supervisor_step(s, SupervisorEvent::Dead);
            let (t2, a2) = supervisor_step(t1, SupervisorEvent::Disconnected);
            let (t3, a3) = supervisor_step(t2, SupervisorEvent::Waited);
            &&& a1 == SupervisorAction::Disconnect
            &&& a2 == SupervisorAction::Wait(s.interval)
            &&& a3 == SupervisorAction::Connect
            &&& !t3.connected
        }),
{
}

/// Every wait the supervisor asks for is its interval.
pub proof fn lemma_waits_are_the_interval(s: Supervisor, e: SupervisorEvent)
    ensures
        supervisor_step(s, e).1 matches SupervisorAction::Wait(ms) ==> ms == s.interval,
        supervisor_step(s, e).0.interval == s.interval,
{
}

/// `after` is `before` with `handle` held as the supervisor of tunnel `name`.
pub open spec fn registered(before: DaemonState, after: DaemonState, name: Seq<char>, handle: TunnelHandle) -> bool {
    &&& after.handles() == before.handles().insert(name, handle)
    &&& after.configured() == before.configured()
    &&& after.loaded_backends() == before.loaded_backends()
    &&& before.same_settings(after)
}

/// Registers the handle of a newly started supervisor for tunnel `name`; a handle held
/// before under that name is let go (its task goes on unheld).
pub fn spawn_tunnel_manager(state: &mut DaemonState, name: String, handle: TunnelHandle)
    ensures
        registered(*old(state), *final(state), name@, handle),
{
    let _ = state.insert_handle(name, handle);
}

/// What an ending supervisor of tunnel `name` does last: it gives up the handle held
/// under its name.
pub fn tunnel_manager_exit(state: &mut DaemonState, name: &str)
    ensures
        final(state).handles() == old(state).handles().remove(name@),
        final(state).configured() == old(state).configured(),
        final(state).loaded_backends() == old(state).loaded_backends(),
        old(state).same_settings(*final(state)),
{
    let _ = state.take_handle(name);
}

/// A live backend keeps the supervisor as it is: it waits its interval and checks again,
/// whatever the restart policy.
pub proof fn law_alive_backend_keeps_running(s: Supervisor)
    ensures
        supervisor_step(s, SupervisorEvent::Alive).0 == s,
        supervisor_step(s, SupervisorEvent::Alive).1 == SupervisorAction::Wait(s.interval),
        supervisor_step(supervisor_step(s, SupervisorEvent::Alive).0, SupervisorEvent::Waited).1
            == (if s.connected { SupervisorAction::CheckHealth } else { SupervisorAction::Connect }),
{
}

/// The supervisor ends only when told to shut down, when a connection fails without a
/// restart policy, or once a backend it was stopping is disconnected; and it starts
/// stopping only on a shutdown or on a death without a restart policy.
pub proof fn law_exit_only_on_shutdown_or_unrestarted_failure(s: Supervisor, e: SupervisorEvent)
    ensures
        supervisor_step(s, e).1 == SupervisorAction::Exit ==> (e == SupervisorEvent::Shutdown(true)
            || (e == SupervisorEvent::ConnectFailed && !s.auto_restart)
            || (e == SupervisorEvent::Disconnected && s.stopping)),
        !s.stopping && supervisor_step(s, e).0.stopping ==> (e == SupervisorEvent::Shutdown(true)
            || (e == SupervisorEvent::Dead && !s.auto_restart)),
        supervisor_step(s, e).0.auto_restart == s.auto_restart,
{
}

/// A new connection is checked at once; a connected supervisor that has waited checks
/// again; one that is not connected connects again.
pub proof fn law_connected_backend_is_checked(s: Supervisor)
    ensures
        supervisor_step(s, SupervisorEvent::Connected).0.connected,
        supervisor_step(s, SupervisorEvent::Connected).1 == SupervisorAction::CheckHealth,
        s.connected ==> supervisor_step(s, SupervisorEvent::Waited).1 == SupervisorAction::CheckHealth,
        !s.connected ==> supervisor_step(s, SupervisorEvent::Waited).1 == SupervisorAction::Connect,
{
}

/// A new supervisor restarts only when its tunnel's policy says `auto_restart:
/// Some(true)`, waits the policy's interval or 1000 ms when none is set, and starts by
/// connecting.
pub proof fn law_new_supervisor_follows_the_policy(config: TunnelConfig)
    ensures
        restarts(config) <==> (config.mgr matches Some(m) && m.auto_restart == Some(true)),
        config.mgr matches Some(m) ==> (m.auto_restart_interval matches Some(i) ==> interval_of(config) == i),
        (config.mgr is None || config.mgr->Some_0.auto_restart_interval is None) ==> interval_of(config) == 1000,
{
}

/// With restarts asked for, a failed connection is retried after the interval: the
/// supervisor waits, then connects again.
pub proof fn law_failed_connection_is_retried_after_the_interval(s: Supervisor)
    requires
        s.auto_restart,
    ensures
        supervisor_step(s, SupervisorEvent::ConnectFailed).1 == SupervisorAction::Wait(s.interval),
        !supervisor_step(s, SupervisorEvent::ConnectFailed).0.connected,
        supervisor_step(supervisor_step(s, SupervisorEvent::ConnectFailed).0, SupervisorEvent::Waited).1
            == SupervisorAction::Connect,
{
}

}
