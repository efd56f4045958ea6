//! The daemon's handling of a client request: the operation it asks for, what that
//! operation decides on the state, and the answer the request gets.
//!
//! Starting, aborting and awaiting supervisor tasks, and reading the configuration
//! from disk, are the caller's part: a decision names that work, and the caller
//! answers with `rpc::reply` once it is done.

use vstd::prelude::*;
use crate::config::TunnelConfig;
use crate::daemon::ctrl::{
    get_tunnel_status, list_tunnels, StopPlan, TaskExit, stop_outcome, listed, restart_decided, restart_tunnel, start_decided, start_tunnel,
    status_given, stop_decided, stop_tunnel,
};
use crate::error::DaemonError;
use crate::rpc::{answers, carries, operation_of, reply, route, CliMessage, DaemonMessage, Operation, Outcome};
use crate::state::{DaemonState, TunnelHandle, TunnelStatus};

verus! {

/// What handling a request asks of the caller.
pub enum Decision {
    /// Send this answer; nothing else is to be done.
    Answer(DaemonMessage),
    /// Start a supervisor for the tunnel with this configuration and register it
    /// under the name; then the start succeeded.
    Spawn(String, TunnelConfig),
    /// Carry out this plan to stop the supervisor of the named tunnel; the stop is
    /// then answered by `stop_result` of how the supervisor ended.
    Stop(String, StopPlan),
    /// Abort and wait for the previous supervisor, if any, then start a supervisor
    /// for the tunnel with this configuration and register it under the name; then
    /// the restart succeeded.
    Respawn(String, TunnelConfig, Option<TunnelHandle>),
    /// Read the configuration from disk and hand it to `reload_daemon`.
    Load,
}

/// What handling operation `op` decides, from `before` to `after`: each operation
/// decides as its control function does, and a refusal is answered at once with the
/// error, in the answer of the operation's own kind.
pub open spec fn decided(before: DaemonState, after: DaemonState, op: Operation, d: Decision) -> bool {
    match op {
        Operation::Start(n) => after == before && match d {
            Decision::Spawn(m, c) => m == n && start_decided(before, n@, Ok(c)),
            Decision::Answer(DaemonMessage::StartTunnelResponse { ok, error }) => !ok
                && (error matches Some(e) && start_decided(before, n@, Err(e))),
            _ => false,
        },
        Operation::Stop(n) => match d {
            Decision::Stop(m, p) => m == n && stop_decided(before, after, n@, Ok(p)),
            Decision::Answer(DaemonMessage::StopTunnelResponse { ok, error }) => !ok
                && (error matches Some(e) && stop_decided(before, after, n@, Err(e))),
            _ => false,
        },
        Operation::Restart(n) => match d {
            Decision::Respawn(m, c, prev) => m == n && restart_decided(before, after, n@, Ok((c, prev))),
            Decision::Answer(DaemonMessage::RestartTunnelResponse { ok, error }) => !ok
                && (error matches Some(e) && restart_decided(before, after, n@, Err(e))),
            _ => false,
        },
        Operation::Status(n) => after == before && match d {
            Decision::Answer(DaemonMessage::GetTunnelStatusResponse { ok, status, error }) => if ok {
                error is None && (status matches Some(s) && status_given(before, n@, Ok(s)))
            } else {
                status is None && (error matches Some(e) && status_given(before, n@, Err(e)))
            },
            _ => false,
        },
        Operation::List => after == before && match d {
            Decision::Answer(DaemonMessage::ListTunnelsResponse { ok, tunnels, error }) => ok && error is None
                && listed(before, tunnels@),
            _ => false,
        },
        Operation::Reload => after == before && d is Load,
    }
}

/// Decides operation `op` on the state.
pub fn decide(state: &mut DaemonState, op: &Operation) -> (d: Decision)
    ensures
        decided(*old(state), *final(state), *op, d),
{
    match op {
        Operation::Start(name) => match start_tunnel(state, name.as_str()) {
            Ok(config) => Decision::Spawn(name.clone(), config),
            Err(e) => Decision::Answer(reply(op, Outcome::Done(Err(e)))),
        },
        Operation::Stop(name) => match stop_tunnel(state, name.as_str()) {
            Ok(plan) => Decision::Stop(name.clone(), plan),
            Err(e) => Decision::Answer(reply(op, Outcome::Done(Err(e)))),
        },
        Operation::Restart(name) => match restart_tunnel(state, name.as_str()) {
            Ok((config, previous)) => Decision::Respawn(name.clone(), config, previous),
            Err(e) => Decision::Answer(reply(op, Outcome::Done(Err(e)))),
        },
        Operation::Status(name) => {
            let r = get_tunnel_status(state, name.as_str());
            Decision::Answer(reply(op, Outcome::Status(r)))
        },
        Operation::List => {
            let r = list_tunnels(state);
            Decision::Answer(reply(op, Outcome::Listed(r)))
        },
        Operation::Reload => Decision::Load,
    }
}

/// Handles a request: routes it to its operation and decides that operation.
pub fn handle_request(state: &mut DaemonState, request: CliMessage) -> (r: (Operation, Decision))
    ensures
        r.0 == operation_of(request),
        decided(*old(state), *final(state), r.0, r.1),
{
    let op = route(request);
    let d = decide(state, &op);
    (op, d)
}

/// An answer decided at once is of the kind the request asks for, and every refusal
/// carries its error.
pub proof fn law_immediate_answer_in_kind(
    before: DaemonState,
    after: DaemonState,
    request: CliMessage,
    m: DaemonMessage,
)
    requires
        decided(before, after, operation_of(request), Decision::Answer(m)),
    ensures
        answers(operation_of(request), m),
        m matches DaemonMessage::StartTunnelResponse { ok, error } ==> !ok && error is Some,
        m matches DaemonMessage::StopTunnelResponse { ok, error } ==> !ok && error is Some,
        m matches DaemonMessage::RestartTunnelResponse { ok, error } ==> !ok && error is Some,
        m matches DaemonMessage::GetTunnelStatusResponse { ok, error, .. } ==> ok || error is Some,
{
}

/// A start's or restart's result without its payload.
pub open spec fn done_of<T>(r: Result<T, DaemonError>) -> Result<(), DaemonError> {
    match r {
        Ok(_) => Ok(()),
        Err(e) => Err(e),
    }
}

/// `m` is the answer sent for operation `op` once the caller has done what decision
/// `d` asks: an immediate answer as it is; after starting a supervisor, the success of
/// `op`'s kind; after a stop, the answer of how the supervisor ended (`exit`); after a
/// reload, the answer of what installing the configuration came to (`reloaded`).
pub open spec fn concluded(
    op: Operation,
    d: Decision,
    exit: TaskExit,
    reloaded: Result<(), DaemonError>,
    m: DaemonMessage,
) -> bool {
    match d {
        Decision::Answer(x) => m == x,
        Decision::Spawn(_, _) => answers(op, m) && carries(m, Outcome::Done(Ok(()))),
        Decision::Respawn(_, _, _) => answers(op, m) && carries(m, Outcome::Done(Ok(()))),
        Decision::Stop(_, _) => answers(op, m) && carries(m, Outcome::Done(stop_outcome(exit))),
        Decision::Load => answers(op, m) && carries(m, Outcome::Done(reloaded)),
    }
}

/// Each request gets one answer, of its own kind, that carries what the matching
/// control operation gives on the state the request found: the start's, restart's or
/// status request's result, the stop's refusal or how the stopped supervisor ended,
/// every configured tunnel for a list, what the reload came to.
pub proof fn law_answer_carries_the_outcome(
    before: DaemonState,
    after: DaemonState,
    request: CliMessage,
    d: Decision,
    exit: TaskExit,
    reloaded: Result<(), DaemonError>,
    m: DaemonMessage,
)
    requires
        decided(before, after, operation_of(request), d),
        concluded(operation_of(request), d, exit, reloaded, m),
    ensures
        answers(operation_of(request), m),
        match request {
            CliMessage::StartTunnel { name } => exists|r: Result<TunnelConfig, DaemonError>|
                #[trigger] start_decided(before, name@, r) && carries(m, Outcome::Done(done_of(r))),
            CliMessage::StopTunnel { name } => exists|r: Result<StopPlan, DaemonError>|
                #[trigger] stop_decided(before, after, name@, r) && match r {
                    Ok(_) => carries(m, Outcome::Done(stop_outcome(exit))),
                    Err(e) => carries(m, Outcome::Done(Err(e))),
                },
            CliMessage::RestartTunnel { name } => exists|r: Result<(TunnelConfig, Option<TunnelHandle>), DaemonError>|
                #[trigger] restart_decided(before, after, name@, r) && carries(m, Outcome::Done(done_of(r))),
            CliMessage::GetTunnelStatus { name } => exists|r: Result<TunnelStatus, DaemonError>|
                #[trigger] status_given(before, name@, r) && carries(m, Outcome::Status(r)),
            CliMessage::ListTunnels => exists|v: Vec<TunnelStatus>|
                #[trigger] listed(before, v@) && carries(m, Outcome::Listed(Ok(v))),
            CliMessage::Reload => carries(m, Outcome::Done(reloaded)),
        },
{
    match request {
        CliMessage::StartTunnel { name } => match d {
            Decision::Spawn(_, c) => {
                assert(start_decided(before, name@, Ok(c)) && carries(m, Outcome::Done(done_of(Ok::<TunnelConfig, DaemonError>(c)))));
            },
            Decision::Answer(DaemonMessage::StartTunnelResponse { ok, error: Some(e) }) => {
                assert(start_decided(before, name@, Err(e)) && carries(m, Outcome::Done(done_of(Err::<TunnelConfig, DaemonError>(e)))));
            },
            _ => {},
        },
        CliMessage::StopTunnel { name } => match d {
            Decision::Stop(_, p) => {
                assert(stop_decided(before, after, name@, Ok(p)));
            },
            Decision::Answer(DaemonMessage::StopTunnelResponse { ok, error: Some(e) }) => {
                assert(stop_decided(before, after, name@, Err(e)));
            },
            _ => {},
        },
        CliMessage::RestartTunnel { name } => match d {
            Decision::Respawn(_, c, prev) => {
                let r = Ok::<(TunnelConfig, Option<TunnelHandle>), DaemonError>((c, prev));
                assert(restart_decided(before, after, name@, r) && carries(m, Outcome::Done(done_of(r))));
            },
            Decision::Answer(DaemonMessage::RestartTunnelResponse { ok, error: Some(e) }) => {
                let r = Err::<(TunnelConfig, Option<TunnelHandle>), DaemonError>(e);
                assert(restart_decided(before, after, name@, r) && carries(m, Outcome::Done(done_of(r))));
            },
            _ => {},
        },
        CliMessage::GetTunnelStatus { name } => match d {
            Decision::Answer(DaemonMessage::GetTunnelStatusResponse { ok, status, error }) => {
                if ok {
                    let s = status->Some_0;
                    assert(status_given(before, name@, Ok(s)) && carries(m, Outcome::Status(Ok(s))));
                } else {
                    let e = error->Some_0;
                    assert(status_given(before, name@, Err(e)) && carries(m, Outcome::Status(Err(e))));
                }
            },
            _ => {},
        },
        CliMessage::ListTunnels => match d {
            Decision::Answer(DaemonMessage::ListTunnelsResponse { ok, tunnels, error }) => {
                assert(listed(before, tunnels@) && carries(m, Outcome::Listed(Ok(tunnels))));
            },
            _ => {},
        },
        CliMessage::Reload => {},
    }
}

}
