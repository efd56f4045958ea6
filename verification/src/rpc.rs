//! Messages between the client and the daemon, and the daemon's answers to
//! each request's outcome.

use vstd::prelude::*;
use crate::error::DaemonError;
use crate::state::TunnelStatus;

verus! {

/// A request of the client.
#[derive(Debug)]
pub enum CliMessage {
    StartTunnel { name: String },
    StopTunnel { name: String },
    RestartTunnel { name: String },
    GetTunnelStatus { name: String },
    ListTunnels,
    Reload,
}

/// An answer of the daemon.
#[derive(Debug)]
pub enum DaemonMessage {
    StartTunnelResponse { ok: bool, error: Option<DaemonError> },
    StopTunnelResponse { ok: bool, error: Option<DaemonError> },
    RestartTunnelResponse { ok: bool, error: Option<DaemonError> },
    GetTunnelStatusResponse { ok: bool, status: Option<TunnelStatus>, error: Option<DaemonError> },
    ListTunnelsResponse { ok: bool, tunnels: Vec<TunnelStatus>, error: Option<DaemonError> },
    ReloadResponse { ok: bool, error: Option<DaemonError> },
}

/// The requests that are answered by success or an error alone.
#[derive(Debug, Clone, Copy, PartialEq, Eq, Structural)]
pub enum PlainRequest {
    Start,
    Stop,
    Restart,
    Reload,
}

/// Every answer that is not a success carries its error.
pub open spec fn reply_well_formed(m: DaemonMessage) -> bool {
    match m {
        DaemonMessage::StartTunnelResponse { ok, error } => !ok ==> error is Some,
        DaemonMessage::StopTunnelResponse { ok, error } => !ok ==> error is Some,
        DaemonMessage::RestartTunnelResponse { ok, error } => !ok ==> error is Some,
        DaemonMessage::GetTunnelStatusResponse { ok, error, .. } => !ok ==> error is Some,
        DaemonMessage::ListTunnelsResponse { ok, error, .. } => !ok ==> error is Some,
        DaemonMessage::ReloadResponse { ok, error } => !ok ==> error is Some,
    }
}

/// The answer to a start, stop, restart or reload: `ok` and no error on success,
/// else the error.
pub fn plain_response(request: PlainRequest, outcome: Result<(), DaemonError>) -> (m: DaemonMessage)
    ensures
        reply_well_formed(m),
        match (request, outcome) {
            (PlainRequest::Start, Ok(_)) => m == DaemonMessage::StartTunnelResponse { ok: true, error: None },
            (PlainRequest::Start, Err(e)) => m == DaemonMessage::StartTunnelResponse { ok: false, error: Some(e) },
            (PlainRequest::Stop, Ok(_)) => m == DaemonMessage::StopTunnelResponse { ok: true, error: None },
            (PlainRequest::Stop, Err(e)) => m == DaemonMessage::StopTunnelResponse { ok: false, error: Some(e) },
            (PlainRequest::Restart, Ok(_)) => m == DaemonMessage::RestartTunnelResponse { ok: true, error: None },
            (PlainRequest::Restart, Err(e)) => m == DaemonMessage::RestartTunnelResponse { ok: false, error: Some(e) },
            (PlainRequest::Reload, Ok(_)) => m == DaemonMessage::ReloadResponse { ok: true, error: None },
            (PlainRequest::Reload, Err(e)) => m == DaemonMessage::ReloadResponse { ok: false, error: Some(e) },
        },
{
    let (ok, error) = match outcome {
        Ok(_) => (true, None),
        Err(e) => (false, Some(e)),
    };
    match request {
        PlainRequest::Start => DaemonMessage::StartTunnelResponse { ok, error },
        PlainRequest::Stop => DaemonMessage::StopTunnelResponse { ok, error },
        PlainRequest::Restart => DaemonMessage::RestartTunnelResponse { ok, error },
        PlainRequest::Reload => DaemonMessage::ReloadResponse { ok, error },
    }
}

/// The answer to a status request: the status on success, else the error.
pub fn status_response(outcome: Result<TunnelStatus, DaemonError>) -> (m: DaemonMessage)
    ensures
        reply_well_formed(m),
        match outcome {
            Ok(s) => m == DaemonMessage::GetTunnelStatusResponse { ok: true, status: Some(s), error: None },
            Err(e) => m == DaemonMessage::GetTunnelStatusResponse { ok: false, status: None, error: Some(e) },
        },
{
    match outcome {
        Ok(s) => DaemonMessage::GetTunnelStatusResponse { ok: true, status: Some(s), error: None },
        Err(e) => DaemonMessage::GetTunnelStatusResponse { ok: false, status: None, error: Some(e) },
    }
}

/// The answer to a list request: the statuses on success, else no statuses and the error.
pub fn list_response(outcome: Result<Vec<TunnelStatus>, DaemonError>) -> (m: DaemonMessage)
    ensures
        reply_well_formed(m),
        match outcome {
            Ok(v) => m matches DaemonMessage::ListTunnelsResponse { ok, tunnels, error }
                && ok && tunnels@ == v@ && error is None,
            Err(e) => m matches DaemonMessage::ListTunnelsResponse { ok, tunnels, error }
                && !ok && tunnels@.len() == 0 && error == Some(e),
        },
{
    match outcome {
        Ok(v) => DaemonMessage::ListTunnelsResponse { ok: true, tunnels: v, error: None },
        Err(e) => DaemonMessage::ListTunnelsResponse { ok: false, tunnels: Vec::new(), error: Some(e) },
    }
}

/// The control operation a request asks for.
#[derive(Debug)]
pub enum Operation {
    Start(String),
    Stop(String),
    Restart(String),
    Status(String),
    List,
    Reload,
}

/// The operation each request asks for.
pub open spec fn operation_of(request: CliMessage) -> Operation {
    match request {
        CliMessage::StartTunnel { name } => Operation::Start(name),
        CliMessage::StopTunnel { name } => Operation::Stop(name),
        CliMessage::RestartTunnel { name } => Operation::Restart(name),
        CliMessage::GetTunnelStatus { name } => Operation::Status(name),
        CliMessage::ListTunnels => Operation::List,
        CliMessage::Reload => Operation::Reload,
    }
}

/// Routes a request to the control operation it asks for.
pub fn route(request: CliMessage) -> (op: Operation)
    ensures
        op == operation_of(request),
{
    match request {
        CliMessage::StartTunnel { name } => Operation::Start(name),
        CliMessage::StopTunnel { name } => Operation::Stop(name),
        CliMessage::RestartTunnel { name } => Operation::Restart(name),
        CliMessage::GetTunnelStatus { name } => Operation::Status(name),
        CliMessage::ListTunnels => Operation::List,
        CliMessage::Reload => Operation::Reload,
    }
}

/// What came of a control operation.
#[derive(Debug)]
pub enum Outcome {
    /// Of a start, stop, restart or reload.
    Done(Result<(), DaemonError>),
    /// Of a status request.
    Status(Result<TunnelStatus, DaemonError>),
    /// Of a list request.
    Listed(Result<Vec<TunnelStatus>, DaemonError>),
}

/// The outcome is of the kind the operation gives.
pub open spec fn outcome_fits(op: Operation, outcome: Outcome) -> bool {
    match op {
        Operation::Status(_) => outcome is Status,
        Operation::List => outcome is Listed,
        _ => outcome is Done,
    }
}

/// The answer is of the variant that answers the operation.
pub open spec fn answers(op: Operation, m: DaemonMessage) -> bool {
    match op {
        Operation::Start(_) => m is StartTunnelResponse,
        Operation::Stop(_) => m is StopTunnelResponse,
        Operation::Restart(_) => m is RestartTunnelResponse,
        Operation::Status(_) => m is GetTunnelStatusResponse,
        Operation::List => m is ListTunnelsResponse,
        Operation::Reload => m is ReloadResponse,
    }
}

/// `ok` and the error of an answer to a start, stop, restart or reload.
pub open spec fn plain_fields(m: DaemonMessage) -> Option<(bool, Option<DaemonError>)> {
    match m {
        DaemonMessage::StartTunnelResponse { ok, error } => Some((ok, error)),
        DaemonMessage::StopTunnelResponse { ok, error } => Some((ok, error)),
        DaemonMessage::RestartTunnelResponse { ok, error } => Some((ok, error)),
        DaemonMessage::ReloadResponse { ok, error } => Some((ok, error)),
        _ => None,
    }
}

/// The answer carries the outcome: success with no error, or the error; the status or
/// the statuses on success.
pub open spec fn carries(m: DaemonMessage, outcome: Outcome) -> bool {
    match outcome {
        Outcome::Done(Ok(_)) => plain_fields(m) == Some((true, None::<DaemonError>)),
        Outcome::Done(Err(e)) => plain_fields(m) == Some((false, Some(e))),
        Outcome::Status(Ok(s)) => m == DaemonMessage::GetTunnelStatusResponse { ok: true, status: Some(s), error: None },
        Outcome::Status(Err(e)) => m == DaemonMessage::GetTunnelStatusResponse { ok: false, status: None, error: Some(e) },
        Outcome::Listed(Ok(v)) => m matches DaemonMessage::ListTunnelsResponse { ok, tunnels, error }
            && ok && tunnels@ == v@ && error is None,
        Outcome::Listed(Err(e)) => m matches DaemonMessage::ListTunnelsResponse { ok, tunnels, error }
            && !ok && tunnels@.len() == 0 && error == Some(e),
    }
}

/// The answer to operation `op`, from what came of it.
pub fn reply(op: &Operation, outcome: Outcome) -> (m: DaemonMessage)
    requires
        outcome_fits(*op, outcome),
    ensures
        answers(*op, m),
        reply_well_formed(m),
        carries(m, outcome),
{
    match outcome {
        Outcome::Done(r) => {
            let request = match op {
                Operation::Start(_) => PlainRequest::Start,
                Operation::Stop(_) => PlainRequest::Stop,
                Operation::Restart(_) => PlainRequest::Restart,
                _ => PlainRequest::Reload,
            };
            plain_response(request, r)
        },
        Outcome::Status(r) => status_response(r),
        Outcome::Listed(r) => list_response(r),
    }
}

/// The answer a request gets is of its own variant: a start is answered by a start
/// answer, and so on for every request.
pub proof fn law_request_gets_matching_reply(request: CliMessage, m: DaemonMessage)
    requires
        answers(operation_of(request), m),
    ensures
        request is StartTunnel <==> m is StartTunnelResponse,
        request is StopTunnel <==> m is StopTunnelResponse,
        request is RestartTunnel <==> m is RestartTunnelResponse,
        request is GetTunnelStatus <==> m is GetTunnelStatusResponse,
        request is ListTunnels <==> m is ListTunnelsResponse,
        request is Reload <==> m is ReloadResponse,
{
}

}
