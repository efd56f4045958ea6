//! Errors of backends and of the daemon, with the text each one is shown as.

use vstd::prelude::*;

verus! {

/// `std::io::Error`, a failed file or socket operation (opaque).
#[verifier::external_type_specification]
#[verifier::external_body]
pub struct ExIoError(std::io::Error);

/// The text of an I/O error (its `Display`), which for an operating-system error is the
/// system's own message, so nothing is stated of it.
#[verifier::external_body]
fn io_error_text(e: &std::io::Error) -> (text: String) {
    e.to_string()
}

/// Failures of the process that carries a tunnel.
#[derive(Debug)]
pub enum ProcessError {
    ProcessWaitFailed(String),
    ProcessKillFailed(String),
    ProcessSpawnFailed(String),
}

/// Failures of a tunnel backend.
#[derive(Debug)]
pub enum BackendError {
    IoError(String),
    InvalidConfig(String),
    ProcessError(ProcessError),
}

/// Failures of a daemon operation, as reported to the client.
#[derive(Debug)]
pub enum DaemonError {
    TunnelNotFound(String),
    TunnelAlreadyRunning(String),
    InvalidConfig(String),
    TaskPanic(String),
    Timeout,
    Backend(BackendError),
    Io(String),
}

/// Text of a process error.
pub open spec fn process_error_text(e: ProcessError) -> Seq<char> {
    match e {
        ProcessError::ProcessWaitFailed(m) => "Process wait failed: "@ + m@,
        ProcessError::ProcessKillFailed(m) => "Process kill failed: "@ + m@,
        ProcessError::ProcessSpawnFailed(m) => "Process spawn failed: "@ + m@,
    }
}

/// Text of a backend error.
pub open spec fn backend_error_text(e: BackendError) -> Seq<char> {
    match e {
        BackendError::IoError(m) => "IoError: "@ + m@,
        BackendError::InvalidConfig(m) => "Invalid config: "@ + m@,
        BackendError::ProcessError(p) => "Process error: "@ + process_error_text(p),
    }
}

/// Text of a daemon error.
pub open spec fn daemon_error_text(e: DaemonError) -> Seq<char> {
    match e {
        DaemonError::TunnelNotFound(m) => "Tunnel not found: "@ + m@,
        DaemonError::TunnelAlreadyRunning(m) => "Tunnel already running: "@ + m@,
        DaemonError::InvalidConfig(m) => "Invalid configuration: "@ + m@,
        DaemonError::TaskPanic(m) => "Task panicked: "@ + m@,
        DaemonError::Timeout => "Operation timed out"@,
        DaemonError::Backend(b) => "Backend error: "@ + backend_error_text(b),
        DaemonError::Io(m) => "IO error: "@ + m@,
    }
}

fn prefixed(prefix: &str, detail: &str) -> (s: String)
    ensures
        s@ == prefix@ + detail@,
{
    String::from_str(prefix).concat(detail)
}

impl ProcessError {
    /// The text this error is shown as.
    pub fn message(&self) -> (s: String)
        ensures
            s@ == process_error_text(*self),
    {
        match self {
            ProcessError::ProcessWaitFailed(m) => prefixed("Process wait failed: ", m.as_str()),
            ProcessError::ProcessKillFailed(m) => prefixed("Process kill failed: ", m.as_str()),
            ProcessError::ProcessSpawnFailed(m) => prefixed("Process spawn failed: ", m.as_str()),
        }
    }
}

impl Clone for ProcessError {
    fn clone(&self) -> (r: Self)
        ensures
            r == *self,
    {
        match self {
            ProcessError::ProcessWaitFailed(m) => ProcessError::ProcessWaitFailed(m.clone()),
            ProcessError::ProcessKillFailed(m) => ProcessError::ProcessKillFailed(m.clone()),
            ProcessError::ProcessSpawnFailed(m) => ProcessError::ProcessSpawnFailed(m.clone()),
        }
    }
}

impl Clone for BackendError {
    fn clone(&self) -> (r: Self)
        ensures
            r == *self,
    {
        match self {
            BackendError::IoError(m) => BackendError::IoError(m.clone()),
            BackendError::InvalidConfig(m) => BackendError::InvalidConfig(m.clone()),
            BackendError::ProcessError(p) => BackendError::ProcessError(p.clone()),
        }
    }
}

impl Clone for DaemonError {
    fn clone(&self) -> (r: Self)
        ensures
            r == *self,
    {
        match self {
            DaemonError::TunnelNotFound(m) => DaemonError::TunnelNotFound(m.clone()),
            DaemonError::TunnelAlreadyRunning(m) => DaemonError::TunnelAlreadyRunning(m.clone()),
            DaemonError::InvalidConfig(m) => DaemonError::InvalidConfig(m.clone()),
            DaemonError::TaskPanic(m) => DaemonError::TaskPanic(m.clone()),
            DaemonError::Timeout => DaemonError::Timeout,
            DaemonError::Backend(b) => DaemonError::Backend(b.clone()),
            DaemonError::Io(m) => DaemonError::Io(m.clone()),
        }
    }
}

impl BackendError {
    /// The text this error is shown as.
    pub fn message(&self) -> (s: String)
        ensures
            s@ == backend_error_text(*self),
    {
        match self {
            BackendError::IoError(m) => prefixed("IoError: ", m.as_str()),
            BackendError::InvalidConfig(m) => prefixed("Invalid config: ", m.as_str()),
            BackendError::ProcessError(p) => {
                let inner = p.message();
                prefixed("Process error: ", inner.as_str())
            },
        }
    }
}

impl DaemonError {
    /// The text this error is shown as.
    pub fn message(&self) -> (s: String)
        ensures
            s@ == daemon_error_text(*self),
    {
        match self {
            DaemonError::TunnelNotFound(m) => prefixed("Tunnel not found: ", m.as_str()),
            DaemonError::TunnelAlreadyRunning(m) => prefixed("Tunnel already running: ", m.as_str()),
            DaemonError::InvalidConfig(m) => prefixed("Invalid configuration: ", m.as_str()),
            DaemonError::TaskPanic(m) => prefixed("Task panicked: ", m.as_str()),
            DaemonError::Timeout => String::from_str("Operation timed out"),
            DaemonError::Backend(b) => {
                let inner = b.message();
                prefixed("Backend error: ", inner.as_str())
            },
            DaemonError::Io(m) => prefixed("IO error: ", m.as_str()),
        }
    }
}

impl DaemonError {
    /// The daemon error of a failed I/O operation: an `Io` error with the I/O error's text.
    pub fn from_io(e: std::io::Error) -> (r: DaemonError)
        ensures
            r is Io,
    {
        DaemonError::Io(io_error_text(&e))
    }
}

impl From<ProcessError> for BackendError {
    fn from(e: ProcessError) -> (r: BackendError) {
        BackendError::ProcessError(e)
    }
}

impl vstd::std_specs::convert::FromSpecImpl<ProcessError> for BackendError {
    open spec fn obeys_from_spec() -> bool {
        true
    }

    open spec fn from_spec(e: ProcessError) -> BackendError {
        BackendError::ProcessError(e)
    }
}

impl From<BackendError> for DaemonError {
    fn from(e: BackendError) -> (r: DaemonError) {
        DaemonError::Backend(e)
    }
}

impl vstd::std_specs::convert::FromSpecImpl<BackendError> for DaemonError {
    open spec fn obeys_from_spec() -> bool {
        true
    }

    open spec fn from_spec(e: BackendError) -> DaemonError {
        DaemonError::Backend(e)
    }
}

}
