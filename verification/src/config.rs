//! Configuration of tunnels and of their backends.

use vstd::prelude::*;
use crate::net::IpAddr;

verus! {

/// Forwarding direction.
#[derive(Debug, Clone, Copy, PartialEq, Eq, Structural)]
pub enum TunnelDirection {
    /// From the tunnel server to the client (bound on the remote server).
    Reverse,
    /// From the client to the server (bound on the local machine).
    Forward,
}

/// The server a backend connects to.
#[derive(Debug, Clone, Copy)]
pub struct Remote {
    /// IP address of the remote server.
    pub ip: IpAddr,
    /// Port of the remote server.
    pub port: i16,
}

/// IP and port of a remote or local bind or forwarding point.
#[derive(Debug, Clone, Copy)]
pub struct IpPort {
    pub ip: IpAddr,
    pub port: i16,
}

/// Credentials of an ssh backend.
#[derive(Debug)]
pub struct SecureShellAuth {
    pub username: String,
    /// Path of the private key, as text.
    pub key_path: Option<String>,
    pub password: Option<String>,
}

/// How a tunnel reaches its server: by the name of a backend file, or inline.
#[derive(Debug)]
pub enum BackendConfig {
    File(String),
    SecureShell(Remote, SecureShellAuth),
}

/// Start and restart policy of a tunnel.
#[derive(Debug, Clone, Copy)]
pub struct TunnelMgr {
    /// Start the tunnel when the daemon starts.
    pub auto_start: Option<bool>,
    /// Restart the tunnel when its backend fails.
    pub auto_restart: Option<bool>,
    /// Milliseconds to wait before a restart (1000 when absent).
    pub auto_restart_interval: Option<u64>,
}

/// A tunnel: its policy, backend, direction and the two endpoints.
#[derive(Debug)]
pub struct TunnelConfig {
    pub mgr: Option<TunnelMgr>,
    pub backend: BackendConfig,
    pub direction: TunnelDirection,
    pub local: IpPort,
    pub remote: IpPort,
}

fn clone_opt_string(s: &Option<String>) -> (r: Option<String>)
    ensures
        r == *s,
{
    match s {
        Some(v) => Some(v.clone()),
        None => None,
    }
}

impl Clone for SecureShellAuth {
    fn clone(&self) -> (r: Self)
        ensures
            r == *self,
    {
        SecureShellAuth {
            username: self.username.clone(),
            key_path: clone_opt_string(&self.key_path),
            password: clone_opt_string(&self.password),
        }
    }
}

impl Clone for BackendConfig {
    fn clone(&self) -> (r: Self)
        ensures
            r == *self,
    {
        match self {
            BackendConfig::File(f) => BackendConfig::File(f.clone()),
            BackendConfig::SecureShell(remote, auth) => BackendConfig::SecureShell(*remote, auth.clone()),
        }
    }
}

impl Clone for TunnelConfig {
    fn clone(&self) -> (r: Self)
        ensures
            r == *self,
    {
        TunnelConfig {
            mgr: self.mgr,
            backend: self.backend.clone(),
            direction: self.direction,
            local: self.local,
            remote: self.remote,
        }
    }
}

impl BackendConfig {
    /// Whether this is a reference to a backend file.
    pub fn is_file(&self) -> (r: bool)
        ensures
            r == (*self is File),
    {
        match self {
            BackendConfig::File(_) => true,
            BackendConfig::SecureShell(_, _) => false,
        }
    }
}

}
