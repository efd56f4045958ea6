use tunk::cli::{render_reply, to_message, tunnel_status, Commands};
use tunk::config::{BackendConfig, IpPort, Remote, SecureShellAuth, TunnelConfig, TunnelDirection, TunnelMgr};
use tunk::daemon::mgr::{Supervisor, SupervisorAction, SupervisorEvent, DEFAULT_RESTART_INTERVAL};
use tunk::error::{BackendError, DaemonError, ProcessError};
use tunk::loader::{record_loaded, ConfigKind};
use tunk::net::IpAddr;
use tunk::rpc::{list_response, plain_response, reply, route, status_response, CliMessage, DaemonMessage, Operation, Outcome, PlainRequest};
use tunk::state::TunnelStatus;
use tunk::table::ConfigTable;

fn config(mgr: Option<TunnelMgr>) -> TunnelConfig {
    TunnelConfig {
        mgr,
        backend: BackendConfig::SecureShell(
            Remote { ip: IpAddr::V4([1, 2, 3, 4]), port: 22 },
            SecureShellAuth { username: "u".to_string(), key_path: None, password: None },
        ),
        direction: TunnelDirection::Forward,
        local: IpPort { ip: IpAddr::V4([127, 0, 0, 1]), port: 1 },
        remote: IpPort { ip: IpAddr::V4([127, 0, 0, 1]), port: 2 },
    }
}

#[test]
fn supervisor_defaults() {
    let (s, a) = Supervisor::new(&config(None));
    assert_eq!(a, SupervisorAction::Connect);
    assert_eq!(s.interval, DEFAULT_RESTART_INTERVAL);
    assert_eq!(s.interval, 1000);
    assert!(!s.auto_restart);
    assert!(!s.connected);
}

#[test]
fn supervisor_with_restarts_reconnects_after_failures() {
    let mgr = TunnelMgr { auto_start: None, auto_restart: Some(true), auto_restart_interval: Some(250) };
    let (s, _) = Supervisor::new(&config(Some(mgr)));
    let (s, a) = s.step(SupervisorEvent::ConnectFailed);
    assert_eq!(a, SupervisorAction::Wait(250));
    let (s, a) = s.step(SupervisorEvent::Waited);
    assert_eq!(a, SupervisorAction::Connect);
    let (s, a) = s.step(SupervisorEvent::Connected);
    assert_eq!(a, SupervisorAction::CheckHealth);
    let (s, a) = s.step(SupervisorEvent::Alive);
    assert_eq!(a, SupervisorAction::Wait(250));
    let (s, a) = s.step(SupervisorEvent::Waited);
    assert_eq!(a, SupervisorAction::CheckHealth);
    let (s, a) = s.step(SupervisorEvent::Dead);
    assert_eq!(a, SupervisorAction::Disconnect);
    let (s, a) = s.step(SupervisorEvent::Disconnected);
    assert_eq!(a, SupervisorAction::Wait(250));
    assert!(!s.connected);
    let (_, a) = s.step(SupervisorEvent::Waited);
    assert_eq!(a, SupervisorAction::Connect);
}

#[test]
fn supervisor_without_restarts_ends_on_failure() {
    let (s, _) = Supervisor::new(&config(None));
    let (_, a) = s.step(SupervisorEvent::ConnectFailed);
    assert_eq!(a, SupervisorAction::Exit);
    let (s, _) = s.step(SupervisorEvent::Connected);
    let (s, a) = s.step(SupervisorEvent::Dead);
    assert_eq!(a, SupervisorAction::Disconnect);
    let (_, a) = s.step(SupervisorEvent::Disconnected);
    assert_eq!(a, SupervisorAction::Exit);
}

#[test]
fn supervisor_shutdown() {
    let mgr = TunnelMgr { auto_start: None, auto_restart: Some(true), auto_restart_interval: None };
    let (s, _) = Supervisor::new(&config(Some(mgr)));
    let (_, a) = s.step(SupervisorEvent::Shutdown(true));
    assert_eq!(a, SupervisorAction::Exit);
    let (s, a) = s.step(SupervisorEvent::Shutdown(false));
    assert_eq!(a, SupervisorAction::Connect);
    let (s, _) = s.step(SupervisorEvent::Connected);
    let (s, a) = s.step(SupervisorEvent::Shutdown(true));
    assert_eq!(a, SupervisorAction::Disconnect);
    let (_, a) = s.step(SupervisorEvent::Disconnected);
    assert_eq!(a, SupervisorAction::Exit);
}

#[test]
fn error_texts() {
    assert_eq!(DaemonError::TunnelNotFound("web".to_string()).message(), "Tunnel not found: web");
    assert_eq!(DaemonError::TunnelAlreadyRunning("web".to_string()).message(), "Tunnel already running: web");
    assert_eq!(DaemonError::InvalidConfig("x".to_string()).message(), "Invalid configuration: x");
    assert_eq!(DaemonError::TaskPanic("p".to_string()).message(), "Task panicked: p");
    assert_eq!(DaemonError::Timeout.message(), "Operation timed out");
    assert_eq!(DaemonError::Io("disk".to_string()).message(), "IO error: disk");
    let b = BackendError::ProcessError(ProcessError::ProcessSpawnFailed("no ssh".to_string()));
    assert_eq!(b.message(), "Process error: Process spawn failed: no ssh");
    assert_eq!(DaemonError::from(b).message(), "Backend error: Process error: Process spawn failed: no ssh");
    assert_eq!(BackendError::IoError("e".to_string()).message(), "IoError: e");
    assert_eq!(BackendError::InvalidConfig("c".to_string()).message(), "Invalid config: c");
    assert_eq!(ProcessError::ProcessKillFailed("k".to_string()).message(), "Process kill failed: k");
    assert_eq!(ProcessError::ProcessWaitFailed("w".to_string()).message(), "Process wait failed: w");
    assert!(matches!(BackendError::from(ProcessError::ProcessWaitFailed("w".to_string())),
        BackendError::ProcessError(ProcessError::ProcessWaitFailed(_))));
}

#[test]
fn loading_records_configs_and_parse_errors() {
    let mut table: ConfigTable<u32> = ConfigTable::new();
    assert!(record_loaded(&mut table, ConfigKind::Tunnel, "web".to_string(), Ok(1)).is_ok());
    assert!(record_loaded(&mut table, ConfigKind::Tunnel, "web".to_string(), Ok(2)).is_ok());
    assert_eq!(table.len(), 1);
    assert_eq!(table.get(&"web".to_string()), Some(&2));
    match record_loaded(&mut table, ConfigKind::Backend, "bad".to_string(), Err("1:1: Unexpected".to_string())) {
        Err(DaemonError::InvalidConfig(m)) => assert_eq!(m, "Error when loading backend config bad: 1:1: Unexpected"),
        _ => panic!("expected invalid configuration"),
    }
    match record_loaded(&mut table, ConfigKind::Tunnel, "t".to_string(), Err("oops".to_string())) {
        Err(DaemonError::InvalidConfig(m)) => assert_eq!(m, "Error when loading tunnel config t: oops"),
        _ => panic!("expected invalid configuration"),
    }
    assert_eq!(table.len(), 1);
    assert_eq!(table.get(&"bad".to_string()), None);
}

fn texts(lines: Vec<tunk::cli::OutputLine>) -> Vec<(bool, String)> {
    lines.into_iter().map(|l| (l.to_stderr, l.text)).collect()
}

#[test]
fn client_shows_success_and_errors() {
    let ok = plain_response(PlainRequest::Start, Ok(()));
    assert_eq!(
        texts(render_reply(&Commands::Start { name: "web".to_string() }, &ok)),
        vec![(false, "\x1b[92m\u{2713}\x1b[0m Tunnel started".to_string())]
    );
    let err = plain_response(PlainRequest::Stop, Err(DaemonError::TunnelNotFound("web".to_string())));
    assert_eq!(
        texts(render_reply(&Commands::Stop { name: "web".to_string() }, &err)),
        vec![(true, "\x1b[91m\u{2717}\x1b[0m Tunnel not found: web".to_string())]
    );
    assert_eq!(
        texts(render_reply(&Commands::Reload, &plain_response(PlainRequest::Reload, Ok(())))),
        vec![(false, "\x1b[92m\u{2713}\x1b[0m Daemon configuration reloaded".to_string())]
    );
    assert_eq!(
        texts(render_reply(&Commands::Restart { name: "x".to_string() }, &ok)),
        vec![(true, "\x1b[91m\u{2717}\x1b[0m Unexpected response from daemon".to_string())]
    );
}

#[test]
fn client_shows_status_and_list() {
    let status = TunnelStatus { name: "web".to_string(), running: true, config: config(None) };
    let reply = status_response(Ok(status.clone()));
    assert_eq!(
        texts(render_reply(&Commands::Status { name: "web".to_string() }, &reply)),
        vec![
            (false, "\x1b[1;36mTunnel Status\x1b[0m".to_string()),
            (false, "  Name:    web".to_string()),
            (false, "  Running: yes".to_string()),
        ]
    );
    let empty = list_response(Ok(Vec::new()));
    assert_eq!(
        texts(render_reply(&Commands::List, &empty)),
        vec![
            (false, "\x1b[1;36mConfigured Tunnels\x1b[0m".to_string()),
            (false, "  No tunnels configured".to_string()),
        ]
    );
    let stopped = TunnelStatus { name: "api".to_string(), running: false, config: config(None) };
    let listed = list_response(Ok(vec![status, stopped]));
    assert_eq!(
        texts(render_reply(&Commands::List, &listed)),
        vec![
            (false, "\x1b[1;36mConfigured Tunnels\x1b[0m".to_string()),
            (false, "  web  \x1b[92mrunning\x1b[0m".to_string()),
            (false, "  api  \x1b[90mstopped\x1b[0m".to_string()),
        ]
    );
    assert_eq!(tunnel_status("x", false).text, "  x  \x1b[90mstopped\x1b[0m");
    let failed = list_response(Err(DaemonError::Timeout));
    assert!(matches!(&failed, DaemonMessage::ListTunnelsResponse { ok: false, tunnels, error: Some(DaemonError::Timeout) } if tunnels.is_empty()));
}

#[test]
fn commands_send_their_requests() {
    assert!(matches!(to_message(Commands::Start { name: "a".to_string() }), CliMessage::StartTunnel { name } if name == "a"));
    assert!(matches!(to_message(Commands::Stop { name: "a".to_string() }), CliMessage::StopTunnel { name } if name == "a"));
    assert!(matches!(to_message(Commands::Restart { name: "a".to_string() }), CliMessage::RestartTunnel { name } if name == "a"));
    assert!(matches!(to_message(Commands::Status { name: "a".to_string() }), CliMessage::GetTunnelStatus { name } if name == "a"));
    assert!(matches!(to_message(Commands::List), CliMessage::ListTunnels));
    assert!(matches!(to_message(Commands::Reload), CliMessage::Reload));
}

#[test]
fn requests_are_routed_and_answered_in_kind() {
    let op = route(CliMessage::StopTunnel { name: "web".to_string() });
    assert!(matches!(&op, Operation::Stop(n) if n == "web"));
    let m = reply(&op, Outcome::Done(Ok(())));
    assert!(matches!(m, DaemonMessage::StopTunnelResponse { ok: true, error: None }));
    let op = route(CliMessage::StartTunnel { name: "web".to_string() });
    assert!(matches!(&op, Operation::Start(n) if n == "web"));
    let m = reply(&op, Outcome::Done(Err(DaemonError::Timeout)));
    assert!(matches!(m, DaemonMessage::StartTunnelResponse { ok: false, error: Some(DaemonError::Timeout) }));
    let op = route(CliMessage::RestartTunnel { name: "a".to_string() });
    assert!(matches!(reply(&op, Outcome::Done(Ok(()))), DaemonMessage::RestartTunnelResponse { ok: true, .. }));
    let op = route(CliMessage::Reload);
    assert!(matches!(op, Operation::Reload));
    assert!(matches!(reply(&op, Outcome::Done(Ok(()))), DaemonMessage::ReloadResponse { ok: true, .. }));
    let op = route(CliMessage::GetTunnelStatus { name: "x".to_string() });
    assert!(matches!(&op, Operation::Status(n) if n == "x"));
    let m = reply(&op, Outcome::Status(Err(DaemonError::TunnelNotFound("x".to_string()))));
    assert!(matches!(m, DaemonMessage::GetTunnelStatusResponse { ok: false, status: None, error: Some(_) }));
    let op = route(CliMessage::ListTunnels);
    assert!(matches!(op, Operation::List));
    let m = reply(&op, Outcome::Listed(Ok(Vec::new())));
    assert!(matches!(m, DaemonMessage::ListTunnelsResponse { ok: true, error: None, .. }));
}
