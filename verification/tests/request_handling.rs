use std::path::PathBuf;
use tunk::config::{BackendConfig, IpPort, Remote, SecureShellAuth, TunnelConfig, TunnelDirection};
use tunk::daemon::init_daemon;
use tunk::daemon::mgr::spawn_tunnel_manager;
use tunk::error::DaemonError;
use tunk::handler::{handle_request, Decision};
use tunk::net::IpAddr;
use tunk::rpc::{CliMessage, DaemonMessage, Operation};
use tunk::state::{DaemonState, TunnelHandle};
use tunk::table::ConfigTable;

fn configured_state() -> DaemonState {
    let mut s = DaemonState::new(PathBuf::from("/tmp/b"), PathBuf::from("/tmp/t"));
    let backends = ConfigTable::new();
    let mut tunnels = ConfigTable::new();
    tunnels.insert(
        "api".to_string(),
        TunnelConfig {
            mgr: None,
            backend: BackendConfig::SecureShell(
                Remote { ip: IpAddr::V4([10, 0, 0, 1]), port: 22 },
                SecureShellAuth { username: "me".to_string(), key_path: None, password: None },
            ),
            direction: TunnelDirection::Forward,
            local: IpPort { ip: IpAddr::V4([127, 0, 0, 1]), port: 8080 },
            remote: IpPort { ip: IpAddr::V4([10, 0, 0, 2]), port: 80 },
        },
    );
    init_daemon(&mut s, Ok((backends, tunnels))).unwrap();
    s
}

fn handle(rt: &tokio::runtime::Runtime) -> TunnelHandle {
    let handle = rt.spawn(async {});
    let abort = handle.abort_handle();
    let (stop, _) = tokio::sync::watch::channel(false);
    TunnelHandle { handle, abort, stop }
}

#[test]
fn start_of_a_configured_tunnel_asks_for_a_supervisor() {
    let mut s = configured_state();
    let (op, d) = handle_request(&mut s, CliMessage::StartTunnel { name: "api".to_string() });
    assert!(matches!(op, Operation::Start(ref n) if n == "api"));
    match d {
        Decision::Spawn(name, config) => {
            assert_eq!(name, "api");
            assert_eq!(config.local.port, 8080);
        }
        _ => panic!("expected a supervisor to start"),
    }
    assert!(!s.is_running("api"));
}

#[test]
fn refusals_are_answered_at_once_in_kind() {
    let rt = tokio::runtime::Runtime::new().unwrap();
    let mut s = configured_state();
    spawn_tunnel_manager(&mut s, "api".to_string(), handle(&rt));

    match handle_request(&mut s, CliMessage::StartTunnel { name: "api".to_string() }).1 {
        Decision::Answer(DaemonMessage::StartTunnelResponse {
            ok: false,
            error: Some(DaemonError::TunnelAlreadyRunning(n)),
        }) => assert_eq!(n, "api"),
        _ => panic!("a second start must be refused"),
    }
    match handle_request(&mut s, CliMessage::StopTunnel { name: "nope".to_string() }).1 {
        Decision::Answer(DaemonMessage::StopTunnelResponse { ok: false, error: Some(DaemonError::TunnelNotFound(n)) }) => {
            assert_eq!(n, "nope")
        }
        _ => panic!("stopping an unknown tunnel must be refused"),
    }
    match handle_request(&mut s, CliMessage::RestartTunnel { name: "nope".to_string() }).1 {
        Decision::Answer(DaemonMessage::RestartTunnelResponse {
            ok: false,
            error: Some(DaemonError::TunnelNotFound(n)),
        }) => assert_eq!(n, "nope"),
        _ => panic!("restarting an unknown tunnel must be refused"),
    }
    match handle_request(&mut s, CliMessage::GetTunnelStatus { name: "nope".to_string() }).1 {
        Decision::Answer(DaemonMessage::GetTunnelStatusResponse {
            ok: false,
            status: None,
            error: Some(DaemonError::TunnelNotFound(n)),
        }) => assert_eq!(n, "nope"),
        _ => panic!("the status of an unknown tunnel must be refused"),
    }
    assert!(s.is_running("api"));
}

#[test]
fn readings_are_answered_at_once() {
    let rt = tokio::runtime::Runtime::new().unwrap();
    let mut s = configured_state();
    spawn_tunnel_manager(&mut s, "api".to_string(), handle(&rt));
    match handle_request(&mut s, CliMessage::GetTunnelStatus { name: "api".to_string() }).1 {
        Decision::Answer(DaemonMessage::GetTunnelStatusResponse { ok: true, status: Some(st), error: None }) => {
            assert_eq!(st.name, "api");
            assert!(st.running);
        }
        _ => panic!("expected the status"),
    }
    match handle_request(&mut s, CliMessage::ListTunnels).1 {
        Decision::Answer(DaemonMessage::ListTunnelsResponse { ok: true, tunnels, error: None }) => {
            assert_eq!(tunnels.len(), 1);
            assert_eq!(tunnels[0].name, "api");
            assert!(tunnels[0].running);
        }
        _ => panic!("expected the list"),
    }
}

#[test]
fn stop_and_restart_take_the_running_supervisor() {
    let rt = tokio::runtime::Runtime::new().unwrap();
    let mut s = configured_state();
    spawn_tunnel_manager(&mut s, "api".to_string(), handle(&rt));
    match handle_request(&mut s, CliMessage::RestartTunnel { name: "api".to_string() }).1 {
        Decision::Respawn(name, config, previous) => {
            assert_eq!(name, "api");
            assert_eq!(config.remote.port, 80);
            assert!(previous.is_some());
        }
        _ => panic!("expected a restart"),
    }
    assert!(!s.is_running("api"));
    match handle_request(&mut s, CliMessage::RestartTunnel { name: "api".to_string() }).1 {
        Decision::Respawn(_, _, previous) => assert!(previous.is_none()),
        _ => panic!("a stopped tunnel restarts too"),
    }
    spawn_tunnel_manager(&mut s, "api".to_string(), handle(&rt));
    match handle_request(&mut s, CliMessage::StopTunnel { name: "api".to_string() }).1 {
        Decision::Stop(name, plan) => {
            assert_eq!(name, "api");
            assert!(plan.signal);
            assert_eq!(plan.grace_ms, 3000);
        }
        _ => panic!("expected the supervisor to stop"),
    }
    assert!(!s.is_running("api"));
}

#[test]
fn reload_asks_for_the_configuration() {
    let mut s = configured_state();
    let (op, d) = handle_request(&mut s, CliMessage::Reload);
    assert!(matches!(op, Operation::Reload));
    assert!(matches!(d, Decision::Load));
}
