use std::path::PathBuf;
use tunk::config::{BackendConfig, IpPort, Remote, SecureShellAuth, TunnelConfig, TunnelDirection, TunnelMgr};
use tunk::daemon::ctrl::{
    get_tunnel_status, list_tunnels, reload_daemon, restart_tunnel, shutdown_daemon, start_tunnel, stop_result,
    stop_tunnel, TaskExit,
};
use tunk::daemon::init_daemon;
use tunk::daemon::mgr::{spawn_tunnel_manager, tunnel_manager_exit};
use tunk::daemon::utils;
use tunk::error::DaemonError;
use tunk::net::IpAddr;
use tunk::state::{DaemonState, TunnelHandle};
use tunk::table::ConfigTable;

fn ssh_backend(user: &str) -> BackendConfig {
    BackendConfig::SecureShell(
        Remote { ip: IpAddr::V4([10, 0, 0, 1]), port: 22 },
        SecureShellAuth { username: user.to_string(), key_path: None, password: None },
    )
}

fn tunnel(backend: BackendConfig, auto_start: Option<bool>) -> TunnelConfig {
    TunnelConfig {
        mgr: Some(TunnelMgr { auto_start, auto_restart: Some(true), auto_restart_interval: Some(500) }),
        backend,
        direction: TunnelDirection::Reverse,
        local: IpPort { ip: IpAddr::V4([127, 0, 0, 1]), port: 8080 },
        remote: IpPort { ip: IpAddr::V4([0, 0, 0, 0]), port: 80 },
    }
}

fn handle(rt: &tokio::runtime::Runtime) -> TunnelHandle {
    let handle = rt.spawn(async {});
    let abort = handle.abort_handle();
    let (stop, _) = tokio::sync::watch::channel(false);
    TunnelHandle { handle, abort, stop }
}

fn state() -> DaemonState {
    DaemonState::new(PathBuf::from("/tmp/b"), PathBuf::from("/tmp/t"))
}

fn username(c: &TunnelConfig) -> String {
    match &c.backend {
        BackendConfig::SecureShell(_, auth) => auth.username.clone(),
        BackendConfig::File(f) => format!("file:{}", f),
    }
}

fn loaded() -> (ConfigTable<BackendConfig>, ConfigTable<TunnelConfig>) {
    let mut backends = ConfigTable::new();
    backends.insert("my-ssh".to_string(), ssh_backend("from-file"));
    backends.insert("alias".to_string(), BackendConfig::File("elsewhere".to_string()));
    let mut tunnels = ConfigTable::new();
    tunnels.insert("web".to_string(), tunnel(BackendConfig::File("my-ssh".to_string()), Some(true)));
    tunnels.insert("api".to_string(), tunnel(ssh_backend("inline"), None));
    tunnels.insert("lost".to_string(), tunnel(BackendConfig::File("missing".to_string()), Some(true)));
    tunnels.insert("chain".to_string(), tunnel(BackendConfig::File("alias".to_string()), Some(true)));
    (backends, tunnels)
}

#[test]
fn init_installs_resolved_tunnels_and_names_the_auto_started() {
    let mut s = state();
    let (backends, tunnels) = loaded();
    let installed = init_daemon(&mut s, Ok((backends, tunnels))).unwrap();
    let autostart = installed.autostart;
    let mut skipped = installed.skipped;
    skipped.sort();
    assert_eq!(skipped, vec!["chain", "lost"]);
    let mut names = utils::list_tunnels(&s);
    names.sort();
    assert_eq!(names, vec!["api", "web"]);
    assert_eq!(autostart.len(), 1);
    assert_eq!(autostart[0].0, "web");
    assert_eq!(username(&autostart[0].1), "from-file");
    assert_eq!(username(&s.tunnel_config("api").unwrap()), "inline");
    assert!(s.tunnel_config("lost").is_none());
    assert!(s.tunnel_config("chain").is_none());
    assert!(s.backends.contains_key("my-ssh"));
    assert!(s.backends.contains_key("alias"));
    assert_eq!(s.backends.len(), 2);
}

#[test]
fn start_status_stop_cycle() {
    let rt = tokio::runtime::Runtime::new().unwrap();
    let mut s = state();
    let (backends, tunnels) = loaded();
    init_daemon(&mut s, Ok((backends, tunnels))).unwrap();

    let config = start_tunnel(&s, "api").unwrap();
    assert_eq!(username(&config), "inline");
    spawn_tunnel_manager(&mut s, "api".to_string(), handle(&rt));
    let status = get_tunnel_status(&s, "api").unwrap();
    assert_eq!(status.name, "api");
    assert!(status.running);

    match start_tunnel(&s, "api") {
        Err(DaemonError::TunnelAlreadyRunning(n)) => assert_eq!(n, "api"),
        _ => panic!("a second start must be refused"),
    }

    let plan = stop_tunnel(&mut s, "api").unwrap();
    assert!(plan.signal);
    assert_eq!(plan.grace_ms, 3000);
    assert!(!get_tunnel_status(&s, "api").unwrap().running);
    match stop_tunnel(&mut s, "api") {
        Err(DaemonError::TunnelNotFound(n)) => assert_eq!(n, "api"),
        _ => panic!("stopping a stopped tunnel must be refused"),
    }
}

#[test]
fn unknown_tunnels_are_not_found() {
    let s = state();
    match start_tunnel(&s, "nope") {
        Err(DaemonError::TunnelNotFound(n)) => assert_eq!(n, "nope"),
        _ => panic!("expected not found"),
    }
    match get_tunnel_status(&s, "nope") {
        Err(DaemonError::TunnelNotFound(n)) => assert_eq!(n, "nope"),
        _ => panic!("expected not found"),
    }
    let mut s = s;
    assert!(matches!(restart_tunnel(&mut s, "nope"), Err(DaemonError::TunnelNotFound(_))));
}

#[test]
fn restart_takes_the_old_supervisor() {
    let rt = tokio::runtime::Runtime::new().unwrap();
    let mut s = state();
    let (backends, tunnels) = loaded();
    init_daemon(&mut s, Ok((backends, tunnels))).unwrap();
    let (config, old) = restart_tunnel(&mut s, "web").unwrap();
    assert!(old.is_none());
    assert_eq!(username(&config), "from-file");
    spawn_tunnel_manager(&mut s, "web".to_string(), handle(&rt));
    let (_, old) = restart_tunnel(&mut s, "web").unwrap();
    assert!(old.is_some());
    assert!(!s.is_running("web"));
}

#[test]
fn list_reports_every_configured_tunnel() {
    let rt = tokio::runtime::Runtime::new().unwrap();
    let mut s = state();
    let (backends, tunnels) = loaded();
    init_daemon(&mut s, Ok((backends, tunnels))).unwrap();
    spawn_tunnel_manager(&mut s, "web".to_string(), handle(&rt));
    let mut statuses: Vec<(String, bool)> =
        list_tunnels(&s).unwrap().into_iter().map(|t| (t.name, t.running)).collect();
    statuses.sort();
    assert_eq!(statuses, vec![("api".to_string(), false), ("web".to_string(), true)]);
}

#[test]
fn supervisor_exit_gives_up_its_handle() {
    let rt = tokio::runtime::Runtime::new().unwrap();
    let mut s = state();
    let (backends, tunnels) = loaded();
    init_daemon(&mut s, Ok((backends, tunnels))).unwrap();
    spawn_tunnel_manager(&mut s, "web".to_string(), handle(&rt));
    tunnel_manager_exit(&mut s, "web");
    assert!(!s.is_running("web"));
}

#[test]
fn reload_stops_everything_and_installs_the_new_configuration() {
    let rt = tokio::runtime::Runtime::new().unwrap();
    let mut s = state();
    let (backends, tunnels) = loaded();
    init_daemon(&mut s, Ok((backends, tunnels))).unwrap();
    spawn_tunnel_manager(&mut s, "web".to_string(), handle(&rt));
    spawn_tunnel_manager(&mut s, "api".to_string(), handle(&rt));

    let mut tunnels = ConfigTable::new();
    tunnels.insert("db".to_string(), tunnel(ssh_backend("db"), Some(true)));
    let stopped = reload_daemon(&mut s);
    assert!(utils::list_tunnels(&s).is_empty());
    let outcome = init_daemon(&mut s, Ok((ConfigTable::new(), tunnels)));
    let mut stopped_names: Vec<String> = stopped.into_iter().map(|(n, _)| n).collect();
    stopped_names.sort();
    assert_eq!(stopped_names, vec!["api", "web"]);
    let installed = outcome.unwrap();
    assert!(installed.skipped.is_empty());
    let autostart = installed.autostart;
    assert_eq!(autostart.len(), 1);
    assert_eq!(autostart[0].0, "db");
    assert_eq!(utils::list_tunnels(&s), vec!["db"]);
    assert!(s.running_names().is_empty());
}

#[test]
fn failed_reload_leaves_nothing_configured() {
    let mut s = state();
    let (backends, tunnels) = loaded();
    init_daemon(&mut s, Ok((backends, tunnels))).unwrap();
    let stopped = reload_daemon(&mut s);
    assert!(stopped.is_empty());
    let outcome = init_daemon(&mut s, Err(DaemonError::Io("gone".to_string())));
    assert!(matches!(outcome, Err(DaemonError::Io(m)) if m == "gone"));
    assert!(utils::list_tunnels(&s).is_empty());
}

#[test]
fn shutdown_takes_every_handle() {
    let rt = tokio::runtime::Runtime::new().unwrap();
    let mut s = state();
    let (backends, tunnels) = loaded();
    init_daemon(&mut s, Ok((backends, tunnels))).unwrap();
    spawn_tunnel_manager(&mut s, "web".to_string(), handle(&rt));
    let rx = s.shutdown_tx().subscribe();
    assert!(!*rx.borrow());
    let plan = shutdown_daemon(&mut s);
    assert!(plan.signal);
    assert_eq!(plan.grace_ms, 5000);
    assert_eq!(plan.stopped.len(), 1);
    assert_eq!(plan.stopped[0].0, "web");
    assert!(s.running_names().is_empty());
}

#[test]
fn stop_outcomes() {
    assert!(stop_result(TaskExit::Finished).is_ok());
    assert!(stop_result(TaskExit::Cancelled).is_ok());
    // A supervisor that outlives its grace is killed, and the stop succeeds.
    assert!(stop_result(TaskExit::TimedOut).is_ok());
    match stop_result(TaskExit::Panicked("boom".to_string())) {
        Err(DaemonError::TaskPanic(m)) => assert_eq!(m, "boom"),
        _ => panic!("expected a panic error"),
    }
}

#[test]
fn init_passes_a_load_error_on_and_installs_nothing() {
    let mut s = state();
    match init_daemon(&mut s, Err(DaemonError::InvalidConfig("bad".to_string()))) {
        Err(DaemonError::InvalidConfig(m)) => assert_eq!(m, "bad"),
        _ => panic!("expected the load error"),
    }
    assert!(utils::list_tunnels(&s).is_empty());
    assert!(s.running_names().is_empty());
}

#[test]
fn state_operations_keep_the_directories() {
    let rt = tokio::runtime::Runtime::new().unwrap();
    let mut s = state();
    let (backends, tunnels) = loaded();
    init_daemon(&mut s, Ok((backends, tunnels))).unwrap();
    spawn_tunnel_manager(&mut s, "web".to_string(), handle(&rt));
    let _ = stop_tunnel(&mut s, "web");
    let _ = reload_daemon(&mut s);
    assert_eq!(s.backend_path, PathBuf::from("/tmp/b"));
    assert_eq!(s.tunnel_path, PathBuf::from("/tmp/t"));
}

#[test]
fn io_failures_become_io_errors() {
    let e = std::io::Error::new(std::io::ErrorKind::Other, "disk full");
    match DaemonError::from_io(e) {
        DaemonError::Io(m) => assert_eq!(m, "disk full"),
        _ => panic!("expected an IO error"),
    }
}
