use tunk::config::{BackendConfig, IpPort, Remote, SecureShellAuth, TunnelConfig, TunnelDirection, TunnelMgr};
use tunk::error::BackendError;
use tunk::net::IpAddr;
use tunk::ssh::{build_ssh_command, create_backend, ssh_password_env};

fn tunnel(direction: TunnelDirection, key: Option<&str>) -> TunnelConfig {
    TunnelConfig {
        mgr: Some(TunnelMgr { auto_start: Some(true), auto_restart: None, auto_restart_interval: None }),
        backend: BackendConfig::SecureShell(
            Remote { ip: IpAddr::V4([1, 2, 3, 4]), port: 22 },
            SecureShellAuth { username: "user".to_string(), key_path: key.map(|k| k.to_string()), password: None },
        ),
        direction,
        local: IpPort { ip: IpAddr::V4([127, 0, 0, 1]), port: 8080 },
        remote: IpPort { ip: IpAddr::V4([0, 0, 0, 0]), port: 80 },
    }
}

#[test]
fn reverse_tunnel_binds_on_the_remote_side() {
    let (prog, args) = build_ssh_command(&tunnel(TunnelDirection::Reverse, None), "ssh".to_string()).unwrap();
    assert_eq!(prog, "ssh");
    assert_eq!(
        args,
        vec![
            "-o", "StrictHostKeyChecking=no", "-o", "UserKnownHostsFile=/dev/null",
            "-p", "22", "-R0.0.0.0:80:127.0.0.1:8080", "user@1.2.3.4", "-N",
        ]
    );
}

#[test]
fn forward_tunnel_with_key_binds_locally() {
    let (prog, args) =
        build_ssh_command(&tunnel(TunnelDirection::Forward, Some("/home/user/.ssh/id_rsa")), "/usr/bin/ssh".to_string())
            .unwrap();
    assert_eq!(prog, "/usr/bin/ssh");
    assert_eq!(
        args,
        vec![
            "-o", "StrictHostKeyChecking=no", "-o", "UserKnownHostsFile=/dev/null",
            "-i", "/home/user/.ssh/id_rsa", "-p", "22",
            "-L127.0.0.1:8080:0.0.0.0:80", "user@1.2.3.4", "-N",
        ]
    );
}

#[test]
fn ipv6_endpoints_are_written_in_their_short_form() {
    let mut t = tunnel(TunnelDirection::Forward, None);
    t.local = IpPort { ip: IpAddr::V6([0, 0, 0, 0, 0, 0, 0, 1]), port: -1 };
    let (_, args) = build_ssh_command(&t, "ssh".to_string()).unwrap();
    assert_eq!(args[6], "-L::1:-1:0.0.0.0:80");
}

#[test]
fn file_backend_has_no_ssh_command() {
    let mut t = tunnel(TunnelDirection::Forward, None);
    t.backend = BackendConfig::File("my-ssh".to_string());
    match build_ssh_command(&t, "ssh".to_string()) {
        Err(BackendError::InvalidConfig(m)) => assert_eq!(m, "Auth config not found or not Secure Shell."),
        _ => panic!("expected an invalid configuration"),
    }
    match create_backend(&t, "ssh".to_string()) {
        Err(BackendError::InvalidConfig(m)) => assert_eq!(m, "Backend should not be a File at this point."),
        _ => panic!("expected an invalid configuration"),
    }
}

#[test]
fn create_backend_gives_the_ssh_command() {
    let t = tunnel(TunnelDirection::Reverse, None);
    let (prog, args) = create_backend(&t, "ssh".to_string()).unwrap();
    assert_eq!(prog, "ssh");
    assert_eq!(args.last().unwrap(), "-N");
    assert_eq!(args[7], "user@1.2.3.4");
}

#[test]
fn server_port_is_passed_to_ssh() {
    let mut t = tunnel(TunnelDirection::Reverse, None);
    if let BackendConfig::SecureShell(remote, _) = &mut t.backend {
        remote.port = 2222;
    }
    let (_, args) = build_ssh_command(&t, "ssh".to_string()).unwrap();
    let p = args.iter().position(|a| a == "-p").unwrap();
    assert_eq!(args[p + 1], "2222");
}

#[test]
fn password_reaches_ssh_through_askpass() {
    let mut t = tunnel(TunnelDirection::Reverse, None);
    assert!(ssh_password_env(&t, "/usr/bin/tunk".to_string()).is_empty());
    if let BackendConfig::SecureShell(_, auth) = &mut t.backend {
        auth.password = Some("secret".to_string());
    }
    let env = ssh_password_env(&t, "/usr/bin/tunk".to_string());
    assert_eq!(
        env,
        vec![
            ("SSH_ASKPASS".to_string(), "/usr/bin/tunk".to_string()),
            ("SSH_ASKPASS_REQUIRE".to_string(), "force".to_string()),
            ("TUNK_SSH_PASSWORD".to_string(), "secret".to_string()),
        ]
    );
    t.backend = BackendConfig::File("x".to_string());
    assert!(ssh_password_env(&t, "/usr/bin/tunk".to_string()).is_empty());
}
