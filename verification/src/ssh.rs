//! The ssh command line that carries a tunnel.

use vstd::prelude::*;
use crate::config::{BackendConfig, IpPort, Remote, SecureShellAuth, TunnelConfig, TunnelDirection};
use crate::error::BackendError;
use crate::net::{ip_text, push_ip};
use crate::text::{push_char, push_signed, signed_text};

verus! {

/// `ip:port` of an endpoint.
pub open spec fn endpoint_text(p: IpPort) -> Seq<char> {
    ip_text(p.ip) + seq![':'] + signed_text(p.port as int)
}

/// The port-forwarding argument: `-L` binds locally and forwards to the remote
/// endpoint, `-R` binds on the remote endpoint and forwards to the local one.
pub open spec fn forward_arg(direction: TunnelDirection, local: IpPort, remote: IpPort) -> Seq<char> {
    match direction {
        TunnelDirection::Forward => "-L"@ + endpoint_text(local) + seq![':'] + endpoint_text(remote),
        TunnelDirection::Reverse => "-R"@ + endpoint_text(remote) + seq![':'] + endpoint_text(local),
    }
}

/// The arguments given to ssh for a tunnel with an ssh backend: host-key options, the
/// key when there is one, the server's port, the forwarding, the login and `-N`.
pub open spec fn ssh_args(config: TunnelConfig, remote: Remote, auth: SecureShellAuth) -> Seq<Seq<char>> {
    seq!["-o"@, "StrictHostKeyChecking=no"@, "-o"@, "UserKnownHostsFile=/dev/null"@]
        + match auth.key_path {
        Some(k) => seq!["-i"@, k@],
        None => Seq::empty(),
    } + seq![
        "-p"@,
        signed_text(remote.port as int),
        forward_arg(config.direction, config.local, config.remote),
        auth.username@ + seq!['@'] + ip_text(remote.ip),
        "-N"@,
    ]
}

/// The environment variable in which the askpass program finds the password.
pub open spec fn password_var() -> Seq<char> {
    "TUNK_SSH_PASSWORD"@
}

/// The environment that hands a backend's password to ssh: ssh is made to ask the
/// program `askpass` for it (`SSH_ASKPASS`, with `SSH_ASKPASS_REQUIRE=force` so that it
/// does so without a terminal), and that program answers with the value of
/// `TUNK_SSH_PASSWORD`. Nothing is added for a backend without a password.
pub open spec fn password_env(auth: SecureShellAuth, askpass: Seq<char>) -> Seq<(Seq<char>, Seq<char>)> {
    match auth.password {
        Some(p) => seq![("SSH_ASKPASS"@, askpass), ("SSH_ASKPASS_REQUIRE"@, "force"@), (password_var(), p@)],
        None => Seq::empty(),
    }
}

/// The texts of a list of environment variables.
pub open spec fn env_view(env: Seq<(String, String)>) -> Seq<(Seq<char>, Seq<char>)> {
    env.map_values(|e: (String, String)| (e.0@, e.1@))
}

/// The environment of the ssh process of a tunnel, beyond the daemon's own: how the
/// password, when the backend has one, reaches ssh. `askpass` is the program ssh runs
/// to ask for it.
pub fn ssh_password_env(config: &TunnelConfig, askpass: String) -> (env: Vec<(String, String)>)
    ensures
        match config.backend {
            BackendConfig::SecureShell(_, auth) => env_view(env@) == password_env(auth, askpass@),
            BackendConfig::File(_) => env@.len() == 0,
        },
{
    let mut env: Vec<(String, String)> = Vec::new();
    match &config.backend {
        BackendConfig::SecureShell(_, auth) => match &auth.password {
            Some(p) => {
                env.push((String::from_str("SSH_ASKPASS"), askpass));
                env.push((String::from_str("SSH_ASKPASS_REQUIRE"), String::from_str("force")));
                env.push((String::from_str("TUNK_SSH_PASSWORD"), p.clone()));
                assert(env_view(env@) =~= password_env(*auth, askpass@));
            },
            None => {
                assert(env_view(env@) =~= password_env(*auth, askpass@));
            },
        },
        BackendConfig::File(_) => {},
    }
    env
}

fn push_endpoint(out: &mut String, p: &IpPort)
    ensures
        final(out)@ == old(out)@ + endpoint_text(*p),
{
    push_ip(out, &p.ip);
    push_char(out, ':');
    push_signed(out, p.port);
    assert(out@ =~= old(out)@ + endpoint_text(*p));
}

fn make_forward_arg(config: &TunnelConfig) -> (s: String)
    ensures
        s@ == forward_arg(config.direction, config.local, config.remote),
{
    let (flag, first, second) = match config.direction {
        TunnelDirection::Forward => ("-L", &config.local, &config.remote),
        TunnelDirection::Reverse => ("-R", &config.remote, &config.local),
    };
    let mut s = String::from_str(flag);
    push_endpoint(&mut s, first);
    push_char(&mut s, ':');
    push_endpoint(&mut s, second);
    assert(s@ =~= forward_arg(config.direction, config.local, config.remote));
    s
}

/// Builds the program and arguments of the ssh process for a tunnel.
/// `ssh_bin` is the ssh program to run.
pub fn build_ssh_command(config: &TunnelConfig, ssh_bin: String) -> (res: Result<(String, Vec<String>), BackendError>)
    ensures
        match config.backend {
            BackendConfig::SecureShell(remote, auth) => res matches Ok((prog, args)) && prog@ == ssh_bin@
                && args.deep_view() == ssh_args(*config, remote, auth),
            BackendConfig::File(_) => res matches Err(BackendError::InvalidConfig(m))
                && m@ == "Auth config not found or not Secure Shell."@,
        },
{
    let (remote, auth) = match &config.backend {
        BackendConfig::SecureShell(remote, auth) => (remote, auth),
        BackendConfig::File(_) => {
            return Err(BackendError::InvalidConfig(String::from_str("Auth config not found or not Secure Shell.")));
        },
    };
    let mut args: Vec<String> = Vec::new();
    args.push(String::from_str("-o"));
    args.push(String::from_str("StrictHostKeyChecking=no"));
    args.push(String::from_str("-o"));
    args.push(String::from_str("UserKnownHostsFile=/dev/null"));
    match &auth.key_path {
        Some(key_path) => {
            args.push(String::from_str("-i"));
            args.push(key_path.clone());
        },
        None => {},
    }
    args.push(String::from_str("-p"));
    let mut port = String::new();
    push_signed(&mut port, remote.port);
    assert(port@ =~= signed_text(remote.port as int));
    args.push(port);
    args.push(make_forward_arg(config));
    let mut target = auth.username.clone();
    push_char(&mut target, '@');
    push_ip(&mut target, &remote.ip);
    args.push(target);
    args.push(String::from_str("-N"));
    proof {
        let expected = ssh_args(*config, *remote, *auth);
        assert(args.deep_view().len() == expected.len());
        assert forall|i: int| 0 <= i < expected.len() implies args.deep_view()[i] == expected[i] by {
            assert(args.deep_view()[i] == args@[i]@);
        }
        assert(args.deep_view() =~= expected);
    }
    Ok((ssh_bin, args))
}

/// Decides the process that carries a tunnel: a tunnel whose backend still names a
/// backend file is refused; an ssh backend gives the command of `build_ssh_command`.
/// (Spawning the process is the caller's part.)
pub fn create_backend(config: &TunnelConfig, ssh_bin: String) -> (res: Result<(String, Vec<String>), BackendError>)
    ensures
        match config.backend {
            BackendConfig::SecureShell(remote, auth) => res matches Ok((prog, args)) && prog@ == ssh_bin@
                && args.deep_view() == ssh_args(*config, remote, auth),
            BackendConfig::File(_) => res matches Err(BackendError::InvalidConfig(m))
                && m@ == "Backend should not be a File at this point."@,
        },
{
    match &config.backend {
        BackendConfig::SecureShell(_, _) => build_ssh_command(config, ssh_bin),
        BackendConfig::File(_) => Err(BackendError::InvalidConfig(String::from_str("Backend should not be a File at this point."))),
    }
}

/// The key, when the backend has one, is always handed to ssh as `-i` and the key path
/// right after the host-key options, whatever the tunnel's direction; and the tunnel's
/// direction and endpoints change nothing but the forwarding argument.
pub proof fn law_key_and_login_do_not_depend_on_the_tunnel(
    c1: TunnelConfig,
    c2: TunnelConfig,
    remote: Remote,
    auth: SecureShellAuth,
)
    ensures
        auth.key_path matches Some(k) ==> {
            &&& ssh_args(c1, remote, auth).len() == 11
            &&& ssh_args(c1, remote, auth)[4] == "-i"@
            &&& ssh_args(c1, remote, auth)[5] == k@
        },
        auth.key_path is None ==> ssh_args(c1, remote, auth).len() == 9,
        ssh_args(c1, remote, auth).len() == ssh_args(c2, remote, auth).len(),
        forall|i: int| 0 <= i < ssh_args(c1, remote, auth).len() && i != ssh_args(c1, remote, auth).len() - 3
            ==> #[trigger] ssh_args(c1, remote, auth)[i] == ssh_args(c2, remote, auth)[i],
{
}

/// The tail of the arguments: the server's port after `-p`, the forwarding argument of
/// the tunnel, the login `user@host` and `-N` last.
pub proof fn law_argument_tail(config: TunnelConfig, remote: Remote, auth: SecureShellAuth)
    ensures
        ({
            let a = ssh_args(config, remote, auth);
            let n = a.len() as int;
            &&& a[0] == "-o"@ && a[1] == "StrictHostKeyChecking=no"@
            &&& a[2] == "-o"@ && a[3] == "UserKnownHostsFile=/dev/null"@
            &&& a[n - 5] == "-p"@
            &&& a[n - 4] == signed_text(remote.port as int)
            &&& a[n - 3] == forward_arg(config.direction, config.local, config.remote)
            &&& a[n - 2] == auth.username@ + seq!['@'] + ip_text(remote.ip)
            &&& a[n - 1] == "-N"@
        }),
{
}

/// A reverse tunnel binds on the remote endpoint and forwards to the local one: its
/// argument is `-R` where a forward tunnel has `-L`, with the two endpoints swapped.
pub proof fn law_reverse_swaps_the_endpoints(local: IpPort, remote: IpPort)
    ensures
        forward_arg(TunnelDirection::Reverse, local, remote).subrange(0, 2) == "-R"@,
        forward_arg(TunnelDirection::Forward, local, remote).subrange(0, 2) == "-L"@,
        forward_arg(TunnelDirection::Reverse, local, remote).skip(2)
            == forward_arg(TunnelDirection::Forward, remote, local).skip(2),
        forward_arg(TunnelDirection::Forward, local, remote).skip(2)
            == endpoint_text(local) + seq![':'] + endpoint_text(remote),
{
    reveal_strlit("-R");
    reveal_strlit("-L");
    assert(forward_arg(TunnelDirection::Reverse, local, remote).subrange(0, 2) =~= "-R"@);
    assert(forward_arg(TunnelDirection::Forward, local, remote).subrange(0, 2) =~= "-L"@);
    assert(forward_arg(TunnelDirection::Reverse, local, remote).skip(2)
        =~= forward_arg(TunnelDirection::Forward, remote, local).skip(2));
    assert(forward_arg(TunnelDirection::Forward, local, remote).skip(2)
        =~= endpoint_text(local) + seq![':'] + endpoint_text(remote));
}

/// Each endpoint in the forwarding argument is written as its address, a colon and its
/// port: a forward tunnel gives the local endpoint first, a reverse one the remote.
pub proof fn law_forwarding_endpoints(direction: TunnelDirection, local: IpPort, remote: IpPort)
    ensures
        ({
            let (first, second) = match direction {
                TunnelDirection::Forward => (local, remote),
                TunnelDirection::Reverse => (remote, local),
            };
            forward_arg(direction, local, remote).skip(2) == ip_text(first.ip) + seq![':'] + signed_text(
                first.port as int,
            ) + seq![':'] + ip_text(second.ip) + seq![':'] + signed_text(second.port as int)
        }),
{
    let (first, second) = match direction {
        TunnelDirection::Forward => (local, remote),
        TunnelDirection::Reverse => (remote, local),
    };
    law_reverse_swaps_the_endpoints(local, remote);
    assert(endpoint_text(first) + seq![':'] + endpoint_text(second) =~= ip_text(first.ip) + seq![':'] + signed_text(
        first.port as int,
    ) + seq![':'] + ip_text(second.ip) + seq![':'] + signed_text(second.port as int));
}

/// A backend's password reaches ssh only through the environment: ssh is pointed at the
/// askpass program, made to use it, and the program finds the password in
/// `TUNK_SSH_PASSWORD`; a backend without a password adds nothing.
pub proof fn law_password_goes_through_askpass(auth: SecureShellAuth, askpass: Seq<char>)
    ensures
        auth.password matches Some(p) ==> password_env(auth, askpass) == seq![
            ("SSH_ASKPASS"@, askpass),
            ("SSH_ASKPASS_REQUIRE"@, "force"@),
            ("TUNK_SSH_PASSWORD"@, p@),
        ],
        auth.password is None ==> password_env(auth, askpass).len() == 0,
{
}

}
