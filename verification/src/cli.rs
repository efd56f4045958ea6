//! The client: its commands, the request each one sends, and the lines it shows for
//! the daemon's answer.

use vstd::prelude::*;
use crate::error::{daemon_error_text, DaemonError};
use crate::rpc::{answers, operation_of, reply_well_formed, CliMessage, DaemonMessage};
use crate::state::TunnelStatus;

verus! {

/// The client's command line.
#[derive(Debug)]
pub struct Cli {
    pub command: Commands,
}

/// The client's commands.
#[derive(Debug)]
pub enum Commands {
    Start { name: String },
    Stop { name: String },
    Restart { name: String },
    Status { name: String },
    List,
    Reload,
}

/// The request a command sends.
pub open spec fn request_of(c: Commands) -> CliMessage {
    match c {
        Commands::Start { name } => CliMessage::StartTunnel { name },
        Commands::Stop { name } => CliMessage::StopTunnel { name },
        Commands::Restart { name } => CliMessage::RestartTunnel { name },
        Commands::Status { name } => CliMessage::GetTunnelStatus { name },
        Commands::List => CliMessage::ListTunnels,
        Commands::Reload => CliMessage::Reload,
    }
}

/// The request that `command` sends to the daemon.
pub fn to_message(command: Commands) -> (m: CliMessage)
    ensures
        m == request_of(command),
{
    match command {
        Commands::Start { name } => CliMessage::StartTunnel { name },
        Commands::Stop { name } => CliMessage::StopTunnel { name },
        Commands::Restart { name } => CliMessage::RestartTunnel { name },
        Commands::Status { name } => CliMessage::GetTunnelStatus { name },
        Commands::List => CliMessage::ListTunnels,
        Commands::Reload => CliMessage::Reload,
    }
}

/// One line of the client's output, for the standard output or the standard error.
#[derive(Debug)]
pub struct OutputLine {
    pub to_stderr: bool,
    pub text: String,
}

/// A success line: a green check mark and the message.
pub open spec fn success_text(msg: Seq<char>) -> Seq<char> {
    "\x1b[92m\u{2713}\x1b[0m "@ + msg
}

/// An error line: a red cross and the message.
pub open spec fn error_text(msg: Seq<char>) -> Seq<char> {
    "\x1b[91m\u{2717}\x1b[0m "@ + msg
}

/// An indented information line.
pub open spec fn info_text(msg: Seq<char>) -> Seq<char> {
    "  "@ + msg
}

/// A header line, bold cyan.
pub open spec fn header_text(msg: Seq<char>) -> Seq<char> {
    "\x1b[1;36m"@ + msg + "\x1b[0m"@
}

/// A line of the tunnel list: the name and, coloured, whether it runs.
pub open spec fn tunnel_line_text(name: Seq<char>, running: bool) -> Seq<char> {
    "  "@ + name + "  "@ + if running {
        "\x1b[92mrunning\x1b[0m"@
    } else {
        "\x1b[90mstopped\x1b[0m"@
    }
}

/// The line for an answer that does not fit the request.
pub open spec fn unexpected_text() -> Seq<char> {
    error_text("Unexpected response from daemon"@)
}

/// What a line says: where it goes and its text.
pub open spec fn line_is(l: OutputLine, to_stderr: bool, text: Seq<char>) -> bool {
    l.to_stderr == to_stderr && l.text@ == text
}

/// The lines shown for a failed request: its error.
pub open spec fn error_lines(lines: Seq<OutputLine>, e: DaemonError) -> bool {
    lines.len() == 1 && line_is(lines[0], true, error_text(daemon_error_text(e)))
}

/// The lines shown for an answer to a start, stop, restart or reload.
pub open spec fn plain_lines(lines: Seq<OutputLine>, ok: bool, error: Option<DaemonError>, done: Seq<char>) -> bool {
    if ok {
        lines.len() == 1 && line_is(lines[0], false, success_text(done))
    } else {
        error_lines(lines, error.unwrap())
    }
}

/// The lines the client shows for `reply`, the daemon's answer to `command`.
pub open spec fn reply_lines(command: Commands, reply: DaemonMessage, lines: Seq<OutputLine>) -> bool {
    match (command, reply) {
        (Commands::Start { .. }, DaemonMessage::StartTunnelResponse { ok, error }) =>
            plain_lines(lines, ok, error, "Tunnel started"@),
        (Commands::Stop { .. }, DaemonMessage::StopTunnelResponse { ok, error }) =>
            plain_lines(lines, ok, error, "Tunnel stopped"@),
        (Commands::Restart { .. }, DaemonMessage::RestartTunnelResponse { ok, error }) =>
            plain_lines(lines, ok, error, "Tunnel restarted"@),
        (Commands::Reload, DaemonMessage::ReloadResponse { ok, error }) =>
            plain_lines(lines, ok, error, "Daemon configuration reloaded"@),
        (Commands::Status { .. }, DaemonMessage::GetTunnelStatusResponse { ok, status, error }) => if !ok {
            error_lines(lines, error.unwrap())
        } else {
            match status {
                Some(s) => lines.len() == 3
                    && line_is(lines[0], false, header_text("Tunnel Status"@))
                    && line_is(lines[1], false, info_text("Name:    "@ + s.name@))
                    && line_is(lines[2], false, info_text("Running: "@ + if s.running { "yes"@ } else { "no"@ })),
                None => lines.len() == 0,
            }
        },
        (Commands::List, DaemonMessage::ListTunnelsResponse { ok, tunnels, error }) => if !ok {
            error_lines(lines, error.unwrap())
        } else if tunnels@.len() == 0 {
            lines.len() == 2 && line_is(lines[0], false, header_text("Configured Tunnels"@))
                && line_is(lines[1], false, info_text("No tunnels configured"@))
        } else {
            lines.len() == tunnels@.len() + 1 && line_is(lines[0], false, header_text("Configured Tunnels"@))
                && forall|i: int| 0 <= i < tunnels@.len() ==> line_is(#[trigger] lines[i + 1], false,
                    tunnel_line_text(tunnels@[i].name@, tunnels@[i].running))
        },
        _ => lines.len() == 1 && line_is(lines[0], true, unexpected_text()),
    }
}

fn out(text: String) -> (l: OutputLine)
    ensures
        line_is(l, false, text@),
{
    OutputLine { to_stderr: false, text }
}

fn success(msg: &str) -> (l: OutputLine)
    ensures
        line_is(l, false, success_text(msg@)),
{
    out(String::from_str("\x1b[92m\u{2713}\x1b[0m ").concat(msg))
}

fn failure(msg: &str) -> (l: OutputLine)
    ensures
        line_is(l, true, error_text(msg@)),
{
    OutputLine { to_stderr: true, text: String::from_str("\x1b[91m\u{2717}\x1b[0m ").concat(msg) }
}

fn info(msg: &str) -> (l: OutputLine)
    ensures
        line_is(l, false, info_text(msg@)),
{
    out(String::from_str("  ").concat(msg))
}

fn header(msg: &str) -> (l: OutputLine)
    ensures
        line_is(l, false, header_text(msg@)),
{
    out(String::from_str("\x1b[1;36m").concat(msg).concat("\x1b[0m"))
}

/// The line of the tunnel list for one tunnel.
pub fn tunnel_status(name: &str, running: bool) -> (l: OutputLine)
    ensures
        line_is(l, false, tunnel_line_text(name@, running)),
{
    let status = if running {
        "\x1b[92mrunning\x1b[0m"
    } else {
        "\x1b[90mstopped\x1b[0m"
    };
    out(String::from_str("  ").concat(name).concat("  ").concat(status))
}

fn error_line(e: &DaemonError) -> (lines: Vec<OutputLine>)
    ensures
        error_lines(lines@, *e),
{
    let text = e.message();
    let mut lines: Vec<OutputLine> = Vec::new();
    lines.push(failure(text.as_str()));
    lines
}

fn plain_reply(ok: bool, error: &Option<DaemonError>, done: &str) -> (lines: Vec<OutputLine>)
    requires
        !ok ==> error is Some,
    ensures
        plain_lines(lines@, ok, *error, done@),
{
    if ok {
        let mut lines: Vec<OutputLine> = Vec::new();
        lines.push(success(done));
        lines
    } else {
        match error {
            Some(e) => error_line(e),
            None => Vec::new(),
        }
    }
}

fn status_reply(ok: bool, status: &Option<TunnelStatus>, error: &Option<DaemonError>) -> (lines: Vec<OutputLine>)
    requires
        !ok ==> error is Some,
    ensures
        !ok ==> error_lines(lines@, error.unwrap()),
        ok ==> match *status {
            Some(s) => lines@.len() == 3
                && line_is(lines@[0], false, header_text("Tunnel Status"@))
                && line_is(lines@[1], false, info_text("Name:    "@ + s.name@))
                && line_is(lines@[2], false, info_text("Running: "@ + if s.running { "yes"@ } else { "no"@ })),
            None => lines@.len() == 0,
        },
{
    if !ok {
        return match error {
            Some(e) => error_line(e),
            None => Vec::new(),
        };
    }
    let mut lines: Vec<OutputLine> = Vec::new();
    match status {
        Some(s) => {
            lines.push(header("Tunnel Status"));
            let name_line = String::from_str("Name:    ").concat(s.name.as_str());
            lines.push(info(name_line.as_str()));
            let running_line = String::from_str("Running: ").concat(if s.running { "yes" } else { "no" });
            lines.push(info(running_line.as_str()));
        },
        None => {},
    }
    lines
}

fn list_reply(ok: bool, tunnels: &Vec<TunnelStatus>, error: &Option<DaemonError>) -> (lines: Vec<OutputLine>)
    requires
        !ok ==> error is Some,
    ensures
        !ok ==> error_lines(lines@, error.unwrap()),
        ok && tunnels@.len() == 0 ==> lines@.len() == 2 && line_is(lines@[0], false, header_text("Configured Tunnels"@))
            && line_is(lines@[1], false, info_text("No tunnels configured"@)),
        ok && tunnels@.len() > 0 ==> lines@.len() == tunnels@.len() + 1
            && line_is(lines@[0], false, header_text("Configured Tunnels"@))
            && forall|i: int| 0 <= i < tunnels@.len() ==> line_is(#[trigger] lines@[i + 1], false,
                tunnel_line_text(tunnels@[i].name@, tunnels@[i].running)),
{
    if !ok {
        return match error {
            Some(e) => error_line(e),
            None => Vec::new(),
        };
    }
    let mut lines: Vec<OutputLine> = Vec::new();
    lines.push(header("Configured Tunnels"));
    if tunnels.len() == 0 {
        lines.push(info("No tunnels configured"));
        return lines;
    }
    let mut i: usize = 0;
    while i < tunnels.len()
        invariant
            i <= tunnels@.len(),
            lines@.len() == i + 1,
            line_is(lines@[0], false, header_text("Configured Tunnels"@)),
            forall|j: int| 0 <= j < i ==> line_is(#[trigger] lines@[j + 1], false,
                tunnel_line_text(tunnels@[j].name@, tunnels@[j].running)),
        decreases tunnels@.len() - i,
    {
        lines.push(tunnel_status(tunnels[i].name.as_str(), tunnels[i].running));
        i = i + 1;
    }
    lines
}

/// The lines the client shows for `reply`, the daemon's answer to `command`.
pub fn render_reply(command: &Commands, reply: &DaemonMessage) -> (lines: Vec<OutputLine>)
    requires
        reply_well_formed(*reply),
    ensures
        reply_lines(*command, *reply, lines@),
{
    match (command, reply) {
        (Commands::Start { .. }, DaemonMessage::StartTunnelResponse { ok, error }) =>
            plain_reply(*ok, error, "Tunnel started"),
        (Commands::Stop { .. }, DaemonMessage::StopTunnelResponse { ok, error }) =>
            plain_reply(*ok, error, "Tunnel stopped"),
        (Commands::Restart { .. }, DaemonMessage::RestartTunnelResponse { ok, error }) =>
            plain_reply(*ok, error, "Tunnel restarted"),
        (Commands::Reload, DaemonMessage::ReloadResponse { ok, error }) =>
            plain_reply(*ok, error, "Daemon configuration reloaded"),
        (Commands::Status { .. }, DaemonMessage::GetTunnelStatusResponse { ok, status, error }) =>
            status_reply(*ok, status, error),
        (Commands::List, DaemonMessage::ListTunnelsResponse { ok, tunnels, error }) =>
            list_reply(*ok, tunnels, error),
        _ => {
            let mut lines: Vec<OutputLine> = Vec::new();
            lines.push(failure("Unexpected response from daemon"));
            lines
        },
    }
}

/// The answer is one the command shows as such (not as an unexpected response).
pub open spec fn expected_reply(command: Commands, reply: DaemonMessage) -> bool {
    match command {
        Commands::Start { .. } => reply is StartTunnelResponse,
        Commands::Stop { .. } => reply is StopTunnelResponse,
        Commands::Restart { .. } => reply is RestartTunnelResponse,
        Commands::Status { .. } => reply is GetTunnelStatusResponse,
        Commands::List => reply is ListTunnelsResponse,
        Commands::Reload => reply is ReloadResponse,
    }
}

/// The daemon's answer to the request a command sends is shown as that command's
/// result, never as an unexpected response.
pub proof fn law_command_reply_is_expected(command: Commands, reply: DaemonMessage)
    requires
        answers(operation_of(request_of(command)), reply),
    ensures
        expected_reply(command, reply),
{
}

/// A start, stop, restart or reload that succeeded is shown as one success line on the
/// standard output naming that command's own effect; one that failed as one line on the
/// standard error with its error.
pub proof fn law_success_line_names_the_command(command: Commands, reply: DaemonMessage, lines: Seq<OutputLine>)
    requires
        reply_lines(command, reply, lines),
    ensures
        command is Start && (reply matches DaemonMessage::StartTunnelResponse { ok, .. } && ok) ==>
            lines.len() == 1 && !lines[0].to_stderr && lines[0].text@ == success_text("Tunnel started"@),
        command is Stop && (reply matches DaemonMessage::StopTunnelResponse { ok, .. } && ok) ==>
            lines.len() == 1 && !lines[0].to_stderr && lines[0].text@ == success_text("Tunnel stopped"@),
        command is Restart && (reply matches DaemonMessage::RestartTunnelResponse { ok, .. } && ok) ==>
            lines.len() == 1 && !lines[0].to_stderr && lines[0].text@ == success_text("Tunnel restarted"@),
        command is Reload && (reply matches DaemonMessage::ReloadResponse { ok, .. } && ok) ==>
            lines.len() == 1 && !lines[0].to_stderr && lines[0].text@ == success_text("Daemon configuration reloaded"@),
        expected_reply(command, reply) && reply_error(reply) is Some ==>
            lines.len() == 1 && lines[0].to_stderr && lines[0].text@ == error_text(daemon_error_text(reply_error(reply)->Some_0)),
{
}

/// Whether an answer failed, and then its error.
pub open spec fn reply_error(reply: DaemonMessage) -> Option<DaemonError> {
    match reply {
        DaemonMessage::StartTunnelResponse { ok, error } => if ok { None } else { error },
        DaemonMessage::StopTunnelResponse { ok, error } => if ok { None } else { error },
        DaemonMessage::RestartTunnelResponse { ok, error } => if ok { None } else { error },
        DaemonMessage::GetTunnelStatusResponse { ok, error, .. } => if ok { None } else { error },
        DaemonMessage::ListTunnelsResponse { ok, error, .. } => if ok { None } else { error },
        DaemonMessage::ReloadResponse { ok, error } => if ok { None } else { error },
    }
}

/// A status answer is shown as a header, the tunnel's name, and `Running: yes` exactly
/// when the status says the tunnel runs (`Running: no` otherwise), all on the standard
/// output.
pub proof fn law_status_shows_whether_it_runs(
    command: Commands,
    reply: DaemonMessage,
    lines: Seq<OutputLine>,
    s: TunnelStatus,
)
    requires
        reply_lines(command, reply, lines),
        command is Status,
        reply matches DaemonMessage::GetTunnelStatusResponse { ok, status, .. } && ok && status == Some(s),
    ensures
        lines.len() == 3,
        !lines[0].to_stderr && !lines[1].to_stderr && !lines[2].to_stderr,
        lines[0].text@ == header_text("Tunnel Status"@),
        lines[1].text@ == "  Name:    "@ + s.name@,
        s.running ==> lines[2].text@ == "  Running: yes"@,
        !s.running ==> lines[2].text@ == "  Running: no"@,
{
    reveal_strlit("  ");
    reveal_strlit("Name:    ");
    reveal_strlit("  Name:    ");
    reveal_strlit("Running: ");
    reveal_strlit("yes");
    reveal_strlit("no");
    reveal_strlit("  Running: yes");
    reveal_strlit("  Running: no");
    assert(info_text("Name:    "@ + s.name@) =~= "  Name:    "@ + s.name@);
    assert(info_text("Running: "@ + "yes"@) =~= "  Running: yes"@);
    assert(info_text("Running: "@ + "no"@) =~= "  Running: no"@);
}

/// A list answer is shown as a header and one line per tunnel, in the answer's order,
/// each with the tunnel's name and `running` or `stopped` as its status says; an empty
/// list as the header and `No tunnels configured`.
pub proof fn law_list_shows_each_tunnel(command: Commands, reply: DaemonMessage, lines: Seq<OutputLine>)
    requires
        reply_lines(command, reply, lines),
        command is List,
        reply matches DaemonMessage::ListTunnelsResponse { ok, .. } && ok,
    ensures
        ({
            let tunnels = reply->ListTunnelsResponse_tunnels@;
            &&& lines[0].text@ == header_text("Configured Tunnels"@) && !lines[0].to_stderr
            &&& tunnels.len() == 0 ==> lines.len() == 2 && lines[1].text@ == "  No tunnels configured"@
            &&& tunnels.len() > 0 ==> lines.len() == tunnels.len() + 1
            &&& forall|i: int| 0 <= i < tunnels.len() ==> !(#[trigger] lines[i + 1]).to_stderr
                && lines[i + 1].text@ == "  "@ + tunnels[i].name@ + "  "@ + if tunnels[i].running {
                    "\x1b[92mrunning\x1b[0m"@
                } else {
                    "\x1b[90mstopped\x1b[0m"@
                }
        }),
{
    reveal_strlit("  ");
    reveal_strlit("No tunnels configured");
    reveal_strlit("  No tunnels configured");
    assert(info_text("No tunnels configured"@) =~= "  No tunnels configured"@);
}

}
