# tunk

A tunnel manager with a client/daemon architecture: the daemon (`tunkd`) keeps ssh
tunnels running as configured in RON files, and the client (`tunk`) starts, stops,
restarts, lists and reloads them over a Unix socket.

## Layout

- `src/` — the verified library (Verus):
  - `text`, `net`: decimal/hex rendering and the textual form of IP addresses;
  - `config`, `error`: configuration and error types, with the texts errors are shown as;
  - `ssh`: the ssh command line of a tunnel, and the environment that hands a
    backend's password to ssh;
  - `framing`: length-prefixed frames of the socket protocol;
  - `table`, `loader`: tables of loaded configurations and file stems;
  - `state`: the daemon state (tunnels, backends, supervisor handles);
  - `daemon`: installing configuration, the control operations (`ctrl`), the tunnel
    supervisor state machine (`mgr`);
  - `rpc`, `cli`: protocol messages, the daemon's answers, the client's output;
  - `handler`: what the daemon decides for each client request.
- `app/` — the program around it: file and socket I/O, process spawning, the async
  supervisor loop and the command line. Run as `tunkd` it is the daemon, otherwise the
  client.
- `tests/` — tests of the library.
