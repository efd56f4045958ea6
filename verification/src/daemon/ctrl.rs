//! The control operations the client asks of the daemon: start, stop, restart,
//! status, list, reload and shutdown.
//!
//! Each operation decides on the state and says what is to be done with the
//! supervisor tasks: a configuration to start a supervisor for, or handles of
//! supervisors to stop. Starting and awaiting the tasks is the caller's part.

use vstd::prelude::*;
use crate::config::{BackendConfig, TunnelConfig};
use crate::daemon::{auto_started, installed_tunnels, installs, Installed};
use crate::error::DaemonError;
use crate::daemon::mgr::registered;
use crate::state::{distinct_strings, string_set, DaemonState, TunnelHandle, TunnelStatus};
use crate::table::{distinct_names, entries_map, entry_names, lemma_entries_map_dom};

verus! {

/// How a stopped supervisor task ended, as its caller observed it while waiting.
pub enum TaskExit {
    /// The task returned.
    Finished,
    /// The task was cancelled by its abort.
    Cancelled,
    /// The task panicked; the text of its join error.
    Panicked(String),
    /// The task did not end within the time allowed, and was then aborted (which
    /// kills its backend process).
    TimedOut,
}

/// Milliseconds a stopped supervisor is given to disconnect its backend and end
/// before it is aborted.
pub const STOP_GRACE_MS: u64 = 3000;

/// Milliseconds each supervisor is given to end at shutdown before it is aborted.
pub const SHUTDOWN_GRACE_MS: u64 = 5000;

/// How to stop one supervisor: publish `signal` on its own stop channel (`true` asks
/// it to disconnect its backend and end), wait up to `grace_ms` for it to end, and
/// abort it if it has not ended by then.
pub struct StopPlan {
    pub signal: bool,
    pub grace_ms: u64,
    pub handle: TunnelHandle,
}

/// `p` stops, gracefully first, the supervisor behind `h`.
pub open spec fn stops_gracefully(p: StopPlan, h: TunnelHandle) -> bool {
    p.signal && p.grace_ms == STOP_GRACE_MS && p.handle == h
}

/// The names of a list of statuses.
pub open spec fn status_names(s: Seq<TunnelStatus>) -> Seq<String> {
    s.map_values(|t: TunnelStatus| t.name)
}

/// What a start decides in `state` for tunnel `name`: refused when its supervisor runs
/// already, or when no such tunnel is configured; otherwise the configuration.
pub open spec fn start_decided(state: DaemonState, name: Seq<char>, r: Result<TunnelConfig, DaemonError>) -> bool {
    &&& state.handles().contains_key(name) ==> (r matches Err(DaemonError::TunnelAlreadyRunning(n)) && n@ == name)
    &&& !state.handles().contains_key(name) && !state.configured().contains_key(name) ==> (
        r matches Err(DaemonError::TunnelNotFound(n)) && n@ == name)
    &&& !state.handles().contains_key(name) && state.configured().contains_key(name) ==> (
        r matches Ok(c) && c == state.configured()[name])
}

/// What a stop of tunnel `name` does from `before` to `after`: the supervisor's handle
/// is taken out and given back in a plan that stops it gracefully first; refused when
/// no supervisor runs.
pub open spec fn stop_decided(before: DaemonState, after: DaemonState, name: Seq<char>, r: Result<StopPlan, DaemonError>) -> bool {
    &&& after.handles() == before.handles().remove(name)
    &&& after.configured() == before.configured()
    &&& after.loaded_backends() == before.loaded_backends()
    &&& before.same_settings(after)
    &&& before.handles().contains_key(name) ==> (r matches Ok(p) && stops_gracefully(p, before.handles()[name]))
    &&& !before.handles().contains_key(name) ==> (r matches Err(DaemonError::TunnelNotFound(n)) && n@ == name)
}

/// What a restart of tunnel `name` does from `before` to `after`: refused when it is
/// not configured; otherwise the configuration and the running supervisor's handle,
/// if any, taken out.
pub open spec fn restart_decided(
    before: DaemonState,
    after: DaemonState,
    name: Seq<char>,
    r: Result<(TunnelConfig, Option<TunnelHandle>), DaemonError>,
) -> bool {
    &&& after.configured() == before.configured()
    &&& after.loaded_backends() == before.loaded_backends()
    &&& before.same_settings(after)
    &&& !before.configured().contains_key(name) ==> (r matches Err(DaemonError::TunnelNotFound(n)) && n@ == name)
        && after.handles() == before.handles()
    &&& before.configured().contains_key(name) ==> (r matches Ok((c, h)) && c == before.configured()[name]
        && h is Some == before.handles().contains_key(name)
        && (h matches Some(hh) ==> hh == before.handles()[name]))
        && after.handles() == before.handles().remove(name)
}

/// The status `state` gives of tunnel `name`: refused when it is not configured.
pub open spec fn status_given(state: DaemonState, name: Seq<char>, r: Result<TunnelStatus, DaemonError>) -> bool {
    &&& !state.configured().contains_key(name) ==> (r matches Err(DaemonError::TunnelNotFound(n)) && n@ == name)
    &&& state.configured().contains_key(name) ==> (r matches Ok(s) && s.name@ == name
        && s.running == state.handles().contains_key(name) && s.config == state.configured()[name])
}

/// `statuses` lists every tunnel configured in `state` once, with its configuration and
/// whether its supervisor runs.
pub open spec fn listed(state: DaemonState, statuses: Seq<TunnelStatus>) -> bool {
    &&& distinct_strings(status_names(statuses))
    &&& string_set(status_names(statuses)) == state.configured().dom()
    &&& forall|i: int| 0 <= i < statuses.len() ==> {
        let s = #[trigger] statuses[i];
        &&& state.configured().contains_key(s.name@)
        &&& s.config == state.configured()[s.name@]
        &&& s.running == state.handles().contains_key(s.name@)
    }
}

/// Decides a start of tunnel `name`: refused when its supervisor runs already, or when
/// no such tunnel is configured; otherwise gives the configuration to start the
/// supervisor with (the caller starts it and registers its handle).
pub fn start_tunnel(state: &DaemonState, name: &str) -> (r: Result<TunnelConfig, DaemonError>)
    ensures
        start_decided(*state, name@, r),
{
    if state.is_running(name) {
        return Err(DaemonError::TunnelAlreadyRunning(String::from_str(name)));
    }
    match state.tunnel_config(name) {
        Some(config) => Ok(config),
        None => Err(DaemonError::TunnelNotFound(String::from_str(name))),
    }
}

/// Stops tunnel `name`: takes its supervisor's handle, in a plan for the caller to
/// carry out (ask the supervisor to end, wait up to three seconds, then force it);
/// refused when its supervisor does not run.
pub fn stop_tunnel(state: &mut DaemonState, name: &str) -> (r: Result<StopPlan, DaemonError>)
    ensures
        stop_decided(*old(state), *final(state), name@, r),
{
    match state.take_handle(name) {
        Some(handle) => Ok(StopPlan { signal: true, grace_ms: STOP_GRACE_MS, handle }),
        None => Err(DaemonError::TunnelNotFound(String::from_str(name))),
    }
}

/// What a stop comes to, from how the supervisor ended: stopped, whether it ended by
/// itself, was cancelled, or was forced after its grace ran out; an error only when it
/// panicked.
pub open spec fn stop_outcome(exit: TaskExit) -> Result<(), DaemonError> {
    match exit {
        TaskExit::Panicked(m) => Err(DaemonError::TaskPanic(m)),
        _ => Ok(()),
    }
}

/// The answer to a stop, from how the supervisor ended (see `stop_outcome`).
pub fn stop_result(exit: TaskExit) -> (r: Result<(), DaemonError>)
    ensures
        r == stop_outcome(exit),
{
    match exit {
        TaskExit::Finished => Ok(()),
        TaskExit::Cancelled => Ok(()),
        TaskExit::Panicked(m) => Err(DaemonError::TaskPanic(m)),
        TaskExit::TimedOut => Ok(()),
    }
}

/// Decides a restart of tunnel `name`: refused when it is not configured; otherwise
/// takes the handle of its running supervisor, if any (for the caller to abort), and
/// gives the configuration to start a new supervisor with, whatever its start policy.
pub fn restart_tunnel(state: &mut DaemonState, name: &str) -> (r: Result<(TunnelConfig, Option<TunnelHandle>), DaemonError>)
    ensures
        restart_decided(*old(state), *final(state), name@, r),
{
    let config = match state.tunnel_config(name) {
        Some(c) => c,
        None => {
            return Err(DaemonError::TunnelNotFound(String::from_str(name)));
        },
    };
    let previous = state.take_handle(name);
    Ok((config, previous))
}

/// The status of tunnel `name`: refused when it is not configured.
pub fn get_tunnel_status(state: &DaemonState, name: &str) -> (r: Result<TunnelStatus, DaemonError>)
    ensures
        status_given(*state, name@, r),
{
    match state.tunnel_config(name) {
        Some(config) => Ok(TunnelStatus { name: String::from_str(name), running: state.is_running(name), config }),
        None => Err(DaemonError::TunnelNotFound(String::from_str(name))),
    }
}

/// The status of every configured tunnel, each once (in no promised order).
pub fn list_tunnels(state: &DaemonState) -> (r: Result<Vec<TunnelStatus>, DaemonError>)
    ensures
        r matches Ok(statuses) && listed(*state, statuses@),
{
    let names = state.tunnel_names();
    let mut statuses: Vec<TunnelStatus> = Vec::new();
    let mut i: usize = 0;
    while i < names.len()
        invariant
            i <= names@.len(),
            distinct_strings(names@),
            string_set(names@) == state.configured().dom(),
            statuses@.len() == i,
            forall|j: int| 0 <= j < i ==> (#[trigger] statuses@[j]).name == names@[j],
            forall|j: int| 0 <= j < i ==> {
                let s = #[trigger] statuses@[j];
                &&& state.configured().contains_key(s.name@)
                &&& s.config == state.configured()[s.name@]
                &&& s.running == state.handles().contains_key(s.name@)
            },
        decreases names@.len() - i,
    {
        let name = names[i].as_str();
        assert(string_set(names@).contains(names@[i as int]@));
        let config = state.tunnel_config(name).unwrap();
        statuses.push(TunnelStatus { name: names[i].clone(), running: state.is_running(name), config });
        i = i + 1;
    }
    proof {
        assert(status_names(statuses@) =~= names@) by {
            assert forall|j: int| 0 <= j < names@.len() implies status_names(statuses@)[j] == names@[j] by {
                assert(statuses@[j].name == names@[j]);
            }
        }
    }
    Ok(statuses)
}

/// Starts a reload: takes the handles of every running supervisor (for the caller to
/// abort and wait on) and forgets the configured tunnels and backends. The caller then
/// reads the configuration again and hands it to `init_daemon`.
pub fn reload_daemon(state: &mut DaemonState) -> (stopped: Vec<(String, TunnelHandle)>)
    ensures
        distinct_names(stopped@),
        entries_map(stopped@) == old(state).handles(),
        final(state).handles().dom().is_empty(),
        final(state).configured().dom().is_empty(),
        final(state).loaded_backends().dom().is_empty(),
        old(state).same_settings(*final(state)),
{
    let stopped = take_all_handles(state);
    state.clear_configs();
    stopped
}

/// What a shutdown asks of its caller.
pub struct ShutdownPlan {
    /// The value to publish on the state's shutdown channel, first: `true` tells every
    /// supervisor to disconnect its backend and end.
    pub signal: bool,
    /// Milliseconds to wait for each supervisor before aborting it.
    pub grace_ms: u64,
    /// The handles of the supervisors to wait on, each once.
    pub stopped: Vec<(String, TunnelHandle)>,
}

/// Starts a shutdown: every supervisor is to be told to shut down (the caller publishes
/// `signal` on the shutdown channel), and every handle is taken for the caller to wait on.
pub fn shutdown_daemon(state: &mut DaemonState) -> (plan: ShutdownPlan)
    ensures
        plan.signal,
        plan.grace_ms == SHUTDOWN_GRACE_MS,
        distinct_names(plan.stopped@),
        entries_map(plan.stopped@) == old(state).handles(),
        final(state).handles().dom().is_empty(),
        final(state).configured() == old(state).configured(),
        final(state).loaded_backends() == old(state).loaded_backends(),
        old(state).same_settings(*final(state)),
{
    let stopped = take_all_handles(state);
    ShutdownPlan { signal: true, grace_ms: SHUTDOWN_GRACE_MS, stopped }
}

/// Takes the handle of every running supervisor out of the state.
pub fn take_all_handles(state: &mut DaemonState) -> (taken: Vec<(String, TunnelHandle)>)
    ensures
        distinct_names(taken@),
        entries_map(taken@) == old(state).handles(),
        final(state).handles().dom().is_empty(),
        final(state).configured() == old(state).configured(),
        final(state).loaded_backends() == old(state).loaded_backends(),
        old(state).same_settings(*final(state)),
{
    let names = state.running_names();
    let ghost all = state.handles();
    let mut taken: Vec<(String, TunnelHandle)> = Vec::new();
    let mut i: usize = 0;
    while i < names.len()
        invariant
            i <= names@.len(),
            distinct_strings(names@),
            string_set(names@) == all.dom(),
            state.handles() == all.remove_keys(string_set(names@.take(i as int))),
            state.configured() == old(state).configured(),
            state.loaded_backends() == old(state).loaded_backends(),
            old(state).same_settings(*state),
            taken@.len() == i,
            forall|j: int| 0 <= j < i ==> (#[trigger] taken@[j]).0@ == names@[j]@,
            distinct_names(taken@),
            entries_map(taken@) == all.restrict(string_set(names@.take(i as int))),
        decreases names@.len() - i,
    {
        assert(string_set(names@).contains(names@[i as int]@));
        let ghost n = names@[i as int]@;
        let ghost before_set = string_set(names@.take(i as int));
        let ghost after_set = string_set(names@.take(i + 1));
        assert(after_set =~= before_set.insert(n)) by {
            assert forall|x: Seq<char>| after_set.contains(x) implies #[trigger] before_set.insert(n).contains(x) by {
                let j = choose|j: int| 0 <= j < names@.take(i + 1).len() && #[trigger] names@.take(i + 1)[j]@ == x;
                if j < i {
                    assert(names@.take(i as int)[j]@ == x);
                }
            }
            assert forall|x: Seq<char>| before_set.insert(n).contains(x) implies #[trigger] after_set.contains(x) by {
                if x == n {
                    assert(names@.take(i + 1)[i as int]@ == x);
                } else {
                    let j = choose|j: int| 0 <= j < names@.take(i as int).len() && #[trigger] names@.take(i as int)[j]@ == x;
                    assert(names@.take(i + 1)[j]@ == x);
                }
            }
        }
        assert(!before_set.contains(n)) by {
            if before_set.contains(n) {
                let j = choose|j: int| 0 <= j < names@.take(i as int).len() && #[trigger] names@.take(i as int)[j]@ == n;
                assert(names@[j]@ == names@[i as int]@);
            }
        }
        let handle = state.take_handle(names[i].as_str()).unwrap();
        let ghost before = taken@;
        taken.push((names[i].clone(), handle));
        proof {
            let s = taken@;
            assert(s.drop_last() =~= before);
            assert forall|a: int, b: int| 0 <= a < s.len() && 0 <= b < s.len() && a != b implies #[trigger] s[a].0@ != #[trigger] s[b].0@ by {
                assert(s[a].0@ == names@[a]@ && s[b].0@ == names@[b]@);
            }
            assert(entries_map(taken@) =~= all.restrict(after_set));
            assert(state.handles() =~= all.remove_keys(after_set));
        }
        i = i + 1;
    }
    assert(names@.take(names@.len() as int) =~= names@);
    assert(state.handles().dom() =~= Set::<Seq<char>>::empty());
    assert(entries_map(taken@) =~= all);
    taken
}

/// A tunnel whose start was accepted runs once its supervisor's handle is registered:
/// a status request then says it runs, with the configuration it was started with, and
/// a second start is refused as already running.
pub proof fn law_started_tunnel_runs(
    s0: DaemonState,
    s1: DaemonState,
    name: Seq<char>,
    h: TunnelHandle,
    started: Result<TunnelConfig, DaemonError>,
    status: Result<TunnelStatus, DaemonError>,
    again: Result<TunnelConfig, DaemonError>,
)
    requires
        start_decided(s0, name, started),
        started is Ok,
        registered(s0, s1, name, h),
        status_given(s1, name, status),
        start_decided(s1, name, again),
    ensures
        started matches Ok(c) ==> (status matches Ok(st) && st.running && st.config == c),
        again matches Err(DaemonError::TunnelAlreadyRunning(n)) && n@ == name,
{
}

/// Stopping a tunnel right after its start gives back the handle its start registered,
/// leaves the running tunnels as they were before the start, and its status then says
/// it does not run.
pub proof fn law_stop_undoes_start(
    s0: DaemonState,
    s1: DaemonState,
    s2: DaemonState,
    name: Seq<char>,
    h: TunnelHandle,
    started: Result<TunnelConfig, DaemonError>,
    stopped: Result<StopPlan, DaemonError>,
    status: Result<TunnelStatus, DaemonError>,
)
    requires
        start_decided(s0, name, started),
        started is Ok,
        registered(s0, s1, name, h),
        stop_decided(s1, s2, name, stopped),
        status_given(s2, name, status),
    ensures
        stopped matches Ok(p) && stops_gracefully(p, h),
        s2.handles() == s0.handles(),
        status matches Ok(st) && !st.running,
{
    assert(s2.handles() =~= s0.handles());
}

/// A restart leaves the tunnel running under its new supervisor, whether or not it
/// ran before, and leaves every other tunnel as it was; its status then says it runs.
pub proof fn law_restart_runs(
    s0: DaemonState,
    s1: DaemonState,
    s2: DaemonState,
    name: Seq<char>,
    h: TunnelHandle,
    restarted: Result<(TunnelConfig, Option<TunnelHandle>), DaemonError>,
    status: Result<TunnelStatus, DaemonError>,
)
    requires
        restart_decided(s0, s1, name, restarted),
        restarted is Ok,
        registered(s1, s2, name, h),
        status_given(s2, name, status),
    ensures
        s2.handles() == s0.handles().insert(name, h),
        status matches Ok(st) && st.running,
{
    assert(s2.handles() =~= s0.handles().insert(name, h));
}

/// After a reload that loaded, and once the supervisors of the tunnels it gave to start
/// are registered, the configured tunnels are exactly the newly installed ones and the
/// running tunnels are exactly those of them that start with the daemon.
pub proof fn law_reload_runs_auto_started(
    s1: DaemonState,
    s2: DaemonState,
    s3: DaemonState,
    backends: Map<Seq<char>, BackendConfig>,
    tunnels: Map<Seq<char>, TunnelConfig>,
    installed: Installed,
)
    requires
        s1.handles().dom().is_empty(),
        s1.configured().dom().is_empty(),
        installs(s1, s2, backends, tunnels, installed),
        s3.handles().dom() == s2.handles().dom().union(entry_names(installed.autostart@)),
        s3.configured() == s2.configured(),
    ensures
        s3.configured() == installed_tunnels(tunnels, backends),
        s3.handles().dom() == auto_started(installed_tunnels(tunnels, backends)).dom(),
{
    lemma_entries_map_dom(installed.autostart@);
    assert(s3.handles().dom() =~= auto_started(installed_tunnels(tunnels, backends)).dom());
    assert(s3.configured() =~= installed_tunnels(tunnels, backends));
}

/// The list and the status of a tunnel agree: each listed status is what a status
/// request for its name answers.
pub proof fn law_list_agrees_with_status(
    s: DaemonState,
    statuses: Seq<TunnelStatus>,
    i: int,
    status: Result<TunnelStatus, DaemonError>,
)
    requires
        listed(s, statuses),
        0 <= i < statuses.len(),
        status_given(s, statuses[i].name@, status),
    ensures
        status matches Ok(st) && st.name@ == statuses[i].name@ && st.running == statuses[i].running
            && st.config == statuses[i].config,
{
    let t = statuses[i];
    assert(s.configured().contains_key(t.name@));
}

}
