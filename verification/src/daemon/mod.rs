//! The daemon: installing loaded configuration, and the control operations.

pub mod ctrl;
pub mod mgr;
pub mod utils;

use vstd::prelude::*;
use crate::config::{BackendConfig, TunnelConfig};
use crate::error::DaemonError;
use crate::state::{distinct_strings, string_set, DaemonState};
use crate::table::{distinct_names, entries_map, lemma_entries_map_dom, entry_names, ConfigTable};

verus! {

/// A tunnel whose backend names a backend file takes that backend's configuration,
/// when such a backend was loaded; otherwise it is left as it is.
pub open spec fn resolve_backend(t: TunnelConfig, backends: Map<Seq<char>, BackendConfig>) -> TunnelConfig {
    match t.backend {
        BackendConfig::File(f) => if backends.contains_key(f@) {
            TunnelConfig { backend: backends[f@], ..t }
        } else {
            t
        },
        BackendConfig::SecureShell(_, _) => t,
    }
}

/// A tunnel is installed when its backend, once resolved, is not a file reference.
pub open spec fn installable(t: TunnelConfig) -> bool {
    !(t.backend is File)
}

/// The tunnels that are installed out of the loaded ones, resolved.
pub open spec fn installed_tunnels(
    tunnels: Map<Seq<char>, TunnelConfig>,
    backends: Map<Seq<char>, BackendConfig>,
) -> Map<Seq<char>, TunnelConfig> {
    Map::new(
        |n: Seq<char>| tunnels.contains_key(n) && installable(resolve_backend(tunnels[n], backends)),
        |n: Seq<char>| resolve_backend(tunnels[n], backends),
    )
}

/// A tunnel starts with the daemon when its policy says `auto_start: Some(true)`.
pub open spec fn auto_starts(t: TunnelConfig) -> bool {
    t.mgr matches Some(m) && m.auto_start == Some(true)
}

/// The installed tunnels that start with the daemon.
pub open spec fn auto_started(tunnels: Map<Seq<char>, TunnelConfig>) -> Map<Seq<char>, TunnelConfig> {
    tunnels.restrict(tunnels.dom().filter(|n: Seq<char>| auto_starts(tunnels[n])))
}

/// The loaded tunnels that are skipped: their backend, once resolved, still refers to
/// a backend file (no such backend was loaded).
pub open spec fn skipped_tunnels(
    tunnels: Map<Seq<char>, TunnelConfig>,
    backends: Map<Seq<char>, BackendConfig>,
) -> Set<Seq<char>> {
    Set::new(|n: Seq<char>| tunnels.contains_key(n) && !installable(resolve_backend(tunnels[n], backends)))
}

/// What installing loaded configuration leaves for the caller to do.
pub struct Installed {
    /// The installed tunnels that start with the daemon, each once, to be started.
    pub autostart: Vec<(String, TunnelConfig)>,
    /// The names of the skipped tunnels, each once, to be reported.
    pub skipped: Vec<String>,
}

fn resolve(tunnel: TunnelConfig, backends: &ConfigTable<BackendConfig>) -> (r: TunnelConfig)
    requires
        backends.wf(),
    ensures
        r == resolve_backend(tunnel, backends@),
{
    let found = match &tunnel.backend {
        BackendConfig::File(f) => backends.get(f),
        BackendConfig::SecureShell(_, _) => None,
    };
    match found {
        Some(b) => TunnelConfig { backend: b.clone(), ..tunnel },
        None => tunnel,
    }
}

fn starts_automatically(t: &TunnelConfig) -> (r: bool)
    ensures
        r == auto_starts(*t),
{
    match t.mgr {
        Some(m) => match m.auto_start {
            Some(b) => b,
            None => false,
        },
        None => false,
    }
}

/// The map of a prefix grows by the next entry.
proof fn lemma_prefix_step<T>(all: Seq<(String, T)>, i: int)
    requires
        0 <= i < all.len(),
    ensures
        entries_map(all.take(i + 1)) == entries_map(all.take(i)).insert(all[i].0@, all[i].1),
{
    assert(all.take(i + 1).drop_last() =~= all.take(i));
    assert(all.take(i + 1).last() == all[i]);
}

/// With distinct names, the next entry's name is not yet in the map of the prefix.
proof fn lemma_prefix_fresh<T>(all: Seq<(String, T)>, i: int)
    requires
        0 <= i < all.len(),
        distinct_names(all),
    ensures
        !entries_map(all.take(i)).contains_key(all[i].0@),
{
    lemma_entries_map_dom(all.take(i));
    if entry_names(all.take(i)).contains(all[i].0@) {
        let j = choose|j: int| 0 <= j < all.take(i).len() && #[trigger] all.take(i)[j].0@ == all[i].0@;
        assert(all[j].0@ == all[i].0@);
    }
}

/// Installing the loaded `backends` and `tunnels` takes the state from `before` to
/// `after` and leaves `installed` to the caller: the installed tunnels are added to the
/// configured ones and the backends to the loaded ones; the running supervisors stay.
pub open spec fn installs(
    before: DaemonState,
    after: DaemonState,
    backends: Map<Seq<char>, BackendConfig>,
    tunnels: Map<Seq<char>, TunnelConfig>,
    installed: Installed,
) -> bool {
    &&& after.configured() == before.configured().union_prefer_right(installed_tunnels(tunnels, backends))
    &&& after.loaded_backends() == before.loaded_backends().union_prefer_right(backends)
    &&& after.handles() == before.handles()
    &&& before.same_settings(after)
    &&& distinct_names(installed.autostart@)
    &&& entries_map(installed.autostart@) == auto_started(installed_tunnels(tunnels, backends))
    &&& distinct_strings(installed.skipped@)
    &&& string_set(installed.skipped@) == skipped_tunnels(tunnels, backends)
}

/// Initialises the state from the configuration read from disk: a load error is passed
/// on and nothing is installed; otherwise the configuration is installed (see
/// `install_config`) and what is left to the caller is given back.
pub fn init_daemon(
    state: &mut DaemonState,
    loaded: Result<(ConfigTable<BackendConfig>, ConfigTable<TunnelConfig>), DaemonError>,
) -> (r: Result<Installed, DaemonError>)
    requires
        loaded matches Ok((b, t)) ==> b.wf() && t.wf(),
    ensures
        match loaded {
            Err(e) => (r matches Err(e2) && e2 == e) && *final(state) == *old(state),
            Ok((b, t)) => r matches Ok(installed) && installs(*old(state), *final(state), b@, t@, installed),
        },
{
    match loaded {
        Err(e) => Err(e),
        Ok((backends, tunnels)) => Ok(install_config(state, backends, tunnels)),
    }
}

/// Installs loaded configuration into the state: each loaded tunnel, with its backend
/// file reference resolved against the loaded backends, unless it still refers to a
/// backend file afterwards (then it is skipped); then every loaded backend. Returns the
/// installed tunnels that start with the daemon, each once, for the caller to start, and
/// the names of the skipped tunnels, each once, for the caller to report.
pub fn install_config(
    state: &mut DaemonState,
    backends: ConfigTable<BackendConfig>,
    tunnels: ConfigTable<TunnelConfig>,
) -> (installed: Installed)
    requires
        backends.wf(),
        tunnels.wf(),
    ensures
        installs(*old(state), *final(state), backends@, tunnels@, installed),
{
    let ghost bmap = backends@;
    let ghost old_configured = state.configured();
    let entries = tunnels.into_entries();
    let ghost all = entries@;
    let mut autostart: Vec<(String, TunnelConfig)> = Vec::new();
    let mut skipped: Vec<String> = Vec::new();
    let mut i: usize = 0;
    proof {
        assert(string_set(skipped@) =~= skipped_tunnels(entries_map(all.take(0)), bmap));
        assert(all.take(0) =~= Seq::<(String, TunnelConfig)>::empty());
        assert(state.configured() =~= old_configured.union_prefer_right(
            installed_tunnels(entries_map(all.take(0)), bmap)));
        assert(entries_map(autostart@) =~= auto_started(installed_tunnels(entries_map(all.take(0)), bmap)));
    }
    while i < entries.len()
        invariant
            backends.wf(),
            backends@ == bmap,
            entries@ == all,
            distinct_names(all),
            i <= all.len(),
            state.configured() == old_configured.union_prefer_right(
                installed_tunnels(entries_map(all.take(i as int)), bmap)),
            state.loaded_backends() == old(state).loaded_backends(),
            state.handles() == old(state).handles(),
            old(state).same_settings(*state),
            distinct_names(autostart@),
            entries_map(autostart@) == auto_started(installed_tunnels(entries_map(all.take(i as int)), bmap)),
            distinct_strings(skipped@),
            string_set(skipped@) == skipped_tunnels(entries_map(all.take(i as int)), bmap),
        decreases all.len() - i,
    {
        let name = entries[i].0.clone();
        let resolved = resolve(entries[i].1.clone(), &backends);
        let ghost prefix = entries_map(all.take(i as int));
        let ghost n = all[i as int].0@;
        proof {
            lemma_prefix_step(all, i as int);
            lemma_prefix_fresh(all, i as int);
        }
        let ghost next = entries_map(all.take(i + 1));
        if !resolved.backend.is_file() {
            if starts_automatically(&resolved) {
                proof {
                    lemma_entries_map_dom(autostart@);
                    assert(!auto_started(installed_tunnels(prefix, bmap)).contains_key(n));
                }
                let ghost before = autostart@;
                autostart.push((name.clone(), resolved.clone()));
                proof {
                    let s = autostart@;
                    assert(s.drop_last() =~= before);
                    assert forall|a: int, b: int| 0 <= a < s.len() && 0 <= b < s.len() && a != b implies #[trigger] s[a].0@ != #[trigger] s[b].0@ by {
                        if a == s.len() - 1 {
                            assert(entry_names(before).contains(s[b].0@));
                        } else if b == s.len() - 1 {
                            assert(entry_names(before).contains(s[a].0@));
                        } else {
                            assert(before[a] == s[a] && before[b] == s[b]);
                        }
                    }
                    assert(entries_map(autostart@) =~= auto_started(installed_tunnels(next, bmap)));
                }
            } else {
                assert(entries_map(autostart@) =~= auto_started(installed_tunnels(next, bmap)));
            }
            state.set_tunnel(name, resolved);
            assert(state.configured() =~= old_configured.union_prefer_right(installed_tunnels(next, bmap)));
            assert(skipped_tunnels(next, bmap) =~= skipped_tunnels(prefix, bmap));
        } else {
            assert(installed_tunnels(next, bmap) =~= installed_tunnels(prefix, bmap));
            let ghost before = skipped@;
            assert(!string_set(before).contains(n));
            skipped.push(name);
            proof {
                let s = skipped@;
                assert(s.drop_last() =~= before);
                assert forall|a: int, b: int| 0 <= a < s.len() && 0 <= b < s.len() && a != b implies #[trigger] s[a]@ != #[trigger] s[b]@ by {
                    if a == s.len() - 1 {
                        assert(before[b] == s[b]);
                        assert(string_set(before).contains(s[b]@));
                    } else if b == s.len() - 1 {
                        assert(before[a] == s[a]);
                        assert(string_set(before).contains(s[a]@));
                    } else {
                        assert(before[a] == s[a] && before[b] == s[b]);
                    }
                }
                assert(string_set(s) =~= string_set(before).insert(n)) by {
                    assert forall|x: Seq<char>| string_set(s).contains(x) implies #[trigger] string_set(before).insert(n).contains(x) by {
                        let k = choose|k: int| 0 <= k < s.len() && #[trigger] s[k]@ == x;
                        if k < before.len() {
                            assert(before[k] == s[k]);
                        }
                    }
                    assert forall|x: Seq<char>| string_set(before).insert(n).contains(x) implies #[trigger] string_set(s).contains(x) by {
                        if x == n {
                            assert(s[s.len() - 1]@ == x);
                        } else {
                            let k = choose|k: int| 0 <= k < before.len() && #[trigger] before[k]@ == x;
                            assert(s[k] == before[k]);
                        }
                    }
                }
                assert(skipped_tunnels(next, bmap) =~= skipped_tunnels(prefix, bmap).insert(n));
            }
        }
        i = i + 1;
    }
    assert(all.take(all.len() as int) =~= all);
    let bentries = backends.into_entries();
    let ghost ball = bentries@;
    let ghost mid_backends = state.loaded_backends();
    let mut j: usize = 0;
    assert(mid_backends.union_prefer_right(entries_map(ball.take(0))) =~= mid_backends) by {
        assert(ball.take(0) =~= Seq::<(String, BackendConfig)>::empty());
    }
    while j < bentries.len()
        invariant
            bentries@ == ball,
            j <= ball.len(),
            state.loaded_backends() == mid_backends.union_prefer_right(entries_map(ball.take(j as int))),
            state.configured() == old_configured.union_prefer_right(installed_tunnels(entries_map(all), bmap)),
            state.handles() == old(state).handles(),
            old(state).same_settings(*state),
        decreases ball.len() - j,
    {
        proof {
            lemma_prefix_step(ball, j as int);
        }
        state.set_backend(bentries[j].0.clone(), bentries[j].1.clone());
        assert(state.loaded_backends() =~= mid_backends.union_prefer_right(entries_map(ball.take(j + 1))));
        j = j + 1;
    }
    assert(ball.take(ball.len() as int) =~= ball);
    Installed { autostart, skipped }
}

/// No installed tunnel refers to a backend file: an inline backend is kept as it is,
/// and a reference to a loaded backend is replaced by that backend.
pub proof fn law_installed_tunnels_are_resolved(
    tunnels: Map<Seq<char>, TunnelConfig>,
    backends: Map<Seq<char>, BackendConfig>,
    name: Seq<char>,
)
    requires
        installed_tunnels(tunnels, backends).contains_key(name),
    ensures
        !(installed_tunnels(tunnels, backends)[name].backend is File),
        tunnels.contains_key(name),
        tunnels[name].backend is SecureShell ==> installed_tunnels(tunnels, backends)[name] == tunnels[name],
        tunnels[name].backend matches BackendConfig::File(f) ==> backends.contains_key(f@)
            && installed_tunnels(tunnels, backends)[name].backend == backends[f@],
{
}

/// A loaded tunnel with an inline ssh backend is always installed.
pub proof fn law_inline_tunnels_are_installed(
    tunnels: Map<Seq<char>, TunnelConfig>,
    backends: Map<Seq<char>, BackendConfig>,
    name: Seq<char>,
)
    requires
        tunnels.contains_key(name),
        tunnels[name].backend is SecureShell,
    ensures
        installed_tunnels(tunnels, backends).contains_key(name),
{
}

/// Resolving a tunnel's backend file reference changes nothing but its backend: the
/// policy, the direction and both endpoints stay; the backend becomes the loaded one it
/// names, and stays as it is when it is inline or names no loaded backend.
pub proof fn law_resolving_changes_only_the_backend(t: TunnelConfig, backends: Map<Seq<char>, BackendConfig>)
    ensures
        resolve_backend(t, backends).mgr == t.mgr,
        resolve_backend(t, backends).direction == t.direction,
        resolve_backend(t, backends).local == t.local,
        resolve_backend(t, backends).remote == t.remote,
        t.backend matches BackendConfig::File(f) ==> (backends.contains_key(f@)
            ==> resolve_backend(t, backends).backend == backends[f@]),
        t.backend matches BackendConfig::File(f) ==> (!backends.contains_key(f@)
            ==> resolve_backend(t, backends).backend == t.backend),
        t.backend is SecureShell ==> resolve_backend(t, backends).backend == t.backend,
{
}

/// An installed tunnel is the loaded tunnel of its name with (at most) its backend
/// replaced, and a tunnel that starts with the daemon is started with that same
/// configuration.
pub proof fn law_installed_tunnel_keeps_its_settings(
    tunnels: Map<Seq<char>, TunnelConfig>,
    backends: Map<Seq<char>, BackendConfig>,
    name: Seq<char>,
)
    requires
        installed_tunnels(tunnels, backends).contains_key(name),
    ensures
        ({
            let t = tunnels[name];
            let i = installed_tunnels(tunnels, backends)[name];
            &&& i.mgr == t.mgr
            &&& i.direction == t.direction
            &&& i.local == t.local
            &&& i.remote == t.remote
        }),
        auto_started(installed_tunnels(tunnels, backends)).contains_key(name)
            <==> (tunnels[name].mgr matches Some(m) && m.auto_start == Some(true)),
        auto_started(installed_tunnels(tunnels, backends)).contains_key(name)
            ==> auto_started(installed_tunnels(tunnels, backends))[name] == installed_tunnels(tunnels, backends)[name],
{
    law_resolving_changes_only_the_backend(tunnels[name], backends);
}

/// Every loaded tunnel is either installed or skipped, never both, and nothing else is
/// installed or skipped.
pub proof fn law_each_tunnel_installed_or_skipped(
    tunnels: Map<Seq<char>, TunnelConfig>,
    backends: Map<Seq<char>, BackendConfig>,
    name: Seq<char>,
)
    ensures
        tunnels.contains_key(name) ==> (installed_tunnels(tunnels, backends).contains_key(name)
            != skipped_tunnels(tunnels, backends).contains(name)),
        !tunnels.contains_key(name) ==> !installed_tunnels(tunnels, backends).contains_key(name)
            && !skipped_tunnels(tunnels, backends).contains(name),
        skipped_tunnels(tunnels, backends).contains(name) ==> (tunnels[name].backend matches BackendConfig::File(f)
            && !backends.contains_key(f@)) || (tunnels[name].backend matches BackendConfig::File(f)
            && backends.contains_key(f@) && backends[f@] is File),
{
}

}
