//! The daemon's state: configured tunnels and backends, and the handles of the
//! tunnel supervisors that run.

use vstd::prelude::*;
use dashmap::DashMap;
use tokio::sync::watch::Sender;
use tokio::task::{AbortHandle, JoinError, JoinHandle};
use std::path::PathBuf;
use crate::config::{BackendConfig, TunnelConfig};

verus! {

/// `dashmap::DashMap`, the concurrent map the state keeps its tables in (opaque).
#[verifier::external_type_specification]
#[verifier::external_body]
#[verifier::reject_recursive_types(K)]
#[verifier::reject_recursive_types(V)]
#[verifier::reject_recursive_types(S)]
pub struct ExDashMap<K, V, S>(DashMap<K, V, S>);

/// `tokio::task::JoinHandle`, the handle of a spawned task (opaque).
#[verifier::external_type_specification]
#[verifier::external_body]
#[verifier::reject_recursive_types(T)]
pub struct ExJoinHandle<T>(JoinHandle<T>);

/// `tokio::task::AbortHandle`, which cancels a spawned task (opaque).
#[verifier::external_type_specification]
#[verifier::external_body]
pub struct ExAbortHandle(AbortHandle);

/// `tokio::task::JoinError`, what awaiting a failed task gives (opaque; named by the
/// declaration of `JoinHandle`).
#[verifier::external_type_specification]
#[verifier::external_body]
pub struct ExJoinError(JoinError);

/// `tokio::sync::watch::Sender`, the sending half of the shutdown channel (opaque).
#[verifier::external_type_specification]
#[verifier::external_body]
#[verifier::reject_recursive_types(T)]
pub struct ExSender<T>(Sender<T>);

/// `std::path::PathBuf`, the configuration directories (opaque).
#[verifier::external_type_specification]
#[verifier::external_body]
pub struct ExPathBuf(PathBuf);

/// The handle of a running tunnel supervisor task.
pub struct TunnelHandle {
    /// Awaits the task's end.
    pub handle: JoinHandle<()>,
    /// Cancels the task.
    pub abort: AbortHandle,
    /// Asks this supervisor alone to disconnect its backend and end (by sending `true`).
    pub stop: Sender<bool>,
}

/// The map of configured tunnels, by name.
pub type TunnelMap = DashMap<String, TunnelConfig>;

/// The map of loaded backends, by name.
pub type BackendMap = DashMap<String, BackendConfig>;

/// The map of the handles of running tunnel supervisors, by tunnel name.
pub type HandleMap = DashMap<String, TunnelHandle>;

/// What a configured-tunnel map holds.
pub uninterp spec fn tunnel_table(m: TunnelMap) -> Map<Seq<char>, TunnelConfig>;

/// What a backend map holds.
pub uninterp spec fn backend_table(m: BackendMap) -> Map<Seq<char>, BackendConfig>;

/// What a handle map holds.
pub uninterp spec fn handle_table(m: HandleMap) -> Map<Seq<char>, TunnelHandle>;

/// No two strings of `s` have the same text.
pub open spec fn distinct_strings(s: Seq<String>) -> bool {
    forall|i: int, j: int| 0 <= i < s.len() && 0 <= j < s.len() && i != j ==> #[trigger] s[i]@ != #[trigger] s[j]@
}

/// The texts of the strings of `s`.
pub open spec fn string_set(s: Seq<String>) -> Set<Seq<char>> {
    Set::new(|n: Seq<char>| exists|i: int| 0 <= i < s.len() && #[trigger] s[i]@ == n)
}

/// `DashMap::new`: an empty map.
#[verifier::external_body]
fn new_tunnel_map() -> (table: TunnelMap)
    ensures
        tunnel_table(table).dom().is_empty(),
{
    DashMap::new()
}

/// `DashMap::view`: the configuration under `name`, cloned out of the map.
#[verifier::external_body]
fn tunnel_map_get(table: &TunnelMap, name: &str) -> (found: Option<TunnelConfig>)
    ensures
        found is Some == tunnel_table(*table).contains_key(name@),
        found matches Some(c) ==> c == tunnel_table(*table)[name@],
{
    table.view(name, |_, config| config.clone())
}

/// `DashMap::insert`: puts `config` under `name`; returns what was there.
#[verifier::external_body]
fn tunnel_map_insert(table: &mut TunnelMap, name: String, config: TunnelConfig) -> (previous: Option<TunnelConfig>)
    ensures
        tunnel_table(*final(table)) == tunnel_table(*old(table)).insert(name@, config),
        previous is Some == tunnel_table(*old(table)).contains_key(name@),
        previous matches Some(c) ==> c == tunnel_table(*old(table))[name@],
{
    table.insert(name, config)
}

/// `DashMap::clear`: removes every entry.
#[verifier::external_body]
fn tunnel_map_clear(table: &mut TunnelMap)
    ensures
        tunnel_table(*final(table)).dom().is_empty(),
{
    table.clear()
}

/// `DashMap::iter`: the names in the map, each once, in the map's own order.
#[verifier::external_body]
fn tunnel_map_names(table: &TunnelMap) -> (names: Vec<String>)
    ensures
        distinct_strings(names@),
        string_set(names@) == tunnel_table(*table).dom(),
{
    table.iter().map(|entry| entry.key().clone()).collect()
}

/// `DashMap::new`: an empty map.
#[verifier::external_body]
fn new_backend_map() -> (table: BackendMap)
    ensures
        backend_table(table).dom().is_empty(),
{
    DashMap::new()
}

/// `DashMap::insert`: puts `backend` under `name`; returns what was there.
#[verifier::external_body]
fn backend_map_insert(table: &mut BackendMap, name: String, backend: BackendConfig) -> (previous: Option<BackendConfig>)
    ensures
        backend_table(*final(table)) == backend_table(*old(table)).insert(name@, backend),
        previous is Some == backend_table(*old(table)).contains_key(name@),
        previous matches Some(b) ==> b == backend_table(*old(table))[name@],
{
    table.insert(name, backend)
}

/// `DashMap::clear`: removes every entry.
#[verifier::external_body]
fn backend_map_clear(table: &mut BackendMap)
    ensures
        backend_table(*final(table)).dom().is_empty(),
{
    table.clear()
}

/// `DashMap::new`: an empty map.
#[verifier::external_body]
fn new_handle_map() -> (table: HandleMap)
    ensures
        handle_table(table).dom().is_empty(),
{
    DashMap::new()
}

/// `DashMap::contains_key`: whether a handle is held under `name`.
#[verifier::external_body]
fn handle_map_contains(table: &HandleMap, name: &str) -> (held: bool)
    ensures
        held == handle_table(*table).contains_key(name@),
{
    table.contains_key(name)
}

/// `DashMap::insert`: puts `handle` under `name`; returns what was there.
#[verifier::external_body]
fn handle_map_insert(table: &mut HandleMap, name: String, handle: TunnelHandle) -> (previous: Option<TunnelHandle>)
    ensures
        handle_table(*final(table)) == handle_table(*old(table)).insert(name@, handle),
        previous is Some == handle_table(*old(table)).contains_key(name@),
        previous matches Some(h) ==> h == handle_table(*old(table))[name@],
{
    table.insert(name, handle)
}

/// `DashMap::remove`: takes the handle under `name` out of the map.
#[verifier::external_body]
fn handle_map_remove(table: &mut HandleMap, name: &str) -> (removed: Option<TunnelHandle>)
    ensures
        handle_table(*final(table)) == handle_table(*old(table)).remove(name@),
        removed is Some == handle_table(*old(table)).contains_key(name@),
        removed matches Some(h) ==> h == handle_table(*old(table))[name@],
{
    table.remove(name).map(|(_, handle)| handle)
}

/// `DashMap::iter`: the names in the map, each once, in the map's own order.
#[verifier::external_body]
fn handle_map_names(table: &HandleMap) -> (names: Vec<String>)
    ensures
        distinct_strings(names@),
        string_set(names@) == handle_table(*table).dom(),
{
    table.iter().map(|entry| entry.key().clone()).collect()
}

/// The value the channel of a shutdown sender was created with. (What the channel holds
/// later is state shared by every clone of the sender and changed by sends, so no name
/// stands for it.)
pub uninterp spec fn initial_signal(sender: Sender<bool>) -> bool;

/// `tokio::sync::watch::channel`: the sending half of a new channel whose value starts
/// as `initial` (the source stores `initial` as the channel's first value).
#[verifier::external_body]
fn new_shutdown_sender(initial: bool) -> (sender: Sender<bool>)
    ensures
        initial_signal(sender) == initial,
{
    tokio::sync::watch::channel(initial).0
}

/// `Sender::clone`: another sending half of the same channel. Its source builds the
/// clone from nothing but a clone of the `Arc` that holds the channel's shared state
/// (bumping a sender count inside that shared state), so the contract claims the clone
/// equal to the sender it was made from: both send to, and subscribe from, one channel.
#[verifier::external_body]
fn clone_sender(sender: &Sender<bool>) -> (copy: Sender<bool>)
    ensures
        copy == *sender,
{
    sender.clone()
}

/// What the daemon reports of one tunnel.
#[derive(Debug)]
pub struct TunnelStatus {
    pub name: String,
    pub running: bool,
    pub config: TunnelConfig,
}

impl Clone for TunnelStatus {
    fn clone(&self) -> (r: Self)
        ensures
            r == *self,
    {
        TunnelStatus { name: self.name.clone(), running: self.running, config: self.config.clone() }
    }
}

/// The daemon's state.
pub struct DaemonState {
    pub tunnels: TunnelMap,
    pub backends: BackendMap,
    pub tunnel_handles: HandleMap,
    pub shutdown_tx: Sender<bool>,
    pub backend_path: PathBuf,
    pub tunnel_path: PathBuf,
}

impl DaemonState {
    /// The configured tunnels, by name.
    pub open spec fn configured(&self) -> Map<Seq<char>, TunnelConfig> {
        tunnel_table(self.tunnels)
    }

    /// The loaded backends, by name.
    pub open spec fn loaded_backends(&self) -> Map<Seq<char>, BackendConfig> {
        backend_table(self.backends)
    }

    /// The handles of the running tunnel supervisors, by tunnel name.
    pub open spec fn handles(&self) -> Map<Seq<char>, TunnelHandle> {
        handle_table(self.tunnel_handles)
    }

    /// `other` has the configuration directories and the shutdown channel of `self`.
    pub open spec fn same_settings(&self, other: DaemonState) -> bool {
        &&& other.backend_path == self.backend_path
        &&& other.tunnel_path == self.tunnel_path
        &&& other.shutdown_tx == self.shutdown_tx
    }

    /// A state with no tunnels, backends or running supervisors.
    pub fn new(backend_path: PathBuf, tunnel_path: PathBuf) -> (s: Self)
        ensures
            s.configured().dom().is_empty(),
            s.loaded_backends().dom().is_empty(),
            s.handles().dom().is_empty(),
            !initial_signal(s.shutdown_tx),
            s.backend_path == backend_path,
            s.tunnel_path == tunnel_path,
    {
        DaemonState {
            tunnels: new_tunnel_map(),
            backends: new_backend_map(),
            tunnel_handles: new_handle_map(),
            shutdown_tx: new_shutdown_sender(false),
            backend_path,
            tunnel_path,
        }
    }

    /// Another sender of the shutdown signal: a sender of the state's own channel.
    pub fn shutdown_tx(&self) -> (tx: Sender<bool>)
        ensures
            tx == self.shutdown_tx,
    {
        clone_sender(&self.shutdown_tx)
    }

    /// The configuration of the tunnel `name`, if configured.
    pub fn tunnel_config(&self, name: &str) -> (r: Option<TunnelConfig>)
        ensures
            r is Some == self.configured().contains_key(name@),
            r matches Some(c) ==> c == self.configured()[name@],
    {
        tunnel_map_get(&self.tunnels, name)
    }

    /// Whether the supervisor of tunnel `name` runs.
    pub fn is_running(&self, name: &str) -> (r: bool)
        ensures
            r == self.handles().contains_key(name@),
    {
        handle_map_contains(&self.tunnel_handles, name)
    }

    /// The names of the configured tunnels, each once.
    pub fn tunnel_names(&self) -> (names: Vec<String>)
        ensures
            distinct_strings(names@),
            string_set(names@) == self.configured().dom(),
    {
        tunnel_map_names(&self.tunnels)
    }

    /// The names of the tunnels whose supervisors run, each once.
    pub fn running_names(&self) -> (names: Vec<String>)
        ensures
            distinct_strings(names@),
            string_set(names@) == self.handles().dom(),
    {
        handle_map_names(&self.tunnel_handles)
    }

    /// Configures tunnel `name`, replacing an earlier configuration.
    pub fn set_tunnel(&mut self, name: String, config: TunnelConfig)
        ensures
            final(self).configured() == old(self).configured().insert(name@, config),
            final(self).loaded_backends() == old(self).loaded_backends(),
            final(self).handles() == old(self).handles(),
            old(self).same_settings(*final(self)),
    {
        let _ = tunnel_map_insert(&mut self.tunnels, name, config);
    }

    /// Records backend `name`, replacing an earlier one.
    pub fn set_backend(&mut self, name: String, backend: BackendConfig)
        ensures
            final(self).loaded_backends() == old(self).loaded_backends().insert(name@, backend),
            final(self).configured() == old(self).configured(),
            final(self).handles() == old(self).handles(),
            old(self).same_settings(*final(self)),
    {
        let _ = backend_map_insert(&mut self.backends, name, backend);
    }

    /// Forgets every configured tunnel and backend.
    pub fn clear_configs(&mut self)
        ensures
            final(self).configured().dom().is_empty(),
            final(self).loaded_backends().dom().is_empty(),
            final(self).handles() == old(self).handles(),
            old(self).same_settings(*final(self)),
    {
        tunnel_map_clear(&mut self.tunnels);
        backend_map_clear(&mut self.backends);
    }

    /// Holds `handle` as the supervisor of tunnel `name`; a handle held before under
    /// that name is given back.
    pub fn insert_handle(&mut self, name: String, handle: TunnelHandle) -> (previous: Option<TunnelHandle>)
        ensures
            final(self).handles() == old(self).handles().insert(name@, handle),
            previous is Some == old(self).handles().contains_key(name@),
            final(self).configured() == old(self).configured(),
            final(self).loaded_backends() == old(self).loaded_backends(),
            old(self).same_settings(*final(self)),
    {
        handle_map_insert(&mut self.tunnel_handles, name, handle)
    }

    /// Takes the handle of tunnel `name`'s supervisor, if it runs.
    pub fn take_handle(&mut self, name: &str) -> (removed: Option<TunnelHandle>)
        ensures
            final(self).handles() == old(self).handles().remove(name@),
            removed is Some == old(self).handles().contains_key(name@),
            removed matches Some(h) ==> h == old(self).handles()[name@],
            final(self).configured() == old(self).configured(),
            final(self).loaded_backends() == old(self).loaded_backends(),
            old(self).same_settings(*final(self)),
    {
        handle_map_remove(&mut self.tunnel_handles, name)
    }
}

}
