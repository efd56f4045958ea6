//! Small queries on the daemon's state.

use vstd::prelude::*;
use crate::state::{distinct_strings, string_set, DaemonState};

verus! {

/// The names of the configured tunnels, each once (in no promised order).
pub fn list_tunnels(state: &DaemonState) -> (names: Vec<String>)
    ensures
        distinct_strings(names@),
        string_set(names@) == state.configured().dom(),
{
    state.tunnel_names()
}

}
