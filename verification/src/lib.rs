//! A tunnel manager: configuration model, ssh command construction, the daemon's
//! tunnel registry and control decisions, the tunnel supervisor's state machine,
//! the wire framing of client/daemon messages and the client's output rendering.

pub mod text;
pub mod net;
pub mod config;
pub mod error;
pub mod ssh;
pub mod framing;
pub mod table;
pub mod state;
pub mod daemon;
pub mod loader;
pub mod rpc;
pub mod cli;
pub mod handler;
