//! The proxy as a whole: its configuration, held for the listener.
//!
//! The listener itself — binding, accepting, spawning one session per
//! connection, and logging — is plain I/O glue and lives with the embedding
//! program; it reads the configuration from here and drives one session state
//! machine (see `session`) per accepted connection.

use vstd::prelude::*;

use crate::config::ProxyConfig;

verus! {

/// A proxy server: the configuration every session shares read-only.
#[derive(Clone, Copy, Debug)]
pub struct TcpProxy {
    /// The startup configuration; never mutated after construction.
    pub config: ProxyConfig,
}

impl TcpProxy {
    /// A proxy that will serve with the given configuration.
    pub fn new(config: ProxyConfig) -> (p: TcpProxy)
        ensures
            p.config == config,
    {
        TcpProxy { config }
    }
}

} // verus!
