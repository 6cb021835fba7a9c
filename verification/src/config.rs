//! Configuration of the proxy.
//!
//! The configuration is chosen once at startup and shared read-only by every
//! session: the address to listen on, and the operating mode — either a
//! direct relay to one fixed destination, or SOCKS4 negotiation of the
//! destination per connection.

use vstd::prelude::*;

use crate::addr::Ipv4Addr;
use crate::addr::SocketAddr;
use crate::addr::SocketAddrV4;

verus! {

/// The operating mode of the proxy.
#[derive(Clone, Copy, Debug)]
pub enum ProxyMode {
    /// Relay every connection to this fixed destination, with no handshake.
    Direct(SocketAddr),
    /// Negotiate the destination of each connection with a SOCKS4 handshake.
    Socks4,
}

/// The proxy's startup configuration.
#[derive(Clone, Copy, Debug)]
pub struct ProxyConfig {
    /// The address the listener binds to.
    pub listen_addr: SocketAddr,
    /// The operating mode.
    pub mode: ProxyMode,
}

/// The listen address a configuration starts from: 127.0.0.1, port 1080.
pub open spec fn spec_default_listen_addr() -> SocketAddr {
    SocketAddr::V4(SocketAddrV4 { ip: Ipv4Addr { a: 127, b: 0, c: 0, d: 1 }, port: 1080 })
}

impl Default for ProxyConfig {
    /// The default configuration: listen on 127.0.0.1:1080, SOCKS4 mode.
    fn default() -> (c: ProxyConfig)
        ensures
            c.listen_addr == spec_default_listen_addr(),
            c.mode is Socks4,
    {
        ProxyConfig {
            listen_addr: SocketAddr::V4(
                SocketAddrV4 { ip: Ipv4Addr { a: 127, b: 0, c: 0, d: 1 }, port: 1080 },
            ),
            mode: ProxyMode::Socks4,
        }
    }
}

impl ProxyConfig {
    /// A new configuration with the default settings.
    pub fn new() -> (c: ProxyConfig)
        ensures
            c.listen_addr == spec_default_listen_addr(),
            c.mode is Socks4,
    {
        Default::default()
    }

    /// The same configuration, listening on `addr`.
    pub fn with_listen_addr(self, addr: SocketAddr) -> (c: ProxyConfig)
        ensures
            c.listen_addr == addr,
            c.mode == self.mode,
    {
        ProxyConfig { listen_addr: addr, mode: self.mode }
    }

    /// The same configuration, relaying directly to `addr`.
    pub fn with_target_addr(self, addr: SocketAddr) -> (c: ProxyConfig)
        ensures
            c.listen_addr == self.listen_addr,
            c.mode == ProxyMode::Direct(addr),
    {
        ProxyConfig { listen_addr: self.listen_addr, mode: ProxyMode::Direct(addr) }
    }

    /// The same configuration, negotiating destinations over SOCKS4.
    pub fn with_socks4_mode(self) -> (c: ProxyConfig)
        ensures
            c.listen_addr == self.listen_addr,
            c.mode is Socks4,
    {
        ProxyConfig { listen_addr: self.listen_addr, mode: ProxyMode::Socks4 }
    }

    /// The same configuration; the forwarding buffer size is fixed for now,
    /// so the argument is recorded nowhere.
    pub fn with_buffer_size(self, _size: usize) -> (c: ProxyConfig)
        ensures
            c == self,
    {
        self
    }

    /// The same configuration; connection timeouts are not imposed for now,
    /// so the argument is recorded nowhere.
    pub fn with_timeout(self, _seconds: u64) -> (c: ProxyConfig)
        ensures
            c == self,
    {
        self
    }
}

} // verus!
