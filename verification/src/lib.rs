//! A small SOCKS4-style TCP relay core.
//!
//! The library holds the protocol logic of the relay: the handshake codec
//! that decodes request frames and encodes response frames, the per-connection
//! session state machine, and the byte-forwarding engine. Socket I/O, the
//! listener loop and logging live outside the library and drive it with plain
//! values.

pub mod addr;
pub mod config;
pub mod error;
pub mod proxy;
pub mod relay;
pub mod session;
pub mod socks4;

pub use config::ProxyConfig;
pub use error::ProxyError;
pub use proxy::TcpProxy;
