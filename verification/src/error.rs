//! Error types of the relay.
//!
//! `SessionError` names every way a single connection can fail, one variant
//! per failure of the taxonomy: the three protocol-level decode failures, a
//! clean peer close during a frame read, other transport faults, a failed
//! outbound dial, a destination the response frame cannot represent, and a
//! fault during forwarding. `ProxyError` is the coarser error the proxy
//! reports to its caller.

use vstd::prelude::*;

verus! {

/// Why decoding a handshake request frame failed.
#[derive(Clone, Copy, Debug, PartialEq, Eq, Structural)]
pub enum DecodeError {
    /// The version byte is not the fixed protocol version.
    ProtocolVersionMismatch,
    /// The command byte names neither CONNECT nor BIND.
    UnsupportedCommand,
    /// More than the permitted number of user-id bytes arrived before a NUL.
    UserIdTooLong,
}

impl DecodeError {
    /// A human-readable account of the failure.
    pub fn describe(&self) -> (s: &'static str)
        ensures
            self is ProtocolVersionMismatch ==> s@ == "Invalid SOCKS version"@,
            self is UnsupportedCommand ==> s@ == "Unsupported SOCKS4 command"@,
            self is UserIdTooLong ==> s@ == "USERID too long"@,
    {
        match self {
            DecodeError::ProtocolVersionMismatch => "Invalid SOCKS version",
            DecodeError::UnsupportedCommand => "Unsupported SOCKS4 command",
            DecodeError::UserIdTooLong => "USERID too long",
        }
    }
}

/// Why a connection session terminated without completing.
///
/// Every variant is local to one session: nothing is retried and nothing
/// escalates past the session boundary.
#[derive(Clone, Copy, Debug, PartialEq, Eq, Structural)]
pub enum SessionError {
    /// The request's version byte was wrong.
    ProtocolVersionMismatch,
    /// The request carried a command the relay does not service.
    UnsupportedCommand,
    /// The request's user-id field overran its bound.
    UserIdTooLong,
    /// The peer closed the stream cleanly in the middle of a frame.
    StreamClosed,
    /// Some other transport fault during a frame exchange.
    IoError,
    /// The outbound dial to the destination failed.
    ConnectFailure,
    /// The resolved destination is not IPv4, so no response frame can carry it.
    UnsupportedAddressFamily,
    /// A read or write fault during forwarding.
    RelayFault,
}

impl SessionError {
    /// The session error that reports a given decode failure.
    pub fn from_decode(e: DecodeError) -> (r: SessionError)
        ensures
            r == SessionError::spec_from_decode(e),
    {
        match e {
            DecodeError::ProtocolVersionMismatch => SessionError::ProtocolVersionMismatch,
            DecodeError::UnsupportedCommand => SessionError::UnsupportedCommand,
            DecodeError::UserIdTooLong => SessionError::UserIdTooLong,
        }
    }

    /// Which session error each decode failure maps to.
    pub open spec fn spec_from_decode(e: DecodeError) -> SessionError {
        match e {
            DecodeError::ProtocolVersionMismatch => SessionError::ProtocolVersionMismatch,
            DecodeError::UnsupportedCommand => SessionError::UnsupportedCommand,
            DecodeError::UserIdTooLong => SessionError::UserIdTooLong,
        }
    }

    /// A human-readable account of the failure.
    pub fn describe(&self) -> (s: &'static str)
        ensures
            self is ProtocolVersionMismatch ==> s@ == "Invalid SOCKS version"@,
            self is UnsupportedCommand ==> s@ == "Unsupported SOCKS4 command"@,
            self is UserIdTooLong ==> s@ == "USERID too long"@,
            self is StreamClosed ==> s@ == "Connection closed"@,
            self is IoError ==> s@ == "I/O fault"@,
            self is ConnectFailure ==> s@ == "Failed to connect to target server"@,
            self is UnsupportedAddressFamily ==> s@ == "IPv6 addresses are not supported in SOCKS4"@,
            self is RelayFault ==> s@ == "Fault while forwarding data"@,
    {
        match self {
            SessionError::ProtocolVersionMismatch => "Invalid SOCKS version",
            SessionError::UnsupportedCommand => "Unsupported SOCKS4 command",
            SessionError::UserIdTooLong => "USERID too long",
            SessionError::StreamClosed => "Connection closed",
            SessionError::IoError => "I/O fault",
            SessionError::ConnectFailure => "Failed to connect to target server",
            SessionError::UnsupportedAddressFamily => "IPv6 addresses are not supported in SOCKS4",
            SessionError::RelayFault => "Fault while forwarding data",
        }
    }
}

/// The error the proxy reports to the code that embeds it.
#[derive(Debug)]
pub enum ProxyError {
    /// A transport fault, with its account.
    NetworkError(String),
    /// A configuration the proxy cannot serve, with its account.
    ConfigurationError(String),
    /// The peer closed the connection.
    ConnectionClosed,
}

impl ProxyError {
    /// Classify a transport error by whether it was a premature end of
    /// stream: a clean close becomes `ConnectionClosed`, anything else keeps
    /// its account as a `NetworkError`.
    pub fn from_io(unexpected_eof: bool, message: String) -> (e: ProxyError)
        ensures
            unexpected_eof ==> e is ConnectionClosed,
            !unexpected_eof ==> (e matches ProxyError::NetworkError(m) && m@ == message@),
    {
        if unexpected_eof {
            ProxyError::ConnectionClosed
        } else {
            ProxyError::NetworkError(message)
        }
    }

    /// A human-readable account of the error.
    pub fn describe(&self) -> (s: String)
        ensures
            self matches ProxyError::NetworkError(m) ==> s@ == "Network error: "@ + m@,
            self matches ProxyError::ConfigurationError(m) ==> s@ == "Configuration error: "@ + m@,
            self is ConnectionClosed ==> s@ == "Connection closed"@,
    {
        match self {
            ProxyError::NetworkError(m) => String::from_str("Network error: ").concat(m.as_str()),
            ProxyError::ConfigurationError(m) => {
                String::from_str("Configuration error: ").concat(m.as_str())
            },
            ProxyError::ConnectionClosed => String::from_str("Connection closed"),
        }
    }
}

} // verus!
