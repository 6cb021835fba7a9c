//! Network address data for the relay.
//!
//! The relay only ever reads plain address components: the four octets and
//! the port of an IPv4 destination, and (for completeness of the address
//! model) the segments of an IPv6 address, which the SOCKS4 wire format
//! cannot carry. The types here hold exactly those components; converting to
//! and from the operating system's socket address types is the caller's job.

use vstd::prelude::*;

verus! {

/// An IPv4 address as four octets.
#[derive(Clone, Copy, Debug, PartialEq, Eq, Structural)]
pub struct Ipv4Addr {
    pub a: u8,
    pub b: u8,
    pub c: u8,
    pub d: u8,
}

impl Ipv4Addr {
    /// Build an address from its four octets, highest first.
    pub fn new(a: u8, b: u8, c: u8, d: u8) -> (r: Ipv4Addr)
        ensures
            r == (Ipv4Addr { a, b, c, d }),
    {
        Ipv4Addr { a, b, c, d }
    }

    /// The four octets as a sequence, highest first.
    pub open spec fn octets(self) -> Seq<u8> {
        seq![self.a, self.b, self.c, self.d]
    }
}

/// An IPv4 endpoint: address and port.
#[derive(Clone, Copy, Debug, PartialEq, Eq, Structural)]
pub struct SocketAddrV4 {
    pub ip: Ipv4Addr,
    pub port: u16,
}

impl SocketAddrV4 {
    pub fn new(ip: Ipv4Addr, port: u16) -> (r: SocketAddrV4)
        ensures
            r == (SocketAddrV4 { ip, port }),
    {
        SocketAddrV4 { ip, port }
    }

    pub fn ip(&self) -> (r: Ipv4Addr)
        ensures
            r == self.ip,
    {
        self.ip
    }

    pub fn port(&self) -> (r: u16)
        ensures
            r == self.port,
    {
        self.port
    }
}

/// An IPv6 endpoint: eight 16-bit segments and a port.
///
/// The SOCKS4 response frame cannot represent such an endpoint; the relay
/// only ever tests for this family and rejects it.
#[derive(Clone, Copy, Debug, PartialEq, Eq)]
pub struct SocketAddrV6 {
    pub segments: [u16; 8],
    pub port: u16,
}

/// A socket address of either family.
#[derive(Clone, Copy, Debug, PartialEq, Eq)]
pub enum SocketAddr {
    V4(SocketAddrV4),
    V6(SocketAddrV6),
}

impl SocketAddr {
    /// Whether this address belongs to the IPv4 family.
    pub fn is_ipv4(&self) -> (r: bool)
        ensures
            r == (self is V4),
    {
        match self {
            SocketAddr::V4(_) => true,
            SocketAddr::V6(_) => false,
        }
    }
}

} // verus!
