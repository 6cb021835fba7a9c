//! The SOCKS4 handshake codec.
//!
//! Wire format, all integers big-endian:
//!
//! ```text
//! request:  [version:1][command:1][port:2][ipv4:4][userid:N][0x00]
//! response: [replyVersion:1][status:1][port:2][ipv4:4]
//! ```
//!
//! The version byte is fixed to `0x04`; the command is CONNECT (`0x01`) or
//! BIND (`0x02`); the user-id runs until a NUL byte and may hold at most 256
//! bytes. The reply version is fixed to `0x00`; the status is `0x5A`
//! (granted) or `0x5B` (rejected).
//!
//! Decoding works on a buffer holding whatever bytes have arrived so far and
//! reports how many bytes one frame takes, so that a caller reading from a
//! stream knows exactly where the payload begins and, on a failure, how much
//! of the stream the frame consumed.

use vstd::prelude::*;

use crate::addr::Ipv4Addr;
use crate::addr::SocketAddr;
use crate::addr::SocketAddrV4;
use crate::error::DecodeError;
use crate::error::SessionError;

verus! {

/// The fixed protocol version of every request frame.
pub const SOCKS4_VERSION: u8 = 0x04;

/// The command requesting an outbound connection.
pub const SOCKS4_CONNECT: u8 = 0x01;

/// The command requesting a listening socket; decodable but never serviced.
pub const SOCKS4_BIND: u8 = 0x02;

/// The fixed version byte of every response frame.
pub const SOCKS4_REPLY_VERSION: u8 = 0x00;

/// Response status: request granted.
pub const SOCKS4_REQUEST_GRANTED: u8 = 0x5A;

/// Response status: request rejected.
pub const SOCKS4_REQUEST_REJECTED: u8 = 0x5B;

/// The longest user-id a request may carry, in bytes.
pub const MAX_USERID_LEN: usize = 256;

/// One decoded handshake request.
#[derive(Clone, Debug)]
pub struct Socks4Request {
    /// The command byte: CONNECT or BIND.
    pub command: u8,
    /// The destination port.
    pub dst_port: u16,
    /// The destination IPv4 address.
    pub dst_ip: Ipv4Addr,
    /// The user-id bytes, without the terminating NUL.
    pub userid: Vec<u8>,
}

/// What decoding a buffer of received bytes produced.
#[derive(Debug)]
pub enum DecodeOutcome {
    /// A whole frame lay at the front of the buffer: the decoded request,
    /// and how many bytes of the buffer the frame occupied.
    Complete { request: Socks4Request, consumed: usize },
    /// The bytes read so far already break the protocol: the failure, and
    /// how many bytes were examined to see it.
    Invalid { error: DecodeError, consumed: usize },
    /// The buffer holds a prefix of a valid frame; more bytes must arrive.
    NeedMoreData,
}

/// The buffer starts with the fixed protocol version.
pub open spec fn version_ok(b: Seq<u8>) -> bool {
    b.len() >= 1 && b[0] == SOCKS4_VERSION
}

/// The buffer's command byte names CONNECT or BIND.
pub open spec fn command_byte_ok(b: Seq<u8>) -> bool {
    b.len() >= 2 && (b[1] == SOCKS4_CONNECT || b[1] == SOCKS4_BIND)
}

/// Position `i` holds the NUL that ends the user-id: it lies within the
/// buffer, within the user-id bound, and every user-id byte before it is
/// non-zero.
pub open spec fn is_userid_end(b: Seq<u8>, i: int) -> bool {
    &&& 8 <= i < b.len()
    &&& i <= 8 + MAX_USERID_LEN
    &&& b[i] == 0
    &&& forall|j: int| 8 <= j < i ==> b[j] != 0
}

/// A whole well-formed request frame lies at the front of the buffer.
pub open spec fn is_complete_frame(b: Seq<u8>) -> bool {
    version_ok(b) && command_byte_ok(b) && exists|i: int| is_userid_end(b, i)
}

/// More than `MAX_USERID_LEN` user-id bytes arrived with no NUL among them.
pub open spec fn userid_overrun(b: Seq<u8>) -> bool {
    &&& version_ok(b)
    &&& command_byte_ok(b)
    &&& b.len() >= 8 + MAX_USERID_LEN + 1
    &&& forall|j: int| 8 <= j < 8 + MAX_USERID_LEN + 1 ==> b[j] != 0
}

/// The destination port the buffer's two port bytes spell, big-endian.
pub open spec fn port_of(b: Seq<u8>) -> int {
    b[2] * 256 + b[3]
}

/// The destination address the buffer's four address bytes spell.
pub open spec fn ip_of(b: Seq<u8>) -> Ipv4Addr {
    Ipv4Addr { a: b[4], b: b[5], c: b[6], d: b[7] }
}

/// `req` is exactly the request that the frame occupying the first
/// `consumed` bytes of `b` spells.
pub open spec fn decoded_request(b: Seq<u8>, req: Socks4Request, consumed: int) -> bool {
    &&& is_userid_end(b, consumed - 1)
    &&& req.command == b[1]
    &&& req.dst_port == port_of(b)
    &&& req.dst_ip == ip_of(b)
    &&& req.userid@ == b.subrange(8, consumed - 1)
}

/// The full relation between a buffer of received bytes and what decoding
/// it returns. The cases partition all buffers, so the outcome is pinned
/// down for every input.
pub open spec fn decode_post(b: Seq<u8>, r: DecodeOutcome) -> bool {
    &&& b.len() == 0 ==> r is NeedMoreData
    &&& (b.len() >= 1 && b[0] != SOCKS4_VERSION) ==> (r matches DecodeOutcome::Invalid {
        error,
        consumed,
    } && error is ProtocolVersionMismatch && consumed == 1)
    &&& (version_ok(b) && b.len() == 1) ==> r is NeedMoreData
    &&& (version_ok(b) && b.len() >= 2 && !command_byte_ok(b)) ==> (r
        matches DecodeOutcome::Invalid { error, consumed } && error is UnsupportedCommand
        && consumed == 2)
    &&& (version_ok(b) && command_byte_ok(b) && !is_complete_frame(b) && !userid_overrun(b))
        ==> r is NeedMoreData
    &&& userid_overrun(b) ==> (r matches DecodeOutcome::Invalid { error, consumed }
        && error is UserIdTooLong && consumed == 8 + MAX_USERID_LEN + 1)
    &&& is_complete_frame(b) ==> (r matches DecodeOutcome::Complete { request, consumed }
        && decoded_request(b, request, consumed as int))
}

/// The NUL ending the user-id sits at one position only.
pub proof fn lemma_userid_end_unique(b: Seq<u8>, i: int, j: int)
    requires
        is_userid_end(b, i),
        is_userid_end(b, j),
    ensures
        i == j,
{
    if i < j {
        assert(b[i] != 0);
    } else if j < i {
        assert(b[j] != 0);
    }
}

/// Decoding is unambiguous: two decodings of the same buffer agree on where
/// the frame ends and on every field of the request.
pub proof fn lemma_decode_deterministic(
    b: Seq<u8>,
    req1: Socks4Request,
    c1: int,
    req2: Socks4Request,
    c2: int,
)
    requires
        decoded_request(b, req1, c1),
        decoded_request(b, req2, c2),
    ensures
        c1 == c2,
        req1.command == req2.command,
        req1.dst_port == req2.dst_port,
        req1.dst_ip == req2.dst_ip,
        req1.userid@ == req2.userid@,
{
    lemma_userid_end_unique(b, c1 - 1, c2 - 1);
}

/// The user-id of any decoded request stays within its bound: at most
/// `MAX_USERID_LEN` bytes ever have to be buffered for it.
pub proof fn lemma_userid_bounded(b: Seq<u8>, req: Socks4Request, consumed: int)
    requires
        decoded_request(b, req, consumed),
    ensures
        req.userid@.len() <= MAX_USERID_LEN,
{
}

impl Socks4Request {
    /// Decode one request frame from the front of `input`, a buffer holding
    /// the bytes received so far.
    ///
    /// The version byte is examined first, then the command byte, then the
    /// fixed header, then the user-id byte by byte until its NUL; the
    /// outcome reports the first failure in that order, the number of bytes
    /// one frame takes, or that the buffer ends before the frame does.
    pub fn read_from(input: &Vec<u8>) -> (r: DecodeOutcome)
        ensures
            decode_post(input@, r),
    {
        if input.len() == 0 {
            return DecodeOutcome::NeedMoreData;
        }
        if input[0] != SOCKS4_VERSION {
            return DecodeOutcome::Invalid {
                error: DecodeError::ProtocolVersionMismatch,
                consumed: 1,
            };
        }
        if input.len() < 2 {
            return DecodeOutcome::NeedMoreData;
        }
        let command = input[1];
        if command != SOCKS4_CONNECT && command != SOCKS4_BIND {
            return DecodeOutcome::Invalid { error: DecodeError::UnsupportedCommand, consumed: 2 };
        }
        if input.len() < 8 {
            return DecodeOutcome::NeedMoreData;
        }
        let mut i: usize = 8;
        loop
            invariant
                version_ok(input@),
                command_byte_ok(input@),
                command == input@[1],
                8 <= i <= input@.len(),
                i <= 8 + MAX_USERID_LEN + 1,
                forall|j: int| 8 <= j < i ==> input@[j] != 0,
            decreases 8 + MAX_USERID_LEN + 1 - i,
        {
            if i == 8 + MAX_USERID_LEN + 1 {
                // A NUL anywhere in the user-id bound would contradict the
                // bytes scanned so far, so no complete frame can exist.
                assert(!is_complete_frame(input@)) by {
                    if exists|k: int| is_userid_end(input@, k) {
                        let k = choose|k: int| is_userid_end(input@, k);
                        assert(input@[k] != 0);
                    }
                }
                return DecodeOutcome::Invalid {
                    error: DecodeError::UserIdTooLong,
                    consumed: 8 + MAX_USERID_LEN + 1,
                };
            }
            if i == input.len() {
                assert(!is_complete_frame(input@)) by {
                    if exists|k: int| is_userid_end(input@, k) {
                        let k = choose|k: int| is_userid_end(input@, k);
                        assert(input@[k] != 0);
                    }
                }
                return DecodeOutcome::NeedMoreData;
            }
            if input[i] == 0 {
                let dst_port: u16 = (input[2] as u16) * 256 + (input[3] as u16);
                let dst_ip = Ipv4Addr::new(input[4], input[5], input[6], input[7]);
                let mut userid: Vec<u8> = Vec::new();
                assert(userid@ =~= input@.subrange(8, 8));
                let mut j: usize = 8;
                while j < i
                    invariant
                        8 <= j <= i < input@.len(),
                        userid@ == input@.subrange(8, j as int),
                    decreases i - j,
                {
                    userid.push(input[j]);
                    assert(userid@ =~= input@.subrange(8, (j + 1) as int));
                    j = j + 1;
                }
                let request = Socks4Request { command, dst_port, dst_ip, userid };
                assert(is_userid_end(input@, i as int));
                assert(is_complete_frame(input@));
                assert(!userid_overrun(input@)) by {
                    assert(input@[i as int] == 0);
                }
                assert(decoded_request(input@, request, i + 1));
                return DecodeOutcome::Complete { request, consumed: i + 1 };
            }
            i = i + 1;
        }
    }

    /// The destination endpoint the request names.
    pub fn destination_addr(&self) -> (r: SocketAddrV4)
        ensures
            r == (SocketAddrV4 { ip: self.dst_ip, port: self.dst_port }),
    {
        SocketAddrV4 { ip: self.dst_ip, port: self.dst_port }
    }
}

/// One handshake response frame, before encoding.
#[derive(Clone, Copy, Debug, PartialEq, Eq, Structural)]
pub struct Socks4Response {
    /// The status byte: granted or rejected.
    pub status: u8,
    /// The destination port echoed back to the client.
    pub dst_port: u16,
    /// The destination address echoed back to the client.
    pub dst_ip: Ipv4Addr,
}

impl Socks4Response {
    /// The response granting a request to the given destination.
    pub open spec fn spec_success(addr: SocketAddrV4) -> Socks4Response {
        Socks4Response { status: SOCKS4_REQUEST_GRANTED, dst_port: addr.port, dst_ip: addr.ip }
    }

    /// The one canonical rejection response: status rejected, address and
    /// port all zero.
    pub open spec fn spec_failure() -> Socks4Response {
        Socks4Response {
            status: SOCKS4_REQUEST_REJECTED,
            dst_port: 0,
            dst_ip: Ipv4Addr { a: 0, b: 0, c: 0, d: 0 },
        }
    }

    /// Build the response granting a request, echoing the destination.
    pub fn success(addr: SocketAddrV4) -> (r: Socks4Response)
        ensures
            r == Socks4Response::spec_success(addr),
    {
        Socks4Response { status: SOCKS4_REQUEST_GRANTED, dst_port: addr.port, dst_ip: addr.ip }
    }

    /// Build the canonical rejection response.
    pub fn failure() -> (r: Socks4Response)
        ensures
            r == Socks4Response::spec_failure(),
    {
        Socks4Response {
            status: SOCKS4_REQUEST_REJECTED,
            dst_port: 0,
            dst_ip: Ipv4Addr { a: 0, b: 0, c: 0, d: 0 },
        }
    }

    /// Build the response granting a request if the destination is IPv4;
    /// an IPv6 destination cannot be spelled in the frame, so it is
    /// reported as unsupported and the caller substitutes the rejection
    /// response itself.
    pub fn try_from_socket_addr(addr: SocketAddr) -> (r: Result<Socks4Response, SessionError>)
        ensures
            addr matches SocketAddr::V4(v4) ==> (r matches Ok(resp) && resp
                == Socks4Response::spec_success(v4)),
            addr is V6 ==> (r matches Err(e) && e is UnsupportedAddressFamily),
    {
        match addr {
            SocketAddr::V4(v4) => Ok(Socks4Response::success(v4)),
            SocketAddr::V6(_) => Err(SessionError::UnsupportedAddressFamily),
        }
    }

    /// The eight bytes this response puts on the wire: the fixed reply
    /// version, the status, the port big-endian, then the address octets.
    pub open spec fn spec_encoding(self) -> Seq<u8> {
        seq![
            SOCKS4_REPLY_VERSION,
            self.status,
            (self.dst_port / 256) as u8,
            (self.dst_port % 256) as u8,
            self.dst_ip.a,
            self.dst_ip.b,
            self.dst_ip.c,
            self.dst_ip.d,
        ]
    }

    /// Append this response's eight-byte frame to `out`. Never fails for
    /// any response value.
    pub fn write_to(&self, out: &mut Vec<u8>)
        ensures
            final(out)@ == old(out)@ + self.spec_encoding(),
    {
        out.push(SOCKS4_REPLY_VERSION);
        out.push(self.status);
        out.push((self.dst_port / 256) as u8);
        out.push((self.dst_port % 256) as u8);
        out.push(self.dst_ip.a);
        out.push(self.dst_ip.b);
        out.push(self.dst_ip.c);
        out.push(self.dst_ip.d);
        assert(out@ =~= old(out)@ + self.spec_encoding());
    }
}

/// Decoding a CONNECT request and encoding the success response built from
/// its destination reproduces the request's port and address bytes exactly:
/// bytes 2 through 7 of the response frame equal bytes 2 through 7 of the
/// request frame.
pub proof fn lemma_connect_round_trip(b: Seq<u8>, req: Socks4Request, consumed: int)
    requires
        b.len() >= 2 && b[1] == SOCKS4_CONNECT,
        decoded_request(b, req, consumed),
    ensures
        Socks4Response::spec_success(
            (SocketAddrV4 { ip: req.dst_ip, port: req.dst_port }),
        ).spec_encoding().subrange(2, 8) =~= b.subrange(2, 8),
{
    let resp = Socks4Response::spec_success((SocketAddrV4 { ip: req.dst_ip, port: req.dst_port }));
    assert(req.dst_port == b[2] * 256 + b[3]);
    assert((b[2] * 256 + b[3]) / 256 == b[2] && (b[2] * 256 + b[3]) % 256 == b[3])
        by (nonlinear_arith)
        requires
            0 <= b[2] < 256,
            0 <= b[3] < 256,
    ;
    assert(resp.spec_encoding()[2] == b[2]);
    assert(resp.spec_encoding()[3] == b[3]);
}

/// Encoding the canonical rejection response always yields the fixed
/// eight-byte frame `00 5B 00 00 00 00 00 00`.
pub proof fn lemma_failure_frame()
    ensures
        Socks4Response::spec_failure().spec_encoding() =~= seq![
            0u8,
            0x5Bu8,
            0u8,
            0u8,
            0u8,
            0u8,
            0u8,
            0u8,
        ],
{
}

/// Any buffer whose first byte is not the protocol version decodes to a
/// `ProtocolVersionMismatch` failure that consumed the version byte alone.
pub proof fn lemma_version_mismatch_consumes_one(b: Seq<u8>, r: DecodeOutcome)
    requires
        b.len() >= 1,
        b[0] != SOCKS4_VERSION,
        decode_post(b, r),
    ensures
        r matches DecodeOutcome::Invalid { error, consumed } && error is ProtocolVersionMismatch
            && consumed == 1,
{
}

/// Any buffer with the right version but a command byte naming neither
/// CONNECT nor BIND decodes to an `UnsupportedCommand` failure.
pub proof fn lemma_unknown_command_rejected(b: Seq<u8>, r: DecodeOutcome)
    requires
        b.len() >= 2,
        b[0] == SOCKS4_VERSION,
        b[1] != SOCKS4_CONNECT && b[1] != SOCKS4_BIND,
        decode_post(b, r),
    ensures
        r matches DecodeOutcome::Invalid { error, consumed } && error is UnsupportedCommand
            && consumed == 2,
{
}

} // verus!
