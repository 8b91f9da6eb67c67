//! SOCKS reply codes and bytes, HTTP detection, and handshake errors.

use vstd::prelude::*;

use crate::dispatcher::DispatchError;
use crate::ip::{IpAddress, SocketAddress};

verus! {

/// `connect` reached no route to the network (Linux `ENETUNREACH`).
pub const ENETUNREACH: i32 = 101;
/// `connect` timed out (Linux `ETIMEDOUT`).
pub const ETIMEDOUT: i32 = 110;
/// The remote refused the connection (Linux `ECONNREFUSED`).
pub const ECONNREFUSED: i32 = 111;
/// No route to the host (Linux `EHOSTUNREACH`).
pub const EHOSTUNREACH: i32 = 113;
/// The local address is not assigned to any interface (Linux `EADDRNOTAVAIL`).
pub const EADDRNOTAVAIL: i32 = 99;
/// The same condition with its BSD and macOS number.
pub const EADDRNOTAVAIL_BSD: i32 = 49;

/// How many bytes, after the first, are read to tell an HTTP request.
pub const HTTP_PROBE_LEN: usize = 1023;

/// The SOCKS protocol version a client speaks.
#[derive(Clone, Copy, Debug, PartialEq, Eq, Structural)]
pub enum SocksVersion {
    V4,
    V5,
}

/// The SOCKSv5 reply codes this server sends.
#[derive(Clone, Copy, Debug, PartialEq, Eq, Structural)]
pub enum V5Status {
    Success,
    ServerFailure,
    NetworkUnreachable,
    HostUnreachable,
    ConnectionRefused,
    TtlExpired,
    CommandNotSupported,
}

/// The SOCKSv4 reply codes this server sends.
#[derive(Clone, Copy, Debug, PartialEq, Eq, Structural)]
pub enum V4Status {
    Granted,
    Failed,
}

pub open spec fn v5_status_code(s: V5Status) -> u8 {
    match s {
        V5Status::Success => 0,
        V5Status::ServerFailure => 1,
        V5Status::NetworkUnreachable => 3,
        V5Status::HostUnreachable => 4,
        V5Status::ConnectionRefused => 5,
        V5Status::TtlExpired => 6,
        V5Status::CommandNotSupported => 7,
    }
}

pub open spec fn v4_status_code(s: V4Status) -> u8 {
    match s {
        V4Status::Granted => 0x5a,
        V4Status::Failed => 0x5b,
    }
}

/// A SOCKSv5 reply: version, status, reserved, an IPv4 `0.0.0.0` and port 0 as
/// the bound address.
pub open spec fn v5_reply_bytes(s: V5Status) -> Seq<u8> {
    seq![5u8, v5_status_code(s), 0u8, 1u8, 0u8, 0u8, 0u8, 0u8, 0u8, 0u8]
}

/// A SOCKSv4 reply: a zero byte, the status, then port 0 and address `0.0.0.0`.
pub open spec fn v4_reply_bytes(s: V4Status) -> Seq<u8> {
    seq![0u8, v4_status_code(s), 0u8, 0u8, 0u8, 0u8, 0u8, 0u8]
}

/// The SOCKSv5 method selection that picks "no authentication".
pub open spec fn noauth_selection_bytes() -> Seq<u8> {
    seq![5u8, 0u8]
}

/// The SOCKSv5 status for a failed `connect`, by OS error number.
pub open spec fn spec_connect_failure_status(os_error: Option<i32>) -> V5Status {
    match os_error {
        Some(c) => if c == ENETUNREACH {
            V5Status::NetworkUnreachable
        } else if c == ETIMEDOUT {
            V5Status::TtlExpired
        } else if c == ECONNREFUSED {
            V5Status::ConnectionRefused
        } else if c == EHOSTUNREACH {
            V5Status::HostUnreachable
        } else {
            V5Status::ServerFailure
        },
        None => V5Status::ServerFailure,
    }
}

impl V5Status {
    pub fn code(&self) -> (r: u8)
        ensures
            r == v5_status_code(*self),
    {
        match self {
            V5Status::Success => 0,
            V5Status::ServerFailure => 1,
            V5Status::NetworkUnreachable => 3,
            V5Status::HostUnreachable => 4,
            V5Status::ConnectionRefused => 5,
            V5Status::TtlExpired => 6,
            V5Status::CommandNotSupported => 7,
        }
    }
}

impl V4Status {
    pub fn code(&self) -> (r: u8)
        ensures
            r == v4_status_code(*self),
    {
        match self {
            V4Status::Granted => 0x5a,
            V4Status::Failed => 0x5b,
        }
    }
}

/// The bytes of a SOCKSv5 reply with status `s`.
pub fn v5_reply(s: V5Status) -> (r: Vec<u8>)
    ensures
        r@ == v5_reply_bytes(s),
{
    let r = vec![5u8, s.code(), 0u8, 1u8, 0u8, 0u8, 0u8, 0u8, 0u8, 0u8];
    assert(r@ =~= v5_reply_bytes(s));
    r
}

/// The bytes of a SOCKSv4 reply with status `s`.
pub fn v4_reply(s: V4Status) -> (r: Vec<u8>)
    ensures
        r@ == v4_reply_bytes(s),
{
    let r = vec![0u8, s.code(), 0u8, 0u8, 0u8, 0u8, 0u8, 0u8];
    assert(r@ =~= v4_reply_bytes(s));
    r
}

/// Maps the OS error of a failed `connect` to the SOCKSv5 status reported for it.
pub fn connect_failure_status(os_error: Option<i32>) -> (r: V5Status)
    ensures
        r == spec_connect_failure_status(os_error),
{
    match os_error {
        Some(c) => if c == ENETUNREACH {
            V5Status::NetworkUnreachable
        } else if c == ETIMEDOUT {
            V5Status::TtlExpired
        } else if c == ECONNREFUSED {
            V5Status::ConnectionRefused
        } else if c == EHOSTUNREACH {
            V5Status::HostUnreachable
        } else {
            V5Status::ServerFailure
        },
        None => V5Status::ServerFailure,
    }
}

/// Whether the method codes a SOCKSv5 client offers include "no authentication".
pub fn supports_noauth(methods: &[u8]) -> (r: bool)
    ensures
        r == methods@.contains(0u8),
{
    let mut i: usize = 0;
    while i < methods.len()
        invariant
            0 <= i <= methods@.len(),
            forall|j: int| 0 <= j < i ==> methods@[j] != 0u8,
        decreases methods@.len() - i,
    {
        if methods[i] == 0 {
            assert(methods@[i as int] == 0u8);
            return true;
        }
        i = i + 1;
    }
    false
}

// ---------------------------------------------------------------------------
// Telling an HTTP client from a SOCKS one
// ---------------------------------------------------------------------------

/// The HTTP request methods, as ASCII bytes.
pub open spec fn http_methods() -> Seq<Seq<u8>> {
    seq![
        seq![71u8, 69, 84],
        seq![72u8, 69, 65, 68],
        seq![80u8, 79, 83, 84],
        seq![80u8, 85, 84],
        seq![68u8, 69, 76, 69, 84, 69],
        seq![67u8, 79, 78, 78, 69, 67, 84],
        seq![79u8, 80, 84, 73, 79, 78, 83],
        seq![84u8, 82, 65, 67, 69],
        seq![80u8, 65, 84, 67, 72],
    ]
}

pub open spec fn is_prefix(p: Seq<u8>, b: Seq<u8>) -> bool {
    p.len() <= b.len() && b.subrange(0, p.len() as int) == p
}

pub open spec fn starts_with_http_method(b: Seq<u8>) -> bool {
    exists|i: int| 0 <= i < 9 && is_prefix(#[trigger] http_methods()[i], b)
}

/// A first byte that can begin an HTTP method: `C`, `G`, `P`, `H`, `D`, `O` or `T`.
pub open spec fn is_http_initial(b: u8) -> bool {
    b == 67 || b == 71 || b == 80 || b == 72 || b == 68 || b == 79 || b == 84
}

/// Where the first line ends: the first `\r\n`, or the end.
pub open spec fn line_end(b: Seq<u8>, from: nat) -> nat
    decreases b.len() - from,
{
    if from + 1 >= b.len() {
        b.len()
    } else if b[from as int] == 13 && b[from + 1int] == 10 {
        from
    } else {
        line_end(b, from + 1)
    }
}

/// The bytes before the first `\r\n`.
pub open spec fn first_line(b: Seq<u8>) -> Seq<u8> {
    b.subrange(0, line_end(b, 0) as int)
}

fn http_method(i: usize) -> (r: Vec<u8>)
    requires
        i < 9,
    ensures
        r@ == http_methods()[i as int],
{
    let r = if i == 0 {
        vec![71u8, 69, 84]
    } else if i == 1 {
        vec![72u8, 69, 65, 68]
    } else if i == 2 {
        vec![80u8, 79, 83, 84]
    } else if i == 3 {
        vec![80u8, 85, 84]
    } else if i == 4 {
        vec![68u8, 69, 76, 69, 84, 69]
    } else if i == 5 {
        vec![67u8, 79, 78, 78, 69, 67, 84]
    } else if i == 6 {
        vec![79u8, 80, 84, 73, 79, 78, 83]
    } else if i == 7 {
        vec![84u8, 82, 65, 67, 69]
    } else {
        vec![80u8, 65, 84, 67, 72]
    };
    assert(r@ =~= http_methods()[i as int]);
    r
}

fn has_prefix(p: &[u8], b: &[u8]) -> (r: bool)
    ensures
        r == is_prefix(p@, b@),
{
    if p.len() > b.len() {
        return false;
    }
    let mut i: usize = 0;
    while i < p.len()
        invariant
            p@.len() <= b@.len(),
            0 <= i <= p@.len(),
            forall|j: int| 0 <= j < i ==> b@[j] == p@[j],
        decreases p@.len() - i,
    {
        if p[i] != b[i] {
            assert(b@.subrange(0, p@.len() as int)[i as int] != p@[i as int]);
            return false;
        }
        i = i + 1;
    }
    assert(b@.subrange(0, p@.len() as int) =~= p@);
    true
}

/// Whether the bytes begin with one of the HTTP methods.
pub fn looks_like_http(b: &[u8]) -> (r: bool)
    ensures
        r == starts_with_http_method(b@),
{
    let mut i: usize = 0;
    while i < 9
        invariant
            0 <= i <= 9,
            forall|j: int| 0 <= j < i ==> !is_prefix(#[trigger] http_methods()[j], b@),
        decreases 9 - i,
    {
        let m = http_method(i);
        if has_prefix(m.as_slice(), b) {
            return true;
        }
        i = i + 1;
    }
    false
}

/// The bytes of `b` before its first `\r\n`.
pub fn request_line(b: &[u8]) -> (r: Vec<u8>)
    ensures
        r@ == first_line(b@),
        r@.len() <= b@.len(),
{
    let len = b.len();
    let mut i: usize = 0;
    while i < len
        invariant
            0 <= i <= len,
            len == b@.len(),
            line_end(b@, 0) == line_end(b@, i as nat),
        decreases len - i,
    {
        if i + 1 < len && b[i] == 13 && b[i + 1] == 10 {
            return crate::bytes::copy_range(b, 0, i);
        }
        i = i + 1;
    }
    crate::bytes::copy_range(b, 0, len)
}

proof fn lemma_line_end_range(b: Seq<u8>, from: nat)
    ensures
        line_end(b, from) <= b.len(),
    decreases b.len() - from,
{
    if !(from + 1 >= b.len()) && !(b[from as int] == 13 && b[from + 1int] == 10) {
        lemma_line_end_range(b, from + 1);
    }
}

// ---------------------------------------------------------------------------
// Errors
// ---------------------------------------------------------------------------

/// Why a handshake ended without a connection to relay.
#[derive(Clone, Debug)]
pub enum HandshakeError {
    /// The first byte was neither 4 nor 5.
    InvalidSocksVersion(u8),
    /// The client sent an HTTP request: its first line, and how many of the bytes
    /// read are not in it.
    HttpClientOnSocksListener { first_line: Vec<u8>, not_shown: usize },
    /// A greeting or request that breaks the wire format.
    MalformedMessage,
    /// The SOCKSv5 client did not offer "no authentication".
    AuthMethodUnsupported,
    /// A command other than CONNECT.
    UnsupportedCommand { version: SocksVersion, command: u8 },
    /// The destination domain resolved to no address.
    HostResolutionFailed(Vec<u8>),
    /// No local address serves the destination's family.
    DispatchFailed(DispatchError),
    /// The chosen local address is not assigned to any interface.
    LocalAddressInaccessible(IpAddress),
    /// Binding the outbound socket failed otherwise.
    BindIoError(Option<i32>),
    /// Connecting to the destination failed.
    RemoteConnectFailed { address: SocketAddress, os_error: Option<i32> },
    /// An event that the handshake was not waiting for.
    UnexpectedEvent,
}

pub ghost enum ErrorModel {
    InvalidSocksVersion(u8),
    HttpClientOnSocksListener { first_line: Seq<u8>, not_shown: nat },
    MalformedMessage,
    AuthMethodUnsupported,
    UnsupportedCommand { version: SocksVersion, command: u8 },
    HostResolutionFailed(Seq<u8>),
    DispatchFailed(DispatchError),
    LocalAddressInaccessible(IpAddress),
    BindIoError(Option<i32>),
    RemoteConnectFailed { address: SocketAddress, os_error: Option<i32> },
    UnexpectedEvent,
}

impl View for HandshakeError {
    type V = ErrorModel;

    open spec fn view(&self) -> ErrorModel {
        match self {
            HandshakeError::InvalidSocksVersion(b) => ErrorModel::InvalidSocksVersion(*b),
            HandshakeError::HttpClientOnSocksListener { first_line, not_shown } => {
                ErrorModel::HttpClientOnSocksListener {
                    first_line: first_line@,
                    not_shown: *not_shown as nat,
                }
            },
            HandshakeError::MalformedMessage => ErrorModel::MalformedMessage,
            HandshakeError::AuthMethodUnsupported => ErrorModel::AuthMethodUnsupported,
            HandshakeError::UnsupportedCommand { version, command } => ErrorModel::UnsupportedCommand {
                version: *version,
                command: *command,
            },
            HandshakeError::HostResolutionFailed(d) => ErrorModel::HostResolutionFailed(d@),
            HandshakeError::DispatchFailed(e) => ErrorModel::DispatchFailed(*e),
            HandshakeError::LocalAddressInaccessible(ip) => ErrorModel::LocalAddressInaccessible(*ip),
            HandshakeError::BindIoError(c) => ErrorModel::BindIoError(*c),
            HandshakeError::RemoteConnectFailed { address, os_error } => ErrorModel::RemoteConnectFailed {
                address: *address,
                os_error: *os_error,
            },
            HandshakeError::UnexpectedEvent => ErrorModel::UnexpectedEvent,
        }
    }
}

/// The diagnosis of a first byte that is no SOCKS version: an HTTP request when
/// the bytes read begin with an HTTP method, else the invalid version byte.
pub open spec fn spec_diagnose(b: Seq<u8>) -> ErrorModel {
    if starts_with_http_method(b) {
        ErrorModel::HttpClientOnSocksListener {
            first_line: first_line(b),
            not_shown: (b.len() - first_line(b).len()) as nat,
        }
    } else {
        ErrorModel::InvalidSocksVersion(b[0])
    }
}

/// Diagnoses a client whose first byte `buf[0]` is no SOCKS version, from that byte
/// and those read after it.
pub fn diagnose_version_error(buf: &[u8]) -> (r: HandshakeError)
    requires
        buf@.len() >= 1,
    ensures
        r@ == spec_diagnose(buf@),
{
    if looks_like_http(buf) {
        let line = request_line(buf);
        proof {
            lemma_line_end_range(buf@, 0);
        }
        let not_shown = buf.len() - line.len();
        HandshakeError::HttpClientOnSocksListener { first_line: line, not_shown }
    } else {
        HandshakeError::InvalidSocksVersion(buf[0])
    }
}

/// The error for a failed bind of the outbound socket to `ip`.
pub open spec fn spec_bind_error(ip: IpAddress, os_error: Option<i32>) -> ErrorModel {
    if os_error == Some(EADDRNOTAVAIL) || os_error == Some(EADDRNOTAVAIL_BSD) {
        ErrorModel::LocalAddressInaccessible(ip)
    } else {
        ErrorModel::BindIoError(os_error)
    }
}

/// Classifies a failed bind of the outbound socket to `ip`.
pub fn bind_error(ip: IpAddress, os_error: Option<i32>) -> (r: HandshakeError)
    ensures
        r@ == spec_bind_error(ip, os_error),
{
    match os_error {
        Some(c) => if c == EADDRNOTAVAIL || c == EADDRNOTAVAIL_BSD {
            HandshakeError::LocalAddressInaccessible(ip)
        } else {
            HandshakeError::BindIoError(os_error)
        },
        None => HandshakeError::BindIoError(os_error),
    }
}

} // verus!
