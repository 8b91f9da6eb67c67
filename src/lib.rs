//! A SOCKS proxy core that spreads outbound TCP connections over several local
//! source addresses in weighted round-robin order.
//!
//! Everything here is free of I/O: the caller reads and writes sockets, and the
//! library decides what to read next, which bytes to answer with, and which local
//! address an outbound connection binds to.

mod address;
mod bytes;
mod dispatcher;
mod handshake;
mod ip;
mod relay;
mod schedule;
mod socks;
mod wire;

pub use address::{
    InvalidWeight, NetworkInterfaceInfo, RawInterface, RawWeightedAddress, ResolveError,
};
pub use dispatcher::{
    ConstructionError, Dispatch, DispatchError, Interface, WeightedAddress,
    WeightedRoundRobinDispatcher,
};
pub use handshake::{Action, Event, Phase, SocksHandshake, Step};
pub use ip::{is_local_address, IpAddress, SocketAddress};
pub use relay::{
    client_already_closed, copy_outcome, RelayIoError, RelaySide, ECONNRESET, ECONNRESET_BSD,
    EINVAL,
};
pub use schedule::WeightedIp;
pub use socks::{
    bind_error, connect_failure_status, diagnose_version_error, looks_like_http, request_line,
    supports_noauth, v4_reply, v5_reply, HandshakeError, SocksVersion, V4Status, V5Status,
    EADDRNOTAVAIL, EADDRNOTAVAIL_BSD, ECONNREFUSED, EHOSTUNREACH, ENETUNREACH, ETIMEDOUT,
    HTTP_PROBE_LEN,
};
pub use wire::{parse_v4_request, parse_v5_greeting, parse_v5_request, Frame, SocksRequest, TargetHost};
