//! IP and socket addresses as plain numbers.

use vstd::prelude::*;

verus! {

/// An IP address: IPv4 as its 32-bit big-endian value, IPv6 as its 128-bit value.
#[derive(Clone, Copy, Debug, PartialEq, Eq, Structural)]
pub enum IpAddress {
    V4(u32),
    V6(u128),
}

/// An IP address together with a TCP port.
#[derive(Clone, Copy, Debug, PartialEq, Eq, Structural)]
pub struct SocketAddress {
    pub ip: IpAddress,
    pub port: u16,
}

/// `127.0.0.0/8` for IPv4, `::1` for IPv6.
pub open spec fn spec_is_loopback(ip: IpAddress) -> bool {
    match ip {
        IpAddress::V4(a) => (a >> 24u32) == 127u32,
        IpAddress::V6(a) => a == 1u128,
    }
}

/// `169.254.0.0/16` for IPv4, `fe80::/10` for IPv6.
pub open spec fn spec_is_link_local(ip: IpAddress) -> bool {
    match ip {
        IpAddress::V4(a) => (a >> 16u32) == 0xa9feu32,
        IpAddress::V6(a) => (a >> 118u128) == 0x3fau128,
    }
}

/// An address that cannot carry traffic to the internet: loopback or link-local.
pub open spec fn spec_is_local(ip: IpAddress) -> bool {
    spec_is_loopback(ip) || spec_is_link_local(ip)
}

impl IpAddress {
    pub fn is_ipv4(&self) -> (r: bool)
        ensures
            r == self is V4,
    {
        match self {
            IpAddress::V4(_) => true,
            IpAddress::V6(_) => false,
        }
    }

    pub fn is_loopback(&self) -> (r: bool)
        ensures
            r == spec_is_loopback(*self),
    {
        match self {
            IpAddress::V4(a) => (*a >> 24u32) == 127u32,
            IpAddress::V6(a) => *a == 1u128,
        }
    }

    pub fn is_link_local(&self) -> (r: bool)
        ensures
            r == spec_is_link_local(*self),
    {
        match self {
            IpAddress::V4(a) => (*a >> 16u32) == 0xa9feu32,
            IpAddress::V6(a) => (*a >> 118u128) == 0x3fau128,
        }
    }
}

/// Whether `addr` is loopback or link-local, and so unfit as a source address.
pub fn is_local_address(addr: &IpAddress) -> (r: bool)
    ensures
        r == spec_is_local(*addr),
{
    addr.is_loopback() || addr.is_link_local()
}

} // verus!
