//! The SOCKSv4, SOCKSv4A and SOCKSv5 request formats as functions on bytes.

use vstd::prelude::*;

use crate::bytes::{be_value, copy_range, find_zero, position_of_zero, pow256, read_be};
use crate::ip::IpAddress;

verus! {

/// The destination named in a request: an address, or a domain name to resolve.
#[derive(Clone, Debug)]
pub enum TargetHost {
    Ip(IpAddress),
    Domain(Vec<u8>),
}

/// A SOCKS request as it came over the wire.
#[derive(Clone, Debug)]
pub struct SocksRequest {
    pub command: u8,
    pub host: TargetHost,
    pub port: u16,
}

/// The result of parsing a message from the bytes read so far: at least `Need(n)`
/// more bytes are needed, or the message is complete, or it can never be valid.
#[derive(Clone, Debug)]
pub enum Frame<T> {
    Need(usize),
    Done(T),
    Malformed,
}

pub ghost enum HostModel {
    Ip(IpAddress),
    Domain(Seq<u8>),
}

pub ghost struct RequestModel {
    pub command: u8,
    pub host: HostModel,
    pub port: u16,
}

pub ghost enum FrameModel<T> {
    Need(nat),
    Done(T),
    Malformed,
}

impl View for TargetHost {
    type V = HostModel;

    open spec fn view(&self) -> HostModel {
        match self {
            TargetHost::Ip(ip) => HostModel::Ip(*ip),
            TargetHost::Domain(d) => HostModel::Domain(d@),
        }
    }
}

impl View for SocksRequest {
    type V = RequestModel;

    open spec fn view(&self) -> RequestModel {
        RequestModel { command: self.command, host: self.host@, port: self.port }
    }
}

impl<T: View> View for Frame<T> {
    type V = FrameModel<T::V>;

    open spec fn view(&self) -> FrameModel<T::V> {
        match self {
            Frame::Need(n) => FrameModel::Need(*n as nat),
            Frame::Done(t) => FrameModel::Done(t@),
            Frame::Malformed => FrameModel::Malformed,
        }
    }
}

/// The port that two bytes spell in network order.
pub open spec fn port_of(hi: u8, lo: u8) -> u16 {
    (hi as nat * 256 + lo as nat) as u16
}

/// The IPv4 address that four bytes from `start` spell in network order.
pub open spec fn v4_at(b: Seq<u8>, start: int) -> IpAddress {
    IpAddress::V4(be_value(b.subrange(start, start + 4)) as u32)
}

/// The IPv6 address that sixteen bytes from `start` spell in network order.
pub open spec fn v6_at(b: Seq<u8>, start: int) -> IpAddress {
    IpAddress::V6(be_value(b.subrange(start, start + 16)) as u128)
}

/// A SOCKSv5 greeting after its version byte: a method count, at least one, then
/// that many method codes.
pub open spec fn v5_greeting_model(b: Seq<u8>) -> FrameModel<Seq<u8>> {
    if b.len() < 1 {
        FrameModel::Need(1)
    } else if b[0] == 0 {
        FrameModel::Malformed
    } else if b.len() < 1 + b[0] {
        FrameModel::Need((1 + b[0] - b.len()) as nat)
    } else {
        FrameModel::Done(b.subrange(1, 1 + b[0]))
    }
}

/// A complete SOCKSv5 request once its `total` bytes are there.
pub open spec fn v5_complete(b: Seq<u8>, total: int, host: HostModel) -> FrameModel<RequestModel> {
    if b.len() < total {
        FrameModel::Need((total - b.len()) as nat)
    } else {
        FrameModel::Done(
            RequestModel { command: b[1], host, port: port_of(b[total - 2], b[total - 1]) },
        )
    }
}

/// A SOCKSv5 request: VER (5), CMD, RSV, ATYP, then an IPv4 address (ATYP 1),
/// a length-prefixed domain name (ATYP 3) or an IPv6 address (ATYP 4), then the port.
pub open spec fn v5_request_model(b: Seq<u8>) -> FrameModel<RequestModel> {
    if b.len() < 1 {
        FrameModel::Need(1)
    } else if b[0] != 5 {
        FrameModel::Malformed
    } else if b.len() < 2 {
        FrameModel::Need(1)
    } else if b.len() < 4 {
        FrameModel::Need((4 - b.len()) as nat)
    } else if b[3] == 1 {
        v5_complete(b, 10, HostModel::Ip(v4_at(b, 4)))
    } else if b[3] == 4 {
        v5_complete(b, 22, HostModel::Ip(v6_at(b, 4)))
    } else if b[3] == 3 {
        if b.len() < 5 {
            FrameModel::Need(1)
        } else {
            v5_complete(b, 7 + b[4], HostModel::Domain(b.subrange(5, 5 + b[4])))
        }
    } else {
        FrameModel::Malformed
    }
}

/// Whether a SOCKSv4 destination address `0.0.0.x`, `x` not zero, asks for a
/// domain name to follow (SOCKSv4A).
pub open spec fn is_v4a_marker(b: Seq<u8>) -> bool {
    b[3] == 0 && b[4] == 0 && b[5] == 0 && b[6] != 0
}

/// A SOCKSv4 request after its version byte: CMD, the port, the IPv4
/// address, a zero-terminated user id and, for SOCKSv4A, a zero-terminated domain.
pub open spec fn v4_request_model(b: Seq<u8>) -> FrameModel<RequestModel> {
    if b.len() < 1 {
        FrameModel::Need(1)
    } else if b.len() < 7 {
        FrameModel::Need((7 - b.len()) as nat)
    } else {
        match find_zero(b, 7) {
            None => FrameModel::Need(1),
            Some(u) => if is_v4a_marker(b) {
                match find_zero(b, u + 1) {
                    None => FrameModel::Need(1),
                    Some(d) => FrameModel::Done(
                        RequestModel {
                            command: b[0],
                            host: HostModel::Domain(b.subrange((u + 1) as int, d as int)),
                            port: port_of(b[1], b[2]),
                        },
                    ),
                }
            } else {
                FrameModel::Done(
                    RequestModel {
                        command: b[0],
                        host: HostModel::Ip(v4_at(b, 3)),
                        port: port_of(b[1], b[2]),
                    },
                )
            },
        }
    }
}

fn read_port(buf: &[u8], at: usize) -> (r: u16)
    requires
        at + 2 <= buf@.len(),
    ensures
        r == port_of(buf@[at as int], buf@[at + 1]),
{
    (buf[at] as u16) * 256 + buf[at + 1] as u16
}

fn read_v4(buf: &[u8], at: usize) -> (r: IpAddress)
    requires
        at + 4 <= buf@.len(),
    ensures
        r == v4_at(buf@, at as int),
{
    let v = read_be(buf, at, 4);
    proof {
        reveal_with_fuel(pow256, 5);
    }
    IpAddress::V4(v as u32)
}

fn read_v6(buf: &[u8], at: usize) -> (r: IpAddress)
    requires
        at + 16 <= buf@.len(),
    ensures
        r == v6_at(buf@, at as int),
{
    IpAddress::V6(read_be(buf, at, 16))
}

/// Parses a SOCKSv5 greeting that follows the version byte; the methods come out.
pub fn parse_v5_greeting(buf: &[u8]) -> (r: Frame<Vec<u8>>)
    ensures
        r@ == v5_greeting_model(buf@),
{
    if buf.len() < 1 {
        return Frame::Need(1);
    }
    let n = buf[0] as usize;
    if n == 0 {
        return Frame::Malformed;
    }
    if buf.len() < 1 + n {
        return Frame::Need(1 + n - buf.len());
    }
    Frame::Done(copy_range(buf, 1, 1 + n))
}

fn finish_v5(buf: &[u8], total: usize, host: TargetHost) -> (r: Frame<SocksRequest>)
    requires
        total >= 6,
        buf@.len() >= 4,
    ensures
        r@ == v5_complete(buf@, total as int, host@),
{
    if buf.len() < total {
        Frame::Need(total - buf.len())
    } else {
        Frame::Done(SocksRequest { command: buf[1], host, port: read_port(buf, total - 2) })
    }
}

/// Parses a SOCKSv5 request, version byte included.
pub fn parse_v5_request(buf: &[u8]) -> (r: Frame<SocksRequest>)
    ensures
        r@ == v5_request_model(buf@),
{
    if buf.len() < 1 {
        return Frame::Need(1);
    }
    if buf[0] != 5 {
        return Frame::Malformed;
    }
    if buf.len() < 2 {
        return Frame::Need(1);
    }
    if buf.len() < 4 {
        return Frame::Need(4 - buf.len());
    }
    if buf[3] == 1 {
        if buf.len() < 10 {
            return Frame::Need(10 - buf.len());
        }
        let ip = read_v4(buf, 4);
        finish_v5(buf, 10, TargetHost::Ip(ip))
    } else if buf[3] == 4 {
        if buf.len() < 22 {
            return Frame::Need(22 - buf.len());
        }
        let ip = read_v6(buf, 4);
        finish_v5(buf, 22, TargetHost::Ip(ip))
    } else if buf[3] == 3 {
        if buf.len() < 5 {
            return Frame::Need(1);
        }
        let n = buf[4] as usize;
        if buf.len() < 7 + n {
            return Frame::Need(7 + n - buf.len());
        }
        let domain = copy_range(buf, 5, 5 + n);
        finish_v5(buf, 7 + n, TargetHost::Domain(domain))
    } else {
        Frame::Malformed
    }
}

/// Parses a SOCKSv4 or SOCKSv4A request that follows the version byte.
pub fn parse_v4_request(buf: &[u8]) -> (r: Frame<SocksRequest>)
    ensures
        r@ == v4_request_model(buf@),
{
    if buf.len() < 1 {
        return Frame::Need(1);
    }
    if buf.len() < 7 {
        return Frame::Need(7 - buf.len());
    }
    let port = read_port(buf, 1);
    match position_of_zero(buf, 7) {
        None => Frame::Need(1),
        Some(u) => {
            proof {
                lemma_find_zero_range(buf@, 7);
            }
            if buf[3] == 0 && buf[4] == 0 && buf[5] == 0 && buf[6] != 0 {
                match position_of_zero(buf, u + 1) {
                    None => Frame::Need(1),
                    Some(d) => {
                        proof {
                            assert(find_zero(buf@, (u + 1) as nat) == Some(d as nat));
                            lemma_find_zero_range(buf@, (u + 1) as nat);
                        }
                        let domain = copy_range(buf, u + 1, d);
                        Frame::Done(
                            SocksRequest { command: buf[0], host: TargetHost::Domain(domain), port },
                        )
                    },
                }
            } else {
                let ip = read_v4(buf, 3);
                Frame::Done(SocksRequest { command: buf[0], host: TargetHost::Ip(ip), port })
            }
        },
    }
}

proof fn lemma_find_zero_range(s: Seq<u8>, from: nat)
    ensures
        find_zero(s, from) matches Some(i) ==> from <= i < s.len(),
    decreases s.len() - from,
{
    if from < s.len() && s[from as int] != 0 {
        lemma_find_zero_range(s, from + 1);
    }
}

} // verus!
