//! The weighted round-robin dispatcher, with one rotation per address family.

use vstd::prelude::*;

use crate::ip::{spec_is_loopback, IpAddress, SocketAddress};
use crate::schedule::{
    family_chosen, family_step, family_wf, fresh_family, weights_positive, FamilyView,
    WeightedIp,
};

verus! {

/// Where a weighted source sends from: a network interface by name, with the first
/// usable IPv4 and IPv6 address found on it, or a literal IP address.
#[derive(Clone, Debug)]
pub enum Interface {
    Named { name: String, ipv4: Option<u32>, ipv6: Option<u128> },
    Ip(IpAddress),
}

/// A source of outbound connections with its round-robin weight.
#[derive(Clone, Debug)]
pub struct WeightedAddress {
    pub interface: Interface,
    pub weight: usize,
}

/// Why a list of weighted sources cannot make a dispatcher.
#[derive(Clone, Copy, Debug, PartialEq, Eq, Structural)]
pub enum ConstructionError {
    /// The list is empty.
    NoAddresses,
    /// The source at `index` holds a loopback address.
    LoopbackAddress { index: usize, ip: IpAddress },
    /// The named interface at `index` has neither an IPv4 nor an IPv6 address.
    NoUsableAddress { index: usize },
}

/// Why a dispatch failed.
#[derive(Clone, Copy, Debug, PartialEq, Eq, Structural)]
pub enum DispatchError {
    /// No configured source address has the remote address's family.
    AddressFamilyMismatch { remote: SocketAddress },
}

/// The first defect of a single source, if any.
pub open spec fn source_error(a: WeightedAddress, index: usize) -> Option<ConstructionError> {
    match a.interface {
        Interface::Named { ipv4, ipv6, .. } => {
            if ipv4 is None && ipv6 is None {
                Some(ConstructionError::NoUsableAddress { index })
            } else if ipv4 is Some && spec_is_loopback(IpAddress::V4(ipv4->0)) {
                Some(ConstructionError::LoopbackAddress { index, ip: IpAddress::V4(ipv4->0) })
            } else if ipv6 is Some && spec_is_loopback(IpAddress::V6(ipv6->0)) {
                Some(ConstructionError::LoopbackAddress { index, ip: IpAddress::V6(ipv6->0) })
            } else {
                None
            }
        },
        Interface::Ip(ip) => {
            if spec_is_loopback(ip) {
                Some(ConstructionError::LoopbackAddress { index, ip })
            } else {
                None
            }
        },
    }
}

/// The IPv4 entries that one source contributes.
pub open spec fn v4_entries(a: WeightedAddress) -> Seq<WeightedIp> {
    match a.interface {
        Interface::Named { ipv4, .. } => match ipv4 {
            Some(x) => seq![WeightedIp { ip: IpAddress::V4(x), weight: a.weight }],
            None => Seq::empty(),
        },
        Interface::Ip(ip) => if ip is V4 {
            seq![WeightedIp { ip, weight: a.weight }]
        } else {
            Seq::empty()
        },
    }
}

/// The IPv6 entries that one source contributes.
pub open spec fn v6_entries(a: WeightedAddress) -> Seq<WeightedIp> {
    match a.interface {
        Interface::Named { ipv6, .. } => match ipv6 {
            Some(x) => seq![WeightedIp { ip: IpAddress::V6(x), weight: a.weight }],
            None => Seq::empty(),
        },
        Interface::Ip(ip) => if ip is V6 {
            seq![WeightedIp { ip, weight: a.weight }]
        } else {
            Seq::empty()
        },
    }
}

/// The IPv4 family list of a source list: the sources' IPv4 entries in list order.
pub open spec fn v4_list(s: Seq<WeightedAddress>) -> Seq<WeightedIp>
    decreases s.len(),
{
    if s.len() == 0 {
        Seq::empty()
    } else {
        v4_list(s.drop_last()) + v4_entries(s.last())
    }
}

/// The IPv6 family list of a source list: the sources' IPv6 entries in list order.
pub open spec fn v6_list(s: Seq<WeightedAddress>) -> Seq<WeightedIp>
    decreases s.len(),
{
    if s.len() == 0 {
        Seq::empty()
    } else {
        v6_list(s.drop_last()) + v6_entries(s.last())
    }
}

/// A source that names an interface with both an IPv4 and an IPv6 address.
pub open spec fn is_dual_stack(a: WeightedAddress) -> bool {
    a.interface matches Interface::Named { ipv4: Some(_), ipv6: Some(_), .. }
}

/// How many sources of the list are dual-stack.
pub open spec fn dual_stack_count(s: Seq<WeightedAddress>) -> nat
    decreases s.len(),
{
    if s.len() == 0 {
        0
    } else {
        dual_stack_count(s.drop_last()) + if is_dual_stack(s.last()) { 1nat } else { 0nat }
    }
}

pub open spec fn all_v4(ips: Seq<WeightedIp>) -> bool {
    forall|i: int| 0 <= i < ips.len() ==> (#[trigger] ips[i]).ip is V4
}

pub open spec fn all_v6(ips: Seq<WeightedIp>) -> bool {
    forall|i: int| 0 <= i < ips.len() ==> (#[trigger] ips[i]).ip is V6
}

/// Family partitioning: the IPv4 list holds only IPv4 addresses, the IPv6 list only
/// IPv6 ones, and of valid sources each contributes one entry, or two when it is a
/// dual-stack interface.
pub proof fn lemma_family_partition(s: Seq<WeightedAddress>)
    requires
        forall|i: int| 0 <= i < s.len() ==> source_error(#[trigger] s[i], i as usize) is None,
    ensures
        all_v4(v4_list(s)),
        all_v6(v6_list(s)),
        v4_list(s).len() + v6_list(s).len() == s.len() + dual_stack_count(s),
    decreases s.len(),
{
    if s.len() > 0 {
        let init = s.drop_last();
        assert forall|i: int| 0 <= i < init.len() implies source_error(#[trigger] init[i], i as usize) is None by {
            assert(init[i] == s[i]);
        }
        lemma_family_partition(init);
        assert(source_error(s[s.len() - 1], (s.len() - 1) as usize) is None);
        let a = s.last();
        assert(all_v4(v4_list(s))) by {
            assert forall|i: int| 0 <= i < v4_list(s).len() implies (#[trigger] v4_list(s)[i]).ip is V4 by {
                if i >= v4_list(init).len() {
                    assert(v4_list(s)[i] == v4_entries(a)[i - v4_list(init).len()]);
                }
            }
        }
        assert(all_v6(v6_list(s))) by {
            assert forall|i: int| 0 <= i < v6_list(s).len() implies (#[trigger] v6_list(s)[i]).ip is V6 by {
                if i >= v6_list(init).len() {
                    assert(v6_list(s)[i] == v6_entries(a)[i - v6_list(init).len()]);
                }
            }
        }
    }
}

/// The state of both families.
pub ghost struct DispatcherView {
    pub ipv4: FamilyView,
    pub ipv6: FamilyView,
}

/// The family that serves remote addresses like `ip`.
pub open spec fn family_of(v: DispatcherView, ip: IpAddress) -> FamilyView {
    if ip is V4 {
        v.ipv4
    } else {
        v.ipv6
    }
}

struct FamilyState {
    ips: Vec<WeightedIp>,
    ip_idx: usize,
    count: usize,
}

impl View for FamilyState {
    type V = FamilyView;

    closed spec fn view(&self) -> FamilyView {
        FamilyView { ips: self.ips@, cursor: self.ip_idx as nat, count: self.count as nat }
    }
}

impl FamilyState {
    fn new(ips: Vec<WeightedIp>) -> (r: FamilyState)
        ensures
            r@ == fresh_family(ips@),
    {
        FamilyState { ips, ip_idx: 0, count: 0 }
    }

    fn dispatch(&mut self) -> (r: IpAddress)
        requires
            family_wf(old(self)@),
            old(self)@.ips.len() > 0,
        ensures
            r == family_chosen(old(self)@),
            final(self)@ == family_step(old(self)@),
        no_unwind
    {
        proof {
            assert(self@.ips[self@.cursor as int] == self.ips@[self.ip_idx as int]);
        }
        let len = self.ips.len();
        let idx = self.ip_idx;
        assert(idx < len);
        let ip = self.ips[idx];
        self.count = self.count + 1;
        if self.count == ip.weight {
            self.count = 0;
            self.ip_idx = (idx + 1) % len;
        }
        ip.ip
    }
}

/// Hands out local source addresses in weighted round-robin order, with one
/// independent rotation per address family.
pub struct WeightedRoundRobinDispatcher {
    ipv4: FamilyState,
    ipv6: FamilyState,
}

impl View for WeightedRoundRobinDispatcher {
    type V = DispatcherView;

    closed spec fn view(&self) -> DispatcherView {
        DispatcherView { ipv4: self.ipv4@, ipv6: self.ipv6@ }
    }
}

/// Something that picks the local address for a connection to a remote address.
pub trait Dispatch {
    fn dispatch(&mut self, remote_address: &SocketAddress) -> (r: Result<IpAddress, DispatchError>)
        ensures
            r matches Ok(ip) ==> (ip is V4 <==> remote_address.ip is V4),
            r matches Err(e) ==> e == (DispatchError::AddressFamilyMismatch {
                remote: *remote_address,
            }),
    ;
}

impl WeightedRoundRobinDispatcher {
    #[verifier::type_invariant]
    spec fn inv(&self) -> bool {
        self.wf()
    }

    /// Every reachable state: each family well formed and holding only its own family.
    pub open spec fn wf(&self) -> bool {
        &&& family_wf(self@.ipv4)
        &&& family_wf(self@.ipv6)
        &&& all_v4(self@.ipv4.ips)
        &&& all_v6(self@.ipv6.ips)
    }

    /// Builds a dispatcher from the configured sources, each family starting fresh
    /// with its entries in list order. Fails on an empty list, and otherwise on the
    /// first source that holds a loopback address or names an interface without
    /// addresses.
    pub fn new(addresses: Vec<WeightedAddress>) -> (r: Result<
        WeightedRoundRobinDispatcher,
        ConstructionError,
    >)
        requires
            forall|i: int| 0 <= i < addresses@.len() ==> #[trigger] addresses@[i].weight > 0,
        ensures
            addresses@.len() == 0 ==> r == Err::<WeightedRoundRobinDispatcher, _>(
                ConstructionError::NoAddresses,
            ),
            r is Ok <==> addresses@.len() > 0 && forall|i: int|
                0 <= i < addresses@.len() ==> source_error(#[trigger] addresses@[i], i as usize)
                    is None,
            r matches Ok(d) ==> d.wf() && d@.ipv4 == fresh_family(v4_list(addresses@))
                && d@.ipv6 == fresh_family(v6_list(addresses@)),
            r matches Err(e) ==> addresses@.len() == 0 || exists|i: int|
                0 <= i < addresses@.len() && (forall|j: int|
                    0 <= j < i ==> source_error(#[trigger] addresses@[j], j as usize) is None)
                    && source_error(addresses@[i], i as usize) == Some(e),
    {
        if addresses.len() == 0 {
            return Err(ConstructionError::NoAddresses);
        }
        let mut i: usize = 0;
        while i < addresses.len()
            invariant
                0 <= i <= addresses@.len(),
                forall|j: int| 0 <= j < i ==> source_error(#[trigger] addresses@[j], j as usize) is None,
            decreases addresses@.len() - i,
        {
            match check_source(&addresses[i], i) {
                Some(e) => {
                    return Err(e);
                },
                None => {},
            }
            i = i + 1;
        }
        let mut ipv4s: Vec<WeightedIp> = Vec::new();
        let mut ipv6s: Vec<WeightedIp> = Vec::new();
        let mut k: usize = 0;
        while k < addresses.len()
            invariant
                0 <= k <= addresses@.len(),
                forall|i: int| 0 <= i < addresses@.len() ==> #[trigger] addresses@[i].weight > 0,
                ipv4s@ == v4_list(addresses@.subrange(0, k as int)),
                ipv6s@ == v6_list(addresses@.subrange(0, k as int)),
                weights_positive(ipv4s@),
                weights_positive(ipv6s@),
                all_v4(ipv4s@),
                all_v6(ipv6s@),
            decreases addresses@.len() - k,
        {
            let a = &addresses[k];
            proof {
                assert(addresses@.subrange(0, k + 1).drop_last() =~= addresses@.subrange(0, k as int));
                assert(addresses@.subrange(0, k + 1).last() == addresses@[k as int]);
            }
            match &a.interface {
                Interface::Named { ipv4, ipv6, .. } => {
                    match ipv4 {
                        Some(x) => ipv4s.push(WeightedIp { ip: IpAddress::V4(*x), weight: a.weight }),
                        None => {},
                    }
                    match ipv6 {
                        Some(x) => ipv6s.push(WeightedIp { ip: IpAddress::V6(*x), weight: a.weight }),
                        None => {},
                    }
                },
                Interface::Ip(ip) => {
                    if ip.is_ipv4() {
                        ipv4s.push(WeightedIp { ip: *ip, weight: a.weight });
                    } else {
                        ipv6s.push(WeightedIp { ip: *ip, weight: a.weight });
                    }
                },
            }
            proof {
                assert(ipv4s@ =~= v4_list(addresses@.subrange(0, k + 1)));
                assert(ipv6s@ =~= v6_list(addresses@.subrange(0, k + 1)));
            }
            k = k + 1;
        }
        proof {
            assert(addresses@.subrange(0, addresses@.len() as int) =~= addresses@);
        }
        Ok(WeightedRoundRobinDispatcher { ipv4: FamilyState::new(ipv4s), ipv6: FamilyState::new(ipv6s) })
    }

    /// Picks the local address for a connection to `remote_address`: the next one of
    /// the remote's family in weighted round-robin order. The other family is left
    /// as it was.
    pub fn dispatch(&mut self, remote_address: &SocketAddress) -> (r: Result<
        IpAddress,
        DispatchError,
    >)
        ensures
            old(self).wf(),
            final(self).wf(),
            family_of(old(self)@, remote_address.ip).ips.len() == 0 ==> r == Err::<IpAddress, _>(
                DispatchError::AddressFamilyMismatch { remote: *remote_address },
            ) && final(self)@ == old(self)@,
            family_of(old(self)@, remote_address.ip).ips.len() > 0 ==> r == Ok::<_, DispatchError>(
                family_chosen(family_of(old(self)@, remote_address.ip)),
            ) && family_of(final(self)@, remote_address.ip) == family_step(
                family_of(old(self)@, remote_address.ip),
            ) && family_of(final(self)@, other_family(remote_address.ip)) == family_of(
                old(self)@,
                other_family(remote_address.ip),
            ),
            r matches Ok(ip) ==> (ip is V4 <==> remote_address.ip is V4),
    {
        proof {
            use_type_invariant(&*self);
        }
        if remote_address.ip.is_ipv4() {
            if self.ipv4.ips.len() == 0 {
                return Err(DispatchError::AddressFamilyMismatch { remote: *remote_address });
            }
            let ghost before = self.ipv4@;
            let ip = self.ipv4.dispatch();
            proof {
                assert(before.ips[before.cursor as int].ip == ip);
            }
            Ok(ip)
        } else {
            if self.ipv6.ips.len() == 0 {
                return Err(DispatchError::AddressFamilyMismatch { remote: *remote_address });
            }
            let ghost before = self.ipv6@;
            let ip = self.ipv6.dispatch();
            proof {
                assert(before.ips[before.cursor as int].ip == ip);
            }
            Ok(ip)
        }
    }
}

/// A representative of the family opposite to `ip`'s.
pub open spec fn other_family(ip: IpAddress) -> IpAddress {
    if ip is V4 {
        IpAddress::V6(0)
    } else {
        IpAddress::V4(0)
    }
}

impl Dispatch for WeightedRoundRobinDispatcher {
    fn dispatch(&mut self, remote_address: &SocketAddress) -> (r: Result<IpAddress, DispatchError>) {
        WeightedRoundRobinDispatcher::dispatch(self, remote_address)
    }
}

fn check_source(a: &WeightedAddress, index: usize) -> (r: Option<ConstructionError>)
    ensures
        r == source_error(*a, index),
{
    match &a.interface {
        Interface::Named { ipv4, ipv6, .. } => {
            if ipv4.is_none() && ipv6.is_none() {
                Some(ConstructionError::NoUsableAddress { index })
            } else {
                match ipv4 {
                    Some(x) => {
                        let ip = IpAddress::V4(*x);
                        if ip.is_loopback() {
                            return Some(ConstructionError::LoopbackAddress { index, ip });
                        }
                    },
                    None => {},
                }
                match ipv6 {
                    Some(x) => {
                        let ip = IpAddress::V6(*x);
                        if ip.is_loopback() {
                            return Some(ConstructionError::LoopbackAddress { index, ip });
                        }
                    },
                    None => {},
                }
                None
            }
        },
        Interface::Ip(ip) => {
            if ip.is_loopback() {
                Some(ConstructionError::LoopbackAddress { index, ip: *ip })
            } else {
                None
            }
        },
    }
}

} // verus!
