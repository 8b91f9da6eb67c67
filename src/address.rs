//! Weighted sources as written on the command line, and their resolution against the host's interfaces.

use vstd::prelude::*;
use vstd::string::{StrSliceExecFns, StringExecFns};

use crate::dispatcher::{Interface, WeightedAddress};
use crate::ip::{spec_is_local, spec_is_loopback, IpAddress};

verus! {

/// A source as written on the command line, before it is known whether it names an
/// interface or spells an IP address.
#[derive(Clone, Debug)]
pub struct RawInterface(String);

impl View for RawInterface {
    type V = Seq<char>;

    closed spec fn view(&self) -> Seq<char> {
        self.0@
    }
}

impl RawInterface {
    pub fn new(src: &str) -> (r: RawInterface)
        ensures
            r@ == src@,
    {
        RawInterface(src.to_owned())
    }

    pub fn as_str(&self) -> (r: &str)
        ensures
            r@ == self@,
    {
        self.0.as_str()
    }
}

/// A source as written on the command line, with its weight.
#[derive(Clone, Debug)]
pub struct RawWeightedAddress {
    interface: RawInterface,
    weight: usize,
}

/// The weight after the `/` is not a positive decimal number that fits a `usize`.
#[derive(Clone, Copy, Debug, PartialEq, Eq, Structural)]
pub struct InvalidWeight;

pub open spec fn is_digit(c: char) -> bool {
    '0' <= c <= '9'
}

pub open spec fn digit_value(c: char) -> nat {
    (c as u32 - '0' as u32) as nat
}

/// The value of a string of decimal digits.
pub open spec fn decimal_value(s: Seq<char>) -> nat
    decreases s.len(),
{
    if s.len() == 0 {
        0
    } else {
        decimal_value(s.drop_last()) * 10 + digit_value(s.last())
    }
}

/// The digits of a weight, without the `+` sign that may lead them.
pub open spec fn unsigned_digits(s: Seq<char>) -> Seq<char> {
    if s.len() > 0 && s[0] == '+' {
        s.drop_first()
    } else {
        s
    }
}

/// A weight text: an optional `+`, then at least one decimal digit, with a value
/// from 1 to `usize::MAX`.
pub open spec fn valid_weight(s: Seq<char>) -> bool {
    let d = unsigned_digits(s);
    &&& d.len() > 0
    &&& forall|i: int| 0 <= i < d.len() ==> is_digit(#[trigger] d[i])
    &&& 0 < decimal_value(d) <= usize::MAX
}

/// The index of the first `/` at or after `from`, or the length.
pub open spec fn slash_index(s: Seq<char>, from: nat) -> nat
    decreases s.len() - from,
{
    if from >= s.len() {
        s.len()
    } else if s[from as int] == '/' {
        from
    } else {
        slash_index(s, from + 1)
    }
}

/// The interface text: everything before the first `/`.
pub open spec fn interface_text(s: Seq<char>) -> Seq<char> {
    s.subrange(0, slash_index(s, 0) as int)
}

/// The weight text: between the first `/` and the next one, if there is a first.
pub open spec fn weight_text(s: Seq<char>) -> Option<Seq<char>> {
    let a = slash_index(s, 0);
    if a >= s.len() {
        None
    } else {
        Some(s.subrange((a + 1) as int, slash_index(s, a + 1) as int))
    }
}

/// The weight that `<spec>[/<weight>]` states: 1 when there is no weight text.
pub open spec fn parsed_weight(s: Seq<char>) -> Option<usize> {
    match weight_text(s) {
        None => Some(1),
        Some(w) => if valid_weight(w) {
            Some(decimal_value(unsigned_digits(w)) as usize)
        } else {
            None
        },
    }
}

/// The decimal spelling of `n`, without sign or leading zeros.
pub open spec fn decimal_text(n: nat) -> Seq<char>
    decreases n,
{
    if n < 10 {
        seq![digit_char(n)]
    } else {
        decimal_text(n / 10) + seq![digit_char(n % 10)]
    }
}

pub open spec fn digit_char(d: nat) -> char {
    ((d + '0' as u32) as u32) as char
}

proof fn lemma_digit_char(d: nat)
    requires
        d < 10,
    ensures
        is_digit(digit_char(d)),
        digit_value(digit_char(d)) == d,
        digit_char(d) != '/',
        digit_char(d) != '+',
{
}

proof fn lemma_decimal_text(n: nat)
    ensures
        decimal_text(n).len() > 0,
        forall|i: int| 0 <= i < decimal_text(n).len() ==> is_digit(#[trigger] decimal_text(n)[i]),
        decimal_value(decimal_text(n)) == n,
    decreases n,
{
    if n < 10 {
        lemma_digit_char(n);
        assert(decimal_text(n).drop_last() =~= Seq::<char>::empty());
        assert(decimal_value(Seq::<char>::empty()) == 0);
        assert(decimal_text(n).last() == digit_char(n));
    } else {
        lemma_decimal_text(n / 10);
        lemma_digit_char(n % 10);
        let t = decimal_text(n);
        assert(t.drop_last() =~= decimal_text(n / 10));
        assert(t.last() == digit_char(n % 10));
        vstd::arithmetic::div_mod::lemma_fundamental_div_mod(n as int, 10);
        assert(decimal_value(t) == (n / 10) * 10 + n % 10);
        assert forall|i: int| 0 <= i < t.len() implies is_digit(#[trigger] t[i]) by {
            if i < t.len() - 1 {
                assert(t[i] == decimal_text(n / 10)[i]);
            }
        }
    }
}

proof fn lemma_slash_index_skips(s: Seq<char>, from: nat, to: nat)
    requires
        from <= to <= s.len(),
        forall|i: int| from <= i < to ==> s[i] != '/',
    ensures
        slash_index(s, from) == slash_index(s, to),
    decreases to - from,
{
    if from < to {
        lemma_slash_index_skips(s, from + 1, to);
    }
}

/// Writing a source back as text and parsing that text gives the source again,
/// when its interface text holds no `/`.
pub proof fn lemma_text_round_trip(interface: Seq<char>, weight: usize)
    requires
        weight > 0,
        forall|i: int| 0 <= i < interface.len() ==> interface[i] != '/',
    ensures
        interface_text(interface + seq!['/'] + decimal_text(weight as nat)) == interface,
        parsed_weight(interface + seq!['/'] + decimal_text(weight as nat)) == Some(weight),
{
    let t = decimal_text(weight as nat);
    let s = interface + seq!['/'] + t;
    let k = interface.len();
    lemma_decimal_text(weight as nat);
    lemma_slash_index_skips(s, 0, k);
    assert(s[k as int] == '/');
    assert(interface_text(s) =~= interface);
    assert forall|i: int| k + 1 <= i < s.len() implies s[i] != '/' by {
        assert(s[i] == t[i - k - 1]);
        lemma_digit_not_slash(t[i - k - 1]);
    }
    lemma_slash_index_skips(s, k + 1, s.len());
    assert(s.subrange((k + 1) as int, s.len() as int) =~= t);
    lemma_digit_not_slash(t[0]);
    assert(unsigned_digits(t) == t);
}

proof fn lemma_digit_not_slash(c: char)
    requires
        is_digit(c),
    ensures
        c != '/',
        c != '+',
{
}

/// The single digit `d` as text.
fn digit_str(d: usize) -> (r: &'static str)
    requires
        d < 10,
    ensures
        r@ == seq![digit_char(d as nat)],
{
    if d == 0 {
        proof {
            reveal_strlit("0");
        }
        "0"
    } else if d == 1 {
        proof {
            reveal_strlit("1");
        }
        "1"
    } else if d == 2 {
        proof {
            reveal_strlit("2");
        }
        "2"
    } else if d == 3 {
        proof {
            reveal_strlit("3");
        }
        "3"
    } else if d == 4 {
        proof {
            reveal_strlit("4");
        }
        "4"
    } else if d == 5 {
        proof {
            reveal_strlit("5");
        }
        "5"
    } else if d == 6 {
        proof {
            reveal_strlit("6");
        }
        "6"
    } else if d == 7 {
        proof {
            reveal_strlit("7");
        }
        "7"
    } else if d == 8 {
        proof {
            reveal_strlit("8");
        }
        "8"
    } else {
        proof {
            reveal_strlit("9");
        }
        "9"
    }
}

/// Appends the decimal spelling of `n` to `out`.
fn write_decimal(n: usize, out: &mut String)
    ensures
        final(out)@ == old(out)@ + decimal_text(n as nat),
    decreases n,
{
    if n < 10 {
        out.append(digit_str(n));
    } else {
        write_decimal(n / 10, out);
        out.append(digit_str(n % 10));
        assert(out@ =~= old(out)@ + decimal_text(n as nat));
    }
}

fn find_slash(s: &str, len: usize, from: usize) -> (r: usize)
    requires
        len == s@.len(),
        from <= len,
    ensures
        r == slash_index(s@, from as nat),
        from <= r <= len,
{
    let mut i: usize = from;
    while i < len
        invariant
            from <= i <= len,
            len == s@.len(),
            slash_index(s@, from as nat) == slash_index(s@, i as nat),
        decreases len - i,
    {
        if s.get_char(i) == '/' {
            return i;
        }
        i = i + 1;
    }
    i
}

fn parse_weight(s: &str) -> (r: Option<usize>)
    ensures
        r is Some <==> valid_weight(s@),
        r matches Some(w) ==> w == decimal_value(unsigned_digits(s@)),
{
    let len = s.unicode_len();
    let mut i: usize = 0;
    if len > 0 && s.get_char(0) == '+' {
        i = 1;
    }
    let start = i;
    proof {
        assert(unsigned_digits(s@) =~= s@.subrange(start as int, len as int));
    }
    if start == len {
        return None;
    }
    let mut v: usize = 0;
    let mut over = false;
    while i < len
        invariant
            start <= i <= len,
            len == s@.len(),
            start < len,
            unsigned_digits(s@) =~= s@.subrange(start as int, len as int),
            forall|j: int| start <= j < i ==> is_digit(#[trigger] s@[j]),
            over <==> decimal_value(s@.subrange(start as int, i as int)) > usize::MAX,
            !over ==> v == decimal_value(s@.subrange(start as int, i as int)),
        decreases len - i,
    {
        let c = s.get_char(i);
        if !('0' <= c && c <= '9') {
            proof {
                let d = unsigned_digits(s@);
                assert(d[i - start] == c);
            }
            return None;
        }
        let d = (c as u32 - '0' as u32) as usize;
        proof {
            let p = s@.subrange(start as int, i + 1);
            assert(p.drop_last() =~= s@.subrange(start as int, i as int));
        }
        if !over {
            match v.checked_mul(10) {
                Some(m) => match m.checked_add(d) {
                    Some(n) => {
                        v = n;
                    },
                    None => {
                        over = true;
                    },
                },
                None => {
                    over = true;
                },
            }
        }
        i = i + 1;
    }
    proof {
        assert(s@.subrange(start as int, len as int) =~= unsigned_digits(s@));
    }
    if over || v == 0 {
        None
    } else {
        Some(v)
    }
}

impl RawWeightedAddress {
    pub closed spec fn spec_interface(&self) -> Seq<char> {
        self.interface@
    }

    pub closed spec fn spec_weight(&self) -> usize {
        self.weight
    }

    /// Parses `<spec>[/<weight>]`: the text before the first `/` names the source,
    /// the text up to the next `/` is its weight, 1 when absent. Fails when that
    /// weight is not a positive decimal number.
    pub fn parse(src: &str) -> (r: Result<RawWeightedAddress, InvalidWeight>)
        ensures
            r is Ok <==> parsed_weight(src@) is Some,
            r matches Ok(a) ==> a.spec_interface() == interface_text(src@) && Some(a.spec_weight())
                == parsed_weight(src@),
    {
        let len = src.unicode_len();
        let a = find_slash(src, len, 0);
        let interface = RawInterface::new(src.substring_char(0, a));
        if a >= len {
            return Ok(RawWeightedAddress { interface, weight: 1 });
        }
        let b = find_slash(src, len, a + 1);
        match parse_weight(src.substring_char(a + 1, b)) {
            Some(w) => Ok(RawWeightedAddress { interface, weight: w }),
            None => Err(InvalidWeight),
        }
    }

    pub fn interface(&self) -> (r: &RawInterface)
        ensures
            r@ == self.spec_interface(),
    {
        &self.interface
    }

    pub fn weight(&self) -> (r: usize)
        ensures
            r == self.spec_weight(),
    {
        self.weight
    }

    /// Writes the source back as `<spec>/<weight>`.
    pub fn to_text(&self) -> (r: String)
        ensures
            r@ == self.spec_interface() + seq!['/'] + decimal_text(self.spec_weight() as nat),
    {
        let mut out = self.interface.0.clone();
        proof {
            reveal_strlit("/");
        }
        out.append("/");
        write_decimal(self.weight, &mut out);
        out
    }
}

/// What the host reports of one network interface: its name, and those of its
/// addresses that a socket can bind to.
#[derive(Clone, Debug)]
pub struct NetworkInterfaceInfo {
    pub name: String,
    pub addresses: Vec<IpAddress>,
}

/// Why a command-line source cannot be used.
#[derive(Clone, Copy, Debug, PartialEq, Eq, Structural)]
pub enum ResolveError {
    /// The source at `index` is a loopback address.
    LoopbackAddress { index: usize, ip: IpAddress },
    /// The interface named at `index` has no usable address.
    NoUsableAddress { index: usize },
    /// The source at `index` is neither an interface name nor an IP address.
    Unrecognized { index: usize },
}

/// The first interface at or after `from` with the given name.
pub open spec fn find_interface(ifs: Seq<NetworkInterfaceInfo>, name: Seq<char>, from: nat) -> Option<nat>
    decreases ifs.len() - from,
{
    if from >= ifs.len() {
        None
    } else if ifs[from as int].name@ == name {
        Some(from)
    } else {
        find_interface(ifs, name, from + 1)
    }
}

/// The first IPv4 address of the list that is neither loopback nor link-local.
pub open spec fn first_usable_v4(s: Seq<IpAddress>) -> Option<u32>
    decreases s.len(),
{
    if s.len() == 0 {
        None
    } else if s[0] is V4 && !spec_is_local(s[0]) {
        Some(s[0]->V4_0)
    } else {
        first_usable_v4(s.drop_first())
    }
}

/// The first IPv6 address of the list that is neither loopback nor link-local.
pub open spec fn first_usable_v6(s: Seq<IpAddress>) -> Option<u128>
    decreases s.len(),
{
    if s.len() == 0 {
        None
    } else if s[0] is V6 && !spec_is_local(s[0]) {
        Some(s[0]->V6_0)
    } else {
        first_usable_v6(s.drop_first())
    }
}

/// Why the source `name` at `index` cannot be used, if it cannot: an interface
/// name is looked up first, and only otherwise is the text an address (`literal`).
pub open spec fn resolve_error(
    name: Seq<char>,
    ifs: Seq<NetworkInterfaceInfo>,
    literal: Option<IpAddress>,
    index: usize,
) -> Option<ResolveError> {
    match find_interface(ifs, name, 0) {
        Some(k) => if first_usable_v4(ifs[k as int].addresses@) is None && first_usable_v6(
            ifs[k as int].addresses@,
        ) is None {
            Some(ResolveError::NoUsableAddress { index })
        } else {
            None
        },
        None => match literal {
            Some(ip) => if spec_is_loopback(ip) {
                Some(ResolveError::LoopbackAddress { index, ip })
            } else {
                None
            },
            None => Some(ResolveError::Unrecognized { index }),
        },
    }
}

/// The source that `name` with `weight` stands for: the named interface with its
/// first usable IPv4 and IPv6 addresses, or else the literal address.
pub open spec fn resolves_to(
    a: WeightedAddress,
    name: Seq<char>,
    weight: usize,
    ifs: Seq<NetworkInterfaceInfo>,
    literal: Option<IpAddress>,
) -> bool {
    &&& a.weight == weight
    &&& match find_interface(ifs, name, 0) {
        Some(k) => match a.interface {
            Interface::Named { name: n, ipv4, ipv6 } => n@ == ifs[k as int].name@ && ipv4
                == first_usable_v4(ifs[k as int].addresses@) && ipv6 == first_usable_v6(
                ifs[k as int].addresses@,
            ),
            Interface::Ip(_) => false,
        },
        None => literal matches Some(ip) && a.interface == Interface::Ip(ip),
    }
}

fn usable_v4(s: &Vec<IpAddress>) -> (r: Option<u32>)
    ensures
        r == first_usable_v4(s@),
{
    proof {
        assert(s@.subrange(0, s@.len() as int) =~= s@);
    }
    let mut i: usize = 0;
    while i < s.len()
        invariant
            0 <= i <= s@.len(),
            first_usable_v4(s@) == first_usable_v4(s@.subrange(i as int, s@.len() as int)),
        decreases s@.len() - i,
    {
        assert(s@.subrange(i as int, s@.len() as int).drop_first() =~= s@.subrange(i + 1, s@.len() as int));
        let ip = s[i];
        if !crate::ip::is_local_address(&ip) {
            match ip {
                IpAddress::V4(a) => {
                    return Some(a);
                },
                IpAddress::V6(_) => {},
            }
        }
        i = i + 1;
    }
    None
}

fn usable_v6(s: &Vec<IpAddress>) -> (r: Option<u128>)
    ensures
        r == first_usable_v6(s@),
{
    proof {
        assert(s@.subrange(0, s@.len() as int) =~= s@);
    }
    let mut i: usize = 0;
    while i < s.len()
        invariant
            0 <= i <= s@.len(),
            first_usable_v6(s@) == first_usable_v6(s@.subrange(i as int, s@.len() as int)),
        decreases s@.len() - i,
    {
        assert(s@.subrange(i as int, s@.len() as int).drop_first() =~= s@.subrange(i + 1, s@.len() as int));
        let ip = s[i];
        if !crate::ip::is_local_address(&ip) {
            match ip {
                IpAddress::V6(a) => {
                    return Some(a);
                },
                IpAddress::V4(_) => {},
            }
        }
        i = i + 1;
    }
    None
}

fn lookup_interface(ifs: &Vec<NetworkInterfaceInfo>, name: &RawInterface) -> (r: Option<usize>)
    ensures
        r matches Some(k) ==> find_interface(ifs@, name@, 0) == Some(k as nat) && k < ifs@.len(),
        r is None ==> find_interface(ifs@, name@, 0) is None,
{
    let mut i: usize = 0;
    while i < ifs.len()
        invariant
            0 <= i <= ifs@.len(),
            find_interface(ifs@, name@, 0) == find_interface(ifs@, name@, i as nat),
        decreases ifs@.len() - i,
    {
        if ifs[i].name.eq(&name.0) {
            return Some(i);
        }
        i = i + 1;
    }
    None
}

impl WeightedAddress {
    /// Turns command-line sources into weighted sources. Each source names an
    /// interface of `interfaces` if one has that name; else it is the address
    /// `literal_ips` holds for it, `None` where its text is no IP address. Fails on
    /// the first source that is neither, names an interface without usable address,
    /// or is a loopback address.
    pub fn resolve(
        addresses: Vec<RawWeightedAddress>,
        interfaces: &Vec<NetworkInterfaceInfo>,
        literal_ips: &Vec<Option<IpAddress>>,
    ) -> (r: Result<Vec<WeightedAddress>, ResolveError>)
        requires
            literal_ips@.len() == addresses@.len(),
        ensures
            r is Ok <==> forall|i: int|
                0 <= i < addresses@.len() ==> resolve_error(
                    (#[trigger] addresses@[i]).spec_interface(),
                    interfaces@,
                    literal_ips@[i],
                    i as usize,
                ) is None,
            r matches Ok(v) ==> v@.len() == addresses@.len() && forall|i: int|
                0 <= i < v@.len() ==> resolves_to(
                    #[trigger] v@[i],
                    addresses@[i].spec_interface(),
                    addresses@[i].spec_weight(),
                    interfaces@,
                    literal_ips@[i],
                ),
            r matches Err(e) ==> exists|i: int|
                0 <= i < addresses@.len() && (forall|j: int|
                    0 <= j < i ==> resolve_error(
                        (#[trigger] addresses@[j]).spec_interface(),
                        interfaces@,
                        literal_ips@[j],
                        j as usize,
                    ) is None) && resolve_error(
                    addresses@[i].spec_interface(),
                    interfaces@,
                    literal_ips@[i],
                    i as usize,
                ) == Some(e),
    {
        let mut resolved: Vec<WeightedAddress> = Vec::new();
        let mut i: usize = 0;
        while i < addresses.len()
            invariant
                0 <= i <= addresses@.len(),
                literal_ips@.len() == addresses@.len(),
                resolved@.len() == i,
                forall|j: int|
                    0 <= j < i ==> resolve_error(
                        (#[trigger] addresses@[j]).spec_interface(),
                        interfaces@,
                        literal_ips@[j],
                        j as usize,
                    ) is None,
                forall|j: int|
                    0 <= j < i ==> resolves_to(
                        #[trigger] resolved@[j],
                        addresses@[j].spec_interface(),
                        addresses@[j].spec_weight(),
                        interfaces@,
                        literal_ips@[j],
                    ),
            decreases addresses@.len() - i,
        {
            let raw = &addresses[i];
            let weight = raw.weight();
            match lookup_interface(interfaces, raw.interface()) {
                Some(k) => {
                    let info = &interfaces[k];
                    let ipv4 = usable_v4(&info.addresses);
                    let ipv6 = usable_v6(&info.addresses);
                    if ipv4.is_none() && ipv6.is_none() {
                        return Err(ResolveError::NoUsableAddress { index: i });
                    }
                    let name = info.name.clone();
                    resolved.push(WeightedAddress { interface: Interface::Named { name, ipv4, ipv6 }, weight });
                },
                None => match literal_ips[i] {
                    Some(ip) => {
                        if ip.is_loopback() {
                            return Err(ResolveError::LoopbackAddress { index: i, ip });
                        }
                        resolved.push(WeightedAddress { interface: Interface::Ip(ip), weight });
                    },
                    None => {
                        return Err(ResolveError::Unrecognized { index: i });
                    },
                },
            }
            i = i + 1;
        }
        Ok(resolved)
    }
}

} // verus!
