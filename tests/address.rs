use dispatch_proxy::{
    is_local_address, Interface, IpAddress, NetworkInterfaceInfo, RawWeightedAddress,
    ResolveError, WeightedAddress,
};

fn v4(a: u8, b: u8, c: u8, d: u8) -> IpAddress {
    IpAddress::V4(u32::from_be_bytes([a, b, c, d]))
}

#[test]
fn source_text_round_trips() {
    let a = RawWeightedAddress::parse("eth0/3").unwrap();
    assert_eq!(a.interface().as_str(), "eth0");
    assert_eq!(a.weight(), 3);
    let text = a.to_text();
    assert_eq!(text, "eth0/3");
    let b = RawWeightedAddress::parse(&text).unwrap();
    assert_eq!(b.interface().as_str(), a.interface().as_str());
    assert_eq!(b.weight(), a.weight());
}

#[test]
fn weight_defaults_to_one() {
    let a = RawWeightedAddress::parse("192.168.1.10").unwrap();
    assert_eq!(a.interface().as_str(), "192.168.1.10");
    assert_eq!(a.weight(), 1);
    assert_eq!(a.to_text(), "192.168.1.10/1");
}

#[test]
fn weight_may_carry_a_plus_sign() {
    let a = RawWeightedAddress::parse("wlan0/+7").unwrap();
    assert_eq!(a.weight(), 7);
}

#[test]
fn text_after_a_second_slash_is_ignored() {
    let a = RawWeightedAddress::parse("en0/2/9").unwrap();
    assert_eq!(a.interface().as_str(), "en0");
    assert_eq!(a.weight(), 2);
}

#[test]
fn bad_weights_are_rejected() {
    assert!(RawWeightedAddress::parse("eth0/0").is_err());
    assert!(RawWeightedAddress::parse("eth0/").is_err());
    assert!(RawWeightedAddress::parse("eth0/+").is_err());
    assert!(RawWeightedAddress::parse("eth0/-1").is_err());
    assert!(RawWeightedAddress::parse("eth0/x").is_err());
    assert!(RawWeightedAddress::parse("eth0/99999999999999999999999").is_err());
}

#[test]
fn local_addresses_are_recognised() {
    assert!(is_local_address(&v4(127, 0, 0, 1)));
    assert!(is_local_address(&v4(169, 254, 3, 4)));
    assert!(!is_local_address(&v4(10, 0, 0, 1)));
    assert!(is_local_address(&IpAddress::V6(1)));
    assert!(is_local_address(&IpAddress::V6(0xfe80_0000_0000_0000_0000_0000_0000_0001)));
    assert!(!is_local_address(&IpAddress::V6(0x2001_0db8_0000_0000_0000_0000_0000_0001)));
}

fn interfaces() -> Vec<NetworkInterfaceInfo> {
    vec![
        NetworkInterfaceInfo {
            name: "lo".to_string(),
            addresses: vec![v4(127, 0, 0, 1), IpAddress::V6(1)],
        },
        NetworkInterfaceInfo {
            name: "eth0".to_string(),
            addresses: vec![
                IpAddress::V6(0xfe80_0000_0000_0000_0000_0000_0000_0009),
                v4(192, 168, 1, 5),
                IpAddress::V6(0x2001_0db8_0000_0000_0000_0000_0000_0005),
                v4(192, 168, 1, 6),
            ],
        },
    ]
}

#[test]
fn resolves_names_then_literals() {
    let raws = vec![
        RawWeightedAddress::parse("eth0/2").unwrap(),
        RawWeightedAddress::parse("10.0.0.3").unwrap(),
    ];
    let literals = vec![None, Some(v4(10, 0, 0, 3))];
    let out = WeightedAddress::resolve(raws, &interfaces(), &literals).unwrap();
    assert_eq!(out.len(), 2);
    match &out[0].interface {
        Interface::Named { name, ipv4, ipv6 } => {
            assert_eq!(name, "eth0");
            assert_eq!(*ipv4, Some(u32::from_be_bytes([192, 168, 1, 5])));
            assert_eq!(*ipv6, Some(0x2001_0db8_0000_0000_0000_0000_0000_0005));
        }
        other => panic!("unexpected {:?}", other),
    }
    assert_eq!(out[0].weight, 2);
    assert!(matches!(out[1].interface, Interface::Ip(ip) if ip == v4(10, 0, 0, 3)));
    assert_eq!(out[1].weight, 1);
}

#[test]
fn loopback_interface_has_no_usable_address() {
    let raws = vec![RawWeightedAddress::parse("lo").unwrap()];
    let r = WeightedAddress::resolve(raws, &interfaces(), &vec![None]);
    assert!(matches!(r, Err(ResolveError::NoUsableAddress { index: 0 })));
}

#[test]
fn loopback_literal_is_rejected() {
    let raws = vec![
        RawWeightedAddress::parse("eth0").unwrap(),
        RawWeightedAddress::parse("127.0.0.1").unwrap(),
    ];
    let r = WeightedAddress::resolve(raws, &interfaces(), &vec![None, Some(v4(127, 0, 0, 1))]);
    assert!(matches!(r, Err(ResolveError::LoopbackAddress { index: 1, .. })));
}

#[test]
fn unknown_text_is_unrecognized() {
    let raws = vec![RawWeightedAddress::parse("nope0/4").unwrap()];
    let r = WeightedAddress::resolve(raws, &interfaces(), &vec![None]);
    assert!(matches!(r, Err(ResolveError::Unrecognized { index: 0 })));
}
