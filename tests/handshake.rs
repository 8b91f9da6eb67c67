use dispatch_proxy::{
    bind_error, connect_failure_status, copy_outcome, client_already_closed, diagnose_version_error,
    parse_v4_request, parse_v5_request, Action, DispatchError, Event, Frame, HandshakeError,
    IpAddress, Phase, RelayIoError, RelaySide, SocketAddress, SocksHandshake, SocksVersion,
    TargetHost, V5Status,
};

fn v4(a: u8, b: u8, c: u8, d: u8) -> IpAddress {
    IpAddress::V4(u32::from_be_bytes([a, b, c, d]))
}

/// Feeds client bytes for as long as the handshake asks to read, collecting what it
/// writes, and returns the first action that is not a read.
fn feed(h: &mut SocksHandshake, input: &[u8], pos: &mut usize, first: Action, writes: &mut Vec<Vec<u8>>) -> Action {
    let mut action = first;
    loop {
        let chunk = match action {
            Action::ReadExact(n) => {
                assert!(*pos + n <= input.len(), "handshake wants more bytes than were sent");
                input[*pos..*pos + n].to_vec()
            }
            Action::ReadSome(n) => input[*pos..input.len().min(*pos + n)].to_vec(),
            other => return other,
        };
        *pos += chunk.len();
        let step = h.step(Event::Read(chunk));
        if let Some(w) = step.write {
            writes.push(w);
        }
        action = step.action;
    }
}

fn apply(h: &mut SocksHandshake, event: Event, writes: &mut Vec<Vec<u8>>) -> Action {
    let step = h.step(event);
    if let Some(w) = step.write {
        writes.push(w);
    }
    step.action
}

#[test]
fn socks5_connect_succeeds() {
    let input = [0x05, 0x01, 0x00, 0x05, 0x01, 0x00, 0x01, 0x01, 0x01, 0x01, 0x01, 0x00, 0x50];
    let mut h = SocksHandshake::new();
    let mut writes = vec![];
    let mut pos = 0;
    let start = h.start();
    let action = feed(&mut h, &input, &mut pos, start, &mut writes);
    let target = SocketAddress { ip: v4(1, 1, 1, 1), port: 80 };
    assert!(matches!(action, Action::Dispatch(t) if t == target));
    let action = apply(&mut h, Event::Dispatched(Ok(v4(10, 0, 0, 1))), &mut writes);
    assert!(matches!(action, Action::Connect { local, remote } if local == v4(10, 0, 0, 1) && remote == target));
    let action = apply(&mut h, Event::Connected(Ok(())), &mut writes);
    assert!(matches!(action, Action::Relay));
    assert_eq!(pos, input.len());
    assert_eq!(writes, vec![vec![0x05, 0x00], vec![0x05, 0x00, 0x00, 0x01, 0, 0, 0, 0, 0, 0]]);
    assert_eq!(h.phase_now(), Phase::Established);
}

#[test]
fn socks5_bind_is_refused() {
    let input = [0x05, 0x01, 0x00, 0x05, 0x02, 0x00, 0x01, 0x01, 0x01, 0x01, 0x01, 0x00, 0x50];
    let mut h = SocksHandshake::new();
    let mut writes = vec![];
    let mut pos = 0;
    let start = h.start();
    let action = feed(&mut h, &input, &mut pos, start, &mut writes);
    assert!(matches!(
        action,
        Action::Fail(HandshakeError::UnsupportedCommand { version: SocksVersion::V5, command: 2 })
    ));
    assert_eq!(writes, vec![vec![0x05, 0x00], vec![0x05, 0x07, 0x00, 0x01, 0, 0, 0, 0, 0, 0]]);
    assert_eq!(h.phase_now(), Phase::Failed);
}

#[test]
fn socks4_connect_succeeds() {
    let input = [0x04, 0x01, 0x00, 0x50, 0x01, 0x01, 0x01, 0x01, 0x00];
    let mut h = SocksHandshake::new();
    let mut writes = vec![];
    let mut pos = 0;
    let start = h.start();
    let action = feed(&mut h, &input, &mut pos, start, &mut writes);
    let target = SocketAddress { ip: v4(1, 1, 1, 1), port: 80 };
    assert!(matches!(action, Action::Dispatch(t) if t == target));
    apply(&mut h, Event::Dispatched(Ok(v4(10, 0, 0, 1))), &mut writes);
    let action = apply(&mut h, Event::Connected(Ok(())), &mut writes);
    assert!(matches!(action, Action::Relay));
    assert_eq!(writes, vec![vec![0x00, 0x5A, 0, 0, 0, 0, 0, 0]]);
}

#[test]
fn http_request_is_diagnosed_without_reply() {
    let input = b"GET / HTTP/1.1\r\nHost: x\r\n\r\n";
    let mut h = SocksHandshake::new();
    let mut writes = vec![];
    let mut pos = 0;
    let start = h.start();
    let action = feed(&mut h, input, &mut pos, start, &mut writes);
    match action {
        Action::Fail(HandshakeError::HttpClientOnSocksListener { first_line, not_shown }) => {
            assert_eq!(first_line, b"GET / HTTP/1.1".to_vec());
            assert_eq!(not_shown, input.len() - 14);
        }
        other => panic!("unexpected action {:?}", other),
    }
    assert!(writes.is_empty());
}

#[test]
fn g_then_http_line_names_the_first_line() {
    let mut buf = vec![b'G'];
    buf.extend_from_slice(b"ET / HTTP/1.1\r\n");
    match diagnose_version_error(&buf) {
        HandshakeError::HttpClientOnSocksListener { first_line, not_shown } => {
            assert_eq!(first_line, b"GET / HTTP/1.1".to_vec());
            assert_eq!(not_shown, 2);
        }
        other => panic!("unexpected {:?}", other),
    }
}

#[test]
fn z_is_an_invalid_version() {
    let mut h = SocksHandshake::new();
    let step = h.step(Event::Read(vec![b'Z']));
    assert!(step.write.is_none());
    assert!(matches!(step.action, Action::Fail(HandshakeError::InvalidSocksVersion(0x5A))));
}

#[test]
fn http_initial_without_method_is_an_invalid_version() {
    assert!(matches!(
        diagnose_version_error(b"GXT / nothing"),
        HandshakeError::InvalidSocksVersion(b'G')
    ));
}

#[test]
fn socks5_zero_address_is_still_dispatched() {
    let input = [0x05, 0x01, 0x00, 0x05, 0x01, 0x00, 0x01, 0, 0, 0, 0, 0, 0];
    let mut h = SocksHandshake::new();
    let mut writes = vec![];
    let mut pos = 0;
    let start = h.start();
    let action = feed(&mut h, &input, &mut pos, start, &mut writes);
    let target = SocketAddress { ip: IpAddress::V4(0), port: 0 };
    assert!(matches!(action, Action::Dispatch(t) if t == target));
    let mismatch = DispatchError::AddressFamilyMismatch { remote: target };
    let action = apply(&mut h, Event::Dispatched(Err(mismatch)), &mut writes);
    assert!(matches!(action, Action::Fail(HandshakeError::DispatchFailed(e)) if e == mismatch));
    assert_eq!(writes, vec![vec![0x05, 0x00], vec![0x05, 0x01, 0x00, 0x01, 0, 0, 0, 0, 0, 0]]);
}

#[test]
fn socks5_without_noauth_is_refused_silently() {
    let input = [0x05, 0x01, 0x02];
    let mut h = SocksHandshake::new();
    let mut writes = vec![];
    let mut pos = 0;
    let start = h.start();
    let action = feed(&mut h, &input, &mut pos, start, &mut writes);
    assert!(matches!(action, Action::Fail(HandshakeError::AuthMethodUnsupported)));
    assert!(writes.is_empty());
}

#[test]
fn socks5_zero_methods_is_malformed() {
    let input = [0x05, 0x00];
    let mut h = SocksHandshake::new();
    let mut writes = vec![];
    let mut pos = 0;
    let start = h.start();
    let action = feed(&mut h, &input, &mut pos, start, &mut writes);
    assert!(matches!(action, Action::Fail(HandshakeError::MalformedMessage)));
}

#[test]
fn socks5_connect_refused_reports_status() {
    let input = [0x05, 0x01, 0x00, 0x05, 0x01, 0x00, 0x01, 0x01, 0x01, 0x01, 0x01, 0x00, 0x50];
    let mut h = SocksHandshake::new();
    let mut writes = vec![];
    let mut pos = 0;
    let start = h.start();
    feed(&mut h, &input, &mut pos, start, &mut writes);
    apply(&mut h, Event::Dispatched(Ok(v4(10, 0, 0, 1))), &mut writes);
    let action = apply(&mut h, Event::Connected(Err(Some(111))), &mut writes);
    assert!(matches!(action, Action::Fail(HandshakeError::RemoteConnectFailed { os_error: Some(111), .. })));
    assert_eq!(writes[1], vec![0x05, 0x05, 0x00, 0x01, 0, 0, 0, 0, 0, 0]);
    assert_eq!(writes.len(), 2);
    let after = h.step(Event::Connected(Ok(())));
    assert!(after.write.is_none());
}

#[test]
fn socks5_domain_that_does_not_resolve() {
    let mut input = vec![0x05, 0x01, 0x00, 0x05, 0x01, 0x00, 0x03, 11];
    input.extend_from_slice(b"example.com");
    input.extend_from_slice(&[0x01, 0xBB]);
    let mut h = SocksHandshake::new();
    let mut writes = vec![];
    let mut pos = 0;
    let start = h.start();
    let action = feed(&mut h, &input, &mut pos, start, &mut writes);
    match action {
        Action::Resolve { domain, port } => {
            assert_eq!(domain, b"example.com".to_vec());
            assert_eq!(port, 443);
        }
        other => panic!("unexpected {:?}", other),
    }
    let action = apply(&mut h, Event::Resolved(None), &mut writes);
    match action {
        Action::Fail(HandshakeError::HostResolutionFailed(d)) => assert_eq!(d, b"example.com".to_vec()),
        other => panic!("unexpected {:?}", other),
    }
    assert_eq!(writes[1], vec![0x05, 0x04, 0x00, 0x01, 0, 0, 0, 0, 0, 0]);
}

#[test]
fn socks4a_domain_request_resolves_then_dispatches() {
    let mut input = vec![0x04, 0x01, 0x1F, 0x90, 0, 0, 0, 1];
    input.extend_from_slice(b"bob\0example.org\0");
    let mut h = SocksHandshake::new();
    let mut writes = vec![];
    let mut pos = 0;
    let start = h.start();
    let action = feed(&mut h, &input, &mut pos, start, &mut writes);
    assert!(matches!(&action, Action::Resolve { domain, port: 8080 } if domain == b"example.org"));
    let resolved = SocketAddress { ip: v4(93, 184, 216, 34), port: 0 };
    let action = apply(&mut h, Event::Resolved(Some(resolved)), &mut writes);
    let target = SocketAddress { ip: v4(93, 184, 216, 34), port: 8080 };
    assert!(matches!(action, Action::Dispatch(t) if t == target));
    assert!(writes.is_empty());
}

#[test]
fn socks4_bind_is_refused() {
    let input = [0x04, 0x02, 0x00, 0x50, 0x01, 0x01, 0x01, 0x01, 0x00];
    let mut h = SocksHandshake::new();
    let mut writes = vec![];
    let mut pos = 0;
    let start = h.start();
    let action = feed(&mut h, &input, &mut pos, start, &mut writes);
    assert!(matches!(
        action,
        Action::Fail(HandshakeError::UnsupportedCommand { version: SocksVersion::V4, command: 2 })
    ));
    assert_eq!(writes, vec![vec![0x00, 0x5B, 0, 0, 0, 0, 0, 0]]);
}

#[test]
fn bind_failure_is_classified() {
    let ip = v4(10, 0, 0, 9);
    assert!(matches!(bind_error(ip, Some(99)), HandshakeError::LocalAddressInaccessible(x) if x == ip));
    assert!(matches!(bind_error(ip, Some(49)), HandshakeError::LocalAddressInaccessible(_)));
    assert!(matches!(bind_error(ip, Some(13)), HandshakeError::BindIoError(Some(13))));
    let mut h = SocksHandshake::new();
    let mut writes = vec![];
    let mut pos = 0;
    let input = [0x04, 0x01, 0x00, 0x50, 0x01, 0x01, 0x01, 0x01, 0x00];
    let start = h.start();
    feed(&mut h, &input, &mut pos, start, &mut writes);
    apply(&mut h, Event::Dispatched(Ok(ip)), &mut writes);
    let action = apply(&mut h, Event::BindFailed(Some(99)), &mut writes);
    assert!(matches!(action, Action::Fail(HandshakeError::LocalAddressInaccessible(_))));
    assert_eq!(writes, vec![vec![0x00, 0x5B, 0, 0, 0, 0, 0, 0]]);
}

#[test]
fn connect_errors_map_to_socks5_statuses() {
    assert_eq!(connect_failure_status(Some(101)), V5Status::NetworkUnreachable);
    assert_eq!(connect_failure_status(Some(110)), V5Status::TtlExpired);
    assert_eq!(connect_failure_status(Some(111)), V5Status::ConnectionRefused);
    assert_eq!(connect_failure_status(Some(113)), V5Status::HostUnreachable);
    assert_eq!(connect_failure_status(Some(1)), V5Status::ServerFailure);
    assert_eq!(connect_failure_status(None), V5Status::ServerFailure);
}

#[test]
fn v5_request_frames() {
    assert!(matches!(parse_v5_request(&[0x05, 0x01]), Frame::Need(2)));
    assert!(matches!(parse_v5_request(&[0x04]), Frame::Malformed));
    assert!(matches!(parse_v5_request(&[0x05, 0x09]), Frame::Need(2)));
    assert!(matches!(parse_v5_request(&[0x05, 0x01, 0x00, 0x02]), Frame::Malformed));
    assert!(matches!(parse_v5_request(&[0x05, 0x01, 0x00, 0x04]), Frame::Need(18)));
    let mut v6 = vec![0x05, 0x01, 0x00, 0x04];
    v6.extend_from_slice(&[0x20, 0x01, 0x0d, 0xb8, 0, 0, 0, 0, 0, 0, 0, 0, 0, 0, 0, 1]);
    v6.extend_from_slice(&[0x01, 0xBB]);
    match parse_v5_request(&v6) {
        Frame::Done(r) => {
            assert!(matches!(r.host, TargetHost::Ip(IpAddress::V6(0x2001_0db8_0000_0000_0000_0000_0000_0001))));
            assert_eq!(r.port, 443);
            assert_eq!(r.command, 1);
        }
        other => panic!("unexpected {:?}", other),
    }
}

#[test]
fn v4_request_frames() {
    assert!(matches!(parse_v4_request(&[0x01, 0x00]), Frame::Need(5)));
    assert!(matches!(parse_v4_request(&[0x03]), Frame::Need(6)));
    assert!(matches!(parse_v4_request(&[0x01, 0x00, 0x50, 1, 2, 3, 4, b'u']), Frame::Need(1)));
    match parse_v4_request(&[0x01, 0x00, 0x50, 1, 2, 3, 4, b'u', 0]) {
        Frame::Done(r) => {
            assert!(matches!(r.host, TargetHost::Ip(ip) if ip == v4(1, 2, 3, 4)));
            assert_eq!(r.port, 80);
        }
        other => panic!("unexpected {:?}", other),
    }
}

#[test]
fn reset_ends_a_copy_cleanly() {
    assert_eq!(copy_outcome(RelaySide::ClientToRemote, Ok(42)), Ok(()));
    assert_eq!(copy_outcome(RelaySide::ClientToRemote, Err(Some(104))), Ok(()));
    assert_eq!(copy_outcome(RelaySide::RemoteToClient, Err(Some(54))), Ok(()));
    assert_eq!(
        copy_outcome(RelaySide::RemoteToClient, Err(Some(32))),
        Err(RelayIoError { side: RelaySide::RemoteToClient, os_error: Some(32) })
    );
}

#[test]
fn einval_on_peer_query_means_client_left() {
    assert!(client_already_closed(Some(22)));
    assert!(!client_already_closed(Some(104)));
    assert!(!client_already_closed(None));
}

#[test]
fn reply_bytes_are_exact() {
    assert_eq!(dispatch_proxy::v5_reply(V5Status::Success), vec![5, 0, 0, 1, 0, 0, 0, 0, 0, 0]);
    assert_eq!(dispatch_proxy::v5_reply(V5Status::TtlExpired), vec![5, 6, 0, 1, 0, 0, 0, 0, 0, 0]);
    assert_eq!(dispatch_proxy::v4_reply(dispatch_proxy::V4Status::Failed), vec![0, 0x5B, 0, 0, 0, 0, 0, 0]);
}

#[test]
fn greeting_frames_and_methods() {
    assert!(matches!(dispatch_proxy::parse_v5_greeting(&[]), Frame::Need(1)));
    assert!(matches!(dispatch_proxy::parse_v5_greeting(&[3, 0]), Frame::Need(2)));
    match dispatch_proxy::parse_v5_greeting(&[2, 2, 0]) {
        Frame::Done(methods) => {
            assert_eq!(methods, vec![2, 0]);
            assert!(dispatch_proxy::supports_noauth(&methods));
        }
        other => panic!("unexpected {:?}", other),
    }
    assert!(!dispatch_proxy::supports_noauth(&[1, 2]));
}

#[test]
fn http_methods_and_first_line() {
    assert!(dispatch_proxy::looks_like_http(b"OPTIONS * HTTP/1.1"));
    assert!(dispatch_proxy::looks_like_http(b"DELETE /x"));
    assert!(!dispatch_proxy::looks_like_http(b"GE"));
    assert_eq!(dispatch_proxy::request_line(b"PUT /a\r\nHost: y"), b"PUT /a".to_vec());
    assert_eq!(dispatch_proxy::request_line(b"no line end"), b"no line end".to_vec());
}

#[test]
fn socks5_unknown_command_is_refused_with_a_reply() {
    let input = [0x05, 0x01, 0x00, 0x05, 0x04, 0x00, 0x01, 0x01, 0x01, 0x01, 0x01, 0x00, 0x50];
    let mut h = SocksHandshake::new();
    let mut writes = vec![];
    let mut pos = 0;
    let start = h.start();
    let action = feed(&mut h, &input, &mut pos, start, &mut writes);
    assert!(matches!(
        action,
        Action::Fail(HandshakeError::UnsupportedCommand { version: SocksVersion::V5, command: 4 })
    ));
    assert_eq!(writes, vec![vec![0x05, 0x00], vec![0x05, 0x07, 0x00, 0x01, 0, 0, 0, 0, 0, 0]]);
}

#[test]
fn socks4_unknown_command_is_refused_with_a_reply() {
    let input = [0x04, 0x03, 0x00, 0x50, 0x01, 0x01, 0x01, 0x01, 0x00];
    let mut h = SocksHandshake::new();
    let mut writes = vec![];
    let mut pos = 0;
    let start = h.start();
    let action = feed(&mut h, &input, &mut pos, start, &mut writes);
    assert!(matches!(
        action,
        Action::Fail(HandshakeError::UnsupportedCommand { version: SocksVersion::V4, command: 3 })
    ));
    assert_eq!(writes, vec![vec![0x00, 0x5B, 0, 0, 0, 0, 0, 0]]);
}

#[test]
fn socks4a_domain_that_does_not_resolve() {
    let mut input = vec![0x04, 0x01, 0x00, 0x50, 0, 0, 0, 9];
    input.extend_from_slice(b"\0nowhere.invalid\0");
    let mut h = SocksHandshake::new();
    let mut writes = vec![];
    let mut pos = 0;
    let start = h.start();
    feed(&mut h, &input, &mut pos, start, &mut writes);
    let action = apply(&mut h, Event::Resolved(None), &mut writes);
    match action {
        Action::Fail(HandshakeError::HostResolutionFailed(d)) => assert_eq!(d, b"nowhere.invalid".to_vec()),
        other => panic!("unexpected {:?}", other),
    }
    assert_eq!(writes, vec![vec![0x00, 0x5B, 0, 0, 0, 0, 0, 0]]);
}

#[test]
fn socks5_bind_failure_replies_server_failure() {
    let input = [0x05, 0x01, 0x00, 0x05, 0x01, 0x00, 0x01, 0x01, 0x01, 0x01, 0x01, 0x00, 0x50];
    let mut h = SocksHandshake::new();
    let mut writes = vec![];
    let mut pos = 0;
    let start = h.start();
    feed(&mut h, &input, &mut pos, start, &mut writes);
    apply(&mut h, Event::Dispatched(Ok(v4(10, 0, 0, 1))), &mut writes);
    let action = apply(&mut h, Event::BindFailed(Some(13)), &mut writes);
    assert!(matches!(action, Action::Fail(HandshakeError::BindIoError(Some(13)))));
    assert_eq!(writes, vec![vec![0x05, 0x00], vec![0x05, 0x01, 0x00, 0x01, 0, 0, 0, 0, 0, 0]]);
}
