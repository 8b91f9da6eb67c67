//! The SOCKS handshake as a state machine from events to writes and actions.

use vstd::prelude::*;

use crate::dispatcher::DispatchError;
use crate::ip::{IpAddress, SocketAddress};
use crate::socks::{
    bind_error, connect_failure_status, diagnose_version_error, is_http_initial,
    noauth_selection_bytes, spec_bind_error, spec_connect_failure_status, spec_diagnose,
    supports_noauth, v4_reply, v4_reply_bytes, v5_reply, v5_reply_bytes, ErrorModel,
    HandshakeError, SocksVersion, V4Status, V5Status, HTTP_PROBE_LEN,
};
use crate::wire::{
    parse_v4_request, parse_v5_greeting, parse_v5_request, v4_request_model,
    v5_greeting_model, v5_request_model, Frame, FrameModel, HostModel, RequestModel,
    SocksRequest, TargetHost,
};

verus! {

/// Where a handshake stands.
#[derive(Clone, Copy, Debug, PartialEq, Eq, Structural)]
pub enum Phase {
    /// Waiting for the version byte.
    AwaitVersion,
    /// The first byte could begin an HTTP method; waiting for what follows it.
    HttpProbe { first: u8 },
    AwaitV5Greeting,
    AwaitV5Request,
    AwaitV4Request,
    /// Waiting for the destination domain to resolve.
    AwaitResolution { version: SocksVersion, port: u16 },
    /// Waiting for the dispatcher's choice of local address.
    AwaitDispatch { version: SocksVersion, remote: SocketAddress },
    /// Waiting for the outbound socket to bind to `local` and connect.
    AwaitConnect { version: SocksVersion, remote: SocketAddress, local: IpAddress },
    /// Success was replied; the connection is ready to relay.
    Established,
    /// The handshake failed.
    Failed,
}

/// What the caller observed after the last action.
#[derive(Debug)]
pub enum Event {
    /// Bytes read from the client.
    Read(Vec<u8>),
    /// The first address the destination domain resolved to, if any.
    Resolved(Option<SocketAddress>),
    /// The dispatcher's answer.
    Dispatched(Result<IpAddress, DispatchError>),
    /// Binding the outbound socket failed, with this OS error number.
    BindFailed(Option<i32>),
    /// The outcome of connecting the bound socket, with the OS error number of a failure.
    Connected(Result<(), Option<i32>>),
}

/// What the caller does next.
#[derive(Clone, Debug)]
pub enum Action {
    /// Read exactly this many bytes from the client.
    ReadExact(usize),
    /// Make one read of at most this many bytes from the client.
    ReadSome(usize),
    /// Resolve the domain with the host's resolver.
    Resolve { domain: Vec<u8>, port: u16 },
    /// Ask the dispatcher for a local address to reach `remote` from.
    Dispatch(SocketAddress),
    /// Bind an outbound socket to `local` and connect it to `remote`.
    Connect { local: IpAddress, remote: SocketAddress },
    /// Relay between the client and the connected socket.
    Relay,
    /// Close the connection.
    Fail(HandshakeError),
}

/// The bytes to write to the client, if any, then the next action.
#[derive(Clone, Debug)]
pub struct Step {
    pub write: Option<Vec<u8>>,
    pub action: Action,
}

pub ghost enum EventModel {
    Read(Seq<u8>),
    Resolved(Option<SocketAddress>),
    Dispatched(Result<IpAddress, DispatchError>),
    BindFailed(Option<i32>),
    Connected(Result<(), Option<i32>>),
}

pub ghost enum ActionModel {
    ReadExact(nat),
    ReadSome(nat),
    Resolve { domain: Seq<u8>, port: u16 },
    Dispatch(SocketAddress),
    Connect { local: IpAddress, remote: SocketAddress },
    Relay,
    Fail(ErrorModel),
}

/// One transition: the next phase, the bytes kept of a message not yet complete,
/// the bytes to write, and the next action.
pub ghost struct Transition {
    pub phase: Phase,
    pub buffer: Seq<u8>,
    pub write: Option<Seq<u8>>,
    pub action: ActionModel,
}

impl View for Event {
    type V = EventModel;

    open spec fn view(&self) -> EventModel {
        match self {
            Event::Read(b) => EventModel::Read(b@),
            Event::Resolved(a) => EventModel::Resolved(*a),
            Event::Dispatched(r) => EventModel::Dispatched(*r),
            Event::BindFailed(c) => EventModel::BindFailed(*c),
            Event::Connected(r) => EventModel::Connected(*r),
        }
    }
}

impl View for Action {
    type V = ActionModel;

    open spec fn view(&self) -> ActionModel {
        match self {
            Action::ReadExact(n) => ActionModel::ReadExact(*n as nat),
            Action::ReadSome(n) => ActionModel::ReadSome(*n as nat),
            Action::Resolve { domain, port } => ActionModel::Resolve { domain: domain@, port: *port },
            Action::Dispatch(a) => ActionModel::Dispatch(*a),
            Action::Connect { local, remote } => ActionModel::Connect {
                local: *local,
                remote: *remote,
            },
            Action::Relay => ActionModel::Relay,
            Action::Fail(e) => ActionModel::Fail(e@),
        }
    }
}

pub open spec fn write_view(w: Option<Vec<u8>>) -> Option<Seq<u8>> {
    match w {
        Some(b) => Some(b@),
        None => None,
    }
}

pub open spec fn is_terminal(p: Phase) -> bool {
    p is Established || p is Failed
}

pub open spec fn go(phase: Phase, action: ActionModel) -> Transition {
    Transition { phase, buffer: Seq::empty(), write: None, action }
}

pub open spec fn fail(e: ErrorModel) -> Transition {
    Transition { phase: Phase::Failed, buffer: Seq::empty(), write: None, action: ActionModel::Fail(e) }
}

/// Fails after writing `reply`.
pub open spec fn fail_replying(reply: Seq<u8>, e: ErrorModel) -> Transition {
    Transition {
        phase: Phase::Failed,
        buffer: Seq::empty(),
        write: Some(reply),
        action: ActionModel::Fail(e),
    }
}

/// The failure reply of each version, SOCKSv5 with status `s`.
pub open spec fn failure_reply(version: SocksVersion, s: V5Status) -> Seq<u8> {
    match version {
        SocksVersion::V5 => v5_reply_bytes(s),
        SocksVersion::V4 => v4_reply_bytes(V4Status::Failed),
    }
}

pub open spec fn success_reply(version: SocksVersion) -> Seq<u8> {
    match version {
        SocksVersion::V5 => v5_reply_bytes(V5Status::Success),
        SocksVersion::V4 => v4_reply_bytes(V4Status::Granted),
    }
}

/// What a complete request leads to: a reply refusing any command but CONNECT;
/// else a dispatch for an address, or a resolution for a domain name.
pub open spec fn request_transition(version: SocksVersion, req: RequestModel) -> Transition {
    if req.command != 1 {
        fail_replying(
            failure_reply(version, V5Status::CommandNotSupported),
            ErrorModel::UnsupportedCommand { version, command: req.command },
        )
    } else {
        match req.host {
            HostModel::Ip(ip) => {
                let remote = SocketAddress { ip, port: req.port };
                go(Phase::AwaitDispatch { version, remote }, ActionModel::Dispatch(remote))
            },
            HostModel::Domain(d) => go(
                Phase::AwaitResolution { version, port: req.port },
                ActionModel::Resolve { domain: d, port: req.port },
            ),
        }
    }
}

/// Keeps the bytes of an incomplete message and asks for the rest.
pub open spec fn need_more(phase: Phase, buffer: Seq<u8>, n: nat) -> Transition {
    Transition { phase, buffer, write: None, action: ActionModel::ReadExact(n) }
}

/// The handshake's transition function.
pub open spec fn transition(p: Phase, buffer: Seq<u8>, domain: Seq<u8>, e: EventModel) -> Transition {
    match (p, e) {
        (Phase::AwaitVersion, EventModel::Read(b)) => {
            if b.len() == 0 {
                need_more(p, buffer, 1)
            } else if b[0] == 5 {
                go(Phase::AwaitV5Greeting, ActionModel::ReadExact(1))
            } else if b[0] == 4 {
                go(Phase::AwaitV4Request, ActionModel::ReadExact(1))
            } else if is_http_initial(b[0]) {
                go(Phase::HttpProbe { first: b[0] }, ActionModel::ReadSome(HTTP_PROBE_LEN as nat))
            } else {
                fail(ErrorModel::InvalidSocksVersion(b[0]))
            }
        },
        (Phase::HttpProbe { first }, EventModel::Read(b)) => fail(
            spec_diagnose(seq![first] + b),
        ),
        (Phase::AwaitV5Greeting, EventModel::Read(b)) => match v5_greeting_model(buffer + b) {
            FrameModel::Need(n) => need_more(p, buffer + b, n),
            FrameModel::Malformed => fail(ErrorModel::MalformedMessage),
            FrameModel::Done(methods) => if methods.contains(0u8) {
                Transition {
                    phase: Phase::AwaitV5Request,
                    buffer: Seq::empty(),
                    write: Some(noauth_selection_bytes()),
                    action: ActionModel::ReadExact(1),
                }
            } else {
                fail(ErrorModel::AuthMethodUnsupported)
            },
        },
        (Phase::AwaitV5Request, EventModel::Read(b)) => match v5_request_model(buffer + b) {
            FrameModel::Need(n) => need_more(p, buffer + b, n),
            FrameModel::Malformed => fail(ErrorModel::MalformedMessage),
            FrameModel::Done(req) => request_transition(SocksVersion::V5, req),
        },
        (Phase::AwaitV4Request, EventModel::Read(b)) => match v4_request_model(buffer + b) {
            FrameModel::Need(n) => need_more(p, buffer + b, n),
            FrameModel::Malformed => fail(ErrorModel::MalformedMessage),
            FrameModel::Done(req) => request_transition(SocksVersion::V4, req),
        },
        (Phase::AwaitResolution { version, port }, EventModel::Resolved(r)) => match r {
            Some(a) => {
                let remote = SocketAddress { ip: a.ip, port };
                go(Phase::AwaitDispatch { version, remote }, ActionModel::Dispatch(remote))
            },
            None => fail_replying(
                failure_reply(version, V5Status::HostUnreachable),
                ErrorModel::HostResolutionFailed(domain),
            ),
        },
        (Phase::AwaitDispatch { version, remote }, EventModel::Dispatched(r)) => match r {
            Ok(local) => go(
                Phase::AwaitConnect { version, remote, local },
                ActionModel::Connect { local, remote },
            ),
            Err(e) => fail_replying(
                failure_reply(version, V5Status::ServerFailure),
                ErrorModel::DispatchFailed(e),
            ),
        },
        (Phase::AwaitConnect { version, remote, local }, EventModel::BindFailed(c)) => fail_replying(
            failure_reply(version, V5Status::ServerFailure),
            spec_bind_error(local, c),
        ),
        (Phase::AwaitConnect { version, remote, local }, EventModel::Connected(r)) => match r {
            Ok(()) => Transition {
                phase: Phase::Established,
                buffer: Seq::empty(),
                write: Some(success_reply(version)),
                action: ActionModel::Relay,
            },
            Err(c) => fail_replying(
                failure_reply(version, spec_connect_failure_status(c)),
                ErrorModel::RemoteConnectFailed { address: remote, os_error: c },
            ),
        },
        _ => fail(ErrorModel::UnexpectedEvent),
    }
}

/// The domain being resolved after transition `t`: the one `t` asks to resolve,
/// else the one before.
pub open spec fn next_domain(t: Transition, before: Seq<u8>) -> Seq<u8> {
    match t.action {
        ActionModel::Resolve { domain, .. } => domain,
        _ => before,
    }
}

/// A write that answers the request; the only other write is the SOCKSv5 method
/// selection, which leads to a phase that is not terminal.
pub open spec fn writes_reply(t: Transition) -> bool {
    t.write is Some && is_terminal(t.phase)
}

/// Replies are written at most once: a handshake that has ended writes nothing more
/// and stays failed, and every write but the SOCKSv5 method selection ends it.
pub proof fn lemma_reply_at_most_once(p: Phase, buffer: Seq<u8>, domain: Seq<u8>, e: EventModel)
    ensures
        is_terminal(p) ==> transition(p, buffer, domain, e).write is None
            && transition(p, buffer, domain, e).phase == Phase::Failed,
        transition(p, buffer, domain, e).write is Some ==> is_terminal(
            transition(p, buffer, domain, e).phase,
        ) || (p == Phase::AwaitV5Greeting && transition(p, buffer, domain, e).write == Some(
            noauth_selection_bytes(),
        ) && transition(p, buffer, domain, e).phase == Phase::AwaitV5Request),
{
}

/// The server side of one SOCKS handshake, free of I/O: each call of `step` takes
/// what the caller observed and says what to write and what to do next.
pub struct SocksHandshake {
    phase: Phase,
    buffer: Vec<u8>,
    domain: Vec<u8>,
    replies: Ghost<nat>,
}

impl SocksHandshake {
    pub closed spec fn phase(&self) -> Phase {
        self.phase
    }

    pub closed spec fn buffer(&self) -> Seq<u8> {
        self.buffer@
    }

    /// The domain name being resolved, once a request named one.
    pub closed spec fn domain(&self) -> Seq<u8> {
        self.domain@
    }

    /// How many replies to the request have been written.
    pub closed spec fn replies(&self) -> nat {
        self.replies@
    }

    /// At most one reply is ever written, and only on the way to a terminal phase.
    pub open spec fn wf(&self) -> bool {
        &&& self.replies() <= 1
        &&& !is_terminal(self.phase()) ==> self.replies() == 0
    }

    pub fn new() -> (r: SocksHandshake)
        ensures
            r.wf(),
            r.phase() == Phase::AwaitVersion,
            r.buffer() == Seq::<u8>::empty(),
            r.replies() == 0,
    {
        SocksHandshake {
            phase: Phase::AwaitVersion,
            buffer: Vec::new(),
            domain: Vec::new(),
            replies: Ghost(0),
        }
    }

    /// The first action: read the version byte.
    pub fn start(&self) -> (r: Action)
        ensures
            r@ == ActionModel::ReadExact(1),
    {
        Action::ReadExact(1)
    }

    pub fn phase_now(&self) -> (r: Phase)
        ensures
            r == self.phase(),
    {
        self.phase
    }

    /// Advances the handshake by one event.
    pub fn step(&mut self, event: Event) -> (r: Step)
        requires
            old(self).wf(),
        ensures
            final(self).wf(),
            ({
                let t = transition(old(self).phase(), old(self).buffer(), old(self).domain(), event@);
                &&& final(self).phase() == t.phase
                &&& final(self).buffer() == t.buffer
                &&& write_view(r.write) == t.write
                &&& r.action@ == t.action
                &&& final(self).domain() == next_domain(t, old(self).domain())
                &&& final(self).replies() == old(self).replies() + if writes_reply(t) {
                    1nat
                } else {
                    0nat
                }
            }),
    {
        let ghost t = transition(self.phase(), self.buffer(), self.domain(), event@);
        let r = self.advance(event);
        self.replies = Ghost(
            if writes_reply(t) {
                self.replies@ + 1
            } else {
                self.replies@
            },
        );
        r
    }

    fn advance(&mut self, event: Event) -> (r: Step)
        requires
            old(self).wf(),
        ensures
            final(self).replies() == old(self).replies(),
            !is_terminal(old(self).phase()) || !writes_reply(
                transition(old(self).phase(), old(self).buffer(), old(self).domain(), event@),
            ),
            ({
                let t = transition(old(self).phase(), old(self).buffer(), old(self).domain(), event@);
                &&& final(self).phase() == t.phase
                &&& final(self).buffer() == t.buffer
                &&& write_view(r.write) == t.write
                &&& r.action@ == t.action
                &&& final(self).domain() == next_domain(t, old(self).domain())
            }),
    {
        let phase = self.phase;
        match event {
            Event::Read(bytes) => match phase {
                Phase::AwaitVersion => {
                    if bytes.len() == 0 {
                        return Step { write: None, action: Action::ReadExact(1) };
                    }
                    let b = bytes[0];
                    if b == 5 {
                        self.go(Phase::AwaitV5Greeting, Action::ReadExact(1))
                    } else if b == 4 {
                        self.go(Phase::AwaitV4Request, Action::ReadExact(1))
                    } else if b == 67 || b == 71 || b == 80 || b == 72 || b == 68 || b == 79 || b == 84 {
                        self.go(Phase::HttpProbe { first: b }, Action::ReadSome(HTTP_PROBE_LEN))
                    } else {
                        self.fail(HandshakeError::InvalidSocksVersion(b))
                    }
                },
                Phase::HttpProbe { first } => {
                    let mut probe: Vec<u8> = vec![first];
                    let mut i: usize = 0;
                    while i < bytes.len()
                        invariant
                            0 <= i <= bytes@.len(),
                            probe@ == seq![first] + bytes@.subrange(0, i as int),
                        decreases bytes@.len() - i,
                    {
                        probe.push(bytes[i]);
                        proof {
                            assert(probe@ =~= seq![first] + bytes@.subrange(0, i + 1));
                        }
                        i = i + 1;
                    }
                    proof {
                        assert(bytes@.subrange(0, bytes@.len() as int) =~= bytes@);
                    }
                    let e = diagnose_version_error(probe.as_slice());
                    self.fail(e)
                },
                Phase::AwaitV5Greeting => {
                    let buf = self.take_with(&bytes);
                    match parse_v5_greeting(buf.as_slice()) {
                        Frame::Need(n) => self.keep(buf, n),
                        Frame::Malformed => self.fail(HandshakeError::MalformedMessage),
                        Frame::Done(methods) => {
                            if supports_noauth(methods.as_slice()) {
                                self.phase = Phase::AwaitV5Request;
                                self.buffer = Vec::new();
                                let sel = vec![5u8, 0u8];
                                proof {
                                    assert(sel@ =~= noauth_selection_bytes());
                                }
                                Step { write: Some(sel), action: Action::ReadExact(1) }
                            } else {
                                self.fail(HandshakeError::AuthMethodUnsupported)
                            }
                        },
                    }
                },
                Phase::AwaitV5Request => {
                    let buf = self.take_with(&bytes);
                    match parse_v5_request(buf.as_slice()) {
                        Frame::Need(n) => self.keep(buf, n),
                        Frame::Malformed => self.fail(HandshakeError::MalformedMessage),
                        Frame::Done(req) => self.on_request(SocksVersion::V5, req),
                    }
                },
                Phase::AwaitV4Request => {
                    let buf = self.take_with(&bytes);
                    match parse_v4_request(buf.as_slice()) {
                        Frame::Need(n) => self.keep(buf, n),
                        Frame::Malformed => self.fail(HandshakeError::MalformedMessage),
                        Frame::Done(req) => self.on_request(SocksVersion::V4, req),
                    }
                },
                _ => self.fail(HandshakeError::UnexpectedEvent),
            },
            Event::Resolved(r) => match phase {
                Phase::AwaitResolution { version, port } => match r {
                    Some(a) => {
                        let remote = SocketAddress { ip: a.ip, port };
                        self.go(Phase::AwaitDispatch { version, remote }, Action::Dispatch(remote))
                    },
                    None => {
                        let reply = failure_reply_bytes(version, V5Status::HostUnreachable);
                        let domain = copy_vec(&self.domain);
                        self.fail_replying(reply, HandshakeError::HostResolutionFailed(domain))
                    },
                },
                _ => self.fail(HandshakeError::UnexpectedEvent),
            },
            Event::Dispatched(r) => match phase {
                Phase::AwaitDispatch { version, remote } => match r {
                    Ok(local) => self.go(
                        Phase::AwaitConnect { version, remote, local },
                        Action::Connect { local, remote },
                    ),
                    Err(e) => {
                        let reply = failure_reply_bytes(version, V5Status::ServerFailure);
                        self.fail_replying(reply, HandshakeError::DispatchFailed(e))
                    },
                },
                _ => self.fail(HandshakeError::UnexpectedEvent),
            },
            Event::BindFailed(c) => match phase {
                Phase::AwaitConnect { version, remote, local } => {
                    let reply = failure_reply_bytes(version, V5Status::ServerFailure);
                    self.fail_replying(reply, bind_error(local, c))
                },
                _ => self.fail(HandshakeError::UnexpectedEvent),
            },
            Event::Connected(r) => match phase {
                Phase::AwaitConnect { version, remote, local } => match r {
                    Ok(()) => {
                        self.phase = Phase::Established;
                        self.buffer = Vec::new();
                        let reply = match version {
                            SocksVersion::V5 => v5_reply(V5Status::Success),
                            SocksVersion::V4 => v4_reply(V4Status::Granted),
                        };
                        Step { write: Some(reply), action: Action::Relay }
                    },
                    Err(c) => {
                        let reply = failure_reply_bytes(version, connect_failure_status(c));
                        self.fail_replying(
                            reply,
                            HandshakeError::RemoteConnectFailed { address: remote, os_error: c },
                        )
                    },
                },
                _ => self.fail(HandshakeError::UnexpectedEvent),
            },
        }
    }

    fn go(&mut self, phase: Phase, action: Action) -> (r: Step)
        ensures
            final(self).phase() == phase,
            final(self).buffer() == Seq::<u8>::empty(),
            final(self).domain() == old(self).domain(),
            final(self).replies() == old(self).replies(),
            r.write is None,
            r.action == action,
    {
        self.phase = phase;
        self.buffer = Vec::new();
        Step { write: None, action }
    }

    fn fail(&mut self, e: HandshakeError) -> (r: Step)
        ensures
            final(self).phase() == Phase::Failed,
            final(self).domain() == old(self).domain(),
            final(self).buffer() == Seq::<u8>::empty(),
            final(self).replies() == old(self).replies(),
            r.write is None,
            r.action@ == ActionModel::Fail(e@),
    {
        self.go(Phase::Failed, Action::Fail(e))
    }

    fn fail_replying(&mut self, reply: Vec<u8>, e: HandshakeError) -> (r: Step)
        ensures
            final(self).phase() == Phase::Failed,
            final(self).domain() == old(self).domain(),
            final(self).buffer() == Seq::<u8>::empty(),
            final(self).replies() == old(self).replies(),
            write_view(r.write) == Some(reply@),
            r.action@ == ActionModel::Fail(e@),
    {
        self.phase = Phase::Failed;
        self.buffer = Vec::new();
        Step { write: Some(reply), action: Action::Fail(e) }
    }

    /// The kept bytes followed by `bytes`.
    fn take_with(&mut self, bytes: &Vec<u8>) -> (r: Vec<u8>)
        ensures
            r@ == old(self).buffer() + bytes@,
            final(self).phase() == old(self).phase(),
            final(self).domain() == old(self).domain(),
            final(self).replies() == old(self).replies(),
    {
        let mut buf: Vec<u8> = Vec::new();
        let mut i: usize = 0;
        while i < self.buffer.len()
            invariant
                0 <= i <= self.buffer@.len(),
                buf@ == self.buffer@.subrange(0, i as int),
            decreases self.buffer@.len() - i,
        {
            buf.push(self.buffer[i]);
            proof {
                assert(buf@ =~= self.buffer@.subrange(0, i + 1));
            }
            i = i + 1;
        }
        let ghost kept = buf@;
        let mut j: usize = 0;
        while j < bytes.len()
            invariant
                0 <= j <= bytes@.len(),
                buf@ == kept + bytes@.subrange(0, j as int),
            decreases bytes@.len() - j,
        {
            buf.push(bytes[j]);
            proof {
                assert(buf@ =~= kept + bytes@.subrange(0, j + 1));
            }
            j = j + 1;
        }
        proof {
            assert(kept =~= self.buffer@);
            assert(bytes@.subrange(0, bytes@.len() as int) =~= bytes@);
        }
        buf
    }

    fn keep(&mut self, buf: Vec<u8>, n: usize) -> (r: Step)
        ensures
            final(self).phase() == old(self).phase(),
            final(self).buffer() == buf@,
            final(self).domain() == old(self).domain(),
            final(self).replies() == old(self).replies(),
            r.write is None,
            r.action@ == ActionModel::ReadExact(n as nat),
    {
        self.buffer = buf;
        Step { write: None, action: Action::ReadExact(n) }
    }

    fn on_request(&mut self, version: SocksVersion, req: SocksRequest) -> (r: Step)
        ensures
            ({
                let t = request_transition(version, req@);
                &&& final(self).phase() == t.phase
                &&& final(self).buffer() == t.buffer
                &&& write_view(r.write) == t.write
                &&& r.action@ == t.action
            }),
            final(self).replies() == old(self).replies(),
            req.command == 1 && req.host is Domain ==> final(self).domain() == req.host->Domain_0@,
            !(req.command == 1 && req.host is Domain) ==> final(self).domain() == old(self).domain(),
    {
        if req.command != 1 {
            let reply = failure_reply_bytes(version, V5Status::CommandNotSupported);
            return self.fail_replying(
                reply,
                HandshakeError::UnsupportedCommand { version, command: req.command },
            );
        }
        match req.host {
            TargetHost::Ip(ip) => {
                let remote = SocketAddress { ip, port: req.port };
                self.go(Phase::AwaitDispatch { version, remote }, Action::Dispatch(remote))
            },
            TargetHost::Domain(d) => {
                let domain = copy_vec(&d);
                self.domain = d;
                self.go(
                    Phase::AwaitResolution { version, port: req.port },
                    Action::Resolve { domain, port: req.port },
                )
            },
        }
    }
}

fn copy_vec(v: &Vec<u8>) -> (r: Vec<u8>)
    ensures
        r@ == v@,
{
    crate::bytes::copy_range(v.as_slice(), 0, v.len())
}

/// The failure reply of `version`, SOCKSv5 with status `s`.
fn failure_reply_bytes(version: SocksVersion, s: V5Status) -> (r: Vec<u8>)
    ensures
        r@ == failure_reply(version, s),
{
    match version {
        SocksVersion::V5 => v5_reply(s),
        SocksVersion::V4 => v4_reply(V4Status::Failed),
    }
}

} // verus!
