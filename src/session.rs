//! The per-session protocol state machine. It never touches a socket: the
//! caller reads the number of bytes it asks for, hands them in, sends what it
//! returns, and performs the connect or relay it calls for.
use vstd::prelude::*;

use crate::wire::{
    lemma_domain_field_round_trip, METHOD_NONE_ACCEPTABLE,
    be16, chosen_method, decode_domain_field, domain_field, domain_field_contents, failure_code, method_frame,
    method_selection_frame, port_from_be, reply, reply_code_for, reply_frame, select_method,
    ConnectFailure, ATYP_DOMAIN, ATYP_IPV4, CMD_CONNECT, METHOD_NO_AUTH, REP_ADDRESS_TYPE_NOT_SUPPORTED,
    REP_COMMAND_NOT_SUPPORTED, REP_GENERAL_FAILURE, REP_SUCCEEDED, SOCKS_VERSION,
};

verus! {

/// A destination address as a request carries it.
#[derive(Clone, Debug, PartialEq, Eq)]
pub enum Address {
    /// Four address bytes, most significant first.
    Ipv4([u8; 4]),
    /// A domain name of 1 to 255 bytes, to be resolved by the gateway.
    Domain(Vec<u8>),
}

/// The mathematical value of an [`Address`].
pub enum AddressModel {
    Ipv4(Seq<u8>),
    Domain(Seq<u8>),
}

impl Address {
    pub open spec fn model(&self) -> AddressModel {
        match self {
            Address::Ipv4(a) => AddressModel::Ipv4(a@),
            Address::Domain(d) => AddressModel::Domain(d@),
        }
    }
}

/// A validated CONNECT request: where to, and on which port.
#[derive(Clone, Debug, PartialEq, Eq)]
pub struct ConnectRequest {
    pub address: Address,
    pub port: u16,
}

/// The mathematical value of a [`ConnectRequest`].
pub struct RequestModel {
    pub address: AddressModel,
    pub port: u16,
}

impl ConnectRequest {
    pub open spec fn model(&self) -> RequestModel {
        RequestModel { address: self.address.model(), port: self.port }
    }
}

/// A malformed or unsupported handshake frame.
#[derive(Clone, Copy, Debug, PartialEq, Eq, Structural)]
pub enum ProtocolError {
    /// A greeting or request named a version other than 5.
    UnsupportedVersion(u8),
    /// The greeting did not offer "no authentication".
    NoAcceptableMethod,
    /// The request named a command other than CONNECT.
    CommandNotSupported(u8),
    /// The request named an address type other than IPv4 or domain name.
    AddressTypeNotSupported(u8),
    /// The request named a domain of length zero.
    EmptyDomainName,
}

/// Why a session ends.
#[derive(Clone, Copy, Debug, PartialEq, Eq, Structural)]
pub enum CloseReason {
    Protocol(ProtocolError),
    Network(ConnectFailure),
}

/// Where a session stands. It only ever moves forward.
#[derive(Clone, Copy, Debug, PartialEq, Eq, Structural)]
pub enum Phase {
    /// Waiting for the version and method count of the greeting.
    AwaitingGreeting,
    /// Waiting for the given number of method bytes.
    AwaitingMethods(u8),
    /// Waiting for version, command, reserved byte and address type.
    AwaitingRequest,
    /// Waiting for four address bytes and two port bytes.
    AwaitingIpv4,
    /// Waiting for the length byte of a domain name.
    AwaitingDomainLength,
    /// Waiting for a domain name of the given length and two port bytes.
    AwaitingDomain(u8),
    /// Waiting for the outcome of the connect attempt.
    Connecting,
    /// Bytes flow between client and destination.
    Relaying,
    /// Nothing more happens.
    Closed,
}

/// The position of a phase in the order Greeting, methods, request, address,
/// connecting, relaying, closed.
pub open spec fn rank(p: Phase) -> nat {
    match p {
        Phase::AwaitingGreeting => 0,
        Phase::AwaitingMethods(_) => 1,
        Phase::AwaitingRequest => 2,
        Phase::AwaitingIpv4 => 3,
        Phase::AwaitingDomainLength => 3,
        Phase::AwaitingDomain(_) => 4,
        Phase::Connecting => 5,
        Phase::Relaying => 6,
        Phase::Closed => 7,
    }
}

/// Whether the session waits for bytes from the client in this phase.
pub open spec fn is_reading(p: Phase) -> bool {
    rank(p) <= 4
}

/// How many bytes the session waits for in this phase.
pub open spec fn wanted(p: Phase) -> nat {
    match p {
        Phase::AwaitingGreeting => 2,
        Phase::AwaitingMethods(n) => n as nat,
        Phase::AwaitingRequest => 4,
        Phase::AwaitingIpv4 => 6,
        Phase::AwaitingDomainLength => 1,
        Phase::AwaitingDomain(n) => n as nat + 2,
        _ => 0,
    }
}

/// What the caller does after sending a step's bytes.
#[derive(Clone, Debug, PartialEq, Eq)]
pub enum Next {
    /// Read exactly this many bytes from the client and hand them in.
    Read(usize),
    /// Open a connection to the destination and report the outcome.
    Connect(ConnectRequest),
    /// Relay bytes in both directions until both have closed.
    Relay,
    /// Close the client connection.
    Close(CloseReason),
}

/// The mathematical value of a [`Next`].
pub enum NextModel {
    Read(nat),
    Connect(RequestModel),
    Relay,
    Close(CloseReason),
}

impl Next {
    pub open spec fn model(&self) -> NextModel {
        match self {
            Next::Read(n) => NextModel::Read(*n as nat),
            Next::Connect(r) => NextModel::Connect(r.model()),
            Next::Relay => NextModel::Relay,
            Next::Close(c) => NextModel::Close(*c),
        }
    }
}

/// One move of the state machine: bytes to send to the client (possibly
/// none), then what to do.
#[derive(Clone, Debug)]
pub struct Step {
    pub send: Vec<u8>,
    pub next: Next,
}

/// What the session does with the bytes it asked for in a reading phase: the
/// phase it moves to, the bytes it sends, and what comes next.
pub open spec fn transition(p: Phase, data: Seq<u8>) -> (Phase, Seq<u8>, NextModel) {
    match p {
        Phase::AwaitingGreeting => if data[0] != SOCKS_VERSION {
            (
                Phase::Closed,
                Seq::empty(),
                NextModel::Close(CloseReason::Protocol(ProtocolError::UnsupportedVersion(data[0]))),
            )
        } else {
            (Phase::AwaitingMethods(data[1]), Seq::empty(), NextModel::Read(data[1] as nat))
        },
        Phase::AwaitingMethods(_) => if chosen_method(data) == METHOD_NO_AUTH {
            (Phase::AwaitingRequest, method_frame(METHOD_NO_AUTH), NextModel::Read(4))
        } else {
            (
                Phase::Closed,
                method_frame(chosen_method(data)),
                NextModel::Close(CloseReason::Protocol(ProtocolError::NoAcceptableMethod)),
            )
        },
        Phase::AwaitingRequest => if data[0] != SOCKS_VERSION {
            (
                Phase::Closed,
                Seq::empty(),
                NextModel::Close(CloseReason::Protocol(ProtocolError::UnsupportedVersion(data[0]))),
            )
        } else if data[1] != CMD_CONNECT {
            (
                Phase::Closed,
                reply_frame(REP_COMMAND_NOT_SUPPORTED),
                NextModel::Close(CloseReason::Protocol(ProtocolError::CommandNotSupported(data[1]))),
            )
        } else if data[3] == ATYP_IPV4 {
            (Phase::AwaitingIpv4, Seq::empty(), NextModel::Read(6))
        } else if data[3] == ATYP_DOMAIN {
            (Phase::AwaitingDomainLength, Seq::empty(), NextModel::Read(1))
        } else {
            (
                Phase::Closed,
                reply_frame(REP_ADDRESS_TYPE_NOT_SUPPORTED),
                NextModel::Close(
                    CloseReason::Protocol(ProtocolError::AddressTypeNotSupported(data[3])),
                ),
            )
        },
        Phase::AwaitingIpv4 => (
            Phase::Connecting,
            Seq::empty(),
            NextModel::Connect(
                RequestModel {
                    address: AddressModel::Ipv4(data.subrange(0, 4)),
                    port: be16(data[4], data[5]),
                },
            ),
        ),
        Phase::AwaitingDomainLength => if data[0] == 0 {
            (
                Phase::Closed,
                reply_frame(REP_GENERAL_FAILURE),
                NextModel::Close(CloseReason::Protocol(ProtocolError::EmptyDomainName)),
            )
        } else {
            (Phase::AwaitingDomain(data[0]), Seq::empty(), NextModel::Read(data[0] as nat + 2))
        },
        Phase::AwaitingDomain(n) => match domain_field_contents(seq![n] + data) {
            Some((name, port)) => (
                Phase::Connecting,
                Seq::empty(),
                NextModel::Connect(RequestModel { address: AddressModel::Domain(name), port }),
            ),
            None => (
                Phase::Closed,
                reply_frame(REP_GENERAL_FAILURE),
                NextModel::Close(CloseReason::Protocol(ProtocolError::EmptyDomainName)),
            ),
        },
        // no bytes are read outside the reading phases
        _ => (p, Seq::empty(), NextModel::Close(CloseReason::Protocol(ProtocolError::EmptyDomainName))),
    }
}

/// One client's progress through the handshake, connect and relay.
pub struct Session {
    phase: Phase,
}

impl Session {
    pub closed spec fn view(&self) -> Phase {
        self.phase
    }

    /// A session that waits for a greeting.
    pub fn new() -> (r: Session)
        ensures
            r@ == Phase::AwaitingGreeting,
    {
        Session { phase: Phase::AwaitingGreeting }
    }

    /// The phase the session is in.
    pub fn phase(&self) -> (r: Phase)
        ensures
            r == self@,
    {
        self.phase
    }

    /// How many bytes to read from the client next (zero outside the
    /// reading phases).
    pub fn wanted(&self) -> (r: usize)
        ensures
            r as nat == wanted(self@),
    {
        match self.phase {
            Phase::AwaitingGreeting => 2,
            Phase::AwaitingMethods(n) => n as usize,
            Phase::AwaitingRequest => 4,
            Phase::AwaitingIpv4 => 6,
            Phase::AwaitingDomainLength => 1,
            Phase::AwaitingDomain(n) => n as usize + 2,
            _ => 0,
        }
    }

    /// Hands in the bytes that the session asked for.
    pub fn receive(&mut self, data: &[u8]) -> (r: Step)
        requires
            is_reading(old(self)@),
            data@.len() == wanted(old(self)@),
        ensures
            (final(self)@, r.send@, r.next.model()) == transition(old(self)@, data@),
            rank(final(self)@) > rank(old(self)@),
    {
        let none: Vec<u8> = Vec::new();
        match self.phase {
            Phase::AwaitingGreeting => {
                if data[0] != SOCKS_VERSION {
                    self.phase = Phase::Closed;
                    Step {
                        send: none,
                        next: Next::Close(
                            CloseReason::Protocol(ProtocolError::UnsupportedVersion(data[0])),
                        ),
                    }
                } else {
                    self.phase = Phase::AwaitingMethods(data[1]);
                    Step { send: none, next: Next::Read(data[1] as usize) }
                }
            },
            Phase::AwaitingMethods(_) => {
                let method = select_method(data);
                let send = method_selection_frame(method);
                if method == METHOD_NO_AUTH {
                    self.phase = Phase::AwaitingRequest;
                    Step { send, next: Next::Read(4) }
                } else {
                    self.phase = Phase::Closed;
                    Step {
                        send,
                        next: Next::Close(CloseReason::Protocol(ProtocolError::NoAcceptableMethod)),
                    }
                }
            },
            Phase::AwaitingRequest => {
                if data[0] != SOCKS_VERSION {
                    self.phase = Phase::Closed;
                    Step {
                        send: none,
                        next: Next::Close(
                            CloseReason::Protocol(ProtocolError::UnsupportedVersion(data[0])),
                        ),
                    }
                } else if data[1] != CMD_CONNECT {
                    self.phase = Phase::Closed;
                    Step {
                        send: reply(REP_COMMAND_NOT_SUPPORTED),
                        next: Next::Close(
                            CloseReason::Protocol(ProtocolError::CommandNotSupported(data[1])),
                        ),
                    }
                } else if data[3] == ATYP_IPV4 {
                    self.phase = Phase::AwaitingIpv4;
                    Step { send: none, next: Next::Read(6) }
                } else if data[3] == ATYP_DOMAIN {
                    self.phase = Phase::AwaitingDomainLength;
                    Step { send: none, next: Next::Read(1) }
                } else {
                    self.phase = Phase::Closed;
                    Step {
                        send: reply(REP_ADDRESS_TYPE_NOT_SUPPORTED),
                        next: Next::Close(
                            CloseReason::Protocol(ProtocolError::AddressTypeNotSupported(data[3])),
                        ),
                    }
                }
            },
            Phase::AwaitingIpv4 => {
                let octets: [u8; 4] = [data[0], data[1], data[2], data[3]];
                assert(octets@ =~= data@.subrange(0, 4));
                let port = port_from_be(data[4], data[5]);
                self.phase = Phase::Connecting;
                Step {
                    send: none,
                    next: Next::Connect(ConnectRequest { address: Address::Ipv4(octets), port }),
                }
            },
            Phase::AwaitingDomainLength => {
                if data[0] == 0 {
                    self.phase = Phase::Closed;
                    Step {
                        send: reply(REP_GENERAL_FAILURE),
                        next: Next::Close(CloseReason::Protocol(ProtocolError::EmptyDomainName)),
                    }
                } else {
                    self.phase = Phase::AwaitingDomain(data[0]);
                    Step { send: none, next: Next::Read(data[0] as usize + 2) }
                }
            },
            Phase::AwaitingDomain(n) => {
                let mut field: Vec<u8> = Vec::new();
                field.push(n);
                let mut i: usize = 0;
                while i < data.len()
                    invariant
                        i <= data@.len(),
                        data@.len() == n as nat + 2,
                        field@ == seq![n] + data@.subrange(0, i as int),
                    decreases data@.len() - i,
                {
                    field.push(data[i]);
                    i = i + 1;
                    assert(field@ =~= seq![n] + data@.subrange(0, i as int));
                }
                assert(data@.subrange(0, data@.len() as int) =~= data@);
                self.phase = Phase::Connecting;
                match decode_domain_field(field.as_slice()) {
                    Some((name, port)) => Step {
                        send: none,
                        next: Next::Connect(ConnectRequest { address: Address::Domain(name), port }),
                    },
                    None => {
                        self.phase = Phase::Closed;
                        Step {
                            send: reply(REP_GENERAL_FAILURE),
                            next: Next::Close(CloseReason::Protocol(ProtocolError::EmptyDomainName)),
                        }
                    },
                }
            },
            // excluded by the precondition
            _ => {
                Step {
                    send: none,
                    next: Next::Close(CloseReason::Protocol(ProtocolError::EmptyDomainName)),
                }
            },
        }
    }

    /// Reports the outcome of the connect attempt. The client gets exactly
    /// one reply: success moves on to relaying, a failure closes the session.
    pub fn connected(&mut self, outcome: Result<(), ConnectFailure>) -> (r: Step)
        requires
            old(self)@ == Phase::Connecting,
        ensures
            outcome is Ok ==> final(self)@ == Phase::Relaying && r.send@ == reply_frame(
                REP_SUCCEEDED,
            ) && r.next.model() == NextModel::Relay,
            outcome matches Err(f) ==> final(self)@ == Phase::Closed && r.send@ == reply_frame(
                failure_code(f),
            ) && r.next.model() == NextModel::Close(CloseReason::Network(f)),
    {
        match outcome {
            Ok(()) => {
                self.phase = Phase::Relaying;
                Step { send: reply(REP_SUCCEEDED), next: Next::Relay }
            },
            Err(f) => {
                self.phase = Phase::Closed;
                Step { send: reply(reply_code_for(f)), next: Next::Close(CloseReason::Network(f)) }
            },
        }
    }

    /// Ends the session, from whatever phase it is in.
    pub fn close(&mut self)
        ensures
            final(self)@ == Phase::Closed,
            rank(final(self)@) >= rank(old(self)@),
    {
        self.phase = Phase::Closed;
    }
}

/// A greeting that offers "no authentication" is accepted: after its two
/// header bytes and its methods, the session sends `[5, 0]` and waits for a
/// four-byte request.
pub proof fn lemma_no_auth_offered_is_accepted(greeting: Seq<u8>)
    requires
        greeting.len() >= 2,
        greeting[0] == SOCKS_VERSION,
        greeting.len() == 2 + greeting[1] as int,
        greeting.subrange(2, greeting.len() as int).contains(METHOD_NO_AUTH),
    ensures
        ({
            let (p1, s1, n1) = transition(Phase::AwaitingGreeting, greeting.subrange(0, 2));
            let (p2, s2, n2) = transition(p1, greeting.subrange(2, greeting.len() as int));
            &&& s1.len() == 0
            &&& n1 == NextModel::Read(greeting[1] as nat)
            &&& wanted(p1) == greeting[1] as nat
            &&& s2 == seq![SOCKS_VERSION, METHOD_NO_AUTH]
            &&& p2 == Phase::AwaitingRequest
            &&& n2 == NextModel::Read(4)
        }),
{
}

/// A greeting that does not offer "no authentication" is answered with
/// exactly `[5, 0xFF]`, and the session closes.
pub proof fn lemma_no_auth_missing_is_refused(greeting: Seq<u8>)
    requires
        greeting.len() >= 2,
        greeting[0] == SOCKS_VERSION,
        greeting.len() == 2 + greeting[1] as int,
        !greeting.subrange(2, greeting.len() as int).contains(METHOD_NO_AUTH),
    ensures
        ({
            let (p1, s1, n1) = transition(Phase::AwaitingGreeting, greeting.subrange(0, 2));
            let (p2, s2, n2) = transition(p1, greeting.subrange(2, greeting.len() as int));
            &&& s1.len() == 0
            &&& n1 == NextModel::Read(greeting[1] as nat)
            &&& s2 == seq![SOCKS_VERSION, METHOD_NONE_ACCEPTABLE]
            &&& p2 == Phase::Closed
            &&& n2 == NextModel::Close(CloseReason::Protocol(ProtocolError::NoAcceptableMethod))
        }),
{
}

/// A request whose command is not CONNECT is answered with reply code 7 and
/// the session closes; no connect is asked for.
pub proof fn lemma_other_command_is_rejected(request: Seq<u8>)
    requires
        request.len() == 4,
        request[0] == SOCKS_VERSION,
        request[1] != CMD_CONNECT,
    ensures
        ({
            let (p, s, n) = transition(Phase::AwaitingRequest, request);
            &&& s == reply_frame(REP_COMMAND_NOT_SUPPORTED)
            &&& s[1] == 7
            &&& p == Phase::Closed
            &&& n == NextModel::Close(
                CloseReason::Protocol(ProtocolError::CommandNotSupported(request[1])),
            )
        }),
{
}

/// A CONNECT request whose address type is neither IPv4 nor domain name is
/// answered with reply code 8 and the session closes.
pub proof fn lemma_other_address_type_is_rejected(request: Seq<u8>)
    requires
        request.len() == 4,
        request[0] == SOCKS_VERSION,
        request[1] == CMD_CONNECT,
        request[3] != ATYP_IPV4,
        request[3] != ATYP_DOMAIN,
    ensures
        ({
            let (p, s, n) = transition(Phase::AwaitingRequest, request);
            &&& s == reply_frame(REP_ADDRESS_TYPE_NOT_SUPPORTED)
            &&& s[1] == 8
            &&& p == Phase::Closed
            &&& n == NextModel::Close(
                CloseReason::Protocol(ProtocolError::AddressTypeNotSupported(request[3])),
            )
        }),
{
}

/// A domain-name address field of length 1 to 255 with its port, read as the
/// session reads it (the length byte, then the rest), asks to connect to
/// exactly that name and port.
pub proof fn lemma_domain_request_round_trip(name: Seq<u8>, port: u16)
    requires
        1 <= name.len() <= 255,
    ensures
        ({
            let field = domain_field(name, port);
            let (p1, s1, n1) = transition(Phase::AwaitingDomainLength, field.subrange(0, 1));
            let (p2, s2, n2) = transition(p1, field.subrange(1, field.len() as int));
            &&& s1.len() == 0
            &&& n1 == NextModel::Read(name.len() + 2)
            &&& wanted(p1) == name.len() + 2
            &&& s2.len() == 0
            &&& p2 == Phase::Connecting
            &&& n2 == NextModel::Connect(
                RequestModel { address: AddressModel::Domain(name), port },
            )
        }),
{
    let field = domain_field(name, port);
    lemma_domain_field_round_trip(name, port);
    assert(seq![field[0]] + field.subrange(1, field.len() as int) =~= field);
}

} // verus!
