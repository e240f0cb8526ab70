//! Frames of the SOCKS5 handshake: constants, address fields, replies.
use vstd::prelude::*;

verus! {

pub const SOCKS_VERSION: u8 = 5;

pub const METHOD_NO_AUTH: u8 = 0;

pub const METHOD_NONE_ACCEPTABLE: u8 = 0xFF;

pub const CMD_CONNECT: u8 = 1;

pub const ATYP_IPV4: u8 = 1;

pub const ATYP_DOMAIN: u8 = 3;

pub const ATYP_IPV6: u8 = 4;

pub const REP_SUCCEEDED: u8 = 0;

pub const REP_GENERAL_FAILURE: u8 = 1;

pub const REP_HOST_UNREACHABLE: u8 = 4;

pub const REP_CONNECTION_REFUSED: u8 = 5;

pub const REP_COMMAND_NOT_SUPPORTED: u8 = 7;

pub const REP_ADDRESS_TYPE_NOT_SUPPORTED: u8 = 8;

/// The value of a big-endian 16-bit field.
pub open spec fn be16(hi: u8, lo: u8) -> u16 {
    (hi as int * 256 + lo as int) as u16
}

/// Reads a big-endian port from its two bytes.
pub fn port_from_be(hi: u8, lo: u8) -> (r: u16)
    ensures
        r == be16(hi, lo),
        r as int == hi as int * 256 + lo as int,
{
    (hi as u16) * 256 + (lo as u16)
}

/// Splits a port into its two big-endian bytes.
pub fn port_to_be(port: u16) -> (r: (u8, u8))
    ensures
        r.0 as int * 256 + r.1 as int == port as int,
        be16(r.0, r.1) == port,
{
    ((port / 256) as u8, (port % 256) as u8)
}

/// The method-selection reply: `0x00` when the client offered it, else `0xFF`.
pub open spec fn chosen_method(methods: Seq<u8>) -> u8 {
    if methods.contains(METHOD_NO_AUTH) {
        METHOD_NO_AUTH
    } else {
        METHOD_NONE_ACCEPTABLE
    }
}

/// Picks the authentication method among those a client offers.
pub fn select_method(methods: &[u8]) -> (r: u8)
    ensures
        r == chosen_method(methods@),
{
    let mut i: usize = 0;
    while i < methods.len()
        invariant
            i <= methods@.len(),
            forall|j: int| 0 <= j < i ==> methods@[j] != METHOD_NO_AUTH,
        decreases methods@.len() - i,
    {
        if methods[i] == METHOD_NO_AUTH {
            assert(methods@.contains(METHOD_NO_AUTH)) by {
                assert(methods@[i as int] == METHOD_NO_AUTH);
            }
            return METHOD_NO_AUTH;
        }
        i = i + 1;
    }
    METHOD_NONE_ACCEPTABLE
}

/// The two-byte method-selection frame.
pub open spec fn method_frame(method: u8) -> Seq<u8> {
    seq![SOCKS_VERSION, method]
}

/// Builds the method-selection frame for a method.
pub fn method_selection_frame(method: u8) -> (r: Vec<u8>)
    ensures
        r@ == method_frame(method),
{
    let r = vec![SOCKS_VERSION, method];
    assert(r@ =~= method_frame(method));
    r
}

/// A reply frame: IPv4 address type with an all-zero bound address and port.
pub open spec fn reply_frame(rep: u8) -> Seq<u8> {
    seq![SOCKS_VERSION, rep, 0u8, ATYP_IPV4, 0u8, 0u8, 0u8, 0u8, 0u8, 0u8]
}

/// Builds the reply frame that carries a reply code.
pub fn reply(rep: u8) -> (r: Vec<u8>)
    ensures
        r@ == reply_frame(rep),
{
    let r = vec![SOCKS_VERSION, rep, 0u8, ATYP_IPV4, 0u8, 0u8, 0u8, 0u8, 0u8, 0u8];
    assert(r@ =~= reply_frame(rep));
    r
}

/// A domain-name address field: its length byte, the name, the port in two bytes.
pub open spec fn domain_field(name: Seq<u8>, port: u16) -> Seq<u8> {
    seq![name.len() as u8] + name + seq![(port / 256) as u8, (port % 256) as u8]
}

/// What a domain-name address field holds, when it is well formed: the length
/// byte is at least one and the field is exactly that many bytes plus three.
pub open spec fn domain_field_contents(field: Seq<u8>) -> Option<(Seq<u8>, u16)> {
    if field.len() >= 3 && field[0] >= 1 && field.len() == field[0] as int + 3 {
        let n = field[0] as int;
        Some((field.subrange(1, n + 1), be16(field[n + 1], field[n + 2])))
    } else {
        None
    }
}

/// Copies `len` bytes of `src` from `start` on.
fn copy_range(src: &[u8], start: usize, len: usize) -> (r: Vec<u8>)
    requires
        start as int + len as int <= src@.len(),
    ensures
        r@ == src@.subrange(start as int, start as int + len as int),
{
    let total = src.len();
    let mut r: Vec<u8> = Vec::new();
    let mut i: usize = 0;
    while i < len
        invariant
            i <= len,
            total == src@.len(),
            start as int + len as int <= src@.len(),
            r@ == src@.subrange(start as int, start as int + i as int),
        decreases len - i,
    {
        r.push(src[start + i]);
        i = i + 1;
        assert(r@ =~= src@.subrange(start as int, start as int + i as int));
    }
    r
}

/// Reads the name and port out of a domain-name address field.
pub fn decode_domain_field(field: &[u8]) -> (r: Option<(Vec<u8>, u16)>)
    ensures
        r is Some <==> domain_field_contents(field@) is Some,
        r matches Some((name, port)) ==> domain_field_contents(field@) == Some((name@, port)),
{
    if field.len() < 3 || field[0] < 1 || field.len() != field[0] as usize + 3 {
        return None;
    }
    let n = field[0] as usize;
    let name = copy_range(field, 1, n);
    let port = port_from_be(field[n + 1], field[n + 2]);
    Some((name, port))
}

/// Writes a domain-name address field.
pub fn encode_domain_field(name: &[u8], port: u16) -> (r: Vec<u8>)
    requires
        1 <= name@.len() <= 255,
    ensures
        r@ == domain_field(name@, port),
{
    let mut r: Vec<u8> = Vec::new();
    r.push(name.len() as u8);
    let mut i: usize = 0;
    while i < name.len()
        invariant
            i <= name@.len() <= 255,
            r@ == seq![name@.len() as u8] + name@.subrange(0, i as int),
        decreases name@.len() - i,
    {
        r.push(name[i]);
        i = i + 1;
        assert(r@ =~= seq![name@.len() as u8] + name@.subrange(0, i as int));
    }
    let (hi, lo) = port_to_be(port);
    r.push(hi);
    r.push(lo);
    assert(name@.subrange(0, name@.len() as int) =~= name@);
    assert(r@ =~= domain_field(name@, port));
    r
}

/// A domain-name field built from a name of 1 to 255 bytes and a port reads
/// back as that same name and port.
pub proof fn lemma_domain_field_round_trip(name: Seq<u8>, port: u16)
    requires
        1 <= name.len() <= 255,
    ensures
        domain_field_contents(domain_field(name, port)) == Some((name, port)),
{
    let f = domain_field(name, port);
    let n = name.len() as int;
    assert(f[0] == n as u8);
    assert(f.subrange(1, n + 1) =~= name);
    assert(f[n + 1] == (port / 256) as u8);
    assert(f[n + 2] == (port % 256) as u8);
    assert(be16((port / 256) as u8, (port % 256) as u8) == port);
}

/// Why an attempt to reach a destination failed, as far as the gateway can tell.
#[derive(Clone, Copy, Debug, PartialEq, Eq, Structural)]
pub enum ConnectFailure {
    /// The destination actively refused the connection.
    Refused,
    /// The name could not be resolved, or no route led to the host.
    Unreachable,
    /// The attempt timed out.
    TimedOut,
    /// Any other failure.
    Other,
}

/// The reply code that reports a failed connect attempt.
pub open spec fn failure_code(f: ConnectFailure) -> u8 {
    match f {
        ConnectFailure::Refused => REP_CONNECTION_REFUSED,
        ConnectFailure::Unreachable => REP_HOST_UNREACHABLE,
        ConnectFailure::TimedOut => REP_HOST_UNREACHABLE,
        ConnectFailure::Other => REP_GENERAL_FAILURE,
    }
}

/// Maps a failed connect attempt to its reply code.
pub fn reply_code_for(f: ConnectFailure) -> (r: u8)
    ensures
        r == failure_code(f),
        r != REP_SUCCEEDED,
{
    match f {
        ConnectFailure::Refused => REP_CONNECTION_REFUSED,
        ConnectFailure::Unreachable => REP_HOST_UNREACHABLE,
        ConnectFailure::TimedOut => REP_HOST_UNREACHABLE,
        ConnectFailure::Other => REP_GENERAL_FAILURE,
    }
}

} // verus!
