//! SOCKS5 wire-level constants and the fixed PDUs the agent emits.

use vstd::prelude::*;

verus! {

/// Protocol version byte of every SOCKS5 PDU.
pub const SOCKS_VERSION: u8 = 0x05;

/// Version byte of the RFC 1929 username/password subnegotiation.
pub const AUTH_VERSION: u8 = 0x01;

/// Method byte: no authentication required.
pub const METHOD_NO_AUTH: u8 = 0x00;

/// Method byte: username/password authentication.
pub const METHOD_USER_PASS: u8 = 0x02;

/// Method byte sent when no offered method is acceptable.
pub const METHOD_NONE_ACCEPTABLE: u8 = 0xff;

/// Command byte: CONNECT.
pub const CMD_CONNECT: u8 = 0x01;

/// Command byte: BIND (never served by the agent).
pub const CMD_BIND: u8 = 0x02;

/// Command byte: UDP ASSOCIATE (never served by the agent).
pub const CMD_UDP_ASSOCIATE: u8 = 0x03;

/// Address type byte: IPv4, four raw octets.
pub const ATYP_V4: u8 = 0x01;

/// Address type byte: domain name, one length byte then that many bytes.
pub const ATYP_DOMAIN: u8 = 0x03;

/// Address type byte: IPv6, sixteen raw octets.
pub const ATYP_V6: u8 = 0x04;

/// Reply code: request succeeded.
pub const REP_SUCCESS: u8 = 0x00;

/// Reply code: general failure.
pub const REP_GENERAL_FAILURE: u8 = 0x01;

/// Reply code: connection refused; also used for dial timeouts.
pub const REP_CONNECTION_REFUSED: u8 = 0x05;

/// Reply code: command not supported.
pub const REP_COMMAND_NOT_SUPPORTED: u8 = 0x07;

/// Reply code: address type not supported.
pub const REP_ATYP_NOT_SUPPORTED: u8 = 0x08;

/// The one reply PDU shape the agent ever sends: ten bytes, version 0x05,
/// the given reply code, a zero reserved byte, and a bind address of
/// `0.0.0.0:0` encoded as address type IPv4.  The agent deliberately does
/// not disclose its bound socket.
pub open spec fn reply_bytes(rep: u8) -> Seq<u8> {
    seq![SOCKS_VERSION, rep, 0x00, ATYP_V4, 0x00, 0x00, 0x00, 0x00, 0x00, 0x00]
}

/// Every reply PDU is exactly ten bytes of the fixed shape
/// `[0x05, rep, 0x00, 0x01, 0, 0, 0, 0, 0, 0]`.
pub proof fn lemma_reply_shape(rep: u8)
    ensures
        reply_bytes(rep).len() == 10,
        reply_bytes(rep)[0] == SOCKS_VERSION,
        reply_bytes(rep)[1] == rep,
        reply_bytes(rep)[2] == 0x00,
        reply_bytes(rep)[3] == ATYP_V4,
        forall|i: int| 4 <= i < 10 ==> reply_bytes(rep)[i] == 0x00,
{
}

/// Builds the ten-byte reply PDU for the given reply code.
pub fn encode_reply(rep: u8) -> (r: Vec<u8>)
    ensures
        r@ == reply_bytes(rep),
{
    let mut v: Vec<u8> = Vec::new();
    v.push(SOCKS_VERSION);
    v.push(rep);
    v.push(0x00);
    v.push(ATYP_V4);
    v.push(0x00);
    v.push(0x00);
    v.push(0x00);
    v.push(0x00);
    v.push(0x00);
    v.push(0x00);
    proof {
        assert(v@ =~= reply_bytes(rep));
    }
    v
}

/// Whether the byte vector holds the given byte.
pub fn contains_byte(v: &Vec<u8>, b: u8) -> (r: bool)
    ensures
        r == v@.contains(b),
{
    let mut i: usize = 0;
    while i < v.len()
        invariant
            i <= v@.len(),
            forall|j: int| 0 <= j < i ==> v@[j] != b,
        decreases v@.len() - i,
    {
        if v[i] == b {
            assert(v@[i as int] == b);
            return true;
        }
        i += 1;
    }
    false
}

/// The method the agent selects from the methods it accepts and the methods
/// the client offered: username/password is preferred whenever both sides
/// support it, no-authentication comes next, and otherwise no method is
/// acceptable.
pub open spec fn selected_method(accepted: Seq<u8>, offered: Seq<u8>) -> Option<u8> {
    if accepted.contains(METHOD_USER_PASS) && offered.contains(METHOD_USER_PASS) {
        Some(METHOD_USER_PASS)
    } else if accepted.contains(METHOD_NO_AUTH) && offered.contains(METHOD_NO_AUTH) {
        Some(METHOD_NO_AUTH)
    } else {
        None
    }
}

/// Picks the authentication method for a greeting, per `selected_method`.
pub fn select_method(accepted: &Vec<u8>, offered: &Vec<u8>) -> (r: Option<u8>)
    ensures
        r == selected_method(accepted@, offered@),
{
    if contains_byte(accepted, METHOD_USER_PASS) && contains_byte(offered, METHOD_USER_PASS) {
        Some(METHOD_USER_PASS)
    } else if contains_byte(accepted, METHOD_NO_AUTH) && contains_byte(offered, METHOD_NO_AUTH) {
        Some(METHOD_NO_AUTH)
    } else {
        None
    }
}

/// A big-endian port value read from two wire bytes.
pub open spec fn port_of(hi: u8, lo: u8) -> u16 {
    (hi * 256 + lo) as u16
}

/// Combines the two port bytes of a request into the port value.
pub fn port_from_bytes(hi: u8, lo: u8) -> (r: u16)
    ensures
        r == port_of(hi, lo),
{
    (hi as u16) * 256 + (lo as u16)
}

/// The error surface of the core: either an I/O failure or a SOCKS5-level
/// failure carrying the reply code that describes it.
pub enum AgentError {
    Io,
    Socks(u8),
}

/// Maps an error to the reply code put on the wire; the mapping is total:
/// any I/O failure becomes a general failure, a SOCKS5 failure keeps its
/// own code.
pub fn rep_code(e: &AgentError) -> (r: u8)
    ensures
        e is Io ==> r == REP_GENERAL_FAILURE,
        e matches AgentError::Socks(c) ==> r == c,
{
    match e {
        AgentError::Io => REP_GENERAL_FAILURE,
        AgentError::Socks(c) => *c,
    }
}

} // verus!
