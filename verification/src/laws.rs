//! Proofs of the protocol-wide guarantees the state machine gives, stated
//! over the same transition specification that `SocksServer::step` is
//! proved against.

use vstd::prelude::*;

use crate::creds::has_credential;
use crate::machine::{
    ActionModel, EventModel, SocksServerModel, StateModel, configured_methods, expects,
    transition,
};
use crate::wire::{
    ATYP_DOMAIN, ATYP_V4, ATYP_V6, AUTH_VERSION, CMD_BIND, CMD_CONNECT, CMD_UDP_ASSOCIATE,
    METHOD_NO_AUTH, METHOD_USER_PASS, REP_COMMAND_NOT_SUPPORTED, REP_CONNECTION_REFUSED,
    REP_SUCCESS, SOCKS_VERSION, reply_bytes, selected_method,
};

verus! {

/// The same machine, moved to the given state.
pub open spec fn with_state(m: SocksServerModel, s: StateModel) -> SocksServerModel {
    SocksServerModel { state: s, methods: m.methods, users: m.users, timeout_ms: m.timeout_ms }
}

/// Method preference: when credentials are configured and the client offers
/// both no-authentication and username/password, the agent selects
/// username/password; when no credentials are configured, it selects
/// no-authentication.
pub proof fn lemma_method_preference(offered: Seq<u8>)
    requires
        offered.contains(METHOD_NO_AUTH),
        offered.contains(METHOD_USER_PASS),
    ensures
        selected_method(configured_methods(true), offered) == Some(METHOD_USER_PASS),
        selected_method(configured_methods(false), offered) == Some(METHOD_NO_AUTH),
{
    assert(configured_methods(true).contains(METHOD_USER_PASS)) by {
        assert(configured_methods(true)[0] == METHOD_USER_PASS);
    }
    assert(!configured_methods(false).contains(METHOD_USER_PASS)) by {
        assert(forall|i: int|
            0 <= i < configured_methods(false).len()
                ==> configured_methods(false)[i] == METHOD_NO_AUTH);
    }
    assert(configured_methods(false).contains(METHOD_NO_AUTH)) by {
        assert(configured_methods(false)[0] == METHOD_NO_AUTH);
    }
}

/// Authentication correctness: a correctly formed RFC 1929 subnegotiation
/// carrying a username and password that stand in the table is answered
/// with `[0x01, 0x00]` and the machine proceeds to the request; any
/// mismatch is answered with `[0x01, 0x01]` and the stream closes.
pub proof fn lemma_auth_subnegotiation(m: SocksServerModel, user: Seq<u8>, pass: Seq<u8>)
    requires
        m.state == StateModel::AuthHeader,
        user.len() <= 255,
        pass.len() <= 255,
    ensures
        ({
            let s1 = transition(m, EventModel::Bytes(seq![AUTH_VERSION, user.len() as u8]));
            let m1 = with_state(m, s1.state);
            let s2 = transition(m1, EventModel::Bytes(user));
            let m2 = with_state(m, s2.state);
            let s3 = transition(m2, EventModel::Bytes(seq![pass.len() as u8]));
            let m3 = with_state(m, s3.state);
            let s4 = transition(m3, EventModel::Bytes(pass));
            &&& expects(m.state, EventModel::Bytes(seq![AUTH_VERSION, user.len() as u8]))
            &&& s1.state == (StateModel::AuthUser { ulen: user.len() as u8 })
            &&& expects(s1.state, EventModel::Bytes(user))
            &&& s2.state == (StateModel::AuthPassLen { user })
            &&& expects(s2.state, EventModel::Bytes(seq![pass.len() as u8]))
            &&& s3.state == (StateModel::AuthPass { user, plen: pass.len() as u8 })
            &&& expects(s3.state, EventModel::Bytes(pass))
            &&& has_credential(m.users, user, pass) ==> {
                &&& s4.write == seq![AUTH_VERSION, 0x00u8]
                &&& s4.state == StateModel::Request
            }
            &&& !has_credential(m.users, user, pass) ==> {
                &&& s4.write == seq![AUTH_VERSION, 0x01u8]
                &&& s4.state == StateModel::Closed
                &&& s4.action == ActionModel::Stop
            }
        }),
{
}

/// Command gating: a BIND or UDP ASSOCIATE request is answered with the
/// command-not-supported reply and the stream closes at the request header;
/// only CONNECT proceeds, to the address read its address type selects.
pub proof fn lemma_command_gating(m: SocksServerModel, req: Seq<u8>)
    requires
        m.state == StateModel::Request,
        req.len() == 4,
        req[0] == SOCKS_VERSION,
    ensures
        (req[1] == CMD_BIND || req[1] == CMD_UDP_ASSOCIATE) ==> ({
            let t = transition(m, EventModel::Bytes(req));
            &&& t.state == StateModel::Closed
            &&& t.write == reply_bytes(REP_COMMAND_NOT_SUPPORTED)
            &&& t.action == ActionModel::Stop
        }),
        (req[1] == CMD_CONNECT && req[3] == ATYP_V4)
            ==> transition(m, EventModel::Bytes(req)).state == StateModel::AddrV4,
        (req[1] == CMD_CONNECT && req[3] == ATYP_DOMAIN)
            ==> transition(m, EventModel::Bytes(req)).state == StateModel::DomainLen,
        (req[1] == CMD_CONNECT && req[3] == ATYP_V6)
            ==> transition(m, EventModel::Bytes(req)).state == StateModel::AddrV6,
{
}

/// Outcome of the upstream dial: success is answered with the success reply
/// and the stream becomes a raw tunnel; a dial failure or timeout is
/// answered with the connection-refused reply and the stream closes.
pub proof fn lemma_connect_outcome(m: SocksServerModel, ok: bool)
    requires
        m.state == StateModel::Dialing,
    ensures
        ({
            let t = transition(m, EventModel::Dialed(ok));
            &&& ok ==> {
                &&& t.state == StateModel::Tunnel
                &&& t.write == reply_bytes(REP_SUCCESS)
                &&& t.action == ActionModel::Splice
            }
            &&& !ok ==> {
                &&& t.state == StateModel::Closed
                &&& t.write == reply_bytes(REP_CONNECTION_REFUSED)
                &&& t.action == ActionModel::Stop
            }
        }),
{
}

/// Driver coherence: following the action a step returns always hands the
/// next step an event its state awaits.  After a `Read` of `count` bytes
/// the state awaits exactly those bytes; after a `Dial` it awaits the dial
/// outcome; and `Splice` or `Stop` only ever come with a state that awaits
/// nothing, so a driver that obeys the actions can never call `step` on a
/// finished machine.
pub proof fn lemma_driver_coherence(m: SocksServerModel, ev: EventModel, b: Seq<u8>, ok: bool)
    requires
        expects(m.state, ev),
    ensures
        ({
            let t = transition(m, ev);
            &&& (t.action matches ActionModel::Read { count } && b.len() == count)
                ==> expects(t.state, EventModel::Bytes(b))
            &&& t.action is Dial ==> expects(t.state, EventModel::Dialed(ok))
            &&& (t.action is Splice || t.action is Stop) ==> {
                &&& !expects(t.state, EventModel::Bytes(b))
                &&& !expects(t.state, EventModel::Dialed(ok))
            }
        }),
{
}

/// Shape of everything the agent writes: a step writes nothing, one of the
/// two-byte method or authentication status answers, or a full ten-byte
/// reply PDU; and every ten-byte write is `reply_bytes` of some code, so it
/// has the fixed `[0x05, rep, 0x00, 0x01, 0, 0, 0, 0, 0, 0]` form.
pub proof fn lemma_write_shapes(m: SocksServerModel, ev: EventModel)
    requires
        expects(m.state, ev),
    ensures
        ({
            let t = transition(m, ev);
            &&& (t.write.len() == 0 || t.write.len() == 2 || t.write.len() == 10)
            &&& t.write.len() == 10 ==> exists|rep: u8| t.write == reply_bytes(rep)
        }),
{
}

/// After the success reply the machine is done with SOCKS5: neither the
/// tunnel state nor the closed state awaits any further event, so the agent
/// never writes another protocol byte on that stream.
pub proof fn lemma_no_protocol_bytes_after_reply(ev: EventModel)
    ensures
        !expects(StateModel::Tunnel, ev),
        !expects(StateModel::Closed, ev),
{
}

} // verus!
