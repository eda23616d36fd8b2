//! The per-stream SOCKS5 server state machine.
//!
//! One `SocksServer` runs on exactly one logical stream.  The machine never
//! performs I/O itself: the driver reads exactly the byte count the last
//! action asked for (or reports the outcome of the requested dial) and feeds
//! it back as an `Event`; each step returns the bytes to write to the stream
//! and the next action to carry out.  Every transition is pinned by the
//! `transition` specification.

use vstd::prelude::*;

use crate::creds::{Credential, CredentialModel, check_credentials, has_credential, table_model};
use crate::wire::{
    ATYP_DOMAIN, ATYP_V4, ATYP_V6, AUTH_VERSION, CMD_BIND, CMD_CONNECT, CMD_UDP_ASSOCIATE,
    METHOD_NONE_ACCEPTABLE, METHOD_NO_AUTH, METHOD_USER_PASS, REP_ATYP_NOT_SUPPORTED,
    REP_COMMAND_NOT_SUPPORTED, REP_CONNECTION_REFUSED, REP_SUCCESS, SOCKS_VERSION,
    port_of, port_from_bytes, reply_bytes, select_method, selected_method, encode_reply,
};

verus! {

/// Dial timeout applied when none is configured, in milliseconds.
pub const DEFAULT_DIAL_TIMEOUT_MS: u64 = 500;

/// The address of a CONNECT target, as the raw bytes of the request.
pub enum TargetAddr {
    /// Four raw IPv4 octets.
    V4 { octets: Vec<u8> },
    /// Sixteen raw IPv6 octets.
    V6 { octets: Vec<u8> },
    /// A domain name, to be resolved by the driver.
    Name { name: Vec<u8> },
}

/// Mathematical form of a target address.
pub enum TargetAddrModel {
    V4 { octets: Seq<u8> },
    V6 { octets: Seq<u8> },
    Name { name: Seq<u8> },
}

impl View for TargetAddr {
    type V = TargetAddrModel;

    open spec fn view(&self) -> TargetAddrModel {
        match self {
            TargetAddr::V4 { octets } => TargetAddrModel::V4 { octets: octets@ },
            TargetAddr::V6 { octets } => TargetAddrModel::V6 { octets: octets@ },
            TargetAddr::Name { name } => TargetAddrModel::Name { name: name@ },
        }
    }
}

/// A CONNECT target: an address and a port.
pub struct Target {
    pub addr: TargetAddr,
    pub port: u16,
}

/// Mathematical form of a target.
pub struct TargetModel {
    pub addr: TargetAddrModel,
    pub port: u16,
}

impl View for Target {
    type V = TargetModel;

    open spec fn view(&self) -> TargetModel {
        TargetModel { addr: self.addr@, port: self.port }
    }
}

/// What the driver hands the machine: either exactly the bytes the last
/// `Read` asked for, or the outcome of the last `Dial`.
pub enum Event {
    Bytes(Vec<u8>),
    Dialed(bool),
}

/// Mathematical form of an event.
pub enum EventModel {
    Bytes(Seq<u8>),
    Dialed(bool),
}

impl View for Event {
    type V = EventModel;

    open spec fn view(&self) -> EventModel {
        match self {
            Event::Bytes(b) => EventModel::Bytes(b@),
            Event::Dialed(ok) => EventModel::Dialed(*ok),
        }
    }
}

/// What the driver must do next.
pub enum Action {
    /// Read exactly `count` bytes from the stream.
    Read { count: usize },
    /// Dial the target's first resolved address, bounded by the timeout,
    /// and report whether the dial succeeded.
    Dial { target: Target, timeout_ms: u64 },
    /// Splice the stream and the dialed socket byte-transparently until one
    /// side closes; the machine is done.
    Splice,
    /// Close the stream; the machine is done.
    Stop,
}

/// Mathematical form of an action.
pub enum ActionModel {
    Read { count: int },
    Dial { target: TargetModel, timeout_ms: u64 },
    Splice,
    Stop,
}

impl View for Action {
    type V = ActionModel;

    open spec fn view(&self) -> ActionModel {
        match self {
            Action::Read { count } => ActionModel::Read { count: *count as int },
            Action::Dial { target, timeout_ms } => ActionModel::Dial {
                target: target@,
                timeout_ms: *timeout_ms,
            },
            Action::Splice => ActionModel::Splice,
            Action::Stop => ActionModel::Stop,
        }
    }
}

/// What one step of the machine produced: bytes to write to the stream
/// (possibly none), then an action to carry out.
pub struct Step {
    pub write: Vec<u8>,
    pub action: Action,
}

/// The position of the machine in the SOCKS5 grammar.
pub enum State {
    /// Awaiting the two greeting bytes `[version, method count]`.
    Greeting,
    /// Awaiting the client's `count` method bytes.
    MethodList { count: u8 },
    /// Awaiting the two subnegotiation bytes `[version, username length]`.
    AuthHeader,
    /// Awaiting the `ulen` username bytes.
    AuthUser { ulen: u8 },
    /// Awaiting the password length byte.
    AuthPassLen { user: Vec<u8> },
    /// Awaiting the `plen` password bytes.
    AuthPass { user: Vec<u8>, plen: u8 },
    /// Awaiting the four request bytes `[version, command, reserved, address type]`.
    Request,
    /// Awaiting the four IPv4 octets.
    AddrV4,
    /// Awaiting the sixteen IPv6 octets.
    AddrV6,
    /// Awaiting the domain length byte.
    DomainLen,
    /// Awaiting the `count` domain bytes.
    DomainName { count: u8 },
    /// Awaiting the two big-endian port bytes.
    PortBytes { addr: TargetAddr },
    /// Awaiting the outcome of the upstream dial.
    Dialing,
    /// Success reply sent; the stream is a raw tunnel and the machine
    /// accepts no further input.
    Tunnel,
    /// The stream is closed; the machine accepts no further input.
    Closed,
}

/// Mathematical form of a state.
pub enum StateModel {
    Greeting,
    MethodList { count: u8 },
    AuthHeader,
    AuthUser { ulen: u8 },
    AuthPassLen { user: Seq<u8> },
    AuthPass { user: Seq<u8>, plen: u8 },
    Request,
    AddrV4,
    AddrV6,
    DomainLen,
    DomainName { count: u8 },
    PortBytes { addr: TargetAddrModel },
    Dialing,
    Tunnel,
    Closed,
}

impl View for State {
    type V = StateModel;

    open spec fn view(&self) -> StateModel {
        match self {
            State::Greeting => StateModel::Greeting,
            State::MethodList { count } => StateModel::MethodList { count: *count },
            State::AuthHeader => StateModel::AuthHeader,
            State::AuthUser { ulen } => StateModel::AuthUser { ulen: *ulen },
            State::AuthPassLen { user } => StateModel::AuthPassLen { user: user@ },
            State::AuthPass { user, plen } => StateModel::AuthPass { user: user@, plen: *plen },
            State::Request => StateModel::Request,
            State::AddrV4 => StateModel::AddrV4,
            State::AddrV6 => StateModel::AddrV6,
            State::DomainLen => StateModel::DomainLen,
            State::DomainName { count } => StateModel::DomainName { count: *count },
            State::PortBytes { addr } => StateModel::PortBytes { addr: addr@ },
            State::Dialing => StateModel::Dialing,
            State::Tunnel => StateModel::Tunnel,
            State::Closed => StateModel::Closed,
        }
    }
}

/// The SOCKS5 server for one logical stream: the grammar position plus the
/// immutable per-session configuration.
pub struct SocksServer {
    state: State,
    methods: Vec<u8>,
    users: Vec<Credential>,
    timeout_ms: u64,
}

/// Mathematical form of the machine.
pub struct SocksServerModel {
    pub state: StateModel,
    pub methods: Seq<u8>,
    pub users: Seq<CredentialModel>,
    pub timeout_ms: u64,
}

impl View for SocksServer {
    type V = SocksServerModel;

    closed spec fn view(&self) -> SocksServerModel {
        SocksServerModel {
            state: self.state@,
            methods: self.methods@,
            users: table_model(self.users@),
            timeout_ms: self.timeout_ms,
        }
    }
}

/// The accepted method set derived from the credential table: exactly
/// username/password when credentials are configured, exactly
/// no-authentication otherwise.
pub open spec fn configured_methods(has_users: bool) -> Seq<u8> {
    if has_users {
        seq![METHOD_USER_PASS]
    } else {
        seq![METHOD_NO_AUTH]
    }
}

/// Whether the event is the one the state awaits: exactly the byte count
/// the grammar asks for, or a dial outcome while dialing.  Terminal states
/// await nothing.
pub open spec fn expects(s: StateModel, ev: EventModel) -> bool {
    match s {
        StateModel::Greeting => ev matches EventModel::Bytes(b) && b.len() == 2,
        StateModel::MethodList { count } => ev matches EventModel::Bytes(b) && b.len() == count,
        StateModel::AuthHeader => ev matches EventModel::Bytes(b) && b.len() == 2,
        StateModel::AuthUser { ulen } => ev matches EventModel::Bytes(b) && b.len() == ulen,
        StateModel::AuthPassLen { .. } => ev matches EventModel::Bytes(b) && b.len() == 1,
        StateModel::AuthPass { plen, .. } => ev matches EventModel::Bytes(b) && b.len() == plen,
        StateModel::Request => ev matches EventModel::Bytes(b) && b.len() == 4,
        StateModel::AddrV4 => ev matches EventModel::Bytes(b) && b.len() == 4,
        StateModel::AddrV6 => ev matches EventModel::Bytes(b) && b.len() == 16,
        StateModel::DomainLen => ev matches EventModel::Bytes(b) && b.len() == 1,
        StateModel::DomainName { count } => ev matches EventModel::Bytes(b) && b.len() == count,
        StateModel::PortBytes { .. } => ev matches EventModel::Bytes(b) && b.len() == 2,
        StateModel::Dialing => ev is Dialed,
        StateModel::Tunnel => false,
        StateModel::Closed => false,
    }
}

/// The result of one specified transition.
pub struct StepModel {
    pub state: StateModel,
    pub write: Seq<u8>,
    pub action: ActionModel,
}

/// Closing the stream without writing anything.
pub open spec fn silent_close() -> StepModel {
    StepModel { state: StateModel::Closed, write: Seq::empty(), action: ActionModel::Stop }
}

/// The transition relation of the SOCKS5 server: from the machine and the
/// event the state awaits, the next state, the bytes written, and the next
/// action, exactly as RFC 1928 and RFC 1929 prescribe for the agent.
pub open spec fn transition(m: SocksServerModel, ev: EventModel) -> StepModel {
    match (m.state, ev) {
        (StateModel::Greeting, EventModel::Bytes(b)) => {
            if b[0] != SOCKS_VERSION {
                silent_close()
            } else {
                StepModel {
                    state: StateModel::MethodList { count: b[1] },
                    write: Seq::empty(),
                    action: ActionModel::Read { count: b[1] as int },
                }
            }
        },
        (StateModel::MethodList { count }, EventModel::Bytes(b)) => {
            match selected_method(m.methods, b) {
                Option::Some(mth) => {
                    if mth == METHOD_USER_PASS {
                        StepModel {
                            state: StateModel::AuthHeader,
                            write: seq![SOCKS_VERSION, METHOD_USER_PASS],
                            action: ActionModel::Read { count: 2 },
                        }
                    } else {
                        StepModel {
                            state: StateModel::Request,
                            write: seq![SOCKS_VERSION, METHOD_NO_AUTH],
                            action: ActionModel::Read { count: 4 },
                        }
                    }
                },
                Option::None => StepModel {
                    state: StateModel::Closed,
                    write: seq![SOCKS_VERSION, METHOD_NONE_ACCEPTABLE],
                    action: ActionModel::Stop,
                },
            }
        },
        (StateModel::AuthHeader, EventModel::Bytes(b)) => {
            if b[0] != AUTH_VERSION {
                silent_close()
            } else {
                StepModel {
                    state: StateModel::AuthUser { ulen: b[1] },
                    write: Seq::empty(),
                    action: ActionModel::Read { count: b[1] as int },
                }
            }
        },
        (StateModel::AuthUser { ulen }, EventModel::Bytes(b)) => StepModel {
            state: StateModel::AuthPassLen { user: b },
            write: Seq::empty(),
            action: ActionModel::Read { count: 1 },
        },
        (StateModel::AuthPassLen { user }, EventModel::Bytes(b)) => StepModel {
            state: StateModel::AuthPass { user, plen: b[0] },
            write: Seq::empty(),
            action: ActionModel::Read { count: b[0] as int },
        },
        (StateModel::AuthPass { user, plen }, EventModel::Bytes(b)) => {
            if has_credential(m.users, user, b) {
                StepModel {
                    state: StateModel::Request,
                    write: seq![AUTH_VERSION, 0x00],
                    action: ActionModel::Read { count: 4 },
                }
            } else {
                StepModel {
                    state: StateModel::Closed,
                    write: seq![AUTH_VERSION, 0x01],
                    action: ActionModel::Stop,
                }
            }
        },
        (StateModel::Request, EventModel::Bytes(b)) => {
            if b[0] != SOCKS_VERSION {
                silent_close()
            } else if b[1] == CMD_BIND || b[1] == CMD_UDP_ASSOCIATE {
                StepModel {
                    state: StateModel::Closed,
                    write: reply_bytes(REP_COMMAND_NOT_SUPPORTED),
                    action: ActionModel::Stop,
                }
            } else if b[1] != CMD_CONNECT {
                silent_close()
            } else if b[3] == ATYP_V4 {
                StepModel {
                    state: StateModel::AddrV4,
                    write: Seq::empty(),
                    action: ActionModel::Read { count: 4 },
                }
            } else if b[3] == ATYP_DOMAIN {
                StepModel {
                    state: StateModel::DomainLen,
                    write: Seq::empty(),
                    action: ActionModel::Read { count: 1 },
                }
            } else if b[3] == ATYP_V6 {
                StepModel {
                    state: StateModel::AddrV6,
                    write: Seq::empty(),
                    action: ActionModel::Read { count: 16 },
                }
            } else {
                StepModel {
                    state: StateModel::Closed,
                    write: reply_bytes(REP_ATYP_NOT_SUPPORTED),
                    action: ActionModel::Stop,
                }
            }
        },
        (StateModel::AddrV4, EventModel::Bytes(b)) => StepModel {
            state: StateModel::PortBytes { addr: TargetAddrModel::V4 { octets: b } },
            write: Seq::empty(),
            action: ActionModel::Read { count: 2 },
        },
        (StateModel::AddrV6, EventModel::Bytes(b)) => StepModel {
            state: StateModel::PortBytes { addr: TargetAddrModel::V6 { octets: b } },
            write: Seq::empty(),
            action: ActionModel::Read { count: 2 },
        },
        (StateModel::DomainLen, EventModel::Bytes(b)) => StepModel {
            state: StateModel::DomainName { count: b[0] },
            write: Seq::empty(),
            action: ActionModel::Read { count: b[0] as int },
        },
        (StateModel::DomainName { count }, EventModel::Bytes(b)) => StepModel {
            state: StateModel::PortBytes { addr: TargetAddrModel::Name { name: b } },
            write: Seq::empty(),
            action: ActionModel::Read { count: 2 },
        },
        (StateModel::PortBytes { addr }, EventModel::Bytes(b)) => StepModel {
            state: StateModel::Dialing,
            write: Seq::empty(),
            action: ActionModel::Dial {
                target: TargetModel { addr, port: port_of(b[0], b[1]) },
                timeout_ms: m.timeout_ms,
            },
        },
        (StateModel::Dialing, EventModel::Dialed(ok)) => {
            if ok {
                StepModel {
                    state: StateModel::Tunnel,
                    write: reply_bytes(REP_SUCCESS),
                    action: ActionModel::Splice,
                }
            } else {
                StepModel {
                    state: StateModel::Closed,
                    write: reply_bytes(REP_CONNECTION_REFUSED),
                    action: ActionModel::Stop,
                }
            }
        },
        _ => silent_close(),
    }
}

impl SocksServer {
    /// A fresh machine for one logical stream.  The accepted method set
    /// follows the credential table: username/password when any credential
    /// is configured, no-authentication otherwise.  The dial timeout
    /// defaults to 500 ms when unset.
    pub fn new(users: Vec<Credential>, timeout_ms: Option<u64>) -> (r: SocksServer)
        ensures
            r@.state == StateModel::Greeting,
            r@.users == table_model(users@),
            r@.methods == configured_methods(users@.len() > 0),
            r@.timeout_ms == (match timeout_ms {
                Option::Some(t) => t,
                Option::None => DEFAULT_DIAL_TIMEOUT_MS,
            }),
    {
        let mut methods: Vec<u8> = Vec::new();
        if users.len() > 0 {
            methods.push(METHOD_USER_PASS);
        } else {
            methods.push(METHOD_NO_AUTH);
        }
        proof {
            assert(methods@ =~= configured_methods(users@.len() > 0));
        }
        let t: u64 = match timeout_ms {
            Option::Some(t) => t,
            Option::None => DEFAULT_DIAL_TIMEOUT_MS,
        };
        SocksServer { state: State::Greeting, methods, users, timeout_ms: t }
    }

    /// The action that starts every stream: read the two greeting bytes.
    pub fn first_action(&self) -> (a: Action)
        ensures
            a@ == (ActionModel::Read { count: 2 }),
    {
        Action::Read { count: 2 }
    }

    /// The configured dial timeout, in milliseconds.
    pub fn dial_timeout_ms(&self) -> (t: u64)
        ensures
            t == self@.timeout_ms,
    {
        self.timeout_ms
    }

    /// Whether the machine has closed its stream.
    pub fn is_closed(&self) -> (r: bool)
        ensures
            r == (self@.state is Closed),
    {
        match self.state {
            State::Closed => true,
            _ => false,
        }
    }

    /// Whether the machine has sent the success reply and left the stream
    /// as a raw tunnel.
    pub fn is_tunnel(&self) -> (r: bool)
        ensures
            r == (self@.state is Tunnel),
    {
        match self.state {
            State::Tunnel => true,
            _ => false,
        }
    }

    /// Advances the machine by one event: exactly the transition the
    /// specification gives, leaving the configuration untouched.
    pub fn step(&mut self, ev: Event) -> (r: Step)
        requires
            expects(old(self)@.state, ev@),
        ensures
            ({
                let t = transition(old(self)@, ev@);
                &&& final(self)@.state == t.state
                &&& r.write@ == t.write
                &&& r.action@ == t.action
                &&& final(self)@.methods == old(self)@.methods
                &&& final(self)@.users == old(self)@.users
                &&& final(self)@.timeout_ms == old(self)@.timeout_ms
            }),
    {
        let mut st = State::Closed;
        core::mem::swap(&mut st, &mut self.state);
        match (st, ev) {
            (State::Greeting, Event::Bytes(b)) => {
                if b[0] != SOCKS_VERSION {
                    self.close_silently()
                } else {
                    let n = b[1];
                    self.state = State::MethodList { count: n };
                    Step { write: Vec::new(), action: Action::Read { count: n as usize } }
                }
            },
            (State::MethodList { count }, Event::Bytes(b)) => {
                match select_method(&self.methods, &b) {
                    Option::Some(mth) => {
                        let mut w: Vec<u8> = Vec::new();
                        w.push(SOCKS_VERSION);
                        w.push(mth);
                        if mth == METHOD_USER_PASS {
                            proof {
                                assert(w@ =~= seq![SOCKS_VERSION, METHOD_USER_PASS]);
                            }
                            self.state = State::AuthHeader;
                            Step { write: w, action: Action::Read { count: 2 } }
                        } else {
                            proof {
                                assert(w@ =~= seq![SOCKS_VERSION, METHOD_NO_AUTH]);
                            }
                            self.state = State::Request;
                            Step { write: w, action: Action::Read { count: 4 } }
                        }
                    },
                    Option::None => {
                        let mut w: Vec<u8> = Vec::new();
                        w.push(SOCKS_VERSION);
                        w.push(METHOD_NONE_ACCEPTABLE);
                        proof {
                            assert(w@ =~= seq![SOCKS_VERSION, METHOD_NONE_ACCEPTABLE]);
                        }
                        self.state = State::Closed;
                        Step { write: w, action: Action::Stop }
                    },
                }
            },
            (State::AuthHeader, Event::Bytes(b)) => {
                if b[0] != AUTH_VERSION {
                    self.close_silently()
                } else {
                    let n = b[1];
                    self.state = State::AuthUser { ulen: n };
                    Step { write: Vec::new(), action: Action::Read { count: n as usize } }
                }
            },
            (State::AuthUser { ulen }, Event::Bytes(b)) => {
                self.state = State::AuthPassLen { user: b };
                Step { write: Vec::new(), action: Action::Read { count: 1 } }
            },
            (State::AuthPassLen { user }, Event::Bytes(b)) => {
                let n = b[0];
                self.state = State::AuthPass { user, plen: n };
                Step { write: Vec::new(), action: Action::Read { count: n as usize } }
            },
            (State::AuthPass { user, plen }, Event::Bytes(b)) => {
                let mut w: Vec<u8> = Vec::new();
                w.push(AUTH_VERSION);
                if check_credentials(&self.users, &user, &b) {
                    w.push(0x00);
                    proof {
                        assert(w@ =~= seq![AUTH_VERSION, 0x00u8]);
                    }
                    self.state = State::Request;
                    Step { write: w, action: Action::Read { count: 4 } }
                } else {
                    w.push(0x01);
                    proof {
                        assert(w@ =~= seq![AUTH_VERSION, 0x01u8]);
                    }
                    self.state = State::Closed;
                    Step { write: w, action: Action::Stop }
                }
            },
            (State::Request, Event::Bytes(b)) => {
                if b[0] != SOCKS_VERSION {
                    self.close_silently()
                } else if b[1] == CMD_BIND || b[1] == CMD_UDP_ASSOCIATE {
                    self.state = State::Closed;
                    Step { write: encode_reply(REP_COMMAND_NOT_SUPPORTED), action: Action::Stop }
                } else if b[1] != CMD_CONNECT {
                    self.close_silently()
                } else if b[3] == ATYP_V4 {
                    self.state = State::AddrV4;
                    Step { write: Vec::new(), action: Action::Read { count: 4 } }
                } else if b[3] == ATYP_DOMAIN {
                    self.state = State::DomainLen;
                    Step { write: Vec::new(), action: Action::Read { count: 1 } }
                } else if b[3] == ATYP_V6 {
                    self.state = State::AddrV6;
                    Step { write: Vec::new(), action: Action::Read { count: 16 } }
                } else {
                    self.state = State::Closed;
                    Step { write: encode_reply(REP_ATYP_NOT_SUPPORTED), action: Action::Stop }
                }
            },
            (State::AddrV4, Event::Bytes(b)) => {
                self.state = State::PortBytes { addr: TargetAddr::V4 { octets: b } };
                Step { write: Vec::new(), action: Action::Read { count: 2 } }
            },
            (State::AddrV6, Event::Bytes(b)) => {
                self.state = State::PortBytes { addr: TargetAddr::V6 { octets: b } };
                Step { write: Vec::new(), action: Action::Read { count: 2 } }
            },
            (State::DomainLen, Event::Bytes(b)) => {
                let n = b[0];
                self.state = State::DomainName { count: n };
                Step { write: Vec::new(), action: Action::Read { count: n as usize } }
            },
            (State::DomainName { count }, Event::Bytes(b)) => {
                self.state = State::PortBytes { addr: TargetAddr::Name { name: b } };
                Step { write: Vec::new(), action: Action::Read { count: 2 } }
            },
            (State::PortBytes { addr }, Event::Bytes(b)) => {
                let port = port_from_bytes(b[0], b[1]);
                self.state = State::Dialing;
                Step {
                    write: Vec::new(),
                    action: Action::Dial {
                        target: Target { addr, port },
                        timeout_ms: self.timeout_ms,
                    },
                }
            },
            (State::Dialing, Event::Dialed(ok)) => {
                if ok {
                    self.state = State::Tunnel;
                    Step { write: encode_reply(REP_SUCCESS), action: Action::Splice }
                } else {
                    self.state = State::Closed;
                    Step { write: encode_reply(REP_CONNECTION_REFUSED), action: Action::Stop }
                }
            },
            _ => self.close_silently(),
        }
    }

    /// Closes the stream without writing anything.
    fn close_silently(&mut self) -> (r: Step)
        ensures
            final(self)@.state == StateModel::Closed,
            r.write@ == Seq::<u8>::empty(),
            r.action@ == ActionModel::Stop,
            final(self)@.methods == old(self)@.methods,
            final(self)@.users == old(self)@.users,
            final(self)@.timeout_ms == old(self)@.timeout_ms,
    {
        self.state = State::Closed;
        let w: Vec<u8> = Vec::new();
        proof {
            assert(w@ =~= Seq::<u8>::empty());
        }
        Step { write: w, action: Action::Stop }
    }
}

} // verus!
