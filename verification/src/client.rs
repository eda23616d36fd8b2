//! The session side of the agent: the magic prefix written before any
//! multiplexer traffic, and the verdict the session loop follows for each
//! outcome of the multiplexer's accept poll.

use vstd::prelude::*;

use crate::config::{Config, ConfigModel};

verus! {

/// The four-byte magic prefix that identifies the agent to the controller.
pub open spec fn magic_prefix() -> Seq<u8> {
    seq![0x1bu8, 0xc3u8, 0xbdu8, 0x0fu8]
}

/// The bytes of the magic prefix, the very first bytes the agent writes to
/// the transport.
pub fn magic_bytes() -> (r: Vec<u8>)
    ensures
        r@ == magic_prefix(),
        r@.len() == 4,
{
    let mut v: Vec<u8> = Vec::new();
    v.push(0x1b);
    v.push(0xc3);
    v.push(0xbd);
    v.push(0x0f);
    proof {
        assert(v@ =~= magic_prefix());
    }
    v
}

/// One outcome of polling the multiplexer for the next inbound stream.
pub enum MuxEvent {
    /// The controller opened a logical stream.
    StreamAvailable,
    /// The multiplexer surfaced a single-stream error.
    StreamError,
    /// End of stream or a fatal multiplexer error.
    Ended,
}

/// What the session loop does with one accept outcome.
pub enum SessionVerdict {
    /// Hand the stream to an independent per-stream task and keep accepting.
    Dispatch,
    /// Log the recoverable error and keep accepting.
    Continue,
    /// The session is over; report the connection closed.
    Finished,
}

/// The session loop's decision for each accept outcome: a new stream is
/// dispatched, a recoverable error never ends the session, and only the end
/// of the transport does.
pub fn session_verdict(ev: &MuxEvent) -> (r: SessionVerdict)
    ensures
        ev is StreamAvailable ==> r is Dispatch,
        ev is StreamError ==> r is Continue,
        ev is Ended ==> r is Finished,
{
    match ev {
        MuxEvent::StreamAvailable => SessionVerdict::Dispatch,
        MuxEvent::StreamError => SessionVerdict::Continue,
        MuxEvent::Ended => SessionVerdict::Finished,
    }
}

/// The agent: holds the configuration under which the surrounding program
/// dials the controller and runs the session.
pub struct ReverseProxyClient {
    config: Config,
}

impl View for ReverseProxyClient {
    type V = ConfigModel;

    closed spec fn view(&self) -> ConfigModel {
        self.config@
    }
}

impl ReverseProxyClient {
    /// An agent for the given configuration.
    pub fn new(config: Config) -> (r: ReverseProxyClient)
        ensures
            r@ == config@,
    {
        ReverseProxyClient { config }
    }

    /// The configuration the agent was built with.
    pub fn config(&self) -> (r: &Config)
        ensures
            r@ == self@,
    {
        &self.config
    }

    /// The handshake the agent performs after the transport is up: the
    /// magic prefix, written before any multiplexer traffic.
    pub fn handshake_bytes(&self) -> (r: Vec<u8>)
        ensures
            r@ == magic_prefix(),
    {
        magic_bytes()
    }
}

} // verus!
