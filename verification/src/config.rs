//! The agent's configuration, as handed in by the surrounding program.

use vstd::prelude::*;

verus! {

/// How the agent reaches its controller: the host to dial, the TCP port,
/// whether to wrap the transport in TLS, and the reserved Tor flag (declared
/// but not wired to any transport today).
pub struct Config {
    pub host: String,
    pub port: u16,
    pub tls: bool,
    pub tor: bool,
}

/// Mathematical form of the configuration.
pub struct ConfigModel {
    pub host: Seq<char>,
    pub port: u16,
    pub tls: bool,
    pub tor: bool,
}

impl View for Config {
    type V = ConfigModel;

    open spec fn view(&self) -> ConfigModel {
        ConfigModel { host: self.host@, port: self.port, tls: self.tls, tor: self.tor }
    }
}

} // verus!
