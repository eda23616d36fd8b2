//! Core of a reverse SOCKS5 proxy agent.
//!
//! The agent dials outbound to a controller, identifies itself with a fixed
//! magic prefix, and then serves SOCKS5 (RFC 1928 with the RFC 1929
//! username/password subnegotiation) on logical streams that the controller
//! opens back over that single connection.  This crate holds the verified
//! core: the wire formats, the credential table, the address formatting, and
//! the per-stream SOCKS5 state machine.  All actual I/O (TCP, TLS, the
//! stream multiplexer, upstream dials, splicing) is performed by the
//! surrounding program, which feeds bytes and dial outcomes to the machine
//! and carries out the actions it returns.

pub mod addr;
pub mod client;
pub mod config;
pub mod creds;
pub mod laws;
pub mod machine;
pub mod wire;
