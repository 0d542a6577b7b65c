//! Verified connection core of a SOCKS5 proxy server.
//!
//! The pipeline walks a freshly accepted transport through the SOCKS5
//! handshake, authentication negotiation, command dispatch and reply
//! framing. Every decision of the protocol is made here, over plain
//! values, and every stage owns the transport and hands it back on
//! failure; the asynchronous reads and writes themselves are the
//! caller's, driven against the byte frames this crate produces.

pub mod associate;
pub mod bind;
pub mod codec;
pub mod connect;
pub mod connection;
pub mod proto;

