//! Value model of the SOCKS5 wire vocabulary: methods, commands, replies,
//! addresses, and the error taxonomy shared by every pipeline stage.

use vstd::prelude::*;

verus! {

/// SOCKS5 protocol version byte.
pub const SOCKS_VERSION: u8 = 0x05;

/// Handshake method: no authentication required.
pub const METHOD_NONE: u8 = 0x00;

/// Handshake method: GSSAPI.
pub const METHOD_GSSAPI: u8 = 0x01;

/// Handshake method: username/password.
pub const METHOD_PASSWORD: u8 = 0x02;

/// Handshake sentinel: no acceptable methods.
pub const METHOD_UNACCEPTABLE: u8 = 0xff;

/// The host part of a socket address, kept as raw octets so that the
/// verified code never depends on the platform address types.
#[derive(Clone, Copy, Debug)]
pub enum Host {
    /// IPv4 octets.
    V4([u8; 4]),
    /// IPv6 octets in network order.
    V6([u8; 16]),
}

/// SOCKS5 address: either a resolved socket address or a domain name with a
/// port. A domain name on the wire is length-prefixed by a single byte, so a
/// well-formed domain holds at most 255 bytes.
#[derive(Debug)]
pub enum Address {
    SocketAddress(Host, u16),
    DomainAddress(Vec<u8>, u16),
}

impl Address {
    /// Well-formedness: the domain name must fit its one-byte length prefix.
    pub open spec fn wf(self) -> bool {
        match self {
            Address::SocketAddress(_, _) => true,
            Address::DomainAddress(domain, _) => domain@.len() <= 255,
        }
    }

    /// The all-zero IPv4 address with port 0, used when the server has no
    /// meaningful bound address to report.
    pub fn unspecified() -> (r: Address)
        ensures
            r == Address::SocketAddress(Host::V4([0u8, 0u8, 0u8, 0u8]), 0u16),
            r.wf(),
    {
        Address::SocketAddress(Host::V4([0u8, 0u8, 0u8, 0u8]), 0u16)
    }

    /// An abstract key that identifies the address contents: the wire address
    /// type tag, the host or domain octets, and the port.
    pub open spec fn key(self) -> (u8, Seq<u8>, u16) {
        match self {
            Address::SocketAddress(Host::V4(octets), port) => (1u8, octets@, port),
            Address::SocketAddress(Host::V6(octets), port) => (4u8, octets@, port),
            Address::DomainAddress(domain, port) => (3u8, domain@, port),
        }
    }
}

/// SOCKS5 command kind requested by the client.
#[derive(Clone, Copy, Debug, PartialEq, Eq, Structural)]
pub enum ProtocolCommand {
    Connect,
    Bind,
    Associate,
}

/// SOCKS5 reply code sent back for a command.
#[derive(Clone, Copy, Debug, PartialEq, Eq, Structural)]
pub enum Reply {
    Succeeded,
    GeneralFailure,
    ConnectionNotAllowed,
    NetworkUnreachable,
    HostUnreachable,
    ConnectionRefused,
    TtlExpired,
    CommandNotSupported,
    AddressTypeNotSupported,
}

impl Reply {
    /// The wire byte of this reply code.
    pub open spec fn spec_code(self) -> u8 {
        match self {
            Reply::Succeeded => 0x00,
            Reply::GeneralFailure => 0x01,
            Reply::ConnectionNotAllowed => 0x02,
            Reply::NetworkUnreachable => 0x03,
            Reply::HostUnreachable => 0x04,
            Reply::ConnectionRefused => 0x05,
            Reply::TtlExpired => 0x06,
            Reply::CommandNotSupported => 0x07,
            Reply::AddressTypeNotSupported => 0x08,
        }
    }

    /// The wire byte of this reply code.
    pub fn code(&self) -> (r: u8)
        ensures
            r == self.spec_code(),
            r <= 8,
    {
        match self {
            Reply::Succeeded => 0x00,
            Reply::GeneralFailure => 0x01,
            Reply::ConnectionNotAllowed => 0x02,
            Reply::NetworkUnreachable => 0x03,
            Reply::HostUnreachable => 0x04,
            Reply::ConnectionRefused => 0x05,
            Reply::TtlExpired => 0x06,
            Reply::CommandNotSupported => 0x07,
            Reply::AddressTypeNotSupported => 0x08,
        }
    }
}

/// A semantic SOCKS5 failure: the transport worked, but the bytes on it do
/// not form an acceptable exchange.
#[derive(Debug)]
pub enum ProtocolError {
    /// The peer spoke a version other than SOCKS5.
    ProtocolVersion { version: u8 },
    /// The client offered no method the server is configured for; carries the
    /// method the server wanted and the full offered set.
    NoAcceptableHandshakeMethod { version: u8, chosen_method: u8, methods: Vec<u8> },
    /// The request named a command byte outside CONNECT/BIND/ASSOCIATE.
    InvalidCommand { version: u8, command: u8 },
    /// The request carried an unknown address type tag.
    InvalidAddressTypeInRequest { version: u8, command: u8, address_type: u8 },
}

/// Declares std::io::Error, the payload of a transport-level failure. It is
/// opaque here: the pipeline only carries it back to the caller, never
/// inspects it.
#[verifier::external_type_specification]
#[verifier::external_body]
pub struct ExIoError(std::io::Error);

/// The error taxonomy of the pipeline: transport-level I/O failure, or a
/// protocol-semantic failure.
#[derive(Debug)]
pub enum Error {
    Io(std::io::Error),
    Protocol(ProtocolError),
}

} // verus!
