//! Reply framing. The byte-level SOCKS5 encoding belongs to the wire
//! collaborator; this module states that encoding exactly, calls the
//! collaborator's serializers behind trusted wrappers, and proves that the
//! frames the pipeline hands out match the stated encoding.

use vstd::prelude::*;
use crate::proto::{Address, Host, Reply, SOCKS_VERSION};

verus! {

/// The two big-endian bytes of a port.
pub open spec fn spec_port_bytes(port: u16) -> Seq<u8> {
    seq![(port >> 8) as u8, (port & 0xff) as u8]
}

/// The wire form of an address: type tag, then the host or length-prefixed
/// domain octets, then the port.
pub open spec fn spec_address_bytes(addr: Address) -> Seq<u8> {
    match addr {
        Address::SocketAddress(Host::V4(octets), port) => seq![1u8] + octets@ + spec_port_bytes(
            port,
        ),
        Address::SocketAddress(Host::V6(octets), port) => seq![4u8] + octets@ + spec_port_bytes(
            port,
        ),
        Address::DomainAddress(domain, port) => seq![3u8, domain@.len() as u8] + domain@
            + spec_port_bytes(port),
    }
}

/// The wire form of a command response: version, reply code, reserved zero
/// byte, then the bound address.
pub open spec fn spec_response_bytes(code: u8, addr: Address) -> Seq<u8> {
    seq![SOCKS_VERSION, code, 0u8] + spec_address_bytes(addr)
}

/// The wire form of a handshake response: version, then the chosen method.
pub open spec fn spec_handshake_response_bytes(method: u8) -> Seq<u8> {
    seq![SOCKS_VERSION, method]
}

/// Law: the two big-endian port bytes determine the port.
pub proof fn lemma_port_bytes_injective(p1: u16, p2: u16)
    requires
        spec_port_bytes(p1) == spec_port_bytes(p2),
    ensures
        p1 == p2,
{
    assert(spec_port_bytes(p1)[0] == (p1 >> 8) as u8);
    assert(spec_port_bytes(p1)[1] == (p1 & 0xff) as u8);
    assert((p1 >> 8) as u8 == (p2 >> 8) as u8 && (p1 & 0xff) as u8 == (p2 & 0xff) as u8
        ==> p1 == p2) by (bit_vector);
}

/// Law: the wire form of an address determines its contents — two addresses
/// that serialize to the same bytes have the same type tag, the same host or
/// domain octets, and the same port.
pub proof fn lemma_address_bytes_injective(a1: Address, a2: Address)
    requires
        spec_address_bytes(a1) == spec_address_bytes(a2),
    ensures
        a1.key() == a2.key(),
{
    let t1 = spec_address_bytes(a1);
    let t2 = spec_address_bytes(a2);
    match (a1, a2) {
        (Address::SocketAddress(Host::V4(o1), p1), Address::SocketAddress(Host::V4(o2), p2)) => {
            assert forall|i: int| 0 <= i < 4 implies o1@[i] == o2@[i] by {
                assert(t1[1 + i] == o1@[i]);
                assert(t2[1 + i] == o2@[i]);
            }
            assert(o1@ =~= o2@);
            assert(t1[5] == spec_port_bytes(p1)[0] && t1[6] == spec_port_bytes(p1)[1]);
            assert(t2[5] == spec_port_bytes(p2)[0] && t2[6] == spec_port_bytes(p2)[1]);
            assert(spec_port_bytes(p1) =~= spec_port_bytes(p2));
            lemma_port_bytes_injective(p1, p2);
        },
        (Address::SocketAddress(Host::V6(o1), p1), Address::SocketAddress(Host::V6(o2), p2)) => {
            assert forall|i: int| 0 <= i < 16 implies o1@[i] == o2@[i] by {
                assert(t1[1 + i] == o1@[i]);
                assert(t2[1 + i] == o2@[i]);
            }
            assert(o1@ =~= o2@);
            assert(t1[17] == spec_port_bytes(p1)[0] && t1[18] == spec_port_bytes(p1)[1]);
            assert(t2[17] == spec_port_bytes(p2)[0] && t2[18] == spec_port_bytes(p2)[1]);
            assert(spec_port_bytes(p1) =~= spec_port_bytes(p2));
            lemma_port_bytes_injective(p1, p2);
        },
        (Address::DomainAddress(d1, p1), Address::DomainAddress(d2, p2)) => {
            let n = d1@.len() as int;
            assert(t1.len() == 2 + n + 2);
            assert(t2.len() == 2 + d2@.len() + 2);
            assert(d1@.len() == d2@.len());
            assert forall|i: int| 0 <= i < n implies d1@[i] == d2@[i] by {
                assert(t1[2 + i] == d1@[i]);
                assert(t2[2 + i] == d2@[i]);
            }
            assert(d1@ =~= d2@);
            assert(t1[2 + n] == spec_port_bytes(p1)[0] && t1[2 + n + 1] == spec_port_bytes(p1)[1]);
            assert(t2[2 + n] == spec_port_bytes(p2)[0] && t2[2 + n + 1] == spec_port_bytes(p2)[1]);
            assert(spec_port_bytes(p1) =~= spec_port_bytes(p2));
            lemma_port_bytes_injective(p1, p2);
        },
        _ => {
            assert(t1[0] == t2[0]);
            assert(false);
        },
    }
}

/// Law, the encode side of the reply round trip: a reply frame determines
/// the reply code and the address contents that were written into it, so
/// any decoder that reads the frame back faithfully must yield them
/// unchanged.
pub proof fn lemma_response_bytes_injective(c1: u8, a1: Address, c2: u8, a2: Address)
    requires
        spec_response_bytes(c1, a1) == spec_response_bytes(c2, a2),
    ensures
        c1 == c2,
        a1.key() == a2.key(),
{
    let s1 = spec_response_bytes(c1, a1);
    let s2 = spec_response_bytes(c2, a2);
    assert(s1[1] == c1 && s2[1] == c2);
    assert(spec_address_bytes(a1) =~= s1.subrange(3, s1.len() as int));
    assert(spec_address_bytes(a2) =~= s2.subrange(3, s2.len() as int));
    lemma_address_bytes_injective(a1, a2);
}

/// Relies on socks5_proto::handshake::Response::write_to_buf: the version
/// byte followed by the method byte.
#[verifier::external_body]
pub(crate) fn encode_handshake_response(method: u8) -> (r: Vec<u8>)
    ensures
        r@ == spec_handshake_response_bytes(method),
{
    let resp = socks5_proto::handshake::Response::new(socks5_proto::handshake::Method(method));
    let mut buf = Vec::new();
    resp.write_to_buf(&mut buf);
    buf
}

/// Relies on socks5_proto::Response::write_to_buf and
/// socks5_proto::Address::write_to_buf: version, reply code, reserved zero,
/// IPv4 tag, four host octets, big-endian port.
#[verifier::external_body]
pub(crate) fn encode_response_v4(code: u8, octets: [u8; 4], port: u16) -> (r: Vec<u8>)
    requires
        code <= 8,
    ensures
        r@ == spec_response_bytes(code, Address::SocketAddress(Host::V4(octets), port)),
{
    let reply = socks5_proto::Reply::try_from(code).unwrap();
    let addr = socks5_proto::Address::SocketAddress(From::from((octets, port)));
    let mut buf = Vec::new();
    socks5_proto::Response::new(reply, addr).write_to_buf(&mut buf);
    buf
}

/// Relies on socks5_proto::Response::write_to_buf and
/// socks5_proto::Address::write_to_buf: version, reply code, reserved zero,
/// IPv6 tag, sixteen host octets in network order, big-endian port.
#[verifier::external_body]
pub(crate) fn encode_response_v6(code: u8, octets: [u8; 16], port: u16) -> (r: Vec<u8>)
    requires
        code <= 8,
    ensures
        r@ == spec_response_bytes(code, Address::SocketAddress(Host::V6(octets), port)),
{
    let reply = socks5_proto::Reply::try_from(code).unwrap();
    let addr = socks5_proto::Address::SocketAddress(From::from((octets, port)));
    let mut buf = Vec::new();
    socks5_proto::Response::new(reply, addr).write_to_buf(&mut buf);
    buf
}

/// Relies on socks5_proto::Response::write_to_buf and
/// socks5_proto::Address::write_to_buf: version, reply code, reserved zero,
/// domain tag, one length byte, the domain octets, big-endian port.
#[verifier::external_body]
pub(crate) fn encode_response_domain(code: u8, domain: &Vec<u8>, port: u16) -> (r: Vec<u8>)
    requires
        code <= 8,
        domain@.len() <= 255,
    ensures
        r@ == spec_response_bytes(code, Address::DomainAddress(*domain, port)),
{
    let reply = socks5_proto::Reply::try_from(code).unwrap();
    let addr = socks5_proto::Address::DomainAddress(domain.clone(), port);
    let mut buf = Vec::new();
    socks5_proto::Response::new(reply, addr).write_to_buf(&mut buf);
    buf
}

/// The frame of a command response with the given reply code and bound
/// address, exactly as the wire collaborator serializes it.
pub fn response_bytes(reply: Reply, addr: &Address) -> (r: Vec<u8>)
    requires
        addr.wf(),
    ensures
        r@ == spec_response_bytes(reply.spec_code(), *addr),
{
    let code = reply.code();
    match addr {
        Address::SocketAddress(Host::V4(octets), port) => encode_response_v4(code, *octets, *port),
        Address::SocketAddress(Host::V6(octets), port) => encode_response_v6(code, *octets, *port),
        Address::DomainAddress(domain, port) => encode_response_domain(code, domain, *port),
    }
}

} // verus!
