//! Handshake negotiation: acceptance, rejection, and the frames owed to the
//! client in each case.

use socks5_server::connection::{Handshake, IncomingConnection};
use socks5_server::proto::{
    Error, ProtocolError, METHOD_GSSAPI, METHOD_NONE, METHOD_PASSWORD, METHOD_UNACCEPTABLE,
    SOCKS_VERSION,
};

#[test]
fn accept_names_chosen_method() {
    let conn = IncomingConnection::new(41u32, METHOD_PASSWORD);
    match conn.authenticate(vec![METHOD_NONE, METHOD_PASSWORD]) {
        Handshake::Accepted(accepted) => {
            assert_eq!(accepted.response(), vec![SOCKS_VERSION, METHOD_PASSWORD]);
            let authenticated = accepted.finish();
            assert_eq!(authenticated.into_inner(), 41u32);
        }
        Handshake::Rejected(_) => panic!("offered set contains the chosen method"),
    }
}

#[test]
fn accept_with_single_offer() {
    let conn = IncomingConnection::new((), METHOD_NONE);
    match conn.authenticate(vec![METHOD_NONE]) {
        Handshake::Accepted(accepted) => {
            assert_eq!(accepted.response(), vec![SOCKS_VERSION, METHOD_NONE]);
        }
        Handshake::Rejected(_) => panic!("offered set contains the chosen method"),
    }
}

#[test]
fn reject_keeps_offered_set() {
    let conn = IncomingConnection::new(7u32, METHOD_NONE);
    match conn.authenticate(vec![METHOD_GSSAPI, METHOD_PASSWORD]) {
        Handshake::Accepted(_) => panic!("offered set excludes the chosen method"),
        Handshake::Rejected(rejected) => {
            assert_eq!(rejected.response(), vec![SOCKS_VERSION, METHOD_UNACCEPTABLE]);
            let (err, stream) = rejected.finish();
            assert_eq!(stream, 7u32);
            match err {
                Error::Protocol(ProtocolError::NoAcceptableHandshakeMethod {
                    version,
                    chosen_method,
                    methods,
                }) => {
                    assert_eq!(version, SOCKS_VERSION);
                    assert_eq!(chosen_method, METHOD_NONE);
                    assert_eq!(methods, vec![METHOD_GSSAPI, METHOD_PASSWORD]);
                }
                _ => panic!("expected the no-acceptable-method protocol error"),
            }
        }
    }
}

#[test]
fn reject_empty_offer() {
    let conn = IncomingConnection::new(3u8, METHOD_NONE);
    match conn.authenticate(Vec::new()) {
        Handshake::Accepted(_) => panic!("an empty offer can match no method"),
        Handshake::Rejected(rejected) => {
            let (_, stream) = rejected.finish();
            assert_eq!(stream, 3u8);
        }
    }
}

#[test]
fn rejected_write_failure_returns_transport() {
    let conn = IncomingConnection::new(11u64, METHOD_NONE);
    match conn.authenticate(vec![METHOD_GSSAPI]) {
        Handshake::Accepted(_) => panic!("offered set excludes the chosen method"),
        Handshake::Rejected(rejected) => {
            assert_eq!(rejected.into_inner(), 11u64);
        }
    }
}

#[test]
fn accepted_write_failure_returns_transport() {
    let conn = IncomingConnection::new(13u64, METHOD_NONE);
    match conn.authenticate(vec![METHOD_NONE]) {
        Handshake::Accepted(accepted) => {
            assert_eq!(accepted.into_inner(), 13u64);
        }
        Handshake::Rejected(_) => panic!("offered set contains the chosen method"),
    }
}

#[test]
fn read_failure_returns_transport() {
    let conn = IncomingConnection::new(17u64, METHOD_NONE);
    assert_eq!(conn.into_inner(), 17u64);
}
