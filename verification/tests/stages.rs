//! The Bind two-reply protocol and the Associate single-reply protocol,
//! driven at the value level.

use socks5_server::connection::{Command, Handshake, IncomingConnection};
use socks5_server::proto::{Address, Host, ProtocolCommand, Reply, METHOD_NONE};

fn dispatch(command: ProtocolCommand, address: Address) -> Command<u16> {
    match IncomingConnection::new(77u16, METHOD_NONE).authenticate(vec![METHOD_NONE]) {
        Handshake::Accepted(accepted) => accepted.finish().wait_request(command, address),
        Handshake::Rejected(_) => panic!("the no-auth method was offered"),
    }
}

#[test]
fn bind_two_reply_sequence() {
    let target = Address::DomainAddress(b"peer.test".to_vec(), 7000);
    let stage = match dispatch(ProtocolCommand::Bind, target) {
        Command::Bind(stage, _) => stage,
        _ => panic!("BIND must dispatch to the Bind stage"),
    };

    let listen = Address::SocketAddress(Host::V4([10, 0, 0, 2]), 4000);
    let (first, pending) = stage.reply(Reply::Succeeded, &listen);
    assert_eq!(first, vec![0x05, 0x00, 0x00, 0x01, 10, 0, 0, 2, 0x0f, 0xa0]);
    let stage = pending.finish();

    let peer = Address::SocketAddress(Host::V4([10, 0, 0, 9]), 4001);
    let (second, pending) = stage.reply(Reply::Succeeded, &peer);
    assert_eq!(second, vec![0x05, 0x00, 0x00, 0x01, 10, 0, 0, 9, 0x0f, 0xa1]);
    let ready = pending.finish();
    assert_eq!(ready.into_inner(), 77u16);
}

#[test]
fn bind_first_reply_write_failure_conserves_transport() {
    let stage = match dispatch(ProtocolCommand::Bind, Address::unspecified()) {
        Command::Bind(stage, _) => stage,
        _ => panic!("BIND must dispatch to the Bind stage"),
    };
    let (_, pending) = stage.reply(Reply::GeneralFailure, &Address::unspecified());
    assert_eq!(pending.into_inner(), 77u16);
}

#[test]
fn bind_second_reply_write_failure_conserves_transport() {
    let stage = match dispatch(ProtocolCommand::Bind, Address::unspecified()) {
        Command::Bind(stage, _) => stage,
        _ => panic!("BIND must dispatch to the Bind stage"),
    };
    let (_, pending) = stage.reply(Reply::Succeeded, &Address::unspecified());
    let stage = pending.finish();
    let (_, pending) = stage.reply(Reply::Succeeded, &Address::unspecified());
    assert_eq!(pending.into_inner(), 77u16);
}

#[test]
fn associate_reply_sequence() {
    let stage = match dispatch(
        ProtocolCommand::Associate,
        Address::SocketAddress(Host::V4([0, 0, 0, 0]), 0),
    ) {
        Command::Associate(stage, _) => stage,
        _ => panic!("ASSOCIATE must dispatch to the Associate stage"),
    };
    let relay = Address::SocketAddress(Host::V4([10, 0, 0, 3]), 5300);
    let (frame, pending) = stage.reply(Reply::Succeeded, &relay);
    assert_eq!(frame, vec![0x05, 0x00, 0x00, 0x01, 10, 0, 0, 3, 0x14, 0xb4]);
    let ready = pending.finish();
    assert_eq!(ready.into_inner(), 77u16);
}

#[test]
fn associate_reply_write_failure_conserves_transport() {
    let stage = match dispatch(ProtocolCommand::Associate, Address::unspecified()) {
        Command::Associate(stage, _) => stage,
        _ => panic!("ASSOCIATE must dispatch to the Associate stage"),
    };
    let (_, pending) = stage.reply(Reply::GeneralFailure, &Address::unspecified());
    assert_eq!(pending.into_inner(), 77u16);
}
