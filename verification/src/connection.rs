//! The connection pipeline: entry point, authentication negotiation and
//! command dispatch.
//!
//! Each stage owns the transport and consumes itself on transition. The
//! caller performs the reads and writes: it hands each parsed message in as
//! plain values, writes the frames a stage hands out, and reports the write
//! outcome back; every decision between those points is made and proved
//! here. On every failure path the stage hands the transport back
//! unchanged, so it is never lost.

use vstd::prelude::*;
use crate::associate::{self, Associate};
use crate::bind::{self, Bind};
use crate::codec::{encode_handshake_response, spec_handshake_response_bytes};
use crate::connect::{self, Connect};
use crate::proto::{
    Address, Error, ProtocolCommand, ProtocolError, METHOD_UNACCEPTABLE, SOCKS_VERSION,
};

verus! {

/// Whether the offered handshake method set contains the server's
/// configured method: exactly then does the negotiation succeed.
pub open spec fn handshake_accepts(methods: Seq<u8>, chosen_method: u8) -> bool {
    methods.contains(chosen_method)
}

/// Whether the offered method set contains the given method.
fn contains_method(methods: &Vec<u8>, method: u8) -> (r: bool)
    ensures
        r == handshake_accepts(methods@, method),
{
    let mut i: usize = 0;
    while i < methods.len()
        invariant
            i <= methods@.len(),
            forall|j: int| 0 <= j < i ==> methods@[j] != method,
        decreases methods@.len() - i,
    {
        if methods[i] == method {
            assert(methods@.contains(method));
            return true;
        }
        i = i + 1;
    }
    assert(forall|j: int| 0 <= j < methods@.len() ==> methods@[j] != method);
    false
}

/// A freshly accepted transport, not yet a valid SOCKS5 connection, paired
/// with the handshake method the server's authenticator is configured for.
///
/// This is the entry point of the pipeline: the caller reads the client's
/// handshake request from the transport and hands the offered method set to
/// [`authenticate`](IncomingConnection::authenticate).
#[derive(Debug)]
pub struct IncomingConnection<T> {
    stream: T,
    chosen_method: u8,
}

impl<T> IncomingConnection<T> {
    /// The transport this stage owns.
    pub closed spec fn stream(self) -> T {
        self.stream
    }

    /// The handshake method the server is configured for.
    pub closed spec fn chosen_method(self) -> u8 {
        self.chosen_method
    }

    pub fn new(stream: T, chosen_method: u8) -> (r: Self)
        ensures
            r.stream() == stream,
            r.chosen_method() == chosen_method,
    {
        IncomingConnection { stream, chosen_method }
    }

    /// Mutable access to the owned transport, for reading the handshake
    /// request and for socket options.
    pub fn stream_mut(&mut self) -> (r: &mut T)
        ensures
            *r == old(self).stream(),
            final(self).stream() == *final(r),
            final(self).chosen_method() == old(self).chosen_method(),
    {
        &mut self.stream
    }

    /// Give the transport back, unchanged — the path taken when the
    /// handshake request could not be read.
    pub fn into_inner(self) -> (r: T)
        ensures
            r == self.stream(),
    {
        self.stream
    }

    /// Decide the handshake: the client offered `methods`. The negotiation
    /// is accepted exactly when the offered set contains the configured
    /// method; either way the transport moves on unchanged, and a rejection
    /// keeps the full offered set for the error it will raise.
    pub fn authenticate(self, methods: Vec<u8>) -> (r: Handshake<T>)
        ensures
            match r {
                Handshake::Accepted(a) => handshake_accepts(methods@, self.chosen_method())
                    && a.stream() == self.stream() && a.chosen_method() == self.chosen_method(),
                Handshake::Rejected(j) => !handshake_accepts(methods@, self.chosen_method())
                    && j.stream() == self.stream() && j.chosen_method() == self.chosen_method()
                    && j.methods() == methods,
            },
    {
        if contains_method(&methods, self.chosen_method) {
            Handshake::Accepted(Accepted { stream: self.stream, chosen_method: self.chosen_method })
        } else {
            Handshake::Rejected(
                Rejected { stream: self.stream, chosen_method: self.chosen_method, methods },
            )
        }
    }
}

/// The outcome of the handshake decision. Both outcomes still owe the
/// client a handshake response on the wire before the pipeline settles.
#[derive(Debug)]
pub enum Handshake<T> {
    Accepted(Accepted<T>),
    Rejected(Rejected<T>),
}

/// A handshake the server accepted: the response naming the chosen method
/// is owed to the client, then the authenticator's own sub-protocol runs.
#[derive(Debug)]
pub struct Accepted<T> {
    stream: T,
    chosen_method: u8,
}

impl<T> Accepted<T> {
    /// The transport this stage owns.
    pub closed spec fn stream(self) -> T {
        self.stream
    }

    /// The handshake method the server is configured for.
    pub closed spec fn chosen_method(self) -> u8 {
        self.chosen_method
    }

    /// The handshake response frame, naming exactly the chosen method.
    pub fn response(&self) -> (r: Vec<u8>)
        ensures
            r@ == spec_handshake_response_bytes(self.chosen_method()),
    {
        encode_handshake_response(self.chosen_method)
    }

    /// Mutable access to the owned transport, for writing the response and
    /// for the authenticator's sub-protocol.
    pub fn stream_mut(&mut self) -> (r: &mut T)
        ensures
            *r == old(self).stream(),
            final(self).stream() == *final(r),
            final(self).chosen_method() == old(self).chosen_method(),
    {
        &mut self.stream
    }

    /// The response was written and the authenticator's sub-protocol ran:
    /// the same transport, now authenticated.
    pub fn finish(self) -> (r: Authenticated<T>)
        ensures
            r.stream() == self.stream(),
    {
        Authenticated { stream: self.stream }
    }

    /// The response write failed: hand the transport back, unchanged.
    pub fn into_inner(self) -> (r: T)
        ensures
            r == self.stream(),
    {
        self.stream
    }
}

/// A handshake the server rejected: the "no acceptable methods" response is
/// owed to the client first, and only then is the protocol error raised, so
/// the client receives a deterministic close signal.
#[derive(Debug)]
pub struct Rejected<T> {
    stream: T,
    chosen_method: u8,
    methods: Vec<u8>,
}

impl<T> Rejected<T> {
    /// The transport this stage owns.
    pub closed spec fn stream(self) -> T {
        self.stream
    }

    /// The handshake method the server is configured for.
    pub closed spec fn chosen_method(self) -> u8 {
        self.chosen_method
    }

    /// The full method set the client offered.
    pub closed spec fn methods(self) -> Vec<u8> {
        self.methods
    }

    /// The handshake response frame, naming the "no acceptable methods"
    /// sentinel.
    pub fn response(&self) -> (r: Vec<u8>)
        ensures
            r@ == spec_handshake_response_bytes(METHOD_UNACCEPTABLE),
    {
        encode_handshake_response(METHOD_UNACCEPTABLE)
    }

    /// Mutable access to the owned transport, for writing the rejection
    /// response.
    pub fn stream_mut(&mut self) -> (r: &mut T)
        ensures
            *r == old(self).stream(),
            final(self).stream() == *final(r),
            final(self).chosen_method() == old(self).chosen_method(),
            final(self).methods() == old(self).methods(),
    {
        &mut self.stream
    }

    /// The rejection response was written: raise the protocol error
    /// carrying the attempted method and the client's full offered set, and
    /// hand the transport back unchanged.
    pub fn finish(self) -> (r: (Error, T))
        ensures
            r.0 == Error::Protocol(
                ProtocolError::NoAcceptableHandshakeMethod {
                    version: SOCKS_VERSION,
                    chosen_method: self.chosen_method(),
                    methods: self.methods(),
                },
            ),
            r.1 == self.stream(),
    {
        (
            Error::Protocol(
                ProtocolError::NoAcceptableHandshakeMethod {
                    version: SOCKS_VERSION,
                    chosen_method: self.chosen_method,
                    methods: self.methods,
                },
            ),
            self.stream,
        )
    }

    /// The rejection write failed: hand the transport back, unchanged.
    pub fn into_inner(self) -> (r: T)
        ensures
            r == self.stream(),
    {
        self.stream
    }
}

/// A transport that passed the SOCKS5 authentication handshake. The caller
/// reads the client's request from it and hands the parsed command and
/// address to [`wait_request`](Authenticated::wait_request).
#[derive(Debug)]
pub struct Authenticated<T> {
    stream: T,
}

impl<T> Authenticated<T> {
    /// The transport this stage owns.
    pub closed spec fn stream(self) -> T {
        self.stream
    }

    /// Mutable access to the owned transport, for reading the request and
    /// for socket options.
    pub fn stream_mut(&mut self) -> (r: &mut T)
        ensures
            *r == old(self).stream(),
            final(self).stream() == *final(r),
    {
        &mut self.stream
    }

    /// Give the transport back, unchanged — the path taken when the request
    /// could not be read.
    pub fn into_inner(self) -> (r: T)
        ensures
            r == self.stream(),
    {
        self.stream
    }

    /// Dispatch the parsed request: each command kind maps to exactly its
    /// own command stage in the reply-pending state, carrying the parsed
    /// target address unchanged alongside the same transport. No write
    /// happens here — replying is the chosen command stage's affair.
    pub fn wait_request(self, command: ProtocolCommand, address: Address) -> (r: Command<T>)
        ensures
            match r {
                Command::Associate(stage, addr) => command == ProtocolCommand::Associate
                    && stage.stream() == self.stream() && addr == address,
                Command::Bind(stage, addr) => command == ProtocolCommand::Bind && stage.stream()
                    == self.stream() && addr == address,
                Command::Connect(stage, addr) => command == ProtocolCommand::Connect
                    && stage.stream() == self.stream() && addr == address,
            },
    {
        match command {
            ProtocolCommand::Associate => Command::Associate(
                Associate::<T, associate::NeedReply>::new(self.stream),
                address,
            ),
            ProtocolCommand::Bind => Command::Bind(
                Bind::<T, bind::NeedFirstReply>::new(self.stream),
                address,
            ),
            ProtocolCommand::Connect => Command::Connect(
                Connect::<T, connect::NeedReply>::new(self.stream),
                address,
            ),
        }
    }
}

/// A command sent from the SOCKS5 client, dispatched to its own stage with
/// the parsed target address alongside.
#[derive(Debug)]
pub enum Command<T> {
    Associate(Associate<T, associate::NeedReply>, Address),
    Bind(Bind<T, bind::NeedFirstReply>, Address),
    Connect(Connect<T, connect::NeedReply>, Address),
}

} // verus!
