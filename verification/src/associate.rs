//! SOCKS5 command type `Associate`.
//!
//! The ASSOCIATE command takes a single reply, after which the transport is
//! kept only to detect client-side closure while UDP relaying happens
//! out-of-band; the relay itself is the caller's concern. The reply state
//! is a type-level tag, as for CONNECT.

use vstd::prelude::*;
use core::marker::PhantomData;
use crate::codec::{response_bytes, spec_response_bytes};
use crate::proto::{Address, Reply};

verus! {

/// Marker type indicating that the connection needs to be replied.
#[derive(Debug)]
pub struct NeedReply;

/// Marker type indicating that the reply has been sent; the transport now
/// only signals client-side closure.
#[derive(Debug)]
pub struct Ready;

/// A connection bound to the ASSOCIATE command, owning the transport,
/// tagged by its reply state.
#[derive(Debug)]
pub struct Associate<T, S> {
    stream: T,
    _state: PhantomData<S>,
}

impl<T, S> Associate<T, S> {
    /// The transport this stage owns.
    pub closed spec fn stream(self) -> T {
        self.stream
    }

    /// Mutable access to the owned transport, for the caller's reads,
    /// writes and socket options; the stage keeps whatever the caller
    /// leaves behind the reference.
    pub fn stream_mut(&mut self) -> (r: &mut T)
        ensures
            *r == old(self).stream(),
            final(self).stream() == *final(r),
    {
        &mut self.stream
    }

    /// Shared access to the owned transport.
    pub fn stream_ref(&self) -> (r: &T)
        ensures
            *r == self.stream(),
    {
        &self.stream
    }

    /// Give the transport back, unchanged.
    pub fn into_inner(self) -> (r: T)
        ensures
            r == self.stream(),
    {
        self.stream
    }
}

impl<T> Associate<T, NeedReply> {
    pub(crate) fn new(stream: T) -> (r: Self)
        ensures
            r.stream() == stream,
    {
        Associate { stream, _state: PhantomData }
    }

    /// Frame the reply with the given code and bound address and move to the
    /// pending-write state. The caller must write the returned frame; the
    /// transport is conserved either way.
    pub fn reply(self, reply: Reply, addr: &Address) -> (r: (Vec<u8>, ReplyPending<T>))
        requires
            addr.wf(),
        ensures
            r.0@ == spec_response_bytes(reply.spec_code(), *addr),
            r.1.stream() == self.stream(),
    {
        let frame = response_bytes(reply, addr);
        (frame, ReplyPending { stream: self.stream })
    }
}

/// An ASSOCIATE reply that has been framed but not yet confirmed written.
#[derive(Debug)]
pub struct ReplyPending<T> {
    stream: T,
}

impl<T> ReplyPending<T> {
    /// The transport this stage owns.
    pub closed spec fn stream(self) -> T {
        self.stream
    }

    /// Mutable access to the owned transport, for writing the framed reply.
    pub fn stream_mut(&mut self) -> (r: &mut T)
        ensures
            *r == old(self).stream(),
            final(self).stream() == *final(r),
    {
        &mut self.stream
    }

    /// The write succeeded: the same transport, re-tagged ready.
    pub fn finish(self) -> (r: Associate<T, Ready>)
        ensures
            r.stream() == self.stream(),
    {
        Associate { stream: self.stream, _state: PhantomData }
    }

    /// The write failed: hand the transport back, unchanged.
    pub fn into_inner(self) -> (r: T)
        ensures
            r == self.stream(),
    {
        self.stream
    }
}

} // verus!
