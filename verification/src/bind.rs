//! SOCKS5 command type `Bind`.
//!
//! The BIND command takes two replies: the first acknowledges the listen,
//! the second announces the accepted peer. Each is framed and written
//! independently and fails independently, in the same way as CONNECT's
//! single reply. The reply state is a type-level tag, so the second reply
//! cannot be framed before the first is confirmed written, and no reply can
//! be framed once the connection is ready.

use vstd::prelude::*;
use core::marker::PhantomData;
use crate::codec::{response_bytes, spec_response_bytes};
use crate::proto::{Address, Reply};

verus! {

/// Marker type indicating that the connection needs the first reply.
#[derive(Debug)]
pub struct NeedFirstReply;

/// Marker type indicating that the connection needs the second reply.
#[derive(Debug)]
pub struct NeedSecondReply;

/// Marker type indicating that the connection is ready to use as a regular
/// byte stream.
#[derive(Debug)]
pub struct Ready;

/// A connection bound to the BIND command, owning the transport, tagged by
/// its reply state.
#[derive(Debug)]
pub struct Bind<T, S> {
    stream: T,
    _state: PhantomData<S>,
}

impl<T, S> Bind<T, S> {
    /// The transport this stage owns.
    pub closed spec fn stream(self) -> T {
        self.stream
    }

    /// Mutable access to the owned transport, for the caller's reads,
    /// writes and socket options; the stage keeps whatever the caller
    /// leaves behind the reference.
    pub fn stream_mut(&mut self) -> (r: &mut T)
        ensures
            *r == old(self).stream(),
            final(self).stream() == *final(r),
    {
        &mut self.stream
    }

    /// Shared access to the owned transport.
    pub fn stream_ref(&self) -> (r: &T)
        ensures
            *r == self.stream(),
    {
        &self.stream
    }

    /// Give the transport back, unchanged.
    pub fn into_inner(self) -> (r: T)
        ensures
            r == self.stream(),
    {
        self.stream
    }
}

impl<T> Bind<T, NeedFirstReply> {
    pub(crate) fn new(stream: T) -> (r: Self)
        ensures
            r.stream() == stream,
    {
        Bind { stream, _state: PhantomData }
    }

    /// Frame the first reply, acknowledging the listen, and move to the
    /// pending-write state leading to the second reply. The caller must
    /// write the returned frame; the transport is conserved either way.
    pub fn reply(self, reply: Reply, addr: &Address) -> (r: (
        Vec<u8>,
        ReplyPending<T, NeedSecondReply>,
    ))
        requires
            addr.wf(),
        ensures
            r.0@ == spec_response_bytes(reply.spec_code(), *addr),
            r.1.stream() == self.stream(),
    {
        let frame = response_bytes(reply, addr);
        (frame, ReplyPending { stream: self.stream, _state: PhantomData })
    }
}

impl<T> Bind<T, NeedSecondReply> {
    /// Frame the second reply, announcing the accepted peer, and move to
    /// the pending-write state leading to the ready connection. The caller
    /// must write the returned frame; the transport is conserved either
    /// way.
    pub fn reply(self, reply: Reply, addr: &Address) -> (r: (Vec<u8>, ReplyPending<T, Ready>))
        requires
            addr.wf(),
        ensures
            r.0@ == spec_response_bytes(reply.spec_code(), *addr),
            r.1.stream() == self.stream(),
    {
        let frame = response_bytes(reply, addr);
        (frame, ReplyPending { stream: self.stream, _state: PhantomData })
    }
}

/// A BIND reply that has been framed but not yet confirmed written; `S` is
/// the reply state the connection reaches once the write is confirmed.
#[derive(Debug)]
pub struct ReplyPending<T, S> {
    stream: T,
    _state: PhantomData<S>,
}

impl<T, S> ReplyPending<T, S> {
    /// The transport this stage owns.
    pub closed spec fn stream(self) -> T {
        self.stream
    }

    /// Mutable access to the owned transport, for writing the framed reply.
    pub fn stream_mut(&mut self) -> (r: &mut T)
        ensures
            *r == old(self).stream(),
            final(self).stream() == *final(r),
    {
        &mut self.stream
    }

    /// The write succeeded: the same transport, in the next reply state.
    pub fn finish(self) -> (r: Bind<T, S>)
        ensures
            r.stream() == self.stream(),
    {
        Bind { stream: self.stream, _state: PhantomData }
    }

    /// The write failed: hand the transport back, unchanged.
    pub fn into_inner(self) -> (r: T)
        ensures
            r == self.stream(),
    {
        self.stream
    }
}

} // verus!
