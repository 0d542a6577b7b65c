//! SOCKS5 command type `Connect`.
//!
//! Dispatch hands out a `Connect<T, NeedReply>`. Framing the single reply
//! moves it through `ReplyPending<T>` — the caller writes the frame — to
//! `Connect<T, Ready>`, which is the bare transport for relaying. The reply
//! state is a type-level tag: a `Ready` connection offers no reply
//! operation, so a second reply cannot be expressed.

use vstd::prelude::*;
use core::marker::PhantomData;
use crate::codec::{response_bytes, spec_response_bytes};
use crate::proto::{Address, Reply};

verus! {

/// Marker type indicating that the connection needs to be replied.
#[derive(Debug)]
pub struct NeedReply;

/// Marker type indicating that the connection is ready to use as a regular
/// byte stream.
#[derive(Debug)]
pub struct Ready;

/// A connection bound to the CONNECT command, owning the transport, tagged
/// by its reply state.
#[derive(Debug)]
pub struct Connect<T, S> {
    stream: T,
    _state: PhantomData<S>,
}

impl<T, S> Connect<T, S> {
    /// The transport this stage owns.
    pub closed spec fn stream(self) -> T {
        self.stream
    }

    /// Mutable access to the owned transport, for the caller's reads,
    /// writes and socket options; the stage keeps whatever the caller
    /// leaves behind the reference.
    pub fn stream_mut(&mut self) -> (r: &mut T)
        ensures
            *r == old(self).stream(),
            final(self).stream() == *final(r),
    {
        &mut self.stream
    }

    /// Shared access to the owned transport.
    pub fn stream_ref(&self) -> (r: &T)
        ensures
            *r == self.stream(),
    {
        &self.stream
    }

    /// Give the transport back, unchanged.
    pub fn into_inner(self) -> (r: T)
        ensures
            r == self.stream(),
    {
        self.stream
    }
}

impl<T> Connect<T, NeedReply> {
    pub(crate) fn new(stream: T) -> (r: Self)
        ensures
            r.stream() == stream,
    {
        Connect { stream, _state: PhantomData }
    }

    /// Frame the reply with the given code and bound address and move to the
    /// pending-write state. The caller must write the returned frame; the
    /// transport is conserved either way.
    pub fn reply(self, reply: Reply, addr: &Address) -> (r: (Vec<u8>, ReplyPending<T>))
        requires
            addr.wf(),
        ensures
            r.0@ == spec_response_bytes(reply.spec_code(), *addr),
            r.1.stream() == self.stream(),
    {
        let frame = response_bytes(reply, addr);
        (frame, ReplyPending { stream: self.stream })
    }
}

/// A CONNECT reply that has been framed but not yet confirmed written.
#[derive(Debug)]
pub struct ReplyPending<T> {
    stream: T,
}

impl<T> ReplyPending<T> {
    /// The transport this stage owns.
    pub closed spec fn stream(self) -> T {
        self.stream
    }

    /// Mutable access to the owned transport, for writing the framed reply.
    pub fn stream_mut(&mut self) -> (r: &mut T)
        ensures
            *r == old(self).stream(),
            final(self).stream() == *final(r),
    {
        &mut self.stream
    }

    /// The write succeeded: the same transport, re-tagged ready.
    pub fn finish(self) -> (r: Connect<T, Ready>)
        ensures
            r.stream() == self.stream(),
    {
        Connect { stream: self.stream, _state: PhantomData }
    }

    /// The write failed: hand the transport back, unchanged.
    pub fn into_inner(self) -> (r: T)
        ensures
            r == self.stream(),
    {
        self.stream
    }
}

} // verus!
