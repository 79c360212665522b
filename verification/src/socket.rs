//! The pluggable socket abstraction readers and writers drive.
//!
//! A socket presents a small uniform surface: wiring (`bind`, `connect`),
//! option setters, sending, and receiving. The in-memory variant holds a
//! frame buffer: sending replaces the buffer with the sent frames and then
//! hands it to an injected responder, which may rewrite it to simulate a
//! peer's reply; receiving drains the buffer. This is the substrate on which
//! the reader and writer state machines are exercised without a network.
//!
//! Because the responder may rewrite the buffer freely, the buffer after a
//! send is not specified; what the caller handed over is. Each in-memory
//! socket carries a ghost record of every send, so contracts up the stack
//! can state exactly which frames went out, in which order.

use crate::bytes_util::clone_frames;
use crate::error::TransportError;
use crate::uri::SocketType;
use vstd::prelude::*;

verus! {

/// A responder injected into an in-memory socket: after every send it may
/// rewrite the frame buffer, deterministically synthesising whatever reply a
/// peer would have produced. Nothing is assumed of it.
pub trait MockSocketResponder: Sized {
    fn fix(&mut self, _buffer: &mut Vec<Vec<u8>>) {
    }
}

/// A responder that leaves the buffer exactly as sent.
#[derive(Default)]
pub struct NoopResponder;

impl MockSocketResponder for NoopResponder {

}

/// What a send attempt came to. The in-memory socket always accepts; the
/// variants mirror what a real transport can answer.
#[derive(Debug, Clone, Copy, PartialEq, Eq, Structural)]
pub enum SendOutcome {
    Sent,
    WouldBlock,
}

/// What a receive attempt came to.
#[derive(Debug)]
pub enum RecvOutcome {
    Frames(Vec<Vec<u8>>),
    TimedOut,
}

/// A socket. The in-memory variant carries its frame buffer, the injected
/// responder, and a ghost record of every multipart send made on it.
pub enum Socket<C: MockSocketResponder> {
    MockSocket(Vec<Vec<u8>>, C, Ghost<Seq<Seq<Seq<u8>>>>),
}

impl<C: MockSocketResponder> Socket<C> {
    /// The frames currently buffered.
    pub open spec fn buffer(self) -> Seq<Seq<u8>> {
        match self {
            Socket::MockSocket(b, _, _) => b.deep_view(),
        }
    }

    /// Every multipart send made on this socket, oldest first, each as the
    /// frames the caller handed over.
    pub open spec fn sent_history(self) -> Seq<Seq<Seq<u8>>> {
        match self {
            Socket::MockSocket(_, _, h) => h@,
        }
    }

    /// A fresh in-memory socket holding `frames`, with no sends recorded.
    pub fn mock_with_frames(frames: Vec<Vec<u8>>, responder: C) -> (r: Socket<C>)
        ensures
            r.buffer() == frames.deep_view(),
            r.sent_history() == Seq::<Seq<Seq<u8>>>::empty(),
    {
        Socket::MockSocket(frames, responder, Ghost(Seq::empty()))
    }

    /// Replace the buffer with the given frames, record the send, then let
    /// the responder rewrite the buffer. The responder is arbitrary, so
    /// nothing is promised of the buffer afterwards; the record pins what
    /// was handed over.
    pub fn send_multipart(&mut self, parts: &Vec<Vec<u8>>) -> (r: SendOutcome)
        ensures
            r == SendOutcome::Sent,
            final(self).sent_history() == old(self).sent_history().push(parts.deep_view()),
    {
        match self {
            Socket::MockSocket(data, c, history) => {
                let mut fresh = clone_frames(parts);
                core::mem::swap(data, &mut fresh);
                *history = Ghost(history@.push(parts.deep_view()));
                c.fix(data);
                SendOutcome::Sent
            },
        }
    }

    /// Send a single frame: the buffer becomes that one frame, the send is
    /// recorded as a one-frame message, then the responder runs.
    pub fn send(&mut self, m: &[u8]) -> (r: SendOutcome)
        ensures
            r == SendOutcome::Sent,
            final(self).sent_history() == old(self).sent_history().push(seq![m@]),
    {
        match self {
            Socket::MockSocket(data, c, history) => {
                let mut fresh: Vec<Vec<u8>> = Vec::new();
                fresh.push(vstd::slice::slice_to_vec(m));
                proof {
                    crate::bytes_util::lemma_bytes_deep_view(fresh@[0]);
                    assert(fresh.deep_view() =~= seq![m@]);
                }
                core::mem::swap(data, &mut fresh);
                *history = Ghost(history@.push(seq![m@]));
                c.fix(data);
                SendOutcome::Sent
            },
        }
    }

    /// Drain and return the buffered frames; an empty buffer reads as a
    /// timeout, as a real socket with no inbound traffic would.
    pub fn recv_multipart(&mut self) -> (r: RecvOutcome)
        ensures
            final(self).sent_history() == old(self).sent_history(),
            old(self).buffer().len() == 0 ==> r is TimedOut && final(self).buffer()
                == old(self).buffer(),
            old(self).buffer().len() > 0 ==> (r matches RecvOutcome::Frames(f) && f.deep_view()
                == old(self).buffer() && final(self).buffer().len() == 0),
    {
        match self {
            Socket::MockSocket(data, _, _) => {
                if data.len() == 0 {
                    RecvOutcome::TimedOut
                } else {
                    let mut taken: Vec<Vec<u8>> = Vec::new();
                    core::mem::swap(data, &mut taken);
                    RecvOutcome::Frames(taken)
                }
            },
        }
    }

    /// Drain the buffer without the timeout reading; for tests.
    pub fn take_buffer(&mut self) -> (r: Vec<Vec<u8>>)
        ensures
            r.deep_view() == old(self).buffer(),
            final(self).buffer().len() == 0,
            final(self).sent_history() == old(self).sent_history(),
    {
        match self {
            Socket::MockSocket(data, _, _) => {
                let mut taken: Vec<Vec<u8>> = Vec::new();
                core::mem::swap(data, &mut taken);
                taken
            },
        }
    }

    pub fn set_rcvhwm(&self, _hwm: i32) -> (r: Result<(), TransportError>)
        ensures
            r is Ok,
    {
        Ok(())
    }

    pub fn set_sndhwm(&self, _hwm: i32) -> (r: Result<(), TransportError>)
        ensures
            r is Ok,
    {
        Ok(())
    }

    pub fn set_rcvtimeo(&self, _timeout: i32) -> (r: Result<(), TransportError>)
        ensures
            r is Ok,
    {
        Ok(())
    }

    pub fn set_sndtimeo(&self, _timeout: i32) -> (r: Result<(), TransportError>)
        ensures
            r is Ok,
    {
        Ok(())
    }

    pub fn set_linger(&self, _linger: i32) -> (r: Result<(), TransportError>)
        ensures
            r is Ok,
    {
        Ok(())
    }

    pub fn set_subscribe(&self, _prefix: &[u8]) -> (r: Result<(), TransportError>)
        ensures
            r is Ok,
    {
        Ok(())
    }

    pub fn bind(&self, _endpoint: &str) -> (r: Result<(), TransportError>)
        ensures
            r is Ok,
    {
        Ok(())
    }

    pub fn connect(&self, _endpoint: &str) -> (r: Result<(), TransportError>)
        ensures
            r is Ok,
    {
        Ok(())
    }
}

/// Yields sockets of a requested role; readers and writers are generic over
/// it. A provided socket starts out empty, with no sends recorded.
pub trait SocketProvider<C: MockSocketResponder> {
    fn new_socket(&self, socket_type: &SocketType) -> (r: Result<Socket<C>, TransportError>)
        ensures
            r matches Ok(s) ==> s.buffer().len() == 0 && s.sent_history().len() == 0,
    ;
}

/// Provides fresh, empty in-memory sockets.
#[derive(Default)]
pub struct MockSocketProvider;

impl<C: MockSocketResponder + Default> SocketProvider<C> for MockSocketProvider {
    fn new_socket(&self, _socket_type: &SocketType) -> (r: Result<Socket<C>, TransportError>) {
        Ok(Socket::mock_with_frames(Vec::new(), C::default()))
    }
}

} // verus!
