//! A verified in-memory transport whose peer is an echo responder, and the
//! decision step of such a responder.
//!
//! `EchoTransport` models a stream connected to a peer that sends every byte
//! straight back: a write appends the written bytes to the pending echo, a
//! read drains the pending echo into the buffer. The peer side can be closed,
//! after which reads return zero bytes (orderly shutdown) and writes fail.

use vstd::prelude::*;

use crate::errors::IoError;
use crate::tcp_connector::Connected;
use crate::tcp_connector::TcpConnection;
use crate::transport::Transport;

verus! {

/// A byte-stream transport connected to an echo peer.
#[derive(Debug)]
pub struct EchoTransport {
    pending: Vec<u8>,
    peer_open: bool,
}

impl EchoTransport {
    /// The bytes the echo peer has sent back and nobody has read yet.
    pub closed spec fn pending_echo(&self) -> Seq<u8> {
        self.pending@
    }

    /// Whether the peer still has its side of the stream open.
    pub closed spec fn peer_is_open(&self) -> bool {
        self.peer_open
    }

    /// A fresh stream to an echo peer: nothing pending, peer open.
    pub fn new() -> (t: Self)
        ensures
            t.pending_echo() == Seq::<u8>::empty(),
            t.peer_is_open(),
    {
        EchoTransport { pending: Vec::new(), peer_open: true }
    }

    /// The peer closes its side of the stream. Bytes it already echoed stay
    /// readable; once they are drained, reads return zero bytes.
    pub fn close_peer(&mut self)
        ensures
            final(self).pending_echo() == old(self).pending_echo(),
            !final(self).peer_is_open(),
    {
        self.peer_open = false;
    }
}

impl Transport for EchoTransport {
    /// A write to an open echo peer succeeds in full and its bytes come back:
    /// they are appended to the pending echo. A write to a closed peer fails
    /// and changes nothing.
    open spec fn write_post(self, post: Self, data: Seq<u8>, r: Result<usize, IoError>) -> bool {
        if self.peer_is_open() {
            &&& r matches Ok(n) && n == data.len()
            &&& post.pending_echo() == self.pending_echo() + data
            &&& post.peer_is_open()
        } else {
            &&& r == Err::<usize, IoError>(IoError::PeerClosed)
            &&& post == self
        }
    }

    /// A read always succeeds: it moves as much of the pending echo as fits
    /// to the front of the buffer and leaves the rest pending. Zero bytes
    /// come back exactly when nothing was pending; after the peer closed,
    /// that is the orderly end of the stream.
    open spec fn read_post(
        self,
        post: Self,
        old_buf: Seq<u8>,
        new_buf: Seq<u8>,
        r: Result<usize, IoError>,
    ) -> bool {
        let n = if self.pending_echo().len() <= old_buf.len() {
            self.pending_echo().len() as int
        } else {
            old_buf.len() as int
        };
        &&& r == Ok::<usize, IoError>(n as usize)
        &&& new_buf == self.pending_echo().take(n) + old_buf.skip(n)
        &&& post.pending_echo() == self.pending_echo().skip(n)
        &&& post.peer_is_open() == self.peer_is_open()
    }

    fn write(&mut self, data: &[u8]) -> (r: Result<usize, IoError>)
        ensures
            old(self).write_post(*final(self), data@, r),
            r matches Ok(n) ==> n <= data@.len(),
    {
        if self.peer_open {
            let mut i: usize = 0;
            while i < data.len()
                invariant
                    i <= data@.len(),
                    self.pending@ == old(self).pending@ + data@.take(i as int),
                    self.peer_open == old(self).peer_open,
                decreases data@.len() - i,
            {
                self.pending.push(data[i]);
                i = i + 1;
            }
            proof {
                assert(data@.take(data@.len() as int) == data@);
            }
            Ok(data.len())
        } else {
            Err(IoError::PeerClosed)
        }
    }

    fn read(&mut self, buf: &mut Vec<u8>) -> (r: Result<usize, IoError>)
        ensures
            old(self).read_post(*final(self), old(buf)@, final(buf)@, r),
            final(buf)@.len() == old(buf)@.len(),
            r matches Ok(n) ==> n <= final(buf)@.len(),
    {
        let n: usize = if self.pending.len() <= buf.len() {
            self.pending.len()
        } else {
            buf.len()
        };
        let mut i: usize = 0;
        while i < n
            invariant
                i <= n,
                n <= self.pending@.len(),
                n <= buf@.len(),
                self.pending@ == old(self).pending@,
                self.peer_open == old(self).peer_open,
                buf@.len() == old(buf)@.len(),
                buf@ == self.pending@.take(i as int) + old(buf)@.skip(i as int),
            decreases n - i,
        {
            buf[i] = self.pending[i];
            proof {
                assert(buf@ =~= self.pending@.take(i as int + 1) + old(buf)@.skip(i as int + 1));
            }
            i = i + 1;
        }
        let rest = self.pending.split_off(n);
        self.pending = rest;
        proof {
            assert(buf@ == old(self).pending@.take(n as int) + old(buf)@.skip(n as int));
            assert(self.pending@ == old(self).pending@.skip(n as int));
        }
        Ok(n)
    }
}

/// The decision of one iteration of an echo responder's loop: with `n` bytes
/// just read into `buf`, reply with exactly those bytes; a read of zero bytes
/// means the client is done and the session ends with no reply.
pub fn echo_step(buf: &Vec<u8>, n: usize) -> (r: Option<Vec<u8>>)
    requires
        n <= buf@.len(),
    ensures
        r is Some <==> n > 0,
        r matches Some(reply) ==> reply@ == buf@.take(n as int),
{
    if n == 0 {
        None
    } else {
        let mut reply: Vec<u8> = Vec::new();
        let mut i: usize = 0;
        while i < n
            invariant
                i <= n,
                n <= buf@.len(),
                reply@ == buf@.take(i as int),
            decreases n - i,
        {
            reply.push(buf[i]);
            proof {
                assert(reply@ =~= buf@.take(i as int + 1));
            }
            i = i + 1;
        }
        Some(reply)
    }
}

/// Round-trip identity for an echo transport: on a handle freshly connected
/// to an echo responder, a `send` of `data` followed by a `receive` into a
/// buffer at least as long writes all of `data`, reads back exactly
/// `data.len()` bytes, and those bytes are `data` itself.
///
/// The three handles are one handle at three moments; the two relations in
/// the premises are exactly what the `ensures` of `send` and of `receive`
/// give a caller.
pub proof fn lemma_echo_round_trip(
    h0: TcpConnection<Connected, EchoTransport>,
    h1: TcpConnection<Connected, EchoTransport>,
    h2: TcpConnection<Connected, EchoTransport>,
    data: Seq<u8>,
    buf0: Seq<u8>,
    buf1: Seq<u8>,
    rw: Result<usize, IoError>,
    rr: Result<usize, IoError>,
)
    requires
        h0.stream_val().peer_is_open(),
        h0.stream_val().pending_echo().len() == 0,
        buf0.len() >= data.len(),
        h0.stream_val().write_post(h1.stream_val(), data, rw),
        h1.stream_val().read_post(h2.stream_val(), buf0, buf1, rr),
    ensures
        rw matches Ok(n) && n == data.len(),
        rr matches Ok(m) && m == data.len(),
        buf1.take(data.len() as int) == data,
        h2.stream_val().pending_echo().len() == 0,
{
    assert(h1.stream_val().pending_echo() =~= data);
    assert(buf1.take(data.len() as int) =~= data);
    assert(h2.stream_val().pending_echo() =~= Seq::<u8>::empty());
}

} // verus!
