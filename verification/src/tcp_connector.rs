//! A typestate connection handle: three states, four transitions, two data
//! operations gated to one state.
//!
//! `TcpConnection<State, R>` owns an optional transport resource `R` and a
//! zero-size state tag. The resource is present if and only if the handle is
//! live, and every constructor of a `Connected` handle establishes that.
//! Illegal operations (send before connect, use after close) are not
//! expressible: `send`/`receive` exist only on `TcpConnection<Connected, R>`,
//! `connect` only on `NotConnected`, `reconnect` only on `Disconnected`, and
//! each transition consumes the handle it was called on.
//!
//! Opening a stream is the transport layer's work, not this state machine's:
//! `connect`/`set_host`/`reconnect` take the outcome of that attempt and are
//! verified to accept it exactly when it succeeded.

use vstd::prelude::*;

use crate::errors::ConnectionError;
use crate::errors::IoError;
use crate::transport::Transport;

verus! {

/// State tag of a handle whose stream is open.
#[derive(Debug)]
#[verifier::ext_equal]
pub struct Connected;

/// State tag of a handle whose stream was released by `close`.
#[derive(Debug)]
#[verifier::ext_equal]
pub struct Disconnected;

/// State tag of a freshly created handle that never held a stream.
#[derive(Debug)]
#[verifier::ext_equal]
pub struct NotConnected;

/// A connection handle parameterized by a lifecycle state tag and by the
/// transport resource it owns exclusively while connected.
#[derive(Debug)]
#[verifier::ext_equal]
pub struct TcpConnection<State, R> {
    stream: Option<R>,
    state: State,
}

impl<State, R> TcpConnection<State, R> {
    /// The transport resource slot: filled exactly on live handles.
    pub closed spec fn resource(&self) -> Option<R> {
        self.stream
    }

    /// A handle is live when it holds its transport resource.
    pub open spec fn is_live(&self) -> bool {
        self.resource() is Some
    }

    /// The resource of a live handle.
    pub open spec fn stream_val(&self) -> R
        recommends
            self.is_live(),
    {
        self.resource()->0
    }
}

impl<R> TcpConnection<NotConnected, R> {
    /// Construct an unconnected handle. No I/O is performed and no error can
    /// be raised; the resource slot is empty.
    pub fn new() -> (c: Self)
        ensures
            !c.is_live(),
    {
        TcpConnection { stream: None, state: NotConnected }
    }

    /// Consume the unconnected handle and adopt the outcome of the transport
    /// layer's connect attempt: a live handle exactly when a stream was
    /// opened, otherwise the connect error and no handle.
    pub fn set_host(self, opened: Result<R, ConnectionError>) -> (r: Result<
        TcpConnection<Connected, R>,
        ConnectionError,
    >)
        ensures
            r is Ok <==> opened is Ok,
            opened matches Ok(s) ==> r matches Ok(c) && c.resource() == Some(s),
            opened matches Err(e) ==> r matches Err(e2) && e2 == e,
    {
        match opened {
            Ok(s) => Ok(TcpConnection { stream: Some(s), state: Connected }),
            Err(e) => Err(e),
        }
    }

    /// As `set_host`, starting from no handle at all.
    pub fn connect(opened: Result<R, ConnectionError>) -> (r: Result<
        TcpConnection<Connected, R>,
        ConnectionError,
    >)
        ensures
            r is Ok <==> opened is Ok,
            opened matches Ok(s) ==> r matches Ok(c) && c.resource() == Some(s),
            opened matches Err(e) ==> r matches Err(e2) && e2 == e,
    {
        TcpConnection::new().set_host(opened)
    }
}

impl<R> TcpConnection<Connected, R> {
    /// Release the transport resource and consume the handle. Always yields
    /// a `Disconnected` handle: resource release is best-effort and no error
    /// surfaces, whatever the underlying teardown reports.
    pub fn close(self) -> (r: TcpConnection<Disconnected, R>)
        ensures
            !r.is_live(),
    {
        let TcpConnection { stream: _released, state: _ } = self;
        TcpConnection { stream: None, state: Disconnected }
    }
}

impl<R: Transport> TcpConnection<Connected, R> {
    /// Write up to the full buffer to the stream; the result is the number
    /// of bytes actually written. Partial-write semantics of the transport
    /// are preserved, not hidden. The handle stays live and does not change
    /// state.
    pub fn send(&mut self, data: &[u8]) -> (r: Result<usize, IoError>)
        requires
            old(self).is_live(),
        ensures
            final(self).is_live(),
            old(self).stream_val().write_post(final(self).stream_val(), data@, r),
            r matches Ok(n) ==> n <= data@.len(),
    {
        let mut s = self.stream.take().unwrap();
        let r = s.write(data);
        self.stream = Some(s);
        r
    }

    /// Read into the caller-supplied buffer; the result is the number of
    /// bytes placed at its front, and zero signals orderly peer shutdown.
    /// The buffer keeps its length; the handle stays live: closing is always
    /// explicit.
    pub fn receive(&mut self, buf: &mut Vec<u8>) -> (r: Result<usize, IoError>)
        requires
            old(self).is_live(),
        ensures
            final(self).is_live(),
            old(self).stream_val().read_post(final(self).stream_val(), old(buf)@, final(buf)@, r),
            final(buf)@.len() == old(buf)@.len(),
            r matches Ok(n) ==> n <= final(buf)@.len(),
    {
        let mut s = self.stream.take().unwrap();
        let r = s.read(buf);
        self.stream = Some(s);
        r
    }
}

impl<R> TcpConnection<Disconnected, R> {
    /// Symmetric to `connect`: consume the disconnected handle and adopt the
    /// outcome of a fresh connect attempt, to a possibly different address.
    pub fn reconnect(self, opened: Result<R, ConnectionError>) -> (r: Result<
        TcpConnection<Connected, R>,
        ConnectionError,
    >)
        ensures
            r is Ok <==> opened is Ok,
            opened matches Ok(s) ==> r matches Ok(c) && c.resource() == Some(s),
            opened matches Err(e) ==> r matches Err(e2) && e2 == e,
    {
        match opened {
            Ok(s) => Ok(TcpConnection { stream: Some(s), state: Connected }),
            Err(e) => Err(e),
        }
    }
}

/// A connected handle is its resource: two live handles over the same stream
/// are equal, so a handle produced by `reconnect` is indistinguishable in
/// capability from one produced by `connect` with the same opened stream.
pub proof fn lemma_connected_handle_determined_by_resource<R>(
    a: TcpConnection<Connected, R>,
    b: TcpConnection<Connected, R>,
)
    requires
        a.resource() == b.resource(),
    ensures
        a == b,
{
    assert(a =~= b);
}

} // verus!
