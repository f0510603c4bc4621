//! The byte-stream transport that a connection handle sequences calls into.
//!
//! The state machine does not implement socket mechanics itself: it is
//! generic over a resource that offers `write` and `read`. Each implementor
//! describes its own behaviour through the two step relations, so a caller
//! that knows the concrete transport can reason exactly about what a
//! successful write or read did, while the handle is verified once for all
//! transports.

use vstd::prelude::*;

use crate::errors::IoError;

verus! {

/// A raw byte-stream resource: the external collaborator of the connection
/// state machine. Payload bytes are opaque; no wire protocol is imposed.
pub trait Transport: Sized {
    /// The relation a call of `write` establishes between the transport
    /// before (`self`) and after (`post`), the bytes handed in, and the
    /// result of the call. An implementor that does not describe itself
    /// (a real socket, say) leaves the default, which promises nothing.
    open spec fn write_post(self, post: Self, data: Seq<u8>, r: Result<usize, IoError>) -> bool {
        true
    }

    /// The relation a call of `read` establishes between the transport
    /// before (`self`) and after (`post`), the buffer contents before and
    /// after, and the result of the call. The default promises nothing.
    open spec fn read_post(
        self,
        post: Self,
        old_buf: Seq<u8>,
        new_buf: Seq<u8>,
        r: Result<usize, IoError>,
    ) -> bool {
        true
    }

    /// Write up to the full buffer; a successful result is the number of
    /// bytes actually written, which may be fewer than requested.
    fn write(&mut self, data: &[u8]) -> (r: Result<usize, IoError>)
        ensures
            old(self).write_post(*final(self), data@, r),
            r matches Ok(n) ==> n <= data@.len(),
    ;

    /// Read into the caller-supplied buffer; a successful result is the
    /// number of bytes placed at the front of the buffer. Zero bytes read
    /// signals orderly peer shutdown, not an error. The buffer keeps its
    /// length.
    fn read(&mut self, buf: &mut Vec<u8>) -> (r: Result<usize, IoError>)
        ensures
            old(self).read_post(*final(self), old(buf)@, final(buf)@, r),
            final(buf)@.len() == old(buf)@.len(),
            r matches Ok(n) ==> n <= final(buf)@.len(),
    ;
}

} // verus!
