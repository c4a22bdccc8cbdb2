//! The raw-connection capability: a bidirectional byte stream.
//!
//! A transport produces values with this capability; an upgrade consumes one
//! and wraps it. The model tracks, per connection, the bytes still readable,
//! the bytes written so far, and whether the connection is open.

use vstd::prelude::*;
use crate::errors::IoFailure;

verus! {

/// A bidirectional byte stream between two peers.
///
/// Implemented by concrete substrates (here, the in-memory connection) and by
/// the adapter [`crate::either::EitherSocket`], which dispatches every
/// operation to whichever variant it holds.
pub trait RawConnection: Sized {
    /// Whether the connection still accepts writes.
    spec fn is_open(self) -> bool;

    /// The bytes that remain to be read.
    spec fn readable(self) -> Seq<u8>;

    /// The bytes written so far.
    spec fn written(self) -> Seq<u8>;

    /// Read the next byte, or `None` when nothing remains.
    fn read_byte(&mut self) -> (r: Option<u8>)
        ensures
            final(self).is_open() == old(self).is_open(),
            final(self).written() == old(self).written(),
            old(self).readable().len() == 0 ==> r is None
                && final(self).readable() == old(self).readable(),
            old(self).readable().len() > 0 ==> r == Some(old(self).readable()[0])
                && final(self).readable() == old(self).readable().drop_first(),
    ;

    /// Append one byte to the outgoing stream; fails once the connection is
    /// shut down.
    fn write_byte(&mut self, b: u8) -> (r: Result<(), IoFailure>)
        ensures
            final(self).is_open() == old(self).is_open(),
            final(self).readable() == old(self).readable(),
            old(self).is_open() ==> r is Ok
                && final(self).written() == old(self).written().push(b),
            !old(self).is_open() ==> r is Err
                && final(self).written() == old(self).written(),
    ;

    /// Push buffered output onward; fails once the connection is shut down.
    fn flush(&mut self) -> (r: Result<(), IoFailure>)
        ensures
            *final(self) == *old(self),
            r is Ok <==> old(self).is_open(),
    ;

    /// Close the write side; the connection accepts no further writes.
    fn shutdown(&mut self)
        ensures
            !final(self).is_open(),
            final(self).readable() == old(self).readable(),
            final(self).written() == old(self).written(),
    ;
}

} // verus!
