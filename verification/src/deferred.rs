//! Deferred results: a connection still being established, and a lazy
//! sequence of incoming connections.
//!
//! Suspension is driven from outside this layer; the model pins down only the
//! values that a deferred computation hands over once it is driven.

use vstd::prelude::*;
use crate::errors::IoFailure;

verus! {

/// A connection that is still being established (a dial in flight, or an
/// upgrade handshake in progress).
pub trait DeferredConn: Sized {
    /// The connection type this resolves to.
    type Conn;

    /// The value this deferred connection resolves to once driven to
    /// completion.
    spec fn outcome(self) -> Result<Self::Conn, IoFailure>;

    /// Drive the deferred connection to completion.
    fn resolve(self) -> (r: Result<Self::Conn, IoFailure>)
        ensures
            r == self.outcome(),
    ;
}

/// A lazy sequence of incoming connections, produced by listening on an
/// address. An `Err` item is one failed accept; the sequence itself keeps
/// producing afterwards.
pub trait ConnStream: Sized {
    /// The connection type the stream yields.
    type Conn;

    /// The items the stream will still yield, in order.
    spec fn upcoming(self) -> Seq<Result<Self::Conn, IoFailure>>;

    /// Yield the next incoming connection, or `None` once the stream is
    /// exhausted.
    fn next_conn(&mut self) -> (r: Option<Result<Self::Conn, IoFailure>>)
        ensures
            old(self).upcoming().len() == 0 ==> r is None
                && final(self).upcoming() == old(self).upcoming(),
            old(self).upcoming().len() > 0 ==> r == Some(old(self).upcoming()[0])
                && final(self).upcoming() == old(self).upcoming().drop_first(),
    ;
}

/// Mapping a function over a sequence commutes with dropping the first
/// element.
pub proof fn lemma_map_values_drop_first<A, B>(s: Seq<A>, f: spec_fn(A) -> B)
    requires
        s.len() > 0,
    ensures
        s.drop_first().map_values(f) == s.map_values(f).drop_first(),
{
    assert(s.drop_first().map_values(f) =~= s.map_values(f).drop_first());
}

} // verus!
