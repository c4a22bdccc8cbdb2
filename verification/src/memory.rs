//! An in-memory network substrate.
//!
//! One `MemoryTransport` supports exactly one address. Dialing it yields a
//! pre-arranged deferred connection; listening yields the pre-arranged queue
//! of incoming connections. It exercises every contract of this layer
//! without real I/O, which makes composed transports and upgrade drivers
//! testable end to end.

use vstd::prelude::*;
use crate::addr::Multiaddr;
use crate::conn::RawConnection;
use crate::deferred::{ConnStream, DeferredConn};
use crate::errors::IoFailure;
use crate::transport::Transport;

verus! {

/// A bidirectional in-memory byte stream: what the simulated remote peer has
/// sent and is still to be read, and what this end has written.
#[derive(Debug, Clone, PartialEq, Eq)]
pub struct MemoryConn {
    input: Vec<u8>,
    output: Vec<u8>,
    active: bool,
}

impl MemoryConn {
    /// A fresh open connection on which `input` is waiting to be read.
    pub fn new(input: Vec<u8>) -> (r: MemoryConn)
        ensures
            r.is_open(),
            r.readable() == input@,
            r.written() == Seq::<u8>::empty(),
    {
        MemoryConn { input, output: Vec::new(), active: true }
    }

    /// The bytes written to this connection so far.
    pub fn sent(&self) -> (r: &Vec<u8>)
        ensures
            r@ == self.written(),
    {
        &self.output
    }
}

impl RawConnection for MemoryConn {
    closed spec fn is_open(self) -> bool {
        self.active
    }

    closed spec fn readable(self) -> Seq<u8> {
        self.input@
    }

    closed spec fn written(self) -> Seq<u8> {
        self.output@
    }

    fn read_byte(&mut self) -> (r: Option<u8>) {
        if self.input.len() == 0 {
            None
        } else {
            let b = self.input.remove(0);
            proof {
                assert(old(self).input@.remove(0) =~= old(self).input@.drop_first());
            }
            Some(b)
        }
    }

    fn write_byte(&mut self, b: u8) -> (r: Result<(), IoFailure>) {
        if self.active {
            self.output.push(b);
            Ok(())
        } else {
            Err(IoFailure)
        }
    }

    fn flush(&mut self) -> (r: Result<(), IoFailure>) {
        if self.active {
            Ok(())
        } else {
            Err(IoFailure)
        }
    }

    fn shutdown(&mut self) {
        self.active = false;
    }
}

/// A deferred in-memory connection, resolving to a pre-arranged outcome.
#[derive(Debug, PartialEq, Eq)]
pub struct MemoryDial {
    result: Result<MemoryConn, IoFailure>,
}

impl MemoryDial {
    /// A dial that will come up with the given connection.
    pub fn connecting(conn: MemoryConn) -> (r: MemoryDial)
        ensures
            r.outcome() == Ok::<MemoryConn, IoFailure>(conn),
    {
        MemoryDial { result: Ok(conn) }
    }

    /// A dial whose connect I/O will fail.
    pub fn failing() -> (r: MemoryDial)
        ensures
            r.outcome() == Err::<MemoryConn, IoFailure>(IoFailure),
    {
        MemoryDial { result: Err(IoFailure) }
    }
}

impl DeferredConn for MemoryDial {
    type Conn = MemoryConn;

    closed spec fn outcome(self) -> Result<MemoryConn, IoFailure> {
        self.result
    }

    fn resolve(self) -> (r: Result<MemoryConn, IoFailure>) {
        self.result
    }
}

/// An in-memory listener over a pre-arranged queue of accept outcomes: an
/// `Err` item is one failed accept; later items are still yielded.
#[derive(Debug, PartialEq, Eq)]
pub struct MemoryListener {
    pending: Vec<Result<MemoryConn, IoFailure>>,
}

impl MemoryListener {
    /// A listener that will yield exactly the given accept outcomes, in
    /// order.
    pub fn new(pending: Vec<Result<MemoryConn, IoFailure>>) -> (r: MemoryListener)
        ensures
            r.upcoming() == pending@,
    {
        MemoryListener { pending }
    }
}

impl ConnStream for MemoryListener {
    type Conn = MemoryConn;

    closed spec fn upcoming(self) -> Seq<Result<MemoryConn, IoFailure>> {
        self.pending@
    }

    fn next_conn(&mut self) -> (r: Option<Result<MemoryConn, IoFailure>>) {
        if self.pending.len() == 0 {
            None
        } else {
            let item = self.pending.remove(0);
            proof {
                assert(old(self).pending@.remove(0) =~= old(self).pending@.drop_first());
            }
            Some(item)
        }
    }
}

/// An in-memory transport: it supports exactly one address; dialing yields
/// its pre-arranged deferred connection, listening its pre-arranged queue of
/// incoming connections.
#[derive(Debug, PartialEq, Eq)]
pub struct MemoryTransport {
    addr: Vec<u8>,
    dial_result: MemoryDial,
    inbound: Vec<Result<MemoryConn, IoFailure>>,
}

impl MemoryTransport {
    /// A transport supporting exactly the address with bytes `addr`.
    pub fn new(
        addr: Vec<u8>,
        dial_result: MemoryDial,
        inbound: Vec<Result<MemoryConn, IoFailure>>,
    ) -> (r: MemoryTransport)
        ensures
            forall|a: Multiaddr| #[trigger] r.dial_ok(a) <==> a@ == addr@,
            forall|a: Multiaddr| #[trigger] r.listen_ok(a) <==> a@ == addr@,
            forall|a: Multiaddr| #[trigger] r.dial_out(a) == dial_result,
            forall|a: Multiaddr| (#[trigger] r.listen_out(a)).upcoming() == inbound@,
    {
        MemoryTransport { addr, dial_result, inbound }
    }
}

impl Transport for MemoryTransport {
    type RawConn = MemoryConn;

    type Listener = MemoryListener;

    type Dial = MemoryDial;

    closed spec fn listen_ok(self, addr: Multiaddr) -> bool {
        addr@ == self.addr@
    }

    closed spec fn listen_out(self, addr: Multiaddr) -> MemoryListener {
        MemoryListener { pending: self.inbound }
    }

    closed spec fn dial_ok(self, addr: Multiaddr) -> bool {
        addr@ == self.addr@
    }

    closed spec fn dial_out(self, addr: Multiaddr) -> MemoryDial {
        self.dial_result
    }

    fn listen_on(self, addr: Multiaddr) -> (r: Result<MemoryListener, (Self, Multiaddr)>) {
        if addr.matches_bytes(&self.addr) {
            Ok(MemoryListener { pending: self.inbound })
        } else {
            Err((self, addr))
        }
    }

    fn dial(self, addr: Multiaddr) -> (r: Result<MemoryDial, (Self, Multiaddr)>) {
        if addr.matches_bytes(&self.addr) {
            Ok(self.dial_result)
        } else {
            Err((self, addr))
        }
    }
}

} // verus!
