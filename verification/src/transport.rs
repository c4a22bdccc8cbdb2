//! The transport capability and its fallback combinator.
//!
//! A transport can listen on or dial a network address. Both operations
//! consume the transport; an unsupported address is not an exception but a
//! normal result that carries the untouched address (and the still-intact
//! transport) back to the caller, so that a composed alternative can be
//! tried without anything having been lost.

use vstd::prelude::*;
use vstd::pervasive::arbitrary;
use crate::addr::Multiaddr;
use crate::deferred::DeferredConn;
use crate::either::{wrap_first, wrap_second, EitherSocket, EitherStream, EitherTransportFuture};
use crate::memory::{MemoryConn, MemoryDial, MemoryListener};
use crate::node::UpgradedNode;
use crate::upgrade::ConnectionUpgrade;

verus! {

/// A way to produce connections, by listening or by dialing a peer.
///
/// Whether an address is supported, and what value a successful operation
/// hands back, are pinned down by the spec functions: `dial` returns `Ok`
/// exactly when `dial_ok` holds, and then returns exactly `dial_out`;
/// otherwise it returns the transport and the address unchanged (and
/// `listen_on` alike).
pub trait Transport: Sized {
    /// The raw connection to a peer.
    type RawConn;

    /// The listener: a lazy sequence of incoming connections.
    type Listener;

    /// A deferred outbound connection.
    type Dial;

    /// Whether listening on this address succeeds.
    spec fn listen_ok(self, addr: Multiaddr) -> bool;

    /// The listener a successful `listen_on` returns.
    spec fn listen_out(self, addr: Multiaddr) -> Self::Listener;

    /// Whether dialing this address succeeds.
    spec fn dial_ok(self, addr: Multiaddr) -> bool;

    /// The deferred connection a successful `dial` returns.
    spec fn dial_out(self, addr: Multiaddr) -> Self::Dial;

    /// Listen on the given address; hands the address back if it is not
    /// supported.
    fn listen_on(self, addr: Multiaddr) -> (r: Result<Self::Listener, (Self, Multiaddr)>)
        ensures
            r is Ok <==> self.listen_ok(addr),
            r matches Ok(l) ==> l == self.listen_out(addr),
            r matches Err((t, a)) ==> t == self && a == addr,
    ;

    /// Dial the given address; hands the address back if it is not
    /// supported.
    fn dial(self, addr: Multiaddr) -> (r: Result<Self::Dial, (Self, Multiaddr)>)
        ensures
            r is Ok <==> self.dial_ok(addr),
            r matches Ok(d) ==> d == self.dial_out(addr),
            r matches Err((t, a)) ==> t == self && a == addr,
    ;

}

/// Combine two transports: `first` is tried first, `other` only when `first`
/// does not support the address.
pub fn or_transport<T1: Transport, T2: Transport>(first: T1, other: T2) -> (r: OrTransport<
    T1,
    T2,
>)
    ensures
        r.0 == first,
        r.1 == other,
{
    OrTransport(first, other)
}

/// Bind a transport to an upgrade set: every dialed or accepted connection
/// is taken through protocol negotiation and then upgraded.
pub fn with_upgrade<T: Transport, U: ConnectionUpgrade<T::RawConn>>(transport: T, upgrade: U) -> (r:
    UpgradedNode<T, U>)
    ensures
        r.transports == transport,
        r.upgrade == upgrade,
{
    UpgradedNode { transports: transport, upgrade }
}

/// A transport that denies every single attempt: it supports no address at
/// all, so it always hands the address straight back.
#[derive(Debug, Copy, Clone)]
pub struct DeniedTransport;

impl Transport for DeniedTransport {
    type RawConn = MemoryConn;

    type Listener = MemoryListener;

    type Dial = MemoryDial;

    open spec fn listen_ok(self, addr: Multiaddr) -> bool {
        false
    }

    open spec fn listen_out(self, addr: Multiaddr) -> MemoryListener {
        arbitrary()
    }

    open spec fn dial_ok(self, addr: Multiaddr) -> bool {
        false
    }

    open spec fn dial_out(self, addr: Multiaddr) -> MemoryDial {
        arbitrary()
    }

    fn listen_on(self, addr: Multiaddr) -> (r: Result<MemoryListener, (Self, Multiaddr)>) {
        Err((DeniedTransport, addr))
    }

    fn dial(self, addr: Multiaddr) -> (r: Result<MemoryDial, (Self, Multiaddr)>) {
        Err((DeniedTransport, addr))
    }
}

/// Fallback composition of two transports: every operation first delegates
/// to the first transport; only when that one does not support the address
/// is the second tried. A success is wrapped in the matching variant of the
/// corresponding sum type; a double failure reconstructs the combinator and
/// returns the original address.
#[derive(Debug, Copy, Clone)]
pub struct OrTransport<A, B>(pub A, pub B);

impl<A: Transport, B: Transport> Transport for OrTransport<A, B> {
    type RawConn = EitherSocket<A::RawConn, B::RawConn>;

    type Listener = EitherStream<A::Listener, B::Listener>;

    type Dial = EitherTransportFuture<A::Dial, B::Dial>;

    open spec fn listen_ok(self, addr: Multiaddr) -> bool {
        self.0.listen_ok(addr) || self.1.listen_ok(addr)
    }

    open spec fn listen_out(self, addr: Multiaddr) -> Self::Listener {
        if self.0.listen_ok(addr) {
            EitherStream::First(self.0.listen_out(addr))
        } else {
            EitherStream::Second(self.1.listen_out(addr))
        }
    }

    open spec fn dial_ok(self, addr: Multiaddr) -> bool {
        self.0.dial_ok(addr) || self.1.dial_ok(addr)
    }

    open spec fn dial_out(self, addr: Multiaddr) -> Self::Dial {
        if self.0.dial_ok(addr) {
            EitherTransportFuture::First(self.0.dial_out(addr))
        } else {
            EitherTransportFuture::Second(self.1.dial_out(addr))
        }
    }

    fn listen_on(self, addr: Multiaddr) -> (r: Result<Self::Listener, (Self, Multiaddr)>) {
        let OrTransport(first, second) = self;
        match first.listen_on(addr) {
            Ok(l) => Ok(EitherStream::First(l)),
            Err((first, addr)) => match second.listen_on(addr) {
                Ok(l) => Ok(EitherStream::Second(l)),
                Err((second, addr)) => Err((OrTransport(first, second), addr)),
            },
        }
    }

    fn dial(self, addr: Multiaddr) -> (r: Result<Self::Dial, (Self, Multiaddr)>) {
        let OrTransport(first, second) = self;
        match first.dial(addr) {
            Ok(d) => Ok(EitherTransportFuture::First(d)),
            Err((first, addr)) => match second.dial(addr) {
                Ok(d) => Ok(EitherTransportFuture::Second(d)),
                Err((second, addr)) => Err((OrTransport(first, second), addr)),
            },
        }
    }
}

/// When the first transport supports an address, the combined transport
/// dials it successfully and yields the first transport's deferred
/// connection, wrapped as the first variant.
pub proof fn lemma_or_transport_dial_first<A: Transport, B: Transport>(
    a: A,
    b: B,
    addr: Multiaddr,
)
    requires
        a.dial_ok(addr),
    ensures
        OrTransport(a, b).dial_ok(addr),
        OrTransport(a, b).dial_out(addr) == EitherTransportFuture::<A::Dial, B::Dial>::First(
            a.dial_out(addr),
        ),
{
}

/// When the first transport does not support an address but the second
/// does, the combined transport dials it successfully and yields the second
/// transport's deferred connection, wrapped as the second variant.
pub proof fn lemma_or_transport_dial_second<A: Transport, B: Transport>(
    a: A,
    b: B,
    addr: Multiaddr,
)
    requires
        !a.dial_ok(addr),
        b.dial_ok(addr),
    ensures
        OrTransport(a, b).dial_ok(addr),
        OrTransport(a, b).dial_out(addr) == EitherTransportFuture::<A::Dial, B::Dial>::Second(
            b.dial_out(addr),
        ),
{
}

/// When neither transport supports an address, neither does the combined
/// transport; `dial` then returns the address unchanged together with a
/// transport equal to the combination, so a retry behaves identically.
pub proof fn lemma_or_transport_dial_none<A: Transport, B: Transport>(a: A, b: B, addr: Multiaddr)
    requires
        !a.dial_ok(addr),
        !b.dial_ok(addr),
    ensures
        !OrTransport(a, b).dial_ok(addr),
{
}

/// The deferred connection a combined dial yields behaves exactly as the
/// first transport's own: it resolves to whatever that one resolves to,
/// wrapped as the first variant; the adapter adds nothing.
pub proof fn lemma_or_transport_dial_first_outcome<A: Transport, B: Transport>(
    a: A,
    b: B,
    addr: Multiaddr,
) where A::Dial: DeferredConn, B::Dial: DeferredConn
    requires
        a.dial_ok(addr),
    ensures
        OrTransport(a, b).dial_out(addr).outcome() == wrap_first::<
            <A::Dial as DeferredConn>::Conn,
            <B::Dial as DeferredConn>::Conn,
        >(a.dial_out(addr).outcome()),
{
}

/// The deferred connection a combined dial yields when only the second
/// transport supports the address behaves exactly as that transport's own,
/// wrapped as the second variant.
pub proof fn lemma_or_transport_dial_second_outcome<A: Transport, B: Transport>(
    a: A,
    b: B,
    addr: Multiaddr,
) where A::Dial: DeferredConn, B::Dial: DeferredConn
    requires
        !a.dial_ok(addr),
        b.dial_ok(addr),
    ensures
        OrTransport(a, b).dial_out(addr).outcome() == wrap_second::<
            <A::Dial as DeferredConn>::Conn,
            <B::Dial as DeferredConn>::Conn,
        >(b.dial_out(addr).outcome()),
{
}

} // verus!
