//! The negotiation driver: a transport bound to an upgrade set.
//!
//! [`UpgradedNode`] implements dial and listen by performing the underlying
//! transport operation, then running protocol negotiation against the
//! upgrade set's advertised names, then applying the chosen upgrade. The
//! phases of one dial are values: resolving the transport dial yields the
//! raw connection together with the candidate protocols and a
//! [`Negotiating`] state; the negotiation exchange itself is an external
//! collaborator, and its outcome (chosen identifier, connection handed back)
//! is fed into [`Negotiating::negotiated`], which applies the upgrade.
//!
//! A negotiation or upgrade failure is fatal to that one dial or that one
//! accepted connection only; a listener keeps producing after one item
//! failed.

use vstd::prelude::*;
use crate::addr::Multiaddr;
use crate::deferred::{ConnStream, DeferredConn};
use crate::errors::ConnectError;
use crate::transport::Transport;
use crate::upgrade::{ConnectionUpgrade, OrUpgrade};

verus! {

/// A transport whose dialed and accepted connections are taken through
/// protocol negotiation and then upgraded.
#[derive(Debug, Clone)]
pub struct UpgradedNode<T, C> {
    /// The underlying transport.
    pub transports: T,
    /// The upgrade set advertised and applied on every connection.
    pub upgrade: C,
}

/// One dial in flight: the transport-level deferred connection, and the
/// upgrade set to negotiate and apply once it resolves.
#[derive(Debug, Clone)]
pub struct UpgradedDial<D, C> {
    /// The underlying transport's deferred connection.
    pub inner: D,
    /// The upgrade set for the phases after the transport connects.
    pub upgrade: C,
}

/// A connection whose protocol negotiation is in flight: the connection and
/// the candidate list are with the external negotiation primitive; the
/// upgrade set waits for the chosen identifier.
#[derive(Debug, Clone)]
pub struct Negotiating<C> {
    /// The upgrade set the chosen identifier will be routed to.
    pub upgrade: C,
}

/// A listener whose every accepted connection is to be negotiated and
/// upgraded independently.
#[derive(Debug, Clone)]
pub struct UpgradedListener<L, C> {
    /// The underlying transport's listener.
    pub inner: L,
    /// The upgrade set, duplicated for each incoming connection.
    pub upgrade: C,
}

impl<T: Transport, C: ConnectionUpgrade<T::RawConn>> UpgradedNode<T, C> {
    /// Widen the upgrade set: the result advertises and accepts both this
    /// node's protocols and `other_upg`'s, the transport unchanged.
    pub fn or_upgrade<D: ConnectionUpgrade<T::RawConn>>(self, other_upg: D) -> (r: UpgradedNode<
        T,
        OrUpgrade<C, D>,
    >)
        ensures
            r.transports == self.transports,
            r.upgrade == OrUpgrade(self.upgrade, other_upg),
    {
        UpgradedNode { transports: self.transports, upgrade: OrUpgrade(self.upgrade, other_upg) }
    }

    /// Dial the address with the underlying transport. On success the
    /// returned value carries the transport's deferred connection and the
    /// upgrade set for the phases that follow; an unsupported address comes
    /// back with an equivalent node, the upgrade set preserved unchanged.
    pub fn dial(self, addr: Multiaddr) -> (r: Result<UpgradedDial<T::Dial, C>, (Self, Multiaddr)>)
        ensures
            r is Ok <==> self.transports.dial_ok(addr),
            r matches Ok(d) ==> d == (UpgradedDial {
                inner: self.transports.dial_out(addr),
                upgrade: self.upgrade,
            }),
            r matches Err((n, a)) ==> n == self && a == addr,
    {
        let UpgradedNode { transports, upgrade } = self;
        match transports.dial(addr) {
            Ok(inner) => Ok(UpgradedDial { inner, upgrade }),
            Err((transports, addr)) => Err((UpgradedNode { transports, upgrade }, addr)),
        }
    }

    /// Listen on the address with the underlying transport. On success the
    /// returned listener negotiates and upgrades every incoming connection
    /// independently; an unsupported address comes back with an equivalent
    /// node, the upgrade set preserved unchanged.
    pub fn listen_on(self, addr: Multiaddr) -> (r: Result<
        UpgradedListener<T::Listener, C>,
        (Self, Multiaddr),
    >)
        ensures
            r is Ok <==> self.transports.listen_ok(addr),
            r matches Ok(l) ==> l == (UpgradedListener {
                inner: self.transports.listen_out(addr),
                upgrade: self.upgrade,
            }),
            r matches Err((n, a)) ==> n == self && a == addr,
    {
        let UpgradedNode { transports, upgrade } = self;
        match transports.listen_on(addr) {
            Ok(inner) => Ok(UpgradedListener { inner, upgrade }),
            Err((transports, addr)) => Err((UpgradedNode { transports, upgrade }, addr)),
        }
    }
}

impl<D: DeferredConn, C> UpgradedDial<D, C> {
    /// Resolve the transport-level dial. An I/O failure there is fatal to
    /// the whole dial. On success, the raw connection, the candidate
    /// protocols to offer in initiator role, and the state awaiting the
    /// negotiation outcome are handed back.
    pub fn resolve_transport(self) -> (r: Result<
        (D::Conn, Vec<(Vec<u8>, C::UpgradeIdentifier)>, Negotiating<C>),
        ConnectError,
    >) where C: ConnectionUpgrade<D::Conn>
        ensures
            self.inner.outcome() matches Ok(c) ==> {
                &&& r matches Ok((conn, candidates, st))
                &&& conn == c
                &&& st.upgrade == self.upgrade
                &&& candidates@.len() == self.upgrade.names_spec().len()
                &&& forall|i: int|
                    0 <= i < candidates@.len() ==> (#[trigger] candidates@[i]).0@
                        == self.upgrade.names_spec()[i].0 && candidates@[i].1
                        == self.upgrade.names_spec()[i].1
            },
            self.inner.outcome() is Err ==> r == Err::<
                (D::Conn, Vec<(Vec<u8>, C::UpgradeIdentifier)>, Negotiating<C>),
                ConnectError,
            >(ConnectError::TransportIo),
    {
        let UpgradedDial { inner, upgrade } = self;
        match inner.resolve() {
            Ok(conn) => {
                let candidates = upgrade.protocol_names();
                Ok((conn, candidates, Negotiating { upgrade }))
            },
            Err(_) => Err(ConnectError::TransportIo),
        }
    }

    /// Split the dial into the transport's deferred connection, to be driven
    /// by an external event loop, and the state awaiting the negotiation
    /// outcome.
    pub fn begin(self) -> (r: (D, Negotiating<C>))
        ensures
            r.0 == self.inner,
            r.1.upgrade == self.upgrade,
    {
        let UpgradedDial { inner, upgrade } = self;
        (inner, Negotiating { upgrade })
    }
}

impl<C> Negotiating<C> {
    /// The negotiation exchange chose the protocol identified by `id` and
    /// handed the connection back: apply the upgrade.
    pub fn negotiated<Conn>(self, conn: Conn, id: C::UpgradeIdentifier) -> (r: C::Future) where
        C: ConnectionUpgrade<Conn>

        ensures
            r == self.upgrade.upgrade_spec(conn, id),
    {
        self.upgrade.upgrade(conn, id)
    }

    /// The negotiation exchange found no mutually acceptable protocol, or
    /// failed at the I/O level: fatal to this connection, which must be
    /// discarded.
    pub fn negotiation_failed(self) -> (r: ConnectError)
        ensures
            r == ConnectError::Negotiation,
    {
        ConnectError::Negotiation
    }
}

impl<L: ConnStream, C> UpgradedListener<L, C> {
    /// Accept the next raw connection; `None` once the listener is
    /// exhausted. A failed accept is isolated to that one item: the
    /// listener stays usable. A successful accept hands back the raw
    /// connection together with a negotiation state over a duplicate of the
    /// upgrade set, so every incoming connection is negotiated and upgraded
    /// independently.
    pub fn accept_next(&mut self) -> (r: Option<
        Result<(L::Conn, Vec<(Vec<u8>, C::UpgradeIdentifier)>, Negotiating<C>), ConnectError>,
    >) where C: ConnectionUpgrade<L::Conn>
        ensures
            final(self).upgrade == old(self).upgrade,
            old(self).inner.upcoming().len() == 0 ==> r is None && final(self).inner.upcoming()
                == old(self).inner.upcoming(),
            old(self).inner.upcoming().len() > 0 ==> final(self).inner.upcoming() == old(
                self,
            ).inner.upcoming().drop_first(),
            old(self).inner.upcoming().len() > 0 ==> (old(self).inner.upcoming()[0] matches Ok(c)
                ==> {
                &&& r matches Some(Ok((conn, candidates, st)))
                &&& conn == c
                &&& st.upgrade.names_spec() == old(self).upgrade.names_spec()
                &&& forall|socket: L::Conn, id: C::UpgradeIdentifier|
                    #[trigger] st.upgrade.upgrade_spec(socket, id) == old(
                        self,
                    ).upgrade.upgrade_spec(socket, id)
                &&& candidates@.len() == old(self).upgrade.names_spec().len()
                &&& forall|i: int|
                    0 <= i < candidates@.len() ==> (#[trigger] candidates@[i]).0@ == old(
                        self,
                    ).upgrade.names_spec()[i].0 && candidates@[i].1 == old(
                        self,
                    ).upgrade.names_spec()[i].1
            }),
            old(self).inner.upcoming().len() > 0 && old(self).inner.upcoming()[0] is Err ==> r
                == Some(
                Err::<
                    (L::Conn, Vec<(Vec<u8>, C::UpgradeIdentifier)>, Negotiating<C>),
                    ConnectError,
                >(ConnectError::TransportIo),
            ),
    {
        match self.inner.next_conn() {
            None => None,
            Some(Err(_)) => Some(Err(ConnectError::TransportIo)),
            Some(Ok(conn)) => {
                let dup = self.upgrade.duplicate();
                let candidates = dup.protocol_names();
                Some(Ok((conn, candidates, Negotiating { upgrade: dup })))
            },
        }
    }
}

/// Resolve the deferred upgraded connection, the last phase of a dial or of
/// one accepted connection: a failure of the upgrade's own handshake is
/// fatal to this connection only.
pub fn complete_upgrade<F: DeferredConn>(fut: F) -> (r: Result<F::Conn, ConnectError>)
    ensures
        fut.outcome() matches Ok(c) ==> r == Ok::<F::Conn, ConnectError>(c),
        fut.outcome() is Err ==> r == Err::<F::Conn, ConnectError>(ConnectError::Upgrade),
{
    match fut.resolve() {
        Ok(c) => Ok(c),
        Err(_) => Err(ConnectError::Upgrade),
    }
}

impl<T: Transport, C: ConnectionUpgrade<T::RawConn>> Transport for UpgradedNode<T, C> {
    type RawConn = C::Output;

    type Listener = UpgradedListener<T::Listener, C>;

    type Dial = UpgradedDial<T::Dial, C>;

    open spec fn listen_ok(self, addr: Multiaddr) -> bool {
        self.transports.listen_ok(addr)
    }

    open spec fn listen_out(self, addr: Multiaddr) -> Self::Listener {
        UpgradedListener { inner: self.transports.listen_out(addr), upgrade: self.upgrade }
    }

    open spec fn dial_ok(self, addr: Multiaddr) -> bool {
        self.transports.dial_ok(addr)
    }

    open spec fn dial_out(self, addr: Multiaddr) -> Self::Dial {
        UpgradedDial { inner: self.transports.dial_out(addr), upgrade: self.upgrade }
    }

    fn listen_on(self, addr: Multiaddr) -> (r: Result<Self::Listener, (Self, Multiaddr)>) {
        self.listen_on(addr)
    }

    fn dial(self, addr: Multiaddr) -> (r: Result<Self::Dial, (Self, Multiaddr)>) {
        self.dial(addr)
    }
}

} // verus!
