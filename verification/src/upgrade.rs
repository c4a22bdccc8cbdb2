//! The connection-upgrade capability and its choice combinator.
//!
//! An upgrade advertises a finite ordered sequence of (protocol name,
//! identifier) pairs and, once negotiation has chosen one identifier, turns a
//! raw connection into a deferred upgraded connection. Two upgrade sets
//! combine with [`OrUpgrade`]: both are advertised (first set first, which
//! fixes negotiation preference order) and the eventual upgrade call is
//! routed to whichever side produced the chosen identifier.

use vstd::prelude::*;
use crate::addr::copy_bytes;
use crate::deferred::DeferredConn;
use crate::either::{EitherConnUpgrFuture, EitherSocket, EitherUpgradeIdentifier};
use crate::errors::IoFailure;

verus! {

/// A possible upgrade of a connection between two peers (an encryption or
/// multiplexing middleware, or a protocol handler).
///
/// The generic `C` is the type of the connection before the upgrade.
pub trait ConnectionUpgrade<C>: Sized {
    /// Identifies one advertised protocol variant; produced by
    /// `protocol_names` and passed back to `upgrade`.
    type UpgradeIdentifier;

    /// The type of the upgraded connection.
    type Output;

    /// The deferred upgraded connection (the upgrade may need a handshake of
    /// its own before it resolves).
    type Future;

    /// The advertised (protocol name, identifier) pairs, in preference
    /// order.
    spec fn names_spec(self) -> Seq<(Seq<u8>, Self::UpgradeIdentifier)>;

    /// The deferred upgraded connection that `upgrade` returns.
    spec fn upgrade_spec(self, socket: C, id: Self::UpgradeIdentifier) -> Self::Future;

    /// The names of the protocols to advertise to the remote, each with the
    /// identifier to hand back to `upgrade` once chosen. Pure: may be called
    /// any number of times.
    fn protocol_names(&self) -> (r: Vec<(Vec<u8>, Self::UpgradeIdentifier)>)
        ensures
            r@.len() == self.names_spec().len(),
            forall|i: int|
                0 <= i < r@.len() ==> (#[trigger] r@[i]).0@ == self.names_spec()[i].0 && r@[i].1
                    == self.names_spec()[i].1,
    ;

    /// Apply this upgrade to a connection, after negotiation chose the
    /// variant identified by `id`.
    fn upgrade(self, socket: C, id: Self::UpgradeIdentifier) -> (r: Self::Future)
        ensures
            r == self.upgrade_spec(socket, id),
    ;

    /// A logically equal copy, so that a listener can upgrade each incoming
    /// connection independently.
    fn duplicate(&self) -> (r: Self)
        ensures
            r.names_spec() == self.names_spec(),
            forall|socket: C, id: Self::UpgradeIdentifier| #[trigger] r.upgrade_spec(socket, id)
                == self.upgrade_spec(socket, id),
    ;
}

/// An already-resolved deferred upgraded connection, for upgrades that need
/// no handshake of their own.
#[derive(Debug, Clone, Copy, PartialEq, Eq)]
pub struct ReadyUpgrade<C> {
    pub conn: C,
}

impl<C> DeferredConn for ReadyUpgrade<C> {
    type Conn = C;

    open spec fn outcome(self) -> Result<C, IoFailure> {
        Ok(self.conn)
    }

    fn resolve(self) -> (r: Result<C, IoFailure>) {
        Ok(self.conn)
    }
}

/// The name of the protocol that [`PlainText`] negotiates.
pub open spec fn plaintext_name() -> Seq<u8> {
    seq![
        47u8,
        112u8,
        108u8,
        97u8,
        105u8,
        110u8,
        116u8,
        101u8,
        120u8,
        116u8,
        47u8,
        49u8,
        46u8,
        48u8,
        46u8,
        48u8,
    ]
}

/// The bytes of [`plaintext_name`]: `/plaintext/1.0.0`.
pub fn plaintext_name_bytes() -> (r: Vec<u8>)
    ensures
        r@ == plaintext_name(),
{
    let mut v: Vec<u8> = Vec::new();
    v.push(47);
    v.push(112);
    v.push(108);
    v.push(97);
    v.push(105);
    v.push(110);
    v.push(116);
    v.push(101);
    v.push(120);
    v.push(116);
    v.push(47);
    v.push(49);
    v.push(46);
    v.push(48);
    v.push(46);
    v.push(48);
    proof {
        assert(v@ =~= plaintext_name());
    }
    v
}

/// The upgrade that negotiates `/plaintext/1.0.0` and passes the connection
/// through unchanged: an identity transform, used where no security layer is
/// wanted.
#[derive(Debug, Copy, Clone)]
pub struct PlainText;

impl<C> ConnectionUpgrade<C> for PlainText {
    type UpgradeIdentifier = ();

    type Output = C;

    type Future = ReadyUpgrade<C>;

    open spec fn names_spec(self) -> Seq<(Seq<u8>, ())> {
        seq![(plaintext_name(), ())]
    }

    open spec fn upgrade_spec(self, socket: C, id: ()) -> ReadyUpgrade<C> {
        ReadyUpgrade { conn: socket }
    }

    fn protocol_names(&self) -> (r: Vec<(Vec<u8>, ())>) {
        let mut v: Vec<(Vec<u8>, ())> = Vec::new();
        v.push((plaintext_name_bytes(), ()));
        v
    }

    fn upgrade(self, socket: C, id: ()) -> (r: ReadyUpgrade<C>) {
        ReadyUpgrade { conn: socket }
    }

    fn duplicate(&self) -> (r: PlainText) {
        PlainText
    }
}

/// An upgrade that negotiates one configurable protocol name and passes the
/// connection through unchanged. Lets a stack advertise a distinct name
/// without adding a middleware yet.
#[derive(Debug, Clone, PartialEq, Eq)]
pub struct IdentityUpgrade {
    /// The one protocol name this upgrade advertises.
    pub name: Vec<u8>,
}

impl<C> ConnectionUpgrade<C> for IdentityUpgrade {
    type UpgradeIdentifier = ();

    type Output = C;

    type Future = ReadyUpgrade<C>;

    open spec fn names_spec(self) -> Seq<(Seq<u8>, ())> {
        seq![(self.name@, ())]
    }

    open spec fn upgrade_spec(self, socket: C, id: ()) -> ReadyUpgrade<C> {
        ReadyUpgrade { conn: socket }
    }

    fn protocol_names(&self) -> (r: Vec<(Vec<u8>, ())>) {
        let mut v: Vec<(Vec<u8>, ())> = Vec::new();
        v.push((copy_bytes(&self.name), ()));
        v
    }

    fn upgrade(self, socket: C, id: ()) -> (r: ReadyUpgrade<C>) {
        ReadyUpgrade { conn: socket }
    }

    fn duplicate(&self) -> (r: IdentityUpgrade) {
        IdentityUpgrade { name: copy_bytes(&self.name) }
    }
}

/// The advertised pairs of two upgrade sets, chained: the first set's pairs
/// tagged `First`, then the second set's tagged `Second`, each side's order
/// preserved.
pub open spec fn tagged_names<AId, BId>(
    first: Seq<(Vec<u8>, AId)>,
    second: Seq<(Vec<u8>, BId)>,
) -> Seq<(Seq<u8>, EitherUpgradeIdentifier<AId, BId>)> {
    first.map_values(
        |p: (Vec<u8>, AId)| (p.0@, EitherUpgradeIdentifier::<AId, BId>::First(p.1)),
    ) + second.map_values(
        |p: (Vec<u8>, BId)| (p.0@, EitherUpgradeIdentifier::<AId, BId>::Second(p.1)),
    )
}

/// Chains the advertised pairs of two upgrade sets, tagging each pair with
/// the side it came from.
#[derive(Debug, Clone)]
pub struct NamesIterChain<AId, BId> {
    first: Vec<(Vec<u8>, AId)>,
    second: Vec<(Vec<u8>, BId)>,
}

impl<AId, BId> NamesIterChain<AId, BId> {
    /// The tagged pairs still to be yielded, in order.
    pub closed spec fn remaining(self) -> Seq<(Seq<u8>, EitherUpgradeIdentifier<AId, BId>)> {
        tagged_names(self.first@, self.second@)
    }

    /// Chain the two advertised sequences.
    pub fn new(first: Vec<(Vec<u8>, AId)>, second: Vec<(Vec<u8>, BId)>) -> (r: NamesIterChain<
        AId,
        BId,
    >)
        ensures
            r.remaining() == tagged_names(first@, second@),
    {
        NamesIterChain { first, second }
    }

    /// The next tagged pair: the first sequence's pairs first, then the
    /// second sequence's.
    pub fn next(&mut self) -> (r: Option<(Vec<u8>, EitherUpgradeIdentifier<AId, BId>)>)
        ensures
            old(self).remaining().len() == 0 ==> r is None && final(self).remaining() == old(
                self,
            ).remaining(),
            old(self).remaining().len() > 0 ==> {
                &&& r matches Some(p)
                &&& p.0@ == old(self).remaining()[0].0
                &&& p.1 == old(self).remaining()[0].1
                &&& final(self).remaining() == old(self).remaining().drop_first()
            },
    {
        if self.first.len() > 0 {
            let (name, id) = self.first.remove(0);
            proof {
                assert(self.first@ =~= old(self).first@.drop_first());
                assert(final(self).remaining() =~= old(self).remaining().drop_first());
            }
            Some((name, EitherUpgradeIdentifier::First(id)))
        } else if self.second.len() > 0 {
            let (name, id) = self.second.remove(0);
            proof {
                assert(self.second@ =~= old(self).second@.drop_first());
                assert(final(self).remaining() =~= old(self).remaining().drop_first());
            }
            Some((name, EitherUpgradeIdentifier::Second(id)))
        } else {
            proof {
                assert(old(self).remaining().len() == 0);
            }
            None
        }
    }

    /// Lower and upper bound on the number of pairs still to be yielded; the
    /// upper bound is absent when the count does not fit a `usize`.
    pub fn size_hint(&self) -> (r: (usize, Option<usize>))
        ensures
            self.remaining().len() <= usize::MAX ==> r.0 == self.remaining().len() && r.1 == Some(
                r.0,
            ),
            self.remaining().len() > usize::MAX ==> r.0 == usize::MAX && r.1 is None,
    {
        let n1 = self.first.len();
        let n2 = self.second.len();
        if n1 <= usize::MAX - n2 {
            (n1 + n2, Some(n1 + n2))
        } else {
            (usize::MAX, None)
        }
    }

    /// Drain the chain into a vector, in order.
    pub fn into_vec(self) -> (r: Vec<(Vec<u8>, EitherUpgradeIdentifier<AId, BId>)>)
        ensures
            r@.len() == self.remaining().len(),
            forall|i: int|
                0 <= i < r@.len() ==> (#[trigger] r@[i]).0@ == self.remaining()[i].0 && r@[i].1
                    == self.remaining()[i].1,
    {
        let ghost total = self.remaining();
        let mut chain = self;
        let mut out: Vec<(Vec<u8>, EitherUpgradeIdentifier<AId, BId>)> = Vec::new();
        let mut done = false;
        while !done
            invariant
                out@.len() + chain.remaining().len() == total.len(),
                chain.remaining() == total.skip(out@.len() as int),
                forall|i: int|
                    0 <= i < out@.len() ==> (#[trigger] out@[i]).0@ == total[i].0 && out@[i].1
                        == total[i].1,
                done ==> chain.remaining().len() == 0,
            decreases chain.remaining().len() + (if done { 0int } else { 1int }),
        {
            let ghost k = out@.len() as int;
            match chain.next() {
                Some(p) => {
                    proof {
                        assert(total.skip(k)[0] == total[k]);
                        assert(total.skip(k).drop_first() =~= total.skip(k + 1));
                    }
                    out.push(p);
                },
                None => {
                    done = true;
                },
            }
        }
        proof {
            assert(out@.len() == total.len());
        }
        out
    }
}

/// Choice composition of two upgrade sets: both sides' protocols are
/// advertised (the first side's first), and the upgrade call is dispatched
/// to whichever side produced the chosen identifier; the other side is never
/// touched.
#[derive(Debug, Copy, Clone)]
pub struct OrUpgrade<A, B>(pub A, pub B);

impl<C, A: ConnectionUpgrade<C>, B: ConnectionUpgrade<C>> ConnectionUpgrade<C> for OrUpgrade<
    A,
    B,
> {
    type UpgradeIdentifier = EitherUpgradeIdentifier<A::UpgradeIdentifier, B::UpgradeIdentifier>;

    type Output = EitherSocket<A::Output, B::Output>;

    type Future = EitherConnUpgrFuture<A::Future, B::Future>;

    open spec fn names_spec(self) -> Seq<(Seq<u8>, Self::UpgradeIdentifier)> {
        self.0.names_spec().map_values(
            |p: (Seq<u8>, A::UpgradeIdentifier)|
                (
                    p.0,
                    EitherUpgradeIdentifier::<A::UpgradeIdentifier, B::UpgradeIdentifier>::First(
                        p.1,
                    ),
                ),
        ) + self.1.names_spec().map_values(
            |p: (Seq<u8>, B::UpgradeIdentifier)|
                (
                    p.0,
                    EitherUpgradeIdentifier::<A::UpgradeIdentifier, B::UpgradeIdentifier>::Second(
                        p.1,
                    ),
                ),
        )
    }

    open spec fn upgrade_spec(self, socket: C, id: Self::UpgradeIdentifier) -> Self::Future {
        match id {
            EitherUpgradeIdentifier::First(i) => EitherConnUpgrFuture::First(
                self.0.upgrade_spec(socket, i),
            ),
            EitherUpgradeIdentifier::Second(i) => EitherConnUpgrFuture::Second(
                self.1.upgrade_spec(socket, i),
            ),
        }
    }

    fn protocol_names(&self) -> (r: Vec<(Vec<u8>, Self::UpgradeIdentifier)>) {
        let first = self.0.protocol_names();
        let second = self.1.protocol_names();
        proof {
            assert(tagged_names(first@, second@) =~= self.names_spec());
        }
        let chain = NamesIterChain::new(first, second);
        chain.into_vec()
    }

    fn upgrade(self, socket: C, id: Self::UpgradeIdentifier) -> (r: Self::Future) {
        match id {
            EitherUpgradeIdentifier::First(i) => EitherConnUpgrFuture::First(
                self.0.upgrade(socket, i),
            ),
            EitherUpgradeIdentifier::Second(i) => EitherConnUpgrFuture::Second(
                self.1.upgrade(socket, i),
            ),
        }
    }

    fn duplicate(&self) -> (r: OrUpgrade<A, B>) {
        let d = OrUpgrade(self.0.duplicate(), self.1.duplicate());
        proof {
            assert(d.names_spec() =~= self.names_spec());
        }
        d
    }
}

/// The advertised pairs of the choice of two upgrade sets are exactly the
/// first set's pairs followed by the second set's pairs, each original
/// relative order preserved, every name tagged with the side it came from,
/// no pair dropped or duplicated.
pub proof fn lemma_or_upgrade_names<C, A: ConnectionUpgrade<C>, B: ConnectionUpgrade<C>>(
    u: OrUpgrade<A, B>,
)
    ensures
        ConnectionUpgrade::<C>::names_spec(u).len() == ConnectionUpgrade::<C>::names_spec(u.0).len()
            + ConnectionUpgrade::<C>::names_spec(u.1).len(),
        forall|i: int|
            0 <= i < ConnectionUpgrade::<C>::names_spec(u.0).len()
                ==> #[trigger] ConnectionUpgrade::<C>::names_spec(u)[i] == (
            ConnectionUpgrade::<C>::names_spec(u.0)[i].0,
            EitherUpgradeIdentifier::<A::UpgradeIdentifier, B::UpgradeIdentifier>::First(
                ConnectionUpgrade::<C>::names_spec(u.0)[i].1,
            ),
        ),
        forall|j: int|
            ConnectionUpgrade::<C>::names_spec(u.0).len() <= j < ConnectionUpgrade::<C>::names_spec(
                u,
            ).len() ==> #[trigger] ConnectionUpgrade::<C>::names_spec(u)[j] == (
            ConnectionUpgrade::<C>::names_spec(u.1)[j - ConnectionUpgrade::<C>::names_spec(
                u.0,
            ).len()].0,
            EitherUpgradeIdentifier::<A::UpgradeIdentifier, B::UpgradeIdentifier>::Second(
                ConnectionUpgrade::<C>::names_spec(u.1)[j - ConnectionUpgrade::<C>::names_spec(
                    u.0,
                ).len()].1,
            ),
        ),
{
}

/// An identifier tagged `Second` routes the upgrade call to the second side
/// with the identifier untagged; the first side is never touched. The
/// matching fact holds for `First`.
pub proof fn lemma_or_upgrade_second<C, A: ConnectionUpgrade<C>, B: ConnectionUpgrade<C>>(
    u: OrUpgrade<A, B>,
    socket: C,
    id: B::UpgradeIdentifier,
)
    ensures
        ConnectionUpgrade::<C>::upgrade_spec(
            u,
            socket,
            EitherUpgradeIdentifier::Second(id),
        ) == EitherConnUpgrFuture::<
            <A as ConnectionUpgrade<C>>::Future,
            <B as ConnectionUpgrade<C>>::Future,
        >::Second(ConnectionUpgrade::<C>::upgrade_spec(u.1, socket, id)),
{
}

/// An identifier tagged `First` routes the upgrade call to the first side
/// with the identifier untagged; the second side is never touched.
pub proof fn lemma_or_upgrade_first<C, A: ConnectionUpgrade<C>, B: ConnectionUpgrade<C>>(
    u: OrUpgrade<A, B>,
    socket: C,
    id: A::UpgradeIdentifier,
)
    ensures
        ConnectionUpgrade::<C>::upgrade_spec(
            u,
            socket,
            EitherUpgradeIdentifier::First(id),
        ) == EitherConnUpgrFuture::<
            <A as ConnectionUpgrade<C>>::Future,
            <B as ConnectionUpgrade<C>>::Future,
        >::First(ConnectionUpgrade::<C>::upgrade_spec(u.0, socket, id)),
{
}

} // verus!

