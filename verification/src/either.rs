//! Two-variant sum types, one per capability.
//!
//! Each lets two concrete implementations of the same capability (byte
//! stream, deferred connection, connection stream) be treated as one value
//! without erasing their concrete types. Every operation dispatches to
//! whichever variant is populated, never touches the other, and re-wraps any
//! produced item in the same tag; the adapter adds no behaviour of its own.

use vstd::prelude::*;
use crate::conn::RawConnection;
use crate::deferred::{ConnStream, DeferredConn, lemma_map_values_drop_first};
use crate::errors::IoFailure;

verus! {

/// A byte stream that is one of two concrete byte streams.
#[derive(Debug, Clone, Copy, PartialEq, Eq)]
pub enum EitherSocket<A, B> {
    First(A),
    Second(B),
}

/// A lazy connection sequence that is one of two concrete sequences; every
/// produced connection is wrapped in the same tag.
#[derive(Debug, Clone, Copy, PartialEq, Eq)]
pub enum EitherStream<A, B> {
    First(A),
    Second(B),
}

/// A deferred connection that is one of two concrete deferred connections;
/// the produced connection is wrapped in the same tag.
#[derive(Debug, Clone, Copy, PartialEq, Eq)]
pub enum EitherTransportFuture<A, B> {
    First(A),
    Second(B),
}

/// A deferred upgraded connection that is one of two concrete ones; the
/// produced connection is wrapped in the same tag.
#[derive(Debug, Clone, Copy, PartialEq, Eq)]
pub enum EitherConnUpgrFuture<A, B> {
    First(A),
    Second(B),
}

/// An upgrade identifier tagged with the side of an
/// [`crate::upgrade::OrUpgrade`] that produced it, so that the eventual
/// upgrade call is routed back to that side.
#[derive(Debug, Clone, Copy, PartialEq, Eq)]
pub enum EitherUpgradeIdentifier<A, B> {
    First(A),
    Second(B),
}

impl<A: RawConnection, B: RawConnection> RawConnection for EitherSocket<A, B> {
    open spec fn is_open(self) -> bool {
        match self {
            EitherSocket::First(a) => a.is_open(),
            EitherSocket::Second(b) => b.is_open(),
        }
    }

    open spec fn readable(self) -> Seq<u8> {
        match self {
            EitherSocket::First(a) => a.readable(),
            EitherSocket::Second(b) => b.readable(),
        }
    }

    open spec fn written(self) -> Seq<u8> {
        match self {
            EitherSocket::First(a) => a.written(),
            EitherSocket::Second(b) => b.written(),
        }
    }

    fn read_byte(&mut self) -> (r: Option<u8>) {
        match self {
            EitherSocket::First(a) => a.read_byte(),
            EitherSocket::Second(b) => b.read_byte(),
        }
    }

    fn write_byte(&mut self, b: u8) -> (r: Result<(), IoFailure>) {
        match self {
            EitherSocket::First(a) => a.write_byte(b),
            EitherSocket::Second(s) => s.write_byte(b),
        }
    }

    fn flush(&mut self) -> (r: Result<(), IoFailure>) {
        match self {
            EitherSocket::First(a) => a.flush(),
            EitherSocket::Second(b) => b.flush(),
        }
    }

    fn shutdown(&mut self) {
        match self {
            EitherSocket::First(a) => a.shutdown(),
            EitherSocket::Second(b) => b.shutdown(),
        }
    }
}

impl<A: DeferredConn, B: DeferredConn> DeferredConn for EitherTransportFuture<A, B> {
    type Conn = EitherSocket<A::Conn, B::Conn>;

    open spec fn outcome(self) -> Result<Self::Conn, IoFailure> {
        match self {
            EitherTransportFuture::First(a) => match a.outcome() {
                Ok(c) => Ok(EitherSocket::First(c)),
                Err(e) => Err(e),
            },
            EitherTransportFuture::Second(b) => match b.outcome() {
                Ok(c) => Ok(EitherSocket::Second(c)),
                Err(e) => Err(e),
            },
        }
    }

    fn resolve(self) -> (r: Result<Self::Conn, IoFailure>) {
        match self {
            EitherTransportFuture::First(a) => match a.resolve() {
                Ok(c) => Ok(EitherSocket::First(c)),
                Err(e) => Err(e),
            },
            EitherTransportFuture::Second(b) => match b.resolve() {
                Ok(c) => Ok(EitherSocket::Second(c)),
                Err(e) => Err(e),
            },
        }
    }
}

impl<A: DeferredConn, B: DeferredConn> DeferredConn for EitherConnUpgrFuture<A, B> {
    type Conn = EitherSocket<A::Conn, B::Conn>;

    open spec fn outcome(self) -> Result<Self::Conn, IoFailure> {
        match self {
            EitherConnUpgrFuture::First(a) => match a.outcome() {
                Ok(c) => Ok(EitherSocket::First(c)),
                Err(e) => Err(e),
            },
            EitherConnUpgrFuture::Second(b) => match b.outcome() {
                Ok(c) => Ok(EitherSocket::Second(c)),
                Err(e) => Err(e),
            },
        }
    }

    fn resolve(self) -> (r: Result<Self::Conn, IoFailure>) {
        match self {
            EitherConnUpgrFuture::First(a) => match a.resolve() {
                Ok(c) => Ok(EitherSocket::First(c)),
                Err(e) => Err(e),
            },
            EitherConnUpgrFuture::Second(b) => match b.resolve() {
                Ok(c) => Ok(EitherSocket::Second(c)),
                Err(e) => Err(e),
            },
        }
    }
}

/// How one item of an inner stream appears once wrapped as the first variant.
pub open spec fn wrap_first<CA, CB>(r: Result<CA, IoFailure>) -> Result<
    EitherSocket<CA, CB>,
    IoFailure,
> {
    match r {
        Ok(c) => Ok(EitherSocket::First(c)),
        Err(e) => Err(e),
    }
}

/// How one item of an inner stream appears once wrapped as the second
/// variant.
pub open spec fn wrap_second<CA, CB>(r: Result<CB, IoFailure>) -> Result<
    EitherSocket<CA, CB>,
    IoFailure,
> {
    match r {
        Ok(c) => Ok(EitherSocket::Second(c)),
        Err(e) => Err(e),
    }
}

impl<A: ConnStream, B: ConnStream> ConnStream for EitherStream<A, B> {
    type Conn = EitherSocket<A::Conn, B::Conn>;

    open spec fn upcoming(self) -> Seq<Result<Self::Conn, IoFailure>> {
        match self {
            EitherStream::First(a) => a.upcoming().map_values(
                |r: Result<A::Conn, IoFailure>| wrap_first::<A::Conn, B::Conn>(r),
            ),
            EitherStream::Second(b) => b.upcoming().map_values(
                |r: Result<B::Conn, IoFailure>| wrap_second::<A::Conn, B::Conn>(r),
            ),
        }
    }

    fn next_conn(&mut self) -> (r: Option<Result<Self::Conn, IoFailure>>) {
        let ghost pre = *self;
        let out = match self {
            EitherStream::First(a) => {
                let ghost pre_a = *a;
                let inner = a.next_conn();
                proof {
                    if pre_a.upcoming().len() > 0 {
                        lemma_map_values_drop_first(
                            pre_a.upcoming(),
                            |r: Result<A::Conn, IoFailure>| wrap_first::<A::Conn, B::Conn>(r),
                        );
                    }
                }
                match inner {
                    None => None,
                    Some(Ok(c)) => Some(Ok(EitherSocket::First(c))),
                    Some(Err(e)) => Some(Err(e)),
                }
            }
            EitherStream::Second(b) => {
                let ghost pre_b = *b;
                let inner = b.next_conn();
                proof {
                    if pre_b.upcoming().len() > 0 {
                        lemma_map_values_drop_first(
                            pre_b.upcoming(),
                            |r: Result<B::Conn, IoFailure>| wrap_second::<A::Conn, B::Conn>(r),
                        );
                    }
                }
                match inner {
                    None => None,
                    Some(Ok(c)) => Some(Ok(EitherSocket::Second(c))),
                    Some(Err(e)) => Some(Err(e)),
                }
            }
        };
        out
    }
}

} // verus!
