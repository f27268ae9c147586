//! Pooled connections.

use std::sync::Arc;

use vstd::prelude::*;

use crate::builder::share;
use crate::duration::Duration;

verus! {

/// A marker to identify what version a pooled connection is.
#[derive(Clone, Copy, Debug, PartialEq, Eq, Structural, Hash)]
pub enum Ver {
    Http1,
    Http2,
}

/// What the connections of a pool are filed under: the scheme and authority
/// that they lead to, and the version that they speak.
#[derive(Debug)]
pub struct PoolKey {
    pub domain: String,
    pub ver: Ver,
}

impl Clone for PoolKey {
    fn clone(&self) -> (r: Self)
        ensures
            r == *self,
    {
        PoolKey { domain: self.domain.clone(), ver: self.ver }
    }
}

/// What tells a pool from others. The pools that one builder makes are numbered.
pub struct PoolHandle {
    pub number: Ghost<nat>,
}

impl PoolHandle {
    /// The handle of the first pool of a builder.
    pub open spec fn initial() -> PoolHandle {
        PoolHandle { number: Ghost(0) }
    }

    /// The handle of the pool that the builder makes after this one.
    pub open spec fn following(self) -> PoolHandle {
        PoolHandle { number: Ghost(self.number@ + 1) }
    }

    /// Gives the handle of the first pool of a builder.
    pub fn first() -> (r: Self)
        ensures
            r == PoolHandle::initial(),
    {
        PoolHandle { number: Ghost(0) }
    }

    /// Gives the handle of the pool that the builder makes after this one.
    pub fn next(&self) -> (r: Self)
        ensures
            r == self.following(),
    {
        PoolHandle { number: Ghost(self.number@ + 1) }
    }
}

impl Clone for PoolHandle {
    fn clone(&self) -> (r: Self)
        ensures
            r == *self,
    {
        PoolHandle { number: self.number }
    }
}

/// A pool of connections: its settings, and the handle that all who use the
/// pool share.
pub struct Pool {
    /// Whether connections are kept for later requests at all.
    pub enabled: bool,
    /// How long a connection may stay idle, if there is a limit.
    pub timeout: Option<Duration>,
    /// What the pool is known by.
    pub handle: Arc<PoolHandle>,
}

impl Pool {
    /// The number of the pool among those of its builder.
    pub open spec fn number(self) -> nat {
        self.handle.number@
    }

    /// A new pool that keeps connections if `enabled`, for at most `timeout`.
    pub fn new(enabled: bool, timeout: Option<Duration>, handle: PoolHandle) -> (r: Self)
        ensures
            r == (Pool { enabled, timeout, handle: Arc::new(handle) }),
    {
        Pool { enabled, timeout, handle: Arc::new(handle) }
    }
}

impl Clone for Pool {
    /// Another way to the same pool.
    fn clone(&self) -> (r: Self)
        ensures
            r == *self,
    {
        Pool { enabled: self.enabled, timeout: self.timeout, handle: share(&self.handle) }
    }
}

/// The sending half of a connection.
pub trait Sender {
    /// Whether a request would be taken at once.
    fn is_ready(&self) -> bool;

    /// Whether the connection is gone.
    fn is_closed(&self) -> bool;
}

/// The sending half of a pooled connection, by the version it speaks. That of
/// an HTTP/2 connection can be shared.
#[derive(Debug)]
pub enum PoolTx<S, T> {
    Http1(S),
    Http2(T),
}

/// A pooled connection.
#[derive(Debug)]
pub struct PoolClient<S, T> {
    /// Whether the connection leads to a proxy.
    pub is_proxied: bool,
    pub tx: PoolTx<S, T>,
}

/// How a connection is reserved for a request: for it alone, or with a second
/// handle that others can use meanwhile.
#[derive(Debug)]
pub enum Reservation<P> {
    /// The only handle to the connection.
    Unique(P),
    /// Two handles to the same connection.
    Shared(P, P),
}

impl<S, T> PoolClient<S, T> {
    /// Hands out the sender that has to be polled until it is ready. An HTTP/2
    /// connection has none: it is ready as it is.
    pub fn poll_ready(&mut self) -> (r: Option<&mut S>)
        ensures
            match old(self).tx {
                PoolTx::Http1(tx) => {
                    &&& r matches Some(sender)
                    &&& *sender == tx
                    &&& *final(self) == (PoolClient {
                        is_proxied: old(self).is_proxied,
                        tx: PoolTx::<S, T>::Http1(*final(sender)),
                    })
                },
                PoolTx::Http2(_) => r is None && *final(self) == *old(self),
            },
    {
        match &mut self.tx {
            PoolTx::Http1(tx) => Some(tx),
            PoolTx::Http2(_) => None,
        }
    }

    /// Hands out the sender that a request for this connection is given to.
    pub fn send_request_retryable(&mut self) -> (r: PoolTx<&mut S, &mut T>)
        ensures
            final(self).is_proxied == old(self).is_proxied,
            match old(self).tx {
                PoolTx::Http1(tx) => {
                    &&& r matches PoolTx::Http1(sender)
                    &&& *sender == tx
                    &&& final(self).tx == PoolTx::<S, T>::Http1(*final(sender))
                },
                PoolTx::Http2(tx) => {
                    &&& r matches PoolTx::Http2(sender)
                    &&& *sender == tx
                    &&& final(self).tx == PoolTx::<S, T>::Http2(*final(sender))
                },
            },
    {
        match &mut self.tx {
            PoolTx::Http1(tx) => PoolTx::Http1(tx),
            PoolTx::Http2(tx) => PoolTx::Http2(tx),
        }
    }
}

impl<S: Sender, T: Sender> PoolClient<S, T> {
    /// Whether the connection would take a request at once, as its sender says.
    pub fn is_ready(&self) -> (r: bool)
        ensures
            match self.tx {
                PoolTx::Http1(tx) => call_ensures(S::is_ready, (&tx,), r),
                PoolTx::Http2(tx) => call_ensures(T::is_ready, (&tx,), r),
            },
    {
        match &self.tx {
            PoolTx::Http1(tx) => tx.is_ready(),
            PoolTx::Http2(tx) => tx.is_ready(),
        }
    }

    /// Whether the connection is gone, as its sender says.
    pub fn is_closed(&self) -> (r: bool)
        ensures
            match self.tx {
                PoolTx::Http1(tx) => call_ensures(S::is_closed, (&tx,), r),
                PoolTx::Http2(tx) => call_ensures(T::is_closed, (&tx,), r),
            },
    {
        match &self.tx {
            PoolTx::Http1(tx) => tx.is_closed(),
            PoolTx::Http2(tx) => tx.is_closed(),
        }
    }
}

impl<S, T: Clone> PoolClient<S, T> {
    /// Reserves the connection for a request: an HTTP/1 connection for it
    /// alone, an HTTP/2 connection as one of two handles to it.
    pub fn reserve(self) -> (r: Reservation<Self>)
        ensures
            match self.tx {
                PoolTx::Http1(_) => r == Reservation::Unique(self),
                PoolTx::Http2(tx) => {
                    &&& r matches Reservation::Shared(first, second)
                    &&& first == self
                    &&& second.is_proxied == self.is_proxied
                    &&& second.tx matches PoolTx::Http2(copy)
                    &&& call_ensures(T::clone, (&tx,), copy)
                },
            },
    {
        match self.tx {
            PoolTx::Http1(tx) => Reservation::Unique(
                PoolClient { is_proxied: self.is_proxied, tx: PoolTx::Http1(tx) },
            ),
            PoolTx::Http2(tx) => {
                let b = PoolClient { is_proxied: self.is_proxied, tx: PoolTx::Http2(tx.clone()) };
                let a = PoolClient { is_proxied: self.is_proxied, tx: PoolTx::Http2(tx) };
                Reservation::Shared(a, b)
            },
        }
    }
}

} // verus!
