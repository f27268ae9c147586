//! The configuration of a client.

use std::sync::Arc;

use vstd::prelude::*;

use crate::client::Client;
use crate::connect::HttpConnector;
use crate::duration::Duration;
use crate::pool::{Pool, PoolHandle, Ver};

verus! {

/// Makes another handle to what is shared, with `<Arc<T> as Clone>::clone`.
#[verifier::external_body]
pub(crate) fn share<T>(arc: &Arc<T>) -> (r: Arc<T>)
    ensures
        r == *arc,
{
    arc.clone()
}

/// What runs the background tasks of connections.
#[derive(Debug)]
pub enum Exec<E> {
    /// The executor of the task that makes the request.
    Default,
    /// The executor that the client was given.
    Executor(Arc<E>),
}

impl<E> Clone for Exec<E> {
    fn clone(&self) -> (r: Self)
        ensures
            r == *self,
    {
        match self {
            Exec::Default => Exec::Default,
            Exec::Executor(executor) => Exec::Executor(share(executor)),
        }
    }
}

/// Builder for a Client
pub struct Builder<E> {
    pub executor: Exec<E>,
    pub keep_alive: bool,
    pub keep_alive_timeout: Option<Duration>,
    pub h1_writev: bool,
    pub max_idle: usize,
    pub retry_canceled_requests: bool,
    pub set_host: bool,
    pub ver: Ver,
    /// The handle of the pool of the client that is built next. A clone of the
    /// builder goes on numbering by itself.
    pub next_pool: PoolHandle,
}

impl<E> Clone for Builder<E> {
    fn clone(&self) -> (r: Self)
        ensures
            r == *self,
    {
        Builder {
            executor: self.executor.clone(),
            keep_alive: self.keep_alive,
            keep_alive_timeout: self.keep_alive_timeout,
            h1_writev: self.h1_writev,
            max_idle: self.max_idle,
            retry_canceled_requests: self.retry_canceled_requests,
            set_host: self.set_host,
            ver: self.ver,
            next_pool: self.next_pool.clone(),
        }
    }
}

/// The configuration that a builder starts from.
pub open spec fn default_builder<E>() -> Builder<E> {
    Builder {
        executor: Exec::Default,
        keep_alive: true,
        keep_alive_timeout: Some(Duration { secs: 90, nanos: 0 }),
        h1_writev: true,
        max_idle: 5,
        retry_canceled_requests: true,
        set_host: true,
        ver: Ver::Http1,
        next_pool: PoolHandle::initial(),
    }
}

impl<E> Default for Builder<E> {
    fn default() -> (r: Self)
        ensures
            r == default_builder::<E>(),
    {
        Builder {
            executor: Exec::Default,
            keep_alive: true,
            keep_alive_timeout: Some(Duration::from_secs(90)),
            h1_writev: true,
            max_idle: 5,
            retry_canceled_requests: true,
            set_host: true,
            ver: Ver::Http1,
            next_pool: PoolHandle::first(),
        }
    }
}

impl<E> Builder<E> {
    /// The client that this configuration makes of a connector.
    pub open spec fn client<C>(self, connector: C) -> Client<C, E> {
        Client {
            connector: Arc::new(connector),
            executor: self.executor,
            h1_writev: self.h1_writev,
            pool: Pool {
                enabled: self.keep_alive,
                timeout: self.keep_alive_timeout,
                handle: Arc::new(self.next_pool),
            },
            retry_canceled_requests: self.retry_canceled_requests,
            set_host: self.set_host,
            ver: self.ver,
        }
    }

    /// The builder after it has built a client: the next one gets another pool.
    pub open spec fn built(self) -> Self {
        Builder { next_pool: self.next_pool.following(), ..self }
    }

    /// Enable or disable keep-alive mechanics.
    ///
    /// Default is enabled.
    pub fn keep_alive(&mut self, val: bool) -> (r: &mut Self)
        ensures
            *r == (Builder { keep_alive: val, ..*old(self) }),
            *final(self) == *final(r),
    {
        self.keep_alive = val;
        self
    }

    /// Set an optional timeout for idle sockets being kept-alive.
    ///
    /// Pass `None` to disable timeout.
    ///
    /// Default is 90 seconds.
    pub fn keep_alive_timeout(&mut self, val: Option<Duration>) -> (r: &mut Self)
        ensures
            *r == (Builder { keep_alive_timeout: val, ..*old(self) }),
            *final(self) == *final(r),
    {
        self.keep_alive_timeout = val;
        self
    }

    /// Set whether HTTP/1 connections should try to use vectored writes,
    /// or always flatten into a single buffer.
    ///
    /// Note that setting this to false may mean more copies of body data,
    /// but may also improve performance when an IO transport doesn't
    /// support vectored writes well, such as most TLS implementations.
    ///
    /// Default is `true`.
    pub fn http1_writev(&mut self, val: bool) -> (r: &mut Self)
        ensures
            *r == (Builder { h1_writev: val, ..*old(self) }),
            *final(self) == *final(r),
    {
        self.h1_writev = val;
        self
    }

    /// Set whether the connection **must** use HTTP/2.
    ///
    /// Note that setting this to true prevents HTTP/1 from being allowed.
    ///
    /// Default is false.
    pub fn http2_only(&mut self, val: bool) -> (r: &mut Self)
        ensures
            *r == (Builder {
                ver: if val {
                    Ver::Http2
                } else {
                    Ver::Http1
                },
                ..*old(self)
            }),
            *final(self) == *final(r),
    {
        self.ver = if val {
            Ver::Http2
        } else {
            Ver::Http1
        };
        self
    }

    /// Set whether to retry requests that get disrupted before ever starting
    /// to write.
    ///
    /// This means a request that is queued, and gets given an idle, reused
    /// connection, and then encounters an error immediately as the idle
    /// connection was found to be unusable.
    ///
    /// When this is set to `false`, the related `FutureResponse` would instead
    /// resolve to an `Error::Canceled`.
    ///
    /// The error is the reason that the connection gives the request back with.
    /// A connection is relied on to give a request back only with an
    /// `Error::Canceled`; any other reason would be reported as it is.
    ///
    /// Default is `true`.
    pub fn retry_canceled_requests(&mut self, val: bool) -> (r: &mut Self)
        ensures
            *r == (Builder { retry_canceled_requests: val, ..*old(self) }),
            *final(self) == *final(r),
    {
        self.retry_canceled_requests = val;
        self
    }

    /// Set whether to automatically add the `Host` header to requests.
    ///
    /// If true, and a request does not include a `Host` header, one will be
    /// added automatically, derived from the authority of the `Uri`.
    ///
    /// Default is `true`.
    pub fn set_host(&mut self, val: bool) -> (r: &mut Self)
        ensures
            *r == (Builder { set_host: val, ..*old(self) }),
            *final(self) == *final(r),
    {
        self.set_host = val;
        self
    }

    /// Provide an executor to execute background `Connection` tasks.
    pub fn executor(&mut self, executor: E) -> (r: &mut Self)
        ensures
            *r == (Builder { executor: Exec::Executor(Arc::new(executor)), ..*old(self) }),
            *final(self) == *final(r),
    {
        self.executor = Exec::Executor(Arc::new(executor));
        self
    }

    /// Builder a client with this configuration and the default `HttpConnector`.
    pub fn build_http(&mut self) -> (r: Client<HttpConnector, E>)
        ensures
            r == old(self).client(
                HttpConnector {
                    threads: 4,
                    keepalive: if old(self).keep_alive {
                        old(self).keep_alive_timeout
                    } else {
                        None
                    },
                },
            ),
            *final(self) == old(self).built(),
    {
        let mut connector = HttpConnector::new(4);
        if self.keep_alive {
            connector.set_keepalive(self.keep_alive_timeout);
        }
        self.build(connector)
    }

    /// Combine the configuration of this builder with a connector to create a `Client`.
    ///
    /// The client gets a pool of its own, which it shares with its clones and
    /// with no other client of this builder. The configuration stays as it is.
    /// Where a builder cannot be borrowed mutably, a clone of it can build.
    pub fn build<C>(&mut self, connector: C) -> (r: Client<C, E>)
        ensures
            r == old(self).client(connector),
            *final(self) == old(self).built(),
    {
        let handle = self.next_pool.clone();
        self.next_pool = handle.next();
        Client {
            connector: Arc::new(connector),
            executor: self.executor.clone(),
            h1_writev: self.h1_writev,
            pool: Pool::new(self.keep_alive, self.keep_alive_timeout, handle),
            retry_canceled_requests: self.retry_canceled_requests,
            set_host: self.set_host,
            ver: self.ver,
        }
    }
}

} // verus!
