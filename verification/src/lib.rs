//! The decision core of an HTTP client.
//!
//! Everything a client decides between being handed a request and handing back
//! a response is decided here: whether a request can be sent at all, which
//! pooled connections may carry it, what its `Host` header and request target
//! become, which of a pooled and a fresh connection it uses, and whether a
//! request that a dying connection gave back is tried again.
//!
//! Sockets, timers and tasks are left to the caller, who performs the
//! [`Action`] that is asked for and reports the [`Event`] that came of it.

pub mod builder;
pub mod client;
pub mod connect;
pub mod duration;
pub mod error;
pub mod exchange;
pub mod headers;
pub mod intake;
pub mod laws;
pub mod pool;
pub mod promises;
pub mod request;
pub mod retry;
pub mod targets;
pub mod text;
pub mod uri;

pub use builder::{Builder, Exec};
pub use client::Client;
pub use connect::{Destination, HttpConnector};
pub use duration::Duration;
pub use error::{Cause, Error, IoErrorKind};
pub use exchange::{Action, Attempt, ClientError, Dial, Disposal, Event, Stage, Turn};
pub use pool::{Pool, PoolClient, PoolHandle, PoolKey, PoolTx, Reservation, Sender, Ver};
pub use request::{Method, Request, RequestView, Version};
pub use retry::{FutureResponse, FutureState, RetryableSendRequest};
pub use uri::{set_relative_uri, InvalidUriParts, Uri, UriError, UriView};
