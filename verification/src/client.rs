//! The client.

use std::sync::Arc;

use vstd::prelude::*;

use crate::builder::{share, Builder, Exec};
use crate::connect::HttpConnector;
use crate::error::{Error, IoErrorKind};
use crate::exchange::{Attempt, Dial, Stage, Turn};
use crate::headers;
use crate::pool::{Pool, PoolKey, Ver};
use crate::request::{Method, Request, RequestView, Version};
use crate::retry::{FutureResponse, FutureState, RetryableSendRequest};
use crate::text;
use crate::uri::{Uri, UriView};

verus! {

/// A Client to make outgoing HTTP requests.
pub struct Client<C, E> {
    pub connector: Arc<C>,
    pub executor: Exec<E>,
    pub h1_writev: bool,
    pub pool: Pool,
    pub retry_canceled_requests: bool,
    pub set_host: bool,
    pub ver: Ver,
}

impl<C, E> Clone for Client<C, E> {
    fn clone(&self) -> (r: Self)
        ensures
            r == *self,
    {
        Client {
            connector: share(&self.connector),
            executor: self.executor.clone(),
            h1_writev: self.h1_writev,
            pool: self.pool.clone(),
            retry_canceled_requests: self.retry_canceled_requests,
            set_host: self.set_host,
            ver: self.ver,
        }
    }
}

impl<E> Client<HttpConnector, E> {
    /// Create a new Client with the default config.
    pub fn new() -> (r: Self)
        ensures
            r == crate::builder::default_builder::<E>().client(
                HttpConnector {
                    threads: 4,
                    keepalive: crate::builder::default_builder::<E>().keep_alive_timeout,
                },
            ),
    {
        Builder::default().build_http()
    }
}

impl<E> Default for Client<HttpConnector, E> {
    fn default() -> (r: Self)
        ensures
            r == crate::builder::default_builder::<E>().client(
                HttpConnector {
                    threads: 4,
                    keepalive: crate::builder::default_builder::<E>().keep_alive_timeout,
                },
            ),
    {
        Client::new()
    }
}

impl<E> Client<(), E> {
    /// Configure a Client.
    pub fn builder() -> (r: Builder<E>)
        ensures
            r == crate::builder::default_builder::<E>(),
    {
        Builder::default()
    }
}

/// What the connections to the target of a URI are filed under.
pub open spec fn domain_of(uri: UriView) -> Seq<char> {
    uri.scheme->0 + "://"@ + uri.authority->0
}

/// The value of the `Host` header for an authority: its host, and its port if
/// it has one.
pub open spec fn host_value(authority: Seq<char>) -> Seq<char> {
    match crate::uri::port_of(authority) {
        Some(port) => crate::uri::host_of(authority) + ":"@ + text::decimal(port as nat),
        None => crate::uri::host_of(authority),
    }
}

/// What is made of a printable host can stand in a header.
proof fn lemma_host_value(authority: Seq<char>)
    requires
        text::is_graphic(crate::uri::host_of(authority)),
    ensures
        headers::is_header_value(host_value(authority)),
{
    reveal_strlit(":");
    if let Some(port) = crate::uri::port_of(authority) {
        text::lemma_decimal(port as nat);
        let digits = text::decimal(port as nat);
        assert forall|i: int| 0 <= i < digits.len() implies '!' <= #[trigger] digits[i] <= '~' by {
            assert(text::is_digit(digits[i]));
        }
    }
    let value = host_value(authority);
    assert(text::is_graphic(value));
    assert(vstd::utf8::is_ascii_chars(value));
    vstd::utf8::is_ascii_chars_encode_utf8(value);
    assert forall|i: int|
        0 <= i < vstd::utf8::encode_utf8(value).len() implies headers::is_value_byte(
        #[trigger] vstd::utf8::encode_utf8(value)[i],
    ) by {
        assert('!' <= value[i] <= '~');
    }
}

/// Why a request cannot be sent, if it cannot.
pub open spec fn rejection<B, X>(req: RequestView<B>) -> Option<Error<X>> {
    if req.version != Version::Http10 && req.version != Version::Http11 {
        Some(Error::UnsupportedVersion)
    } else if req.method.connects() {
        Some(Error::UnsupportedRequestMethod)
    } else if req.uri.scheme is None || req.uri.authority is None {
        Some(
            Error::Io {
                kind: IoErrorKind::InvalidInput,
                message: "invalid URI for Client Request",
            },
        )
    } else {
        None
    }
}

impl<C, E> Client<C, E> {
    /// Whether the client adds a `Host` header to a request.
    pub open spec fn adds_host<B>(self, req: RequestView<B>) -> bool {
        self.set_host && !req.headers.contains_key("host"@)
    }

    /// A request as the client sends it.
    pub open spec fn prepared<B>(self, req: RequestView<B>) -> RequestView<B> {
        if self.adds_host(req) {
            RequestView {
                headers: req.headers.insert(
                    "host"@,
                    seq![vstd::utf8::encode_utf8(host_value(req.uri.authority->0))],
                ),
                ..req
            }
        } else {
            req
        }
    }

    /// Whether the `Host` header that a request needs can be made: a host can
    /// be read from its URI, and there is room for the header.
    pub open spec fn can_prepare<B>(self, req: RequestView<B>) -> bool {
        rejection::<B, ()>(req) is None && self.adds_host(req) ==> {
            &&& crate::uri::has_host(req.uri.authority->0)
            &&& req.headers.dom().len() < headers::MAX_NAMES
        }
    }

    /// An attempt that has not begun yet.
    pub open spec fn starts<B>(self, req: Request<B>, domain: Seq<char>, attempt: Attempt<B>) -> bool {
        &&& attempt.key.domain@ == domain
        &&& attempt.key.ver == self.ver
        &&& attempt.dst == req.uri
        &&& attempt.h1_writev == self.h1_writev
        &&& attempt.stage == (Stage::Acquiring {
            req,
            checkout: true,
            dial: Some(Dial::Permit),
            turn: Turn::Parked,
        })
    }

    /// Starts an attempt to send a request to a domain. The pool is to be asked
    /// for a connection under the key of the attempt.
    pub fn send_request<B>(&self, req: Request<B>, domain: &str) -> (r: Attempt<B>)
        ensures
            r.well_formed(),
            self.starts(req, domain@, r),
    {
        Attempt {
            key: PoolKey { domain: domain.to_owned(), ver: self.ver },
            dst: req.uri.clone(),
            h1_writev: self.h1_writev,
            stage: Stage::Acquiring {
                req,
                checkout: true,
                dial: Some(Dial::Permit),
                turn: Turn::Parked,
            },
        }
    }

    /// What becomes of a request: it is refused, or it is under way with the
    /// headers that it needs.
    pub open spec fn answers<B, X>(
        self,
        req: RequestView<B>,
        r: FutureResponse<C, E, B, X>,
    ) -> bool {
        match rejection::<B, X>(req) {
            Some(error) => r.state == FutureState::<C, E, B, X>::Refused(error),
            None => {
                &&& r.state matches FutureState::Running(running)
                &&& running.client == self
                &&& running.domain@ == domain_of(req.uri)
                &&& running.uri@ == req.uri
                &&& running.future.stage matches Stage::Acquiring { req: sent, .. }
                &&& sent.uri == running.uri
                &&& sent@ == self.prepared(req)
                &&& self.starts(sent, running.domain@, running.future)
            },
        }
    }

    /// What a request that is under way has of the one that the client was
    /// given: all of it but for the headers, and those too where no `Host`
    /// header is added.
    pub open spec fn carries<B, X>(
        self,
        req: Request<B>,
        r: FutureResponse<C, E, B, X>,
    ) -> bool {
        r.state matches FutureState::Running(running) ==> {
            &&& running.uri == req.uri
            &&& running.future.stage matches Stage::Acquiring { req: sent, .. }
            &&& sent == (Request { headers: sent.headers, ..req })
            &&& !self.adds_host(req@) ==> sent == req
        }
    }

    /// Send a constructed Request using this Client.
    pub fn request<B, X>(&self, req: Request<B>) -> (r: FutureResponse<C, E, B, X>)
        requires
            self.can_prepare(req@),
        ensures
            r.well_formed(),
            self.answers(req@, r),
            self.carries(req, r),
    {
        let mut req = req;
        match req.version {
            Version::Http10 | Version::Http11 => (),
            _ => return FutureResponse {
                state: FutureState::Refused(Error::new_user_unsupported_version()),
            },
        }
        if req.method.is_connect() {
            return FutureResponse {
                state: FutureState::Refused(Error::new_user_unsupported_request_method()),
            };
        }
        let uri = req.uri.clone();
        let domain = match (uri.scheme_part(), uri.authority_part()) {
            (Some(scheme), Some(authority)) => scheme.to_owned().concat("://").concat(authority),
            _ => return FutureResponse {
                state: FutureState::Refused(
                    Error::new_io(IoErrorKind::InvalidInput, "invalid URI for Client Request"),
                ),
            },
        };
        if self.set_host {
            if !headers::contains_host(&req.headers) {
                let hostname = uri.host().unwrap();
                let host = match uri.port() {
                    Some(port) => hostname.concat(":").concat(text::to_decimal(port).as_str()),
                    None => hostname,
                };
                proof {
                    lemma_host_value(uri@.authority->0);
                }
                headers::insert_host(&mut req.headers, host.as_str()).unwrap();
            }
        }
        let running = RetryableSendRequest {
            client: self.clone(),
            future: self.send_request(req, domain.as_str()),
            domain,
            uri,
        };
        FutureResponse { state: FutureState::Running(running) }
    }

    /// Whether `request` can take a request: the `Host` header that it may have
    /// to add can be made.
    pub fn can_request<B>(&self, req: &Request<B>) -> (r: bool)
        ensures
            r == self.can_prepare(req@),
    {
        match req.version {
            Version::Http10 | Version::Http11 => (),
            _ => return true,
        }
        if req.method.is_connect() {
            return true;
        }
        if req.uri.scheme_part().is_none() || req.uri.authority_part().is_none() {
            return true;
        }
        if !self.set_host || headers::contains_host(&req.headers) {
            return true;
        }
        req.uri.has_host() && headers::count_names(&req.headers) < headers::MAX_NAMES
    }

    /// Send a `GET` request to the supplied `Uri`.
    ///
    /// # Note
    ///
    /// This requires that the body type have a `Default` implementation.
    /// It *should* return an "empty" version of itself, such that nothing is
    /// left to be sent of it.
    pub fn get<B: Default, X>(&self, uri: Uri) -> (r: FutureResponse<C, E, B, X>)
        requires
            self.set_host && uri@.scheme is Some ==> (
            uri@.authority matches Some(authority) ==> crate::uri::has_host(authority)),
        ensures
            r.well_formed(),
            exists|body: B|
                {
                    &&& #[trigger] call_ensures(B::default, (), body)
                    &&& self.answers(get_request(uri@, body), r)
                },
            r.state matches FutureState::Running(running) ==> running.uri == uri,
    {
        let body = B::default();
        let mut req = Request::new(body);
        req.uri = uri;
        assert(req@ =~= get_request(uri@, body));
        assert(req@.headers.dom() =~= Set::empty());
        self.request(req)
    }
}

/// A `GET` request for a URI.
pub open spec fn get_request<B>(uri: UriView, body: B) -> RequestView<B> {
    RequestView {
        method: Method::Get,
        uri,
        version: Version::Http11,
        headers: Map::empty(),
        body,
    }
}

} // verus!
