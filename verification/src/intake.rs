//! What a client is for before anything is sent: which requests it takes on, how
//! it starts on them, and how it is configured.

use vstd::prelude::*;

use crate::builder::{Builder, Exec};
use crate::client::Client;
use crate::connect::HttpConnector;
use crate::duration::Duration;
use crate::error::{Cause, Error, IoErrorKind};
use crate::exchange::{Attempt, Dial, Event, Stage, Turn};
use crate::headers;
use crate::pool::{Pool, PoolClient, PoolHandle, PoolKey, PoolTx, Reservation, Sender, Ver};
use crate::request::{Method, Request, Version};
use crate::retry::{FutureResponse, FutureState};
use crate::text;
use crate::uri::Uri;

verus! {

/// A request is refused if, and only if, it asks for another version than
/// HTTP/1.0 or HTTP/1.1, or is a `CONNECT`, or has a URI without a scheme or
/// without an authority; the first of these that holds is the reason.
pub proof fn requests_are_refused_for_a_reason<C, E, B, X>(
    client: Client<C, E>,
    req: Request<B>,
    r: FutureResponse<C, E, B, X>,
)
    requires
        call_ensures(Client::<C, E>::request::<B, X>, (&client, req), r),
    ensures
        ({
            let version = req.version == Version::Http10 || req.version == Version::Http11;
            let connect = req.method is Connect || (req.method matches Method::Extension(name)
                && name@ == "CONNECT"@);
            let absolute = req.uri@.scheme is Some && req.uri@.authority is Some;
            &&& !version ==> r.state == FutureState::<C, E, B, X>::Refused(
                Error::UnsupportedVersion,
            )
            &&& version && connect ==> r.state == FutureState::<C, E, B, X>::Refused(
                Error::UnsupportedRequestMethod,
            )
            &&& version && !connect && !absolute ==> r.state == FutureState::<C, E, B, X>::Refused(
                Error::Io {
                    kind: IoErrorKind::InvalidInput,
                    message: "invalid URI for Client Request",
                },
            )
            &&& version && !connect && absolute ==> r.state is Running
        }),
{
}

/// A request that is taken on is queued as it is, but for a `Host` header that
/// may be added. Its connections are filed under its scheme and authority and
/// the version of the client; both ways to one are open; and a new one leads to
/// its URI.
pub proof fn requests_are_started<C, E, B, X>(
    client: Client<C, E>,
    req: Request<B>,
    r: FutureResponse<C, E, B, X>,
)
    requires
        call_ensures(Client::<C, E>::request::<B, X>, (&client, req), r),
        r.state is Running,
    ensures
        ({
            let running = r.state->Running_0;
            let attempt = running.future;
            &&& running.client == client
            &&& running.domain@ == req.uri@.scheme->0 + "://"@ + req.uri@.authority->0
            &&& running.uri == req.uri
            &&& attempt.key.domain@ == running.domain@
            &&& attempt.key.ver == client.ver
            &&& attempt.dst == req.uri
            &&& attempt.h1_writev == client.h1_writev
            &&& attempt.stage matches Stage::Acquiring {
                req: queued,
                checkout: true,
                dial: Some(Dial::Permit),
                turn: Turn::Parked,
            }
            &&& queued.method == req.method
            &&& queued.uri == req.uri
            &&& queued.version == req.version
            &&& queued.body == req.body
            &&& !client.set_host || headers::header_lines(req.headers).contains_key("host"@)
                ==> queued.headers == req.headers
        }),
{
}

/// Where the client sets the `Host` header and the request has none, one is
/// added, whatever the scheme and the version are, and no other header is
/// touched. It has one value: the host of the URI, followed by its port if it
/// has one. Read as an authority, that names the host and the port of the URI,
/// and no user.
pub proof fn added_hosts_name_the_target<C, E, B, X>(
    client: Client<C, E>,
    req: Request<B>,
    r: FutureResponse<C, E, B, X>,
    value: Seq<char>,
)
    requires
        client.set_host,
        !headers::header_lines(req.headers).contains_key("host"@),
        call_ensures(Client::<C, E>::request::<B, X>, (&client, req), r),
        r.state is Running,
        crate::uri::has_host(req.uri@.authority->0),
        value == crate::uri::host_of(req.uri@.authority->0) + match crate::uri::port_of(
            req.uri@.authority->0,
        ) {
            Some(port) => ":"@ + text::decimal(port as nat),
            None => Seq::empty(),
        },
    ensures
        ({
            let before = headers::header_lines(req.headers);
            let after = headers::header_lines(r.state->Running_0.future.stage->req.headers);
            &&& after.dom() == before.dom().insert("host"@)
            &&& forall|name: Seq<char>|
                name != "host"@ && #[trigger] before.contains_key(name) ==> after[name]
                    == before[name]
            &&& after["host"@] == seq![vstd::utf8::encode_utf8(value)]
        }),
        crate::uri::host_of(value) == crate::uri::host_of(req.uri@.authority->0),
        crate::uri::port_of(value) == crate::uri::port_of(req.uri@.authority->0),
        crate::uri::host_and_port(value) == value,
{
    let authority = req.uri@.authority->0;
    assert(value =~= crate::client::host_value(authority)) by {
        if let Some(port) = crate::uri::port_of(authority) {
            assert(value =~= crate::uri::host_of(authority) + ":"@ + text::decimal(port as nat));
        }
    }
    crate::laws::host_header_names_the_target(authority);
    lemma_no_user(authority, value);
}

/// A host and a port have no user in front of them.
proof fn lemma_no_user(authority: Seq<char>, value: Seq<char>)
    requires
        crate::uri::has_host(authority),
        value == crate::client::host_value(authority),
    ensures
        crate::uri::host_and_port(value) == value,
{
    reveal_strlit(":");
    let rest = crate::uri::host_and_port(authority);
    let host = crate::uri::host_of(authority);
    text::lemma_after_last(authority, '@');
    text::lemma_before_first(rest, ']');
    text::lemma_before_first(rest, ':');
    assert forall|i: int| 0 <= i < host.len() implies host[i] != '@' by {
        if host[i] != ']' {
            assert(rest.contains(rest[i]));
        }
    }
    if let Some(port) = crate::uri::port_of(authority) {
        text::lemma_decimal(port as nat);
        let digits = text::decimal(port as nat);
        assert forall|i: int| 0 <= i < digits.len() implies digits[i] != '@' by {
            assert(text::is_digit(digits[i]));
        }
        assert(value =~= host.push(':') + digits);
    }
    assert(!value.contains('@'));
    assert(Seq::<char>::empty() + value =~= value);
    text::lemma_after_last_of(Seq::empty(), '@', value);
}

/// `request` can be called unless a `Host` header is to be added that cannot be
/// made, and `can_request` tells so.
pub proof fn requests_can_be_taken<C, E, B>(client: Client<C, E>, req: Request<B>, r: bool)
    requires
        call_ensures(Client::<C, E>::can_request::<B>, (&client, &req), r),
    ensures
        ({
            let lines = headers::header_lines(req.headers);
            let version = req.version == Version::Http10 || req.version == Version::Http11;
            let connect = req.method is Connect || (req.method matches Method::Extension(name)
                && name@ == "CONNECT"@);
            let absolute = req.uri@.scheme is Some && req.uri@.authority is Some;
            let adds = client.set_host && !lines.contains_key("host"@);
            &&& r == client.can_prepare(req@)
            &&& r <==> !version || connect || !absolute || !adds || (crate::uri::has_host(
                req.uri@.authority->0,
            ) && lines.dom().len() < 32768)
        }),
{
}

/// Nothing else is asked of a request: one that needs no `Host` header to be
/// added, or whose URI names a host and whose headers have room for it, can be
/// sent. For a `GET` request it is enough that a host can be read where one is
/// needed.
pub proof fn requests_can_be_made<C, E, B: Default, X>(
    client: Client<C, E>,
    req: Request<B>,
    uri: Uri,
)
    ensures
        !client.set_host || headers::header_lines(req.headers).contains_key("host"@)
            || req.uri@.scheme is None || req.uri@.authority is None || (crate::uri::has_host(
            req.uri@.authority->0,
        ) && headers::header_lines(req.headers).dom().len() < 32768) ==> call_requires(
            Client::<C, E>::request::<B, X>,
            (&client, req),
        ),
        !client.set_host || uri@.scheme is None || uri@.authority is None || crate::uri::has_host(
            uri@.authority->0,
        ) ==> call_requires(Client::<C, E>::get::<B, X>, (&client, uri)),
{
}

/// The future response to any request can be polled when the task first runs,
/// and whenever it expects what happened.
pub proof fn answers_can_be_polled<C, E, B, X>(
    client: Client<C, E>,
    req: Request<B>,
    r: FutureResponse<C, E, B, X>,
    future: FutureResponse<C, E, B, X>,
    event: Event<B, X>,
)
    requires
        call_ensures(Client::<C, E>::request::<B, X>, (&client, req), r),
    ensures
        r.well_formed(),
        r.expects(Event::Woken),
        call_requires(FutureResponse::<C, E, B, X>::poll, (r, Event::Woken)),
        future.well_formed() && future.expects(event) ==> call_requires(
            FutureResponse::<C, E, B, X>::poll,
            (future, event),
        ),
{
}

/// `get` asks for a URI with a `GET` request in HTTP/1.1 that has the default
/// body, and no header but the `Host` that the client may add. It is refused
/// only for its URI.
pub proof fn gets_are_get_requests<C, E, B: Default, X>(
    client: Client<C, E>,
    uri: Uri,
    r: FutureResponse<C, E, B, X>,
)
    requires
        call_ensures(Client::<C, E>::get::<B, X>, (&client, uri), r),
    ensures
        uri@.scheme is None || uri@.authority is None ==> r.state == FutureState::<
            C,
            E,
            B,
            X,
        >::Refused(
            Error::Io {
                kind: IoErrorKind::InvalidInput,
                message: "invalid URI for Client Request",
            },
        ),
        uri@.scheme is Some && uri@.authority is Some ==> {
            &&& r.state matches FutureState::Running(running)
            &&& running.client == client
            &&& running.domain@ == uri@.scheme->0 + "://"@ + uri@.authority->0
            &&& running.uri == uri
            &&& running.future.key.domain@ == running.domain@
            &&& running.future.key.ver == client.ver
            &&& running.future.dst == uri
            &&& running.future.h1_writev == client.h1_writev
            &&& running.future.stage matches Stage::Acquiring {
                req: queued,
                checkout: true,
                dial: Some(Dial::Permit),
                turn: Turn::Parked,
            }
            &&& queued.method is Get
            &&& queued.uri == uri
            &&& queued.version == Version::Http11
            &&& call_ensures(B::default, (), queued.body)
            &&& client.set_host ==> headers::header_lines(queued.headers).dom() == Set::empty().insert(
                "host"@,
            )
            &&& !client.set_host ==> headers::header_lines(queued.headers).dom() == Set::<
                Seq<char>,
            >::empty()
        },
{
    if let FutureState::Running(running) = r.state {
        let queued = running.future.stage->req;
        if client.set_host {
            assert(headers::header_lines(queued.headers).dom() =~= Set::empty().insert("host"@));
        } else {
            assert(headers::header_lines(queued.headers).dom() =~= Set::empty());
        }
    }
}

/// `get` and `request` agree: what `get` queues is what `request` would queue of
/// that `GET` request.
pub proof fn gets_are_requests<C, E, B: Default, X>(
    client: Client<C, E>,
    req: Request<B>,
    got: FutureResponse<C, E, B, X>,
    requested: FutureResponse<C, E, B, X>,
)
    requires
        req.method is Get,
        req.version == Version::Http11,
        headers::header_lines(req.headers) == Map::<Seq<char>, Seq<Seq<u8>>>::empty(),
        call_ensures(Client::<C, E>::get::<B, X>, (&client, req.uri), got),
        call_ensures(Client::<C, E>::request::<B, X>, (&client, req), requested),
    ensures
        got.state is Refused ==> requested.state == got.state,
        got.state is Running ==> {
            &&& requested.state is Running
            &&& headers::header_lines(got.state->Running_0.future.stage->req.headers)
                == headers::header_lines(requested.state->Running_0.future.stage->req.headers)
            &&& got.state->Running_0.domain@ == requested.state->Running_0.domain@
        },
{
}

/// An attempt starts with the request as it is given, for the domain that is
/// given, with both ways to a connection open.
pub proof fn attempts_are_started<C, E, B>(
    client: Client<C, E>,
    req: Request<B>,
    domain: &str,
    r: Attempt<B>,
)
    requires
        call_ensures(Client::<C, E>::send_request::<B>, (&client, req, domain), r),
    ensures
        r.key.domain@ == domain@,
        r.key.ver == client.ver,
        r.dst == req.uri,
        r.h1_writev == client.h1_writev,
        r.stage == (Stage::Acquiring {
            req,
            checkout: true,
            dial: Some(Dial::Permit),
            turn: Turn::Parked,
        }),
{
}

/// A new request is a `GET` for `/` in HTTP/1.1 without headers, with the body
/// that it is given.
pub proof fn new_requests_are_plain<B>(body: B, r: Request<B>)
    requires
        call_ensures(Request::<B>::new, (body,), r),
    ensures
        r.method is Get,
        r.uri@.scheme is None,
        r.uri@.authority is None,
        r.uri@.path_and_query == Some("/"@),
        r.version == Version::Http11,
        headers::header_lines(r.headers) == Map::<Seq<char>, Seq<Seq<u8>>>::empty(),
        r.body == body,
{
}

/// Each setting of a builder is what it was last set to, and setting one leaves
/// the others alone.
pub proof fn settings_are_set<E>(
    builder: &mut Builder<E>,
    val: bool,
    timeout: Option<Duration>,
    executor: E,
    r: &mut Builder<E>,
)
    ensures
        call_ensures(Builder::<E>::keep_alive, (builder, val), r) ==> *old(r) == (Builder {
            keep_alive: val,
            ..*old(builder)
        }) && *final(builder) == *final(r),
        call_ensures(Builder::<E>::keep_alive_timeout, (builder, timeout), r) ==> *old(r) == (
        Builder { keep_alive_timeout: timeout, ..*old(builder) }) && *final(builder) == *final(r),
        call_ensures(Builder::<E>::http1_writev, (builder, val), r) ==> *old(r) == (Builder {
            h1_writev: val,
            ..*old(builder)
        }) && *final(builder) == *final(r),
        call_ensures(Builder::<E>::http2_only, (builder, val), r) ==> {
            &&& (*old(r)).ver == Ver::Http2 <==> val
            &&& *old(r) == (Builder { ver: (*old(r)).ver, ..*old(builder) })
            &&& *final(builder) == *final(r)
        },
        call_ensures(Builder::<E>::retry_canceled_requests, (builder, val), r) ==> *old(r) == (
        Builder { retry_canceled_requests: val, ..*old(builder) }) && *final(builder) == *final(r),
        call_ensures(Builder::<E>::set_host, (builder, val), r) ==> *old(r) == (Builder {
            set_host: val,
            ..*old(builder)
        }) && *final(builder) == *final(r),
        call_ensures(Builder::<E>::executor, (builder, executor), r) ==> {
            &&& (*old(r)).executor matches Exec::Executor(given)
            &&& *given == executor
            &&& *old(r) == (Builder { executor: (*old(r)).executor, ..*old(builder) })
            &&& *final(builder) == *final(r)
        },
{
}

/// A client has the settings of the builder that built it, the connector that it
/// was built with, and a pool with the settings for keeping connections alive.
/// Building leaves the settings alone.
pub proof fn clients_have_their_settings<C, E>(
    builder: &mut Builder<E>,
    connector: C,
    r: Client<C, E>,
)
    requires
        call_ensures(Builder::<E>::build::<C>, (builder, connector), r),
    ensures
        *r.connector == connector,
        r.executor == (*old(builder)).executor,
        r.h1_writev == (*old(builder)).h1_writev,
        r.pool.enabled == (*old(builder)).keep_alive,
        r.pool.timeout == (*old(builder)).keep_alive_timeout,
        r.retry_canceled_requests == (*old(builder)).retry_canceled_requests,
        r.set_host == (*old(builder)).set_host,
        r.ver == (*old(builder)).ver,
        *final(builder) == (Builder { next_pool: (*final(builder)).next_pool, ..*old(builder) }),
{
}

/// Two clients that one builder builds, one after the other, have separate
/// pools.
pub proof fn later_clients_have_other_pools<C, D, E>(
    builder: &mut Builder<E>,
    connector: C,
    first: Client<C, E>,
    later: &mut Builder<E>,
    other: D,
    second: Client<D, E>,
)
    requires
        call_ensures(Builder::<E>::build::<C>, (builder, connector), first),
        (*later).next_pool == (*final(builder)).next_pool,
        call_ensures(Builder::<E>::build::<D>, (later, other), second),
    ensures
        first.pool.number() < second.pool.number(),
{
}

/// The default connector of a client looks up names on four threads, and probes
/// idle sockets after the time for which connections are kept alive, if they are
/// kept at all. Apart from that the client is built like any other.
pub proof fn default_connectors_keep_alive<E>(
    builder: &mut Builder<E>,
    r: Client<HttpConnector, E>,
)
    requires
        call_ensures(Builder::<E>::build_http, (builder,), r),
    ensures
        (*r.connector).threads == 4,
        (*old(builder)).keep_alive ==> (*r.connector).keepalive == (*old(builder)).keep_alive_timeout,
        !(*old(builder)).keep_alive ==> (*r.connector).keepalive is None,
        r.executor == (*old(builder)).executor,
        r.h1_writev == (*old(builder)).h1_writev,
        r.pool.enabled == (*old(builder)).keep_alive,
        r.pool.timeout == (*old(builder)).keep_alive_timeout,
        r.pool.number() < (*final(builder)).next_pool.number@,
        r.retry_canceled_requests == (*old(builder)).retry_canceled_requests,
        r.set_host == (*old(builder)).set_host,
        r.ver == (*old(builder)).ver,
        *final(builder) == (Builder { next_pool: (*final(builder)).next_pool, ..*old(builder) }),
{
}

/// Unless told otherwise, connections are kept alive for 90 seconds, vectored
/// writes are used, HTTP/2 is not asked for, requests are tried again, and the
/// `Host` header is set.
pub proof fn defaults_are_as_documented<E>(
    builder: Builder<E>,
    configured: Builder<E>,
    client: Client<HttpConnector, E>,
    default: Client<HttpConnector, E>,
)
    requires
        call_ensures(Builder::<E>::default, (), builder),
        call_ensures(Client::<(), E>::builder, (), configured),
        call_ensures(Client::<HttpConnector, E>::new, (), client),
        call_ensures(Client::<HttpConnector, E>::default, (), default),
    ensures
        configured == builder,
        default == client,
        builder.executor is Default,
        builder.keep_alive,
        builder.keep_alive_timeout == Some(Duration { secs: 90, nanos: 0 }),
        builder.h1_writev,
        builder.max_idle == 5,
        builder.retry_canceled_requests,
        builder.set_host,
        builder.ver == Ver::Http1,
        (*client.connector).threads == 4,
        (*client.connector).keepalive == builder.keep_alive_timeout,
        client.executor is Default,
        client.pool.enabled,
        client.pool.timeout == builder.keep_alive_timeout,
        client.h1_writev && client.retry_canceled_requests && client.set_host,
        client.ver == Ver::Http1,
{
}

/// A clone of a builder has the same settings.
pub proof fn builders_clone<E>(builder: Builder<E>, copy: Builder<E>)
    requires
        call_ensures(Builder::<E>::clone, (&builder,), copy),
    ensures
        copy == builder,
{
}

/// An HTTP/1 connection is reserved for one request alone; of an HTTP/2
/// connection another handle is made for others. Every handle says of the
/// connection whether it is proxied, as before.
pub proof fn only_http2_is_shared<S, T: Clone>(
    client: PoolClient<S, T>,
    r: Reservation<PoolClient<S, T>>,
)
    requires
        call_ensures(PoolClient::<S, T>::reserve, (client,), r),
    ensures
        r is Unique <==> client.tx is Http1,
        r matches Reservation::Unique(only) ==> only == client,
        r matches Reservation::Shared(first, second) ==> {
            &&& first == client
            &&& second.is_proxied == client.is_proxied
            &&& second.tx is Http2
            &&& call_ensures(T::clone, (&client.tx->Http2_0,), second.tx->Http2_0)
        },
{
}

/// A connection is ready, and is closed, when its sender says so.
pub proof fn connections_ask_their_senders<S: Sender, T: Sender>(
    client: PoolClient<S, T>,
    r: bool,
)
    ensures
        call_ensures(PoolClient::<S, T>::is_ready, (&client,), r) ==> match client.tx {
            PoolTx::Http1(tx) => call_ensures(S::is_ready, (&tx,), r),
            PoolTx::Http2(tx) => call_ensures(T::is_ready, (&tx,), r),
        },
        call_ensures(PoolClient::<S, T>::is_closed, (&client,), r) ==> match client.tx {
            PoolTx::Http1(tx) => call_ensures(S::is_closed, (&tx,), r),
            PoolTx::Http2(tx) => call_ensures(T::is_closed, (&tx,), r),
        },
{
}

/// An HTTP/1 connection is polled through its sender, which is changed in place;
/// an HTTP/2 connection has no sender to poll and stays as it is.
pub proof fn only_http1_is_polled<S, T>(client: &mut PoolClient<S, T>, r: Option<&mut S>)
    requires
        call_ensures(PoolClient::<S, T>::poll_ready, (client,), r),
    ensures
        r is Some <==> (*old(client)).tx is Http1,
        r is Some ==> (*old(client)).tx == PoolTx::<S, T>::Http1(*r->0) && *final(client) == (
        PoolClient { tx: PoolTx::<S, T>::Http1(*final(r->0)), ..*old(client) }),
        r is None ==> *final(client) == *old(client),
{
}

/// A request goes to the sender of the connection, which is changed in place.
pub proof fn requests_go_to_the_sender<S, T>(
    client: &mut PoolClient<S, T>,
    r: PoolTx<&mut S, &mut T>,
)
    requires
        call_ensures(PoolClient::<S, T>::send_request_retryable, (client,), r),
    ensures
        (*final(client)).is_proxied == (*old(client)).is_proxied,
        r is Http1 <==> (*old(client)).tx is Http1,
        r is Http1 ==> (*old(client)).tx == PoolTx::<S, T>::Http1(*r->Http1_0) && (*final(client)).tx == PoolTx::<S, T>::Http1(*final(r->Http1_0)),
        r is Http2 ==> (*old(client)).tx == PoolTx::<S, T>::Http2(*r->Http2_0) && (*final(client)).tx == PoolTx::<S, T>::Http2(*final(r->Http2_0)),
{
}

/// Each error is of its kind, and tells what it was made of. Only one that is
/// made as a cancellation counts as one.
pub proof fn errors_are_of_their_kind<X>(
    kind: IoErrorKind,
    message: &'static str,
    because: Option<&'static str>,
    cause: X,
    r: Error<X>,
    canceled: bool,
)
    ensures
        call_ensures(Error::<X>::new_user_unsupported_version, (), r) ==> r
            == Error::<X>::UnsupportedVersion,
        call_ensures(Error::<X>::new_user_unsupported_request_method, (), r) ==> r
            == Error::<X>::UnsupportedRequestMethod,
        call_ensures(Error::<X>::new_io, (kind, message), r) ==> r == (Error::<X>::Io {
            kind,
            message,
        }),
        call_ensures(Error::<X>::new_connect, (cause,), r) ==> r == Error::<X>::Connect(cause),
        call_ensures(Error::<X>::new_canceled, (because,), r) ==> r == Error::<X>::Canceled(
            match because {
                Some(message) => Cause::Message(message),
                None => Cause::Unknown,
            },
        ),
        call_ensures(Error::<X>::is_canceled, (&r,), canceled) ==> (canceled <==> r is Canceled),
{
}

/// Of all methods only `CONNECT` counts as `CONNECT`, whether it is given as such
/// or by its name.
pub proof fn connect_is_told_by_its_name(method: Method, r: bool)
    requires
        call_ensures(Method::is_connect, (&method,), r),
    ensures
        method is Connect ==> r,
        method matches Method::Extension(name) ==> (r <==> name@ == "CONNECT"@),
        !(method is Connect) && !(method is Extension) ==> !r,
{
}

/// A pool has the settings that it is made with, and a clone of it is the same
/// pool. Handles that follow one another have numbers that do.
pub proof fn pools_are_told_apart(
    enabled: bool,
    timeout: Option<Duration>,
    handle: PoolHandle,
    pool: Pool,
    copy: Pool,
    other: PoolHandle,
)
    ensures
        call_ensures(Pool::new, (enabled, timeout, handle), pool) ==> pool.enabled == enabled
            && pool.timeout == timeout && pool.number() == handle.number@,
        call_ensures(Pool::clone, (&pool,), copy) ==> copy == pool && copy.number()
            == pool.number(),
        call_ensures(PoolHandle::next, (&handle,), other) ==> other.number@ == handle.number@ + 1,
        call_ensures(PoolHandle::first, (), other) ==> other.number@ == 0,
        call_ensures(PoolHandle::clone, (&handle,), other) ==> other.number@ == handle.number@,
{
}

/// A connector has as many threads as it is made with, and probes sockets after
/// the time that it was last told, none before it was told one. So many seconds
/// are so many seconds.
pub proof fn connectors_have_their_settings(
    threads: usize,
    connector: &mut HttpConnector,
    keepalive: Option<Duration>,
    made: HttpConnector,
    secs: u64,
    span: Duration,
)
    ensures
        call_ensures(HttpConnector::new, (threads,), made) ==> made.threads == threads
            && made.keepalive is None,
        call_ensures(HttpConnector::set_keepalive, (connector, keepalive), ()) ==> (*final(
            connector)).threads == (*old(connector)).threads && (*final(connector)).keepalive
            == keepalive,
        call_ensures(Duration::from_secs, (secs,), span) ==> span.secs == secs && span.nanos == 0,
{
}

/// Clones of keys and executors are the same keys and executors.
pub proof fn keys_and_executors_clone<E>(
    key: PoolKey,
    other_key: PoolKey,
    executor: Exec<E>,
    other_executor: Exec<E>,
)
    ensures
        call_ensures(PoolKey::clone, (&key,), other_key) ==> other_key == key,
        call_ensures(Exec::<E>::clone, (&executor,), other_executor) ==> other_executor
            == executor,
{
}

} // verus!
