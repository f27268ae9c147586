//! What holds of the client as a whole.

use vstd::prelude::*;

use crate::builder::Builder;
use crate::client::Client;
use crate::error::Error;
use crate::exchange::{Action, Attempt, ClientError, Dial, Event, Stage, Turn};
use crate::pool::Ver;
use crate::request::{Request, RequestView};
use crate::retry::{FutureResponse, FutureState, RetryableSendRequest};
use crate::text;
use crate::uri::UriView;

verus! {

/// Connections are shared between requests only if they lead to the same scheme
/// and authority: no two of these pairs are filed under the same domain.
pub proof fn domains_tell_origins_apart(a: UriView, b: UriView)
    requires
        a.separable(),
        b.separable(),
        a.scheme is Some,
        a.authority is Some,
        b.scheme is Some,
        b.authority is Some,
        crate::client::domain_of(a) == crate::client::domain_of(b),
    ensures
        a.scheme == b.scheme,
        a.authority == b.authority,
{
    reveal_strlit("://");
    let (s, t) = (a.scheme->0, b.scheme->0);
    let (x, y) = (a.authority->0, b.authority->0);
    let domain = crate::client::domain_of(a);
    assert(domain[s.len() as int] == ':');
    assert(crate::client::domain_of(b)[t.len() as int] == ':');
    if s.len() < t.len() {
        assert(t[s.len() as int] == domain[s.len() as int]);
        assert(!crate::uri::is_scheme_char(':'));
    }
    if t.len() < s.len() {
        assert(s[t.len() as int] == domain[t.len() as int]);
        assert(!crate::uri::is_scheme_char(':'));
    }
    assert(s =~= domain.take(s.len() as int));
    assert(t =~= domain.take(t.len() as int));
    assert(x =~= domain.skip(s.len() as int + 3));
    assert(y =~= domain.skip(t.len() as int + 3));
}

/// A request that has a `Host` header is sent with the headers that it has.
pub proof fn host_header_is_kept<C, E, B>(client: Client<C, E>, req: RequestView<B>)
    requires
        req.headers.contains_key("host"@),
    ensures
        client.prepared(req) == req,
{
}

/// Where the client is told not to set the `Host` header, a request is sent with
/// the headers that it has.
pub proof fn host_header_is_not_set_unasked<C, E, B>(client: Client<C, E>, req: RequestView<B>)
    requires
        !client.set_host,
    ensures
        client.prepared(req) == req,
{
}

/// Otherwise a request is sent with a `Host` header, and nothing else about it
/// is changed.
pub proof fn host_header_is_set<C, E, B>(client: Client<C, E>, req: RequestView<B>)
    requires
        client.set_host,
    ensures
        client.prepared(req).headers.contains_key("host"@),
        client.prepared(req).headers.remove("host"@) == req.headers.remove("host"@),
        client.prepared(req) == (RequestView { headers: client.prepared(req).headers, ..req }),
{
    assert(client.prepared(req).headers.remove("host"@) =~= req.headers.remove("host"@));
}

/// Preparing a request again changes nothing, so a request that is given back
/// can be sent again as it is.
pub proof fn preparing_twice_is_preparing_once<C, E, B>(client: Client<C, E>, req: RequestView<B>)
    ensures
        client.prepared(client.prepared(req)) == client.prepared(req),
{
}

/// The `Host` header names the host and the port that the URI names.
pub proof fn host_header_names_the_target(authority: Seq<char>)
    requires
        crate::uri::has_host(authority),
    ensures
        crate::uri::host_of(crate::client::host_value(authority)) == crate::uri::host_of(authority),
        crate::uri::port_of(crate::client::host_value(authority)) == crate::uri::port_of(authority),
{
    reveal_strlit(":");
    let rest = crate::uri::host_and_port(authority);
    let host = crate::uri::host_of(authority);
    let port = crate::uri::port_of(authority);
    let value = crate::client::host_value(authority);
    let tail = match port {
        Some(port) => seq![':'] + text::decimal(port as nat),
        None => Seq::empty(),
    };
    assert(value =~= host + tail);
    text::lemma_after_last(authority, '@');
    text::lemma_before_first(rest, ']');
    text::lemma_before_first(rest, ':');
    if let Some(port) = port {
        text::decimal_reads_back(port);
        text::lemma_decimal(port as nat);
        let digits = text::decimal(port as nat);
        assert forall|i: int| 0 <= i < digits.len() implies digits[i] != ':' && digits[i] != '@' by {
            assert(text::is_digit(digits[i]));
        }
        assert(value =~= host.push(':') + digits);
        text::lemma_after_last_of(host.push(':'), ':', digits);
        assert(value[host.len() as int] == ':');
        assert(value.contains(':'));
    }
    assert(!value.contains('@')) by {
        assert forall|i: int| 0 <= i < host.len() implies host[i] != '@' by {
            if host[i] != ']' {
                assert(rest.contains(rest[i]));
            }
        }
    }
    assert(Seq::<char>::empty() + value =~= value);
    text::lemma_after_last_of(Seq::empty(), '@', value);
    if rest.len() > 0 && rest[0] == '[' {
        let inside = text::before_first(rest, ']');
        assert(value =~= inside + (seq![']'] + tail));
        text::lemma_before_first_of(inside, ']', seq![']'] + tail);
        assert(inside.len() > 0);
        assert(value[0] == '[');
        if port is None {
            assert(value =~= host);
            lemma_ends_in_bracket(host);
        }
    } else {
        text::lemma_before_first_of(host, ':', tail);
        assert(value.len() > 0 ==> value[0] != '[');
        if port is None {
            assert(value =~= host);
        }
    }
}

/// There is no port after a closing bracket.
proof fn lemma_ends_in_bracket(host: Seq<char>)
    requires
        host.len() > 0,
        host.last() == ']',
    ensures
        crate::uri::port_of(host) is None,
{
    let port = text::after_last(host, ':');
    assert(port.last() == ']');
    let digits = if port[0] == '+' {
        port.skip(1)
    } else {
        port
    };
    assert(digits.last() == ']');
    assert(!text::is_digit(digits[digits.len() - 1]));
}

/// Making a target relative again changes nothing.
pub proof fn relative_twice_is_relative_once(uri: UriView, is_proxied: bool)
    ensures
        crate::uri::relative_uri(crate::uri::relative_uri(uri, is_proxied), is_proxied)
            == crate::uri::relative_uri(uri, is_proxied),
{
}

/// A server that is reached directly, or through a tunnel, is told a path and
/// never an authority.
pub proof fn servers_are_told_a_path(uri: UriView, is_proxied: bool)
    requires
        !is_proxied || uri.scheme == Some("https"@),
    ensures
        crate::uri::relative_uri(uri, is_proxied).scheme is None,
        crate::uri::relative_uri(uri, is_proxied).authority is None,
        crate::uri::relative_uri(uri, is_proxied).path_and_query is Some,
{
}

/// A proxy that passes a request on is told all of its URI.
pub proof fn proxies_are_told_everything(uri: UriView)
    requires
        uri.scheme != Some("https"@),
    ensures
        crate::uri::relative_uri(uri, true) == uri,
{
}

/// The target of a request has the path and the query of its URI, and it is a
/// URI itself.
pub proof fn targets_keep_the_path(uri: UriView, is_proxied: bool)
    requires
        uri.complete(),
        uri.separable(),
    ensures
        uri.target() is Some ==> crate::uri::relative_uri(uri, is_proxied).target()
            == uri.target(),
        crate::uri::relative_uri(uri, is_proxied).complete(),
        crate::uri::relative_uri(uri, is_proxied).separable(),
{
    crate::uri::lemma_slash_is_path();
}

/// A request is tried again only if the client is told to do so, and only if
/// it was given back by a connection that had been used before: that a fresh
/// connection gives a request back is final.
pub proof fn retries_are_called_for<C, E, B, X>(
    running: RetryableSendRequest<C, E, B>,
    event: Event<B, X>,
    next: RetryableSendRequest<C, E, B>,
    action: Action<B, Error<X>>,
)
    requires
        running.polls_to(event, next, action),
        action is Checkout,
    ensures
        running.client.retry_canceled_requests,
        running.future.stage matches Stage::Sending { reused: true, .. },
        event matches Event::SendFailed { req: Some(_), .. },
{
}

/// Where it is called for, a request that is given back is tried again, with
/// the URI that it had at first, on connections for the same domain, and
/// otherwise as it was given back.
pub proof fn given_back_is_tried_again<C, E, B, X>(
    running: RetryableSendRequest<C, E, B>,
    req: Request<B>,
    reason: Error<X>,
    next: RetryableSendRequest<C, E, B>,
    action: Action<B, Error<X>>,
)
    requires
        running.polls_to(Event::SendFailed { reason, req: Some(req) }, next, action),
        running.client.retry_canceled_requests,
        running.future.stage matches Stage::Sending { reused: true, .. },
    ensures
        action == Action::<B, Error<X>>::Checkout(next.future.key),
        next.future.key.domain@ == running.domain@,
        next.future.key.ver == running.client.ver,
        next.future.dst == running.uri,
        next.future.stage == (Stage::Acquiring {
            req: Request { uri: running.uri, ..req },
            checkout: true,
            dial: Some(Dial::Permit),
            turn: Turn::Parked,
        }),
{
}

/// Where it is not called for, the request fails for the reason for which it
/// was given back.
pub proof fn given_back_for_good<C, E, B, X>(
    running: RetryableSendRequest<C, E, B>,
    req: Option<Request<B>>,
    reason: Error<X>,
    next: RetryableSendRequest<C, E, B>,
    action: Action<B, Error<X>>,
)
    requires
        running.polls_to(Event::SendFailed { reason, req }, next, action),
        req is None || !running.client.retry_canceled_requests || running.future.stage
            == (Stage::<B>::Sending { reused: false, parked: false }),
    ensures
        action == Action::<B, Error<X>>::Fail(reason),
{
}

/// While one way to a connection is open, that the other is given up does not
/// fail the request.
pub proof fn cancellation_waits_for_the_other<B, X>(
    attempt: Attempt<B>,
    event: Event<B, X>,
    next: Attempt<B>,
    action: Action<B, ClientError<B, X>>,
)
    requires
        attempt.well_formed(),
        attempt.expects(event),
        attempt.steps_to(event, next, action),
        attempt.stage matches Stage::Acquiring { checkout: true, dial: Some(_), .. },
        action is Fail,
    ensures
        action matches Action::Fail(ClientError::Normal(error)) && !(error is Canceled),
{
}

/// How much there is to do before the task can sleep.
pub open spec fn work_left<B>(attempt: Attempt<B>) -> nat {
    match attempt.stage {
        Stage::Acquiring { req, checkout, dial, turn } => match turn {
            Turn::Parked => 0,
            Turn::Checkout => if dial is Some {
                8
            } else {
                2
            },
            Turn::Dial => match dial {
                Some(Dial::Permit) => 7,
                Some(Dial::Connect) => 6,
                Some(Dial::Handshake { .. }) => 5,
                Some(Dial::Ready { .. }) => 4,
                _ => 3,
            },
        },
        Stage::Sending { reused, parked } => if parked {
            0
        } else {
            1
        },
        Stage::Finished => 0,
    }
}

/// A task that was woken comes to rest: every answer leaves less to do, up to
/// the point where the task sleeps or the attempt is over.
pub proof fn attempts_come_to_rest<B, X>(
    attempt: Attempt<B>,
    event: Event<B, X>,
    next: Attempt<B>,
    action: Action<B, ClientError<B, X>>,
)
    requires
        attempt.well_formed(),
        attempt.expects(event),
        attempt.steps_to(event, next, action),
    ensures
        !(event is Woken) ==> work_left(next) < work_left(attempt),
        work_left(next) <= 8,
        work_left(next) == 0 <==> action is Park || action is Finish || action is Fail,
{
}

/// When the response is handed over, or the request has failed, it is over.
pub proof fn over_is_over<C, E, B, X>(
    future: FutureResponse<C, E, B, X>,
    event: Event<B, X>,
    next: FutureResponse<C, E, B, X>,
    action: Action<B, Error<X>>,
    later: Event<B, X>,
)
    requires
        future.well_formed(),
        future.expects(event),
        future.polls_to(event, next, action),
        action is Finish || action is Fail,
    ensures
        !next.expects(later),
{
}

/// The course of a future response: the state that it was in before each event
/// and after the last, what happened, and what was to be done then.
pub struct Course<C, E, B, X> {
    pub states: Seq<FutureResponse<C, E, B, X>>,
    pub events: Seq<Event<B, X>>,
    pub actions: Seq<Action<B, Error<X>>>,
}

impl<C, E, B, X> Course<C, E, B, X> {
    /// Whether the `i`th event led from one state to the next.
    pub open spec fn step(self, i: int) -> bool {
        &&& self.states[i].well_formed()
        &&& self.states[i].expects(self.events[i])
        &&& self.states[i].polls_to(self.events[i], self.states[i + 1], self.actions[i])
    }

    /// Whether every event led from one state to the next.
    pub open spec fn valid(self) -> bool {
        &&& self.states.len() == self.events.len() + 1
        &&& self.actions.len() == self.events.len()
        &&& forall|i: int| 0 <= i < self.events.len() ==> #[trigger] self.step(i)
    }

    /// Whether connections give requests back the way that they got them, but
    /// for the target.
    pub open spec fn gives_back(self, req: RequestView<B>) -> bool {
        forall|i: int|
            0 <= i < self.events.len() ==> (#[trigger] self.events[i] matches Event::SendFailed {
                req: Some(given),
                ..
            } ==> (RequestView { uri: req.uri, ..given@ }) == req)
    }
}

/// Whether a state belongs to a request that a client has taken on.
pub open spec fn belongs_to<C, E, B, X>(
    future: FutureResponse<C, E, B, X>,
    client: Client<C, E>,
    req: RequestView<B>,
) -> bool {
    &&& future.state matches FutureState::Running(running)
    &&& running.client == client
    &&& running.domain@ == crate::client::domain_of(req.uri)
    &&& running.uri@ == req.uri
    &&& running.future.key.domain@ == crate::client::domain_of(req.uri)
    &&& running.future.key.ver == client.ver
    &&& running.future.dst@ == req.uri
    &&& running.future.h1_writev == client.h1_writev
    &&& running.future.stage matches Stage::Acquiring { req: sent, .. } ==> sent@
        == client.prepared(req)
}

/// Whether an action is one for a request that a client has taken on: it is
/// sent as the client prepared it, to the target that its URI names, and on
/// connections that lead there and speak the version of the client.
pub open spec fn is_for<C, E, B, X>(
    action: Action<B, Error<X>>,
    client: Client<C, E>,
    req: RequestView<B>,
) -> bool {
    match action {
        Action::Send(sent) => exists|is_proxied: bool|
            sent@ == #[trigger] crate::exchange::sent_request(
                client.prepared(req),
                client.ver,
                is_proxied,
            ),
        Action::Checkout(key) => {
            &&& key.domain@ == crate::client::domain_of(req.uri)
            &&& key.ver == client.ver
        },
        Action::AskPermit(key) => {
            &&& key.domain@ == crate::client::domain_of(req.uri)
            &&& key.ver == client.ver
        },
        Action::Connect(dst) => dst.uri@ == req.uri,
        Action::Handshake { h1_writev, http2_only } => {
            &&& h1_writev == client.h1_writev
            &&& http2_only == (client.ver == Ver::Http2)
        },
        Action::Insert { is_proxied, ver } => ver == client.ver,
        _ => true,
    }
}

/// Whatever happens, and however often it is tried again, everything that is
/// done for a request is done for that request.
pub proof fn every_action_is_for_the_request<C, E, B, X>(
    client: Client<C, E>,
    req: RequestView<B>,
    course: Course<C, E, B, X>,
    n: int,
)
    requires
        course.valid(),
        course.gives_back(client.prepared(req)),
        client.answers(req, course.states[0]),
        crate::client::rejection::<B, X>(req) is None,
        0 <= n < course.actions.len(),
    ensures
        is_for(course.actions[n], client, req),
{
    lemma_belongs_to(client, req, course, n);
    assert(course.step(n));
    lemma_stays(client, req, course, n);
}

proof fn lemma_belongs_to<C, E, B, X>(
    client: Client<C, E>,
    req: RequestView<B>,
    course: Course<C, E, B, X>,
    n: int,
)
    requires
        course.valid(),
        course.gives_back(client.prepared(req)),
        client.answers(req, course.states[0]),
        crate::client::rejection::<B, X>(req) is None,
        0 <= n < course.states.len(),
    ensures
        belongs_to(course.states[n], client, req),
    decreases n,
{
    if n > 0 {
        lemma_belongs_to(client, req, course, n - 1);
        lemma_stays(client, req, course, n - 1);
    }
}

/// One step keeps to the request.
proof fn lemma_stays<C, E, B, X>(
    client: Client<C, E>,
    req: RequestView<B>,
    course: Course<C, E, B, X>,
    n: int,
)
    requires
        course.valid(),
        course.gives_back(client.prepared(req)),
        0 <= n < course.events.len(),
        belongs_to(course.states[n], client, req),
    ensures
        belongs_to(course.states[n + 1], client, req),
        is_for(course.actions[n], client, req),
{
    assert(course.step(n));
    let event = course.events[n];
    let running = course.states[n].state->Running_0;
    let next = course.states[n + 1].state->Running_0;
    let (attempt, step) = choose|attempt: Attempt<B>, step: Action<B, ClientError<B, X>>|
        {
            &&& #[trigger] running.future.steps_to(event, attempt, step)
            &&& running.settles_to(attempt, step, next, course.actions[n])
        };
    if let Event::SendFailed { reason, req: Some(given) } = event {
        assert((RequestView { uri: client.prepared(req).uri, ..given@ }) == client.prepared(req));
    }
}

/// A client and its clone share the connector, the executor and the pool, and
/// have the same settings.
pub proof fn clones_share<C, E>(client: Client<C, E>, copy: Client<C, E>)
    requires
        call_ensures(Client::<C, E>::clone, (&client,), copy),
    ensures
        copy.connector == client.connector,
        copy.executor == client.executor,
        copy.pool == client.pool,
        copy.pool.number() == client.pool.number(),
        copy.h1_writev == client.h1_writev,
        copy.retry_canceled_requests == client.retry_canceled_requests,
        copy.set_host == client.set_host,
        copy.ver == client.ver,
{
}

/// Two clients that a builder builds one after the other have the same settings,
/// and each has a pool of its own.
pub proof fn builds_have_separate_pools<E, C, D>(builder: Builder<E>, first: C, second: D)
    ensures
        builder.client(first).pool.number() != builder.built().client(second).pool.number(),
        builder.client(first).pool.enabled == builder.built().client(second).pool.enabled,
        builder.client(first).pool.timeout == builder.built().client(second).pool.timeout,
        builder.client(first).executor == builder.built().client(second).executor,
        builder.client(first).h1_writev == builder.built().client(second).h1_writev,
        builder.client(first).retry_canceled_requests == builder.built().client(
            second,
        ).retry_canceled_requests,
        builder.client(first).set_host == builder.built().client(second).set_host,
        builder.client(first).ver == builder.built().client(second).ver,
{
}

/// The states that a builder has been in: in each step it has built a client, or
/// its configuration was changed.
pub open spec fn is_history<E>(history: Seq<Builder<E>>) -> bool {
    forall|i: int, j: int|
        0 <= i < j < history.len() && j == i + 1 ==> (#[trigger] history[j]).next_pool == (
        #[trigger] history[i]).next_pool || history[j] == history[i].built()
}

/// However often a builder has built, and whatever was changed in between, no
/// two of its clients have the same pool.
pub proof fn all_builds_have_separate_pools<E, C, D>(
    history: Seq<Builder<E>>,
    i: int,
    j: int,
    first: C,
    second: D,
)
    requires
        is_history(history),
        0 <= i < i + 1 <= j < history.len(),
        history[i + 1] == history[i].built(),
    ensures
        history[i].client(first).pool.number() != history[j].client(second).pool.number(),
{
    lemma_numbers_grow(history, i + 1, j);
}

proof fn lemma_numbers_grow<E>(history: Seq<Builder<E>>, i: int, j: int)
    requires
        is_history(history),
        0 <= i <= j < history.len(),
    ensures
        history[i].next_pool.number@ <= history[j].next_pool.number@,
    decreases j - i,
{
    if i < j {
        lemma_numbers_grow(history, i, j - 1);
        assert(history[j].next_pool == history[j - 1].next_pool || history[j] == history[j
            - 1].built());
    }
}

/// Where a request looks for connections and leaves them: a pool, and what they
/// are filed under there. A connection that one request left is given to another
/// only if both have the same place.
#[verifier::ext_equal]
pub struct Place {
    pub pool: nat,
    pub domain: Seq<char>,
    pub ver: Ver,
}

/// The place of a request that is under way.
pub open spec fn place_of<C, E, B, X>(future: FutureResponse<C, E, B, X>) -> Option<Place> {
    match future.state {
        FutureState::Running(running) => Some(
            Place {
                pool: running.client.pool.number(),
                domain: running.future.key.domain@,
                ver: running.future.key.ver,
            },
        ),
        _ => None,
    }
}

/// A request keeps its place, however often it is tried again: the pool of its
/// client, and there the domain of its URI and the version of the client.
pub proof fn requests_keep_their_place<C, E, B, X>(
    client: Client<C, E>,
    req: RequestView<B>,
    course: Course<C, E, B, X>,
    n: int,
)
    requires
        course.valid(),
        client.answers(req, course.states[0]),
        crate::client::rejection::<B, X>(req) is None,
        0 <= n < course.states.len(),
    ensures
        place_of(course.states[n]) == Some(
            Place {
                pool: client.pool.number(),
                domain: crate::client::domain_of(req.uri),
                ver: client.ver,
            },
        ),
{
    lemma_keeps_client(client, req, course, n);
}

proof fn lemma_keeps_client<C, E, B, X>(
    client: Client<C, E>,
    req: RequestView<B>,
    course: Course<C, E, B, X>,
    n: int,
)
    requires
        course.valid(),
        client.answers(req, course.states[0]),
        crate::client::rejection::<B, X>(req) is None,
        0 <= n < course.states.len(),
    ensures
        course.states[n].state matches FutureState::Running(running) && {
            &&& running.client == client
            &&& running.domain@ == crate::client::domain_of(req.uri)
            &&& running.future.key.domain@ == crate::client::domain_of(req.uri)
            &&& running.future.key.ver == client.ver
        },
    decreases n,
{
    if n > 0 {
        lemma_keeps_client(client, req, course, n - 1);
        assert(course.step(n - 1));
    }
}

/// Clients with pools of their own, such as those of separate builds, never use
/// each other's connections: their requests are never in the same place.
pub proof fn separate_clients_stay_apart<C, D, E, F, A, B, X, Y>(
    client: Client<C, E>,
    req: RequestView<A>,
    course: Course<C, E, A, X>,
    n: int,
    other: Client<D, F>,
    other_req: RequestView<B>,
    other_course: Course<D, F, B, Y>,
    m: int,
)
    requires
        client.pool.number() != other.pool.number(),
        course.valid(),
        client.answers(req, course.states[0]),
        crate::client::rejection::<A, X>(req) is None,
        0 <= n < course.states.len(),
        other_course.valid(),
        other.answers(other_req, other_course.states[0]),
        crate::client::rejection::<B, Y>(other_req) is None,
        0 <= m < other_course.states.len(),
    ensures
        place_of(course.states[n]) != place_of(other_course.states[m]),
{
    requests_keep_their_place(client, req, course, n);
    requests_keep_their_place(other, other_req, other_course, m);
}

/// A client and its clone use each other's connections: their requests to the
/// same target are in the same place.
pub proof fn clones_meet<C, E, A, B, X, Y>(
    client: Client<C, E>,
    req: RequestView<A>,
    course: Course<C, E, A, X>,
    n: int,
    copy: Client<C, E>,
    copy_req: RequestView<B>,
    copy_course: Course<C, E, B, Y>,
    m: int,
)
    requires
        call_ensures(Client::<C, E>::clone, (&client,), copy),
        req.uri.scheme == copy_req.uri.scheme,
        req.uri.authority == copy_req.uri.authority,
        course.valid(),
        client.answers(req, course.states[0]),
        crate::client::rejection::<A, X>(req) is None,
        0 <= n < course.states.len(),
        copy_course.valid(),
        copy.answers(copy_req, copy_course.states[0]),
        crate::client::rejection::<B, Y>(copy_req) is None,
        0 <= m < copy_course.states.len(),
    ensures
        place_of(course.states[n]) is Some,
        place_of(course.states[n]) == place_of(copy_course.states[m]),
{
    clones_share(client, copy);
    requests_keep_their_place(client, req, course, n);
    requests_keep_their_place(copy, copy_req, copy_course, m);
}

/// Whether the request is on a connection, or over.
pub open spec fn is_out<C, E, B, X>(future: FutureResponse<C, E, B, X>) -> bool {
    future.state matches FutureState::Running(running) ==> !(running.future.stage is Acquiring)
}

/// A request is never on two connections: between one time that it is sent and
/// the next, it was given back and tried again.
pub proof fn sent_once_at_a_time<C, E, B, X>(course: Course<C, E, B, X>, first: int, second: int)
    requires
        course.valid(),
        0 <= first < second < course.actions.len(),
        course.actions[first] is Send,
        course.actions[second] is Send,
    ensures
        exists|k: int| first < k < second && #[trigger] course.actions[k] is Checkout,
{
    if forall|k: int| first < k < second ==> !(#[trigger] course.actions[k] is Checkout) {
        assert(course.step(first));
        lemma_stays_out(course, first, second);
        assert(course.step(second));
    }
}

proof fn lemma_stays_out<C, E, B, X>(course: Course<C, E, B, X>, first: int, n: int)
    requires
        course.valid(),
        0 <= first < n <= course.actions.len(),
        course.actions[first] is Send,
        forall|k: int| first < k < n ==> !(#[trigger] course.actions[k] is Checkout),
    ensures
        is_out(course.states[n]),
    decreases n,
{
    assert(course.step(n - 1));
    if first < n - 1 {
        lemma_stays_out(course, first, n - 1);
        assert(!(course.actions[n - 1] is Checkout));
    }
}

/// A request that is refused is answered at once with the reason, and nothing
/// is done for it.
pub proof fn refused_is_refused<C, E, B, X>(
    client: Client<C, E>,
    req: RequestView<B>,
    course: Course<C, E, B, X>,
)
    requires
        course.valid(),
        client.answers(req, course.states[0]),
        crate::client::rejection::<B, X>(req) is Some,
    ensures
        course.actions.len() <= 1,
        course.actions.len() == 1 ==> course.actions[0] == Action::<B, Error<X>>::Fail(
            crate::client::rejection::<B, X>(req)->0,
        ),
{
    if course.actions.len() > 0 {
        assert(course.step(0));
        if course.actions.len() > 1 {
            assert(course.step(1));
        }
    }
}

} // verus!
