//! What polling a future response is for: what is to be done after each event,
//! told by what the request waits for.

use vstd::prelude::*;

use crate::connect::Destination;
use crate::error::{Cause, Error};
use crate::exchange::{Action, Attempt, ClientError, Dial, Disposal, Event, Stage, Turn};
use crate::pool::Ver;
use crate::request::Request;
use crate::retry::{FutureResponse, FutureState, RetryableSendRequest};

verus! {

/// A future response whose request is under way and at a stage.
pub open spec fn at_stage<C, E, B, X>(
    running: RetryableSendRequest<C, E, B>,
    stage: Stage<B>,
) -> FutureResponse<C, E, B, X> {
    FutureResponse {
        state: FutureState::Running(
            RetryableSendRequest { future: Attempt { stage, ..running.future }, ..running },
        ),
    }
}

/// Whether `FutureResponse::poll` took an event in at a stage of a request, and
/// gave a state and an action.
pub open spec fn polled<C, E, B, X>(
    running: RetryableSendRequest<C, E, B>,
    stage: Stage<B>,
    event: Event<B, X>,
    next: FutureResponse<C, E, B, X>,
    action: Action<B, Error<X>>,
) -> bool {
    call_ensures(
        FutureResponse::<C, E, B, X>::poll,
        (at_stage(running, stage), event),
        (next, action),
    )
}

/// When the task is woken while a connection is searched for, the pool is asked
/// as long as it may give one, and otherwise the new connection is asked about.
/// Nothing is given up and the request stays as it is.
pub proof fn woken_tasks_ask<C, E, B, X>(
    running: RetryableSendRequest<C, E, B>,
    req: Request<B>,
    checkout: bool,
    dial: Option<Dial>,
    next: FutureResponse<C, E, B, X>,
    action: Action<B, Error<X>>,
)
    requires
        checkout || dial is Some,
        polled(
            running,
            Stage::Acquiring { req, checkout, dial, turn: Turn::Parked },
            Event::Woken,
            next,
            action,
        ),
    ensures
        checkout ==> action == Action::<B, Error<X>>::PollCheckout,
        !checkout && dial == Some(Dial::Permit) ==> action == Action::<B, Error<X>>::AskPermit(
            running.future.key,
        ),
        !checkout && dial != Some(Dial::Permit) ==> action == Action::<B, Error<X>>::PollDial,
        next == at_stage::<C, E, B, X>(
            running,
            Stage::Acquiring {
                req,
                checkout,
                dial,
                turn: if checkout {
                    Turn::Checkout
                } else {
                    Turn::Dial
                },
            },
        ),
{
}

/// While a new connection is under way, at whatever step, it is asked about each
/// time that the pool has nothing yet. Only where there is none does the task
/// sleep.
pub proof fn new_connections_are_asked_about<C, E, B, X>(
    running: RetryableSendRequest<C, E, B>,
    req: Request<B>,
    dial: Option<Dial>,
    next: FutureResponse<C, E, B, X>,
    action: Action<B, Error<X>>,
)
    requires
        polled(
            running,
            Stage::Acquiring { req, checkout: true, dial, turn: Turn::Checkout },
            Event::CheckoutPending,
            next,
            action,
        ),
    ensures
        dial == Some(Dial::Permit) ==> action == Action::<B, Error<X>>::AskPermit(
            running.future.key,
        ),
        dial is Some && dial != Some(Dial::Permit) ==> action == Action::<B, Error<X>>::PollDial,
        dial is None ==> action == Action::<B, Error<X>>::Park,
        next == at_stage::<C, E, B, X>(
            running,
            Stage::Acquiring {
                req,
                checkout: true,
                dial,
                turn: if dial is Some {
                    Turn::Dial
                } else {
                    Turn::Parked
                },
            },
        ),
{
}

/// Each time that the task is woken while both ways are open and the pool has
/// nothing, it goes on to ask about the new connection.
pub proof fn both_ways_are_asked_about<C, E, B, X>(
    running: RetryableSendRequest<C, E, B>,
    req: Request<B>,
    dial: Dial,
    woken: FutureResponse<C, E, B, X>,
    asked: Action<B, Error<X>>,
    next: FutureResponse<C, E, B, X>,
    action: Action<B, Error<X>>,
)
    requires
        polled(
            running,
            Stage::Acquiring { req, checkout: true, dial: Some(dial), turn: Turn::Parked },
            Event::Woken,
            woken,
            asked,
        ),
        call_ensures(
            FutureResponse::<C, E, B, X>::poll,
            (woken, Event::CheckoutPending),
            (next, action),
        ),
    ensures
        asked is PollCheckout,
        dial is Permit ==> action == Action::<B, Error<X>>::AskPermit(running.future.key),
        !(dial is Permit) ==> action is PollDial,
{
}

/// A request as it goes out: on HTTP/2 and to a proxy that passes it on it is
/// told as it is, and otherwise by the path and query of its URI, or `/` where
/// it has none. Nothing but the URI is changed.
pub open spec fn told<B>(req: Request<B>, ver: Ver, is_proxied: bool, sent: Request<B>) -> bool {
    &&& sent.method == req.method
    &&& sent.version == req.version
    &&& sent.headers == req.headers
    &&& sent.body == req.body
    &&& req.uri@.path_and_query is Some ==> sent.uri@.path_and_query == req.uri@.path_and_query
    &&& ver == Ver::Http2 ==> sent.uri == req.uri
    &&& ver == Ver::Http1 && is_proxied && req.uri@.scheme != Some("https"@) ==> sent.uri@
        == req.uri@
    &&& ver == Ver::Http1 && (!is_proxied || req.uri@.scheme == Some("https"@)) ==> {
        &&& sent.uri@.scheme is None
        &&& sent.uri@.authority is None
        &&& req.uri@.path_and_query is None ==> sent.uri@.path_and_query == Some("/"@)
    }
}

/// A connection that the pool gives is taken at once, and the request goes out
/// on it with the target that belongs there.
pub proof fn pooled_connections_are_taken<C, E, B, X>(
    running: RetryableSendRequest<C, E, B>,
    req: Request<B>,
    dial: Option<Dial>,
    is_reused: bool,
    is_proxied: bool,
    next: FutureResponse<C, E, B, X>,
    action: Action<B, Error<X>>,
)
    requires
        polled(
            running,
            Stage::Acquiring { req, checkout: true, dial, turn: Turn::Checkout },
            Event::CheckedOut { is_reused, is_proxied },
            next,
            action,
        ),
    ensures
        action matches Action::Send(sent) && told(req, running.future.key.ver, is_proxied, sent),
        next == at_stage::<C, E, B, X>(
            running,
            Stage::Sending { reused: is_reused, parked: false },
        ),
{
}

/// Once a new connection is in the pool, the request goes out on it with the
/// target that belongs there.
pub proof fn new_connections_are_taken<C, E, B, X>(
    running: RetryableSendRequest<C, E, B>,
    req: Request<B>,
    checkout: bool,
    is_reused: bool,
    is_proxied: bool,
    next: FutureResponse<C, E, B, X>,
    action: Action<B, Error<X>>,
)
    requires
        polled(
            running,
            Stage::Acquiring {
                req,
                checkout,
                dial: Some(Dial::Insert { is_proxied }),
                turn: Turn::Dial,
            },
            Event::Inserted { is_reused },
            next,
            action,
        ),
    ensures
        action matches Action::Send(sent) && told(req, running.future.key.ver, is_proxied, sent),
        next == at_stage::<C, E, B, X>(
            running,
            Stage::Sending { reused: is_reused, parked: false },
        ),
{
}

/// What is sent leads to the path and query of the URI, on either version and on
/// every connection. A server on HTTP/1 is told neither scheme nor authority,
/// and a proxy is told both unless it is to be tunnelled through.
pub proof fn sent_requests_lead_to_the_target<C, E, B, X>(
    running: RetryableSendRequest<C, E, B>,
    req: Request<B>,
    dial: Option<Dial>,
    is_reused: bool,
    is_proxied: bool,
    next: FutureResponse<C, E, B, X>,
    sent: Request<B>,
)
    requires
        polled(
            running,
            Stage::Acquiring { req, checkout: true, dial, turn: Turn::Checkout },
            Event::CheckedOut { is_reused, is_proxied },
            next,
            Action::Send(sent),
        ),
        req.uri@.complete(),
        req.uri@.scheme is Some,
    ensures
        sent.uri@.path_and_query is Some,
        sent.uri@.path_and_query == req.uri@.path_and_query,
        sent.uri@.scheme is None <==> sent.uri@.authority is None,
        sent.uri@.scheme is None <==> running.future.key.ver == Ver::Http1 && (!is_proxied
            || req.uri@.scheme == Some("https"@)),
        sent.uri@.scheme is Some ==> sent.uri@ == req.uri@,
{
}

/// That the pool will give no connection leaves the new one, if it was only
/// given up there and there is a new one; otherwise the request fails for that
/// reason.
pub proof fn pools_give_up<C, E, B, X>(
    running: RetryableSendRequest<C, E, B>,
    req: Request<B>,
    dial: Option<Dial>,
    error: Error<X>,
    next: FutureResponse<C, E, B, X>,
    action: Action<B, Error<X>>,
)
    requires
        polled(
            running,
            Stage::Acquiring { req, checkout: true, dial, turn: Turn::Checkout },
            Event::CheckoutFailed(error),
            next,
            action,
        ),
    ensures
        dial is Some && error is Canceled ==> {
            &&& dial == Some(Dial::Permit) ==> action == Action::<B, Error<X>>::AskPermit(
                running.future.key,
            )
            &&& dial != Some(Dial::Permit) ==> action == Action::<B, Error<X>>::PollDial
            &&& next == at_stage::<C, E, B, X>(
                running,
                Stage::Acquiring { req, checkout: false, dial, turn: Turn::Dial },
            )
        },
        dial is None || !(error is Canceled) ==> {
            &&& action == Action::<B, Error<X>>::Fail(error)
            &&& next == at_stage::<C, E, B, X>(running, Stage::Finished)
        },
{
}

/// A new connection takes its steps one after the other: once permitted, it is
/// connected to the URI of the request.
pub proof fn permitted_connections_are_made<C, E, B, X>(
    running: RetryableSendRequest<C, E, B>,
    req: Request<B>,
    checkout: bool,
    next: FutureResponse<C, E, B, X>,
    action: Action<B, Error<X>>,
)
    requires
        polled(
            running,
            Stage::Acquiring { req, checkout, dial: Some(Dial::Permit), turn: Turn::Dial },
            Event::Permitted(true),
            next,
            action,
        ),
    ensures
        action == Action::<B, Error<X>>::Connect(Destination { uri: running.future.dst }),
        next == at_stage::<C, E, B, X>(
            running,
            Stage::Acquiring { req, checkout, dial: Some(Dial::Connect), turn: Turn::Dial },
        ),
{
}

/// Once connected, the handshake for the version that is asked for is begun.
pub proof fn connected_connections_shake_hands<C, E, B, X>(
    running: RetryableSendRequest<C, E, B>,
    req: Request<B>,
    checkout: bool,
    is_proxied: bool,
    next: FutureResponse<C, E, B, X>,
    action: Action<B, Error<X>>,
)
    requires
        polled(
            running,
            Stage::Acquiring { req, checkout, dial: Some(Dial::Connect), turn: Turn::Dial },
            Event::Connected { is_proxied },
            next,
            action,
        ),
    ensures
        action matches Action::Handshake { h1_writev, http2_only } && h1_writev
            == running.future.h1_writev && (http2_only <==> running.future.key.ver == Ver::Http2),
        next == at_stage::<C, E, B, X>(
            running,
            Stage::Acquiring {
                req,
                checkout,
                dial: Some(Dial::Handshake { is_proxied }),
                turn: Turn::Dial,
            },
        ),
{
}

/// After the handshake it is waited for, and once it is ready it is entered in
/// the pool as the connection that it is.
pub proof fn ready_connections_are_pooled<C, E, B, X>(
    running: RetryableSendRequest<C, E, B>,
    req: Request<B>,
    checkout: bool,
    is_proxied: bool,
    next: FutureResponse<C, E, B, X>,
    action: Action<B, Error<X>>,
)
    ensures
        polled(
            running,
            Stage::Acquiring {
                req,
                checkout,
                dial: Some(Dial::Handshake { is_proxied }),
                turn: Turn::Dial,
            },
            Event::HandshakeDone,
            next,
            action,
        ) ==> {
            &&& action == Action::<B, Error<X>>::AwaitReady
            &&& next == at_stage::<C, E, B, X>(
                running,
                Stage::Acquiring {
                    req,
                    checkout,
                    dial: Some(Dial::Ready { is_proxied }),
                    turn: Turn::Dial,
                },
            )
        },
        polled(
            running,
            Stage::Acquiring {
                req,
                checkout,
                dial: Some(Dial::Ready { is_proxied }),
                turn: Turn::Dial,
            },
            Event::SenderReady,
            next,
            action,
        ) ==> {
            &&& action == Action::<B, Error<X>>::Insert { is_proxied, ver: running.future.key.ver }
            &&& next == at_stage::<C, E, B, X>(
                running,
                Stage::Acquiring {
                    req,
                    checkout,
                    dial: Some(Dial::Insert { is_proxied }),
                    turn: Turn::Dial,
                },
            )
        },
{
}

/// While a step towards a new connection takes longer the task sleeps, and what
/// was reached is kept.
pub proof fn waiting_keeps_the_new_connection<C, E, B, X>(
    running: RetryableSendRequest<C, E, B>,
    req: Request<B>,
    checkout: bool,
    dial: Dial,
    next: FutureResponse<C, E, B, X>,
    action: Action<B, Error<X>>,
)
    requires
        polled(
            running,
            Stage::Acquiring { req, checkout, dial: Some(dial), turn: Turn::Dial },
            Event::DialPending,
            next,
            action,
        ),
    ensures
        action == Action::<B, Error<X>>::Park,
        next == at_stage::<C, E, B, X>(
            running,
            Stage::Acquiring { req, checkout, dial: Some(dial), turn: Turn::Parked },
        ),
{
}

/// Where a new connection cannot be had, the pool is waited for if the
/// connection was only given up and the pool may still give one; otherwise the
/// request fails for that reason. That it may not be made counts as given up,
/// and that it could not be connected does not.
pub proof fn new_connections_give_up<C, E, B, X>(
    running: RetryableSendRequest<C, E, B>,
    req: Request<B>,
    checkout: bool,
    dial: Dial,
    event: Event<B, X>,
    error: Error<X>,
    next: FutureResponse<C, E, B, X>,
    action: Action<B, Error<X>>,
)
    requires
        ({
            ||| event == Event::<B, X>::DialFailed(error)
            ||| event matches Event::ConnectFailed(cause) && error == Error::Connect(cause)
            ||| event == Event::<B, X>::Permitted(false) && error == Error::<X>::Canceled(
                Cause::Message("HTTP/2 connection in progress"),
            )
        }),
        polled(
            running,
            Stage::Acquiring { req, checkout, dial: Some(dial), turn: Turn::Dial },
            event,
            next,
            action,
        ),
    ensures
        checkout && error is Canceled ==> {
            &&& action == Action::<B, Error<X>>::PollCheckout
            &&& next == at_stage::<C, E, B, X>(
                running,
                Stage::Acquiring { req, checkout: true, dial: None, turn: Turn::Checkout },
            )
        },
        !checkout || !(error is Canceled) ==> {
            &&& action == Action::<B, Error<X>>::Fail(error)
            &&& next == at_stage::<C, E, B, X>(running, Stage::Finished)
        },
{
}

/// While the response is not there the task sleeps, and each time that it is
/// woken it asks for the response.
pub proof fn responses_are_waited_for<C, E, B, X>(
    running: RetryableSendRequest<C, E, B>,
    reused: bool,
    next: FutureResponse<C, E, B, X>,
    action: Action<B, Error<X>>,
)
    ensures
        polled(
            running,
            Stage::Sending { reused, parked: false },
            Event::SendPending,
            next,
            action,
        ) ==> {
            &&& action == Action::<B, Error<X>>::Park
            &&& next == at_stage::<C, E, B, X>(running, Stage::Sending { reused, parked: true })
        },
        polled(
            running,
            Stage::Sending { reused, parked: true },
            Event::Woken,
            next,
            action,
        ) ==> {
            &&& action == Action::<B, Error<X>>::PollSend
            &&& next == at_stage::<C, E, B, X>(running, Stage::Sending { reused, parked: false })
        },
{
}

/// When the response is there it is handed over. A connection is held back if,
/// and only if, it speaks HTTP/1, is not ready for another request, and has a
/// body to come: whether it had been used before plays no part.
pub proof fn busy_connections_are_held<C, E, B, X>(
    running: RetryableSendRequest<C, E, B>,
    reused: bool,
    is_ready: bool,
    is_body_empty: bool,
    next: FutureResponse<C, E, B, X>,
    action: Action<B, Error<X>>,
)
    requires
        polled(
            running,
            Stage::Sending { reused, parked: false },
            Event::Responded { is_ready, is_body_empty },
            next,
            action,
        ),
    ensures
        action is Finish,
        action == Action::<B, Error<X>>::Finish(Disposal::DelayEof) <==> (running.future.key.ver
            == Ver::Http1 && !is_ready && !is_body_empty),
        action == Action::<B, Error<X>>::Finish(Disposal::Release) <==> (running.future.key.ver
            == Ver::Http2 || is_ready || is_body_empty),
        next == at_stage::<C, E, B, X>(running, Stage::Finished),
{
}

/// A request that a used connection gave back is sent again if the client is
/// told to do so, and otherwise it fails for the reason that it came back with.
/// It starts over: with its first URI and otherwise as it came back, with a
/// connection to be looked for in the pool, and with a new one to be made to the
/// same place.
pub proof fn retries_start_over<C, E, B, X>(
    running: RetryableSendRequest<C, E, B>,
    reused: bool,
    reason: Error<X>,
    req: Option<Request<B>>,
    next: FutureResponse<C, E, B, X>,
    action: Action<B, Error<X>>,
)
    requires
        polled(
            running,
            Stage::Sending { reused, parked: false },
            Event::SendFailed { reason, req },
            next,
            action,
        ),
    ensures
        req is Some && reused && running.client.retry_canceled_requests ==> {
            &&& next.state matches FutureState::Running(again)
            &&& again.client == running.client
            &&& again.domain == running.domain
            &&& again.uri == running.uri
            &&& again.future.key.domain@ == running.domain@
            &&& again.future.key.ver == running.client.ver
            &&& again.future.dst == running.uri
            &&& again.future.h1_writev == running.client.h1_writev
            &&& again.future.stage == (Stage::Acquiring {
                req: Request { uri: running.uri, ..req->0 },
                checkout: true,
                dial: Some(Dial::Permit),
                turn: Turn::Parked,
            })
            &&& action == Action::<B, Error<X>>::Checkout(again.future.key)
        },
        req is None || !reused || !running.client.retry_canceled_requests ==> {
            &&& action == Action::<B, Error<X>>::Fail(reason)
            &&& next == at_stage::<C, E, B, X>(running, Stage::Finished)
        },
{
}

/// A request that is sent again can reach a connection by itself: where the pool
/// has none, the permission for a new one is asked for.
pub proof fn retries_make_connections<C, E, B, X>(
    running: RetryableSendRequest<C, E, B>,
    reason: Error<X>,
    req: Request<B>,
    again: FutureResponse<C, E, B, X>,
    restart: Action<B, Error<X>>,
    woken: FutureResponse<C, E, B, X>,
    asked: Action<B, Error<X>>,
    next: FutureResponse<C, E, B, X>,
    action: Action<B, Error<X>>,
)
    requires
        running.client.retry_canceled_requests,
        polled(
            running,
            Stage::Sending { reused: true, parked: false },
            Event::SendFailed { reason, req: Some(req) },
            again,
            restart,
        ),
        call_ensures(
            FutureResponse::<C, E, B, X>::poll,
            (again, Event::Woken),
            (woken, asked),
        ),
        call_ensures(
            FutureResponse::<C, E, B, X>::poll,
            (woken, Event::CheckoutPending),
            (next, action),
        ),
    ensures
        restart matches Action::Checkout(key) && key.domain@ == running.domain@ && key.ver
            == running.client.ver,
        asked is PollCheckout,
        action == Action::<B, Error<X>>::AskPermit(restart->Checkout_0),
{
}

/// A refused request is answered with the reason when it is first polled.
pub proof fn refusals_are_reported<C, E, B, X>(
    error: Error<X>,
    next: FutureResponse<C, E, B, X>,
    action: Action<B, Error<X>>,
)
    requires
        call_ensures(
            FutureResponse::<C, E, B, X>::poll,
            (
                FutureResponse { state: FutureState::<C, E, B, X>::Refused(error) },
                Event::Woken,
            ),
            (next, action),
        ),
    ensures
        action == Action::<B, Error<X>>::Fail(error),
        next.state is Done,
{
}

/// Whatever was asked for can be answered: a state takes in every outcome that
/// the action before it can have.
pub proof fn questions_can_be_answered<C, E, B, X>(
    future: FutureResponse<C, E, B, X>,
    event: Event<B, X>,
    next: FutureResponse<C, E, B, X>,
    action: Action<B, Error<X>>,
    first: bool,
    second: bool,
    error: Error<X>,
    cause: X,
    given: Option<Request<B>>,
)
    requires
        future.well_formed(),
        future.expects(event),
        call_ensures(FutureResponse::<C, E, B, X>::poll, (future, event), (next, action)),
    ensures
        next.well_formed(),
        action is Park || action is Checkout ==> next.expects(Event::Woken),
        action is PollCheckout ==> {
            &&& next.expects(Event::CheckoutPending)
            &&& next.expects(Event::CheckedOut { is_reused: first, is_proxied: second })
            &&& next.expects(Event::CheckoutFailed(error))
        },
        action is AskPermit ==> next.expects(Event::Permitted(first)),
        action is Connect ==> {
            &&& next.expects(Event::DialPending)
            &&& next.expects(Event::Connected { is_proxied: first })
            &&& next.expects(Event::ConnectFailed(cause))
        },
        action is Handshake ==> {
            &&& next.expects(Event::DialPending)
            &&& next.expects(Event::HandshakeDone)
            &&& next.expects(Event::DialFailed(error))
        },
        action is AwaitReady ==> {
            &&& next.expects(Event::DialPending)
            &&& next.expects(Event::SenderReady)
            &&& next.expects(Event::DialFailed(error))
        },
        action is PollDial ==> {
            &&& next.expects(Event::DialPending)
            &&& next.expects(Event::ConnectFailed(cause)) || next.expects(Event::DialFailed(error))
            &&& next.expects(Event::Connected { is_proxied: first }) || next.expects(
                Event::HandshakeDone,
            ) || next.expects(Event::SenderReady)
        },
        action is Insert ==> next.expects(Event::Inserted { is_reused: first }),
        action is Send || action is PollSend ==> {
            &&& next.expects(Event::SendPending)
            &&& next.expects(Event::SendFailed { reason: error, req: given })
            &&& next.expects(Event::Responded { is_ready: first, is_body_empty: second })
        },
{
}

/// Asking how a new connection goes on can be answered with the end of the step
/// that it is at.
pub proof fn steps_of_new_connections_can_end<C, E, B, X>(
    running: RetryableSendRequest<C, E, B>,
    req: Request<B>,
    checkout: bool,
    is_proxied: bool,
    error: Error<X>,
    cause: X,
)
    ensures
        ({
            let at = at_stage::<C, E, B, X>(
                running,
                Stage::Acquiring { req, checkout, dial: Some(Dial::Connect), turn: Turn::Dial },
            );
            &&& at.expects(Event::Connected { is_proxied })
            &&& at.expects(Event::ConnectFailed(cause))
        }),
        ({
            let at = at_stage::<C, E, B, X>(
                running,
                Stage::Acquiring {
                    req,
                    checkout,
                    dial: Some(Dial::Handshake { is_proxied }),
                    turn: Turn::Dial,
                },
            );
            &&& at.expects(Event::HandshakeDone)
            &&& at.expects(Event::DialFailed(error))
        }),
        ({
            let at = at_stage::<C, E, B, X>(
                running,
                Stage::Acquiring {
                    req,
                    checkout,
                    dial: Some(Dial::Ready { is_proxied }),
                    turn: Turn::Dial,
                },
            );
            &&& at.expects(Event::SenderReady)
            &&& at.expects(Event::DialFailed(error))
        }),
{
}

/// `can_poll` and `can_step` allow what `poll` and `step` take in.
pub proof fn what_can_be_taken_in_is_told<C, E, B, X>(
    running: RetryableSendRequest<C, E, B>,
    event: Event<B, X>,
    r: bool,
)
    ensures
        call_ensures(
            FutureResponse::<C, E, B, X>::can_poll,
            (&FutureResponse { state: FutureState::<C, E, B, X>::Running(running) }, &event),
            r,
        ) ==> r == (running.future.well_formed() && running.future.expects(event)),
        call_ensures(Attempt::<B>::can_step::<X>, (&running.future, &event), r) ==> r == (
        running.future.well_formed() && running.future.expects(event)),
{
}

/// Whether two actions are the same, but for how a failure would be told.
pub open spec fn same_action<B, F, G>(a: Action<B, F>, b: Action<B, G>) -> bool {
    match (a, b) {
        (Action::Park, Action::Park) => true,
        (Action::Checkout(x), Action::Checkout(y)) => x == y,
        (Action::PollCheckout, Action::PollCheckout) => true,
        (Action::AskPermit(x), Action::AskPermit(y)) => x == y,
        (Action::Connect(x), Action::Connect(y)) => x == y,
        (
            Action::Handshake { h1_writev: v, http2_only: x },
            Action::Handshake { h1_writev: w, http2_only: y },
        ) => v == w && x == y,
        (Action::AwaitReady, Action::AwaitReady) => true,
        (Action::PollDial, Action::PollDial) => true,
        (
            Action::Insert { is_proxied: p, ver: v },
            Action::Insert { is_proxied: q, ver: w },
        ) => p == q && v == w,
        (Action::Send(x), Action::Send(y)) => {
            &&& x@ == y@
            &&& x.headers == y.headers
        },
        (Action::PollSend, Action::PollSend) => true,
        (Action::Finish(x), Action::Finish(y)) => x == y,
        _ => false,
    }
}

/// A step of an attempt, a poll of the request that it is made for, and a poll of
/// the future response come to the same, but for requests that are sent again.
pub proof fn attempts_step_as_they_are_polled<C, E, B, X>(
    running: RetryableSendRequest<C, E, B>,
    event: Event<B, X>,
    attempt: Attempt<B>,
    step: Action<B, ClientError<B, X>>,
    after: RetryableSendRequest<C, E, B>,
    inner: Action<B, Error<X>>,
    next: FutureResponse<C, E, B, X>,
    action: Action<B, Error<X>>,
)
    requires
        running.future.well_formed(),
        running.future.expects(event),
        call_ensures(Attempt::<B>::step::<X>, (running.future, event), (attempt, step)),
        call_ensures(
            RetryableSendRequest::<C, E, B>::poll::<X>,
            (running, event),
            (after, inner),
        ),
        call_ensures(
            FutureResponse::<C, E, B, X>::poll,
            (FutureResponse { state: FutureState::<C, E, B, X>::Running(running) }, event),
            (next, action),
        ),
    ensures
        !(step is Fail) ==> {
            &&& next.state == FutureState::<C, E, B, X>::Running(
                RetryableSendRequest { future: attempt, ..running },
            )
            &&& after == (RetryableSendRequest { future: attempt, ..running })
            &&& same_action(step, action)
            &&& same_action(step, inner)
        },
        step matches Action::Fail(ClientError::Normal(error)) ==> {
            &&& action == Action::<B, Error<X>>::Fail(error)
            &&& inner == Action::<B, Error<X>>::Fail(error)
        },
        step matches Action::Fail(ClientError::Canceled { connection_reused, req, reason }) ==> {
            &&& running.future.stage matches Stage::Sending { reused, .. }
            &&& connection_reused == reused
            &&& event == (Event::<B, X>::SendFailed { reason, req: Some(req) })
            &&& inner is Checkout == action is Checkout
            &&& inner is Fail ==> inner == action
        },
        step is Fail ==> attempt == (Attempt { stage: Stage::Finished, ..running.future }),
{
}

} // verus!
