//! The future response, and trying a request again on another connection.

use vstd::prelude::*;

use crate::client::Client;
use crate::error::Error;
use crate::exchange::{Action, Attempt, ClientError, Event};
use crate::request::Request;
use crate::uri::Uri;

verus! {

/// A request that is sent, and sent again as long as connections give it back.
pub struct RetryableSendRequest<C, E, B> {
    pub client: Client<C, E>,
    /// What the connections that may carry the request are filed under.
    pub domain: String,
    /// The URI of the request.
    pub uri: Uri,
    /// The attempt that is under way.
    pub future: Attempt<B>,
}

impl<C, E, B> RetryableSendRequest<C, E, B> {
    /// Whether a request that was given back is sent again.
    pub open spec fn retries(self, connection_reused: bool) -> bool {
        self.client.retry_canceled_requests && connection_reused
    }

    /// What becomes of the request after a step of the attempt that led to
    /// `attempt` and asked for `step`.
    pub open spec fn settles_to<X>(
        self,
        attempt: Attempt<B>,
        step: Action<B, ClientError<B, X>>,
        next: Self,
        action: Action<B, Error<X>>,
    ) -> bool {
        &&& next.client == self.client
        &&& next.domain == self.domain
        &&& next.uri == self.uri
        &&& match step {
            Action::Fail(ClientError::Canceled { connection_reused, req, reason }) => if self.retries(
                connection_reused,
            ) {
                &&& self.client.starts(
                    Request { uri: self.uri, ..req },
                    self.domain@,
                    next.future,
                )
                &&& action == Action::<B, Error<X>>::Checkout(next.future.key)
            } else {
                &&& next.future == attempt
                &&& action == Action::<B, Error<X>>::Fail(reason)
            },
            Action::Fail(ClientError::Normal(error)) => {
                &&& next.future == attempt
                &&& action == Action::<B, Error<X>>::Fail(error)
            },
            _ => {
                &&& next.future == attempt
                &&& action == step.retold::<Error<X>>()
            },
        }
    }

    /// What an event makes of the request, and what is to be done then.
    pub open spec fn polls_to<X>(
        self,
        event: Event<B, X>,
        next: Self,
        action: Action<B, Error<X>>,
    ) -> bool {
        exists|attempt: Attempt<B>, step: Action<B, ClientError<B, X>>|
            {
                &&& #[trigger] self.future.steps_to(event, attempt, step)
                &&& self.settles_to(attempt, step, next, action)
            }
    }

    /// Takes an event in, and tells what is to be done next.
    pub fn poll<X>(self, event: Event<B, X>) -> (r: (Self, Action<B, Error<X>>))
        requires
            self.future.well_formed(),
            self.future.expects(event),
        ensures
            r.0.future.well_formed(),
            self.polls_to(event, r.0, r.1),
    {
        let RetryableSendRequest { client, domain, uri, future } = self;
        let (attempt, step) = future.step(event);
        let ghost stepped = attempt;
        let ghost taken = step;
        let action: Action<B, Error<X>> = match step {
            Action::Fail(ClientError::Canceled { connection_reused, req, reason }) => {
                if !client.retry_canceled_requests || !connection_reused {
                    // if client disabled, don't retry
                    // a fresh connection means we definitely can't retry
                    Action::Fail(reason)
                } else {
                    let mut req = req;
                    req.uri = uri.clone();
                    let future = client.send_request(req, domain.as_str());
                    let action = Action::Checkout(future.key.clone());
                    let next = RetryableSendRequest { client, domain, uri, future };
                    assert(self.settles_to(stepped, taken, next, action));
                    return (next, action);
                }
            },
            Action::Fail(ClientError::Normal(error)) => Action::Fail(error),
            step => step.retell(),
        };
        let next = RetryableSendRequest { client, domain, uri, future: attempt };
        assert(self.settles_to(stepped, taken, next, action));
        (next, action)
    }
}

/// What a future response waits for.
pub enum FutureState<C, E, B, X> {
    /// Only to report that the request was refused.
    Refused(Error<X>),
    /// The request, which is under way.
    Running(RetryableSendRequest<C, E, B>),
    /// Nothing: it has reported a refusal.
    Done,
}

/// A `Future` that will resolve to an HTTP Response.
pub struct FutureResponse<C, E, B, X> {
    pub state: FutureState<C, E, B, X>,
}

impl<C, E, B, X> FutureResponse<C, E, B, X> {
    /// Whether the request is in a state that it can get into.
    pub open spec fn well_formed(self) -> bool {
        self.state matches FutureState::Running(running) ==> running.future.well_formed()
    }

    /// Whether an event answers the question that was asked.
    pub open spec fn expects(self, event: Event<B, X>) -> bool {
        match self.state {
            FutureState::Refused(_) => event is Woken,
            FutureState::Running(running) => running.future.expects(event),
            FutureState::Done => false,
        }
    }

    /// What an event makes of the request, and what is to be done then.
    pub open spec fn polls_to(
        self,
        event: Event<B, X>,
        next: Self,
        action: Action<B, Error<X>>,
    ) -> bool {
        match self.state {
            FutureState::Refused(error) => {
                &&& next.state is Done
                &&& action == Action::<B, Error<X>>::Fail(error)
            },
            FutureState::Running(running) => {
                &&& next.state matches FutureState::Running(next)
                &&& running.polls_to(event, next, action)
            },
            FutureState::Done => false,
        }
    }

    /// Whether an event answers the question that was asked, so that it can be
    /// taken in.
    pub fn can_poll(&self, event: &Event<B, X>) -> (r: bool)
        ensures
            r == (self.well_formed() && self.expects(*event)),
    {
        match &self.state {
            FutureState::Refused(_) => match event {
                Event::Woken => true,
                _ => false,
            },
            FutureState::Running(running) => running.future.can_step(event),
            FutureState::Done => false,
        }
    }

    /// Takes an event in, and tells what is to be done next.
    pub fn poll(self, event: Event<B, X>) -> (r: (Self, Action<B, Error<X>>))
        requires
            self.well_formed(),
            self.expects(event),
        ensures
            r.0.well_formed(),
            self.polls_to(event, r.0, r.1),
    {
        match self.state {
            FutureState::Refused(error) => (
                FutureResponse { state: FutureState::Done },
                Action::Fail(error),
            ),
            FutureState::Running(running) => {
                let (running, action) = running.poll(event);
                (FutureResponse { state: FutureState::Running(running) }, action)
            },
            FutureState::Done => vstd::pervasive::unreached(),
        }
    }
}

} // verus!
