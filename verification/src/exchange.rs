//! The course of a request, from the search for a connection to the response.
//!
//! An [`Attempt`] races two ways to a connection: taking an idle one out of the
//! pool, and making a new one. It sends the request on the connection that it
//! gets first.

use vstd::prelude::*;

use crate::connect::Destination;
use crate::error::Error;
use crate::pool::{PoolKey, Ver};
use crate::request::{Request, RequestView};
use crate::uri::{set_relative_uri, Uri};

verus! {

/// How far a new connection has come.
#[derive(Clone, Copy, Debug, PartialEq, Eq, Structural)]
pub enum Dial {
    /// The pool has to be asked whether a connection may be made.
    Permit,
    /// The connector is connecting.
    Connect,
    /// The handshake goes on.
    Handshake { is_proxied: bool },
    /// The connection is not ready for a request yet.
    Ready { is_proxied: bool },
    /// The connection is being entered in the pool.
    Insert { is_proxied: bool },
}

/// Who has to answer next while a connection is searched for.
#[derive(Clone, Copy, Debug, PartialEq, Eq, Structural)]
pub enum Turn {
    /// Nobody: the task sleeps until it is woken.
    Parked,
    /// The pool, about an idle connection.
    Checkout,
    /// Whoever works on the new connection.
    Dial,
}

/// How far an attempt has come.
#[derive(Debug)]
pub enum Stage<B> {
    /// A connection is searched for, in the pool as long as `checkout` holds,
    /// and by making a new one as long as `dial` is there.
    Acquiring { req: Request<B>, checkout: bool, dial: Option<Dial>, turn: Turn },
    /// The request is on a connection, which had been used before if `reused`.
    /// The task sleeps if `parked`.
    Sending { reused: bool, parked: bool },
    /// The attempt is over.
    Finished,
}

/// An attempt to send a request.
#[derive(Debug)]
pub struct Attempt<B> {
    /// The connections that may carry the request.
    pub key: PoolKey,
    /// Where a new connection has to lead.
    pub dst: Uri,
    /// Whether an HTTP/1 connection uses vectored writes.
    pub h1_writev: bool,
    pub stage: Stage<B>,
}

/// What happened.
#[derive(Debug)]
pub enum Event<B, X> {
    /// The task runs again.
    Woken,
    /// The pool has no connection yet.
    CheckoutPending,
    /// The pool gave a connection.
    CheckedOut { is_reused: bool, is_proxied: bool },
    /// The pool will not give a connection.
    CheckoutFailed(Error<X>),
    /// Whether the pool allows a new connection to be made.
    Permitted(bool),
    /// The step towards a new connection takes longer.
    DialPending,
    /// The connector has connected.
    Connected { is_proxied: bool },
    /// The connector could not connect.
    ConnectFailed(X),
    /// The handshake is done.
    HandshakeDone,
    /// The new connection is ready for a request.
    SenderReady,
    /// The handshake failed, or the new connection did not get ready.
    DialFailed(Error<X>),
    /// The new connection is entered in the pool and can be used.
    Inserted { is_reused: bool },
    /// The response is not there yet.
    SendPending,
    /// There will be no response. If the request had not been started on, it
    /// is given back.
    SendFailed { reason: Error<X>, req: Option<Request<B>> },
    /// The response is there. The connection would take another request at
    /// once if `is_ready`, and there is no body to come if `is_body_empty`.
    Responded { is_ready: bool, is_body_empty: bool },
}

/// What becomes of a connection when the response is there.
#[derive(Clone, Copy, Debug, PartialEq, Eq, Structural)]
pub enum Disposal {
    /// It is let go, so that the pool can have it back.
    Release,
    /// It is held until it is ready again, and the body of the response does
    /// not end before that.
    DelayEof,
}

/// What has to be done next. `F` is what a failure is told by.
#[derive(Debug)]
pub enum Action<B, F> {
    /// Sleep until woken.
    Park,
    /// Let go of every connection that was searched for, and start to look for
    /// one in the pool.
    Checkout(PoolKey),
    /// Ask the pool for the idle connection.
    PollCheckout,
    /// Ask the pool whether a connection may be made.
    AskPermit(PoolKey),
    /// Start to connect.
    Connect(Destination),
    /// Start the handshake on what was connected.
    Handshake { h1_writev: bool, http2_only: bool },
    /// Have the connection driven in the background, and start to wait for it
    /// to get ready.
    AwaitReady,
    /// Ask how the step towards a new connection goes on.
    PollDial,
    /// Enter the new connection in the pool.
    Insert { is_proxied: bool, ver: Ver },
    /// Send the request on the connection that was got, and let go of the other.
    Send(Request<B>),
    /// Ask for the response.
    PollSend,
    /// Hand the response over.
    Finish(Disposal),
    /// Report that the request failed.
    Fail(F),
}

impl<B, F> Action<B, F> {
    /// The same action where a failure would be told by something else.
    pub open spec fn retold<G>(self) -> Action<B, G>
        recommends
            !(self is Fail),
    {
        match self {
            Action::Park => Action::Park,
            Action::Checkout(key) => Action::Checkout(key),
            Action::PollCheckout => Action::PollCheckout,
            Action::AskPermit(key) => Action::AskPermit(key),
            Action::Connect(dst) => Action::Connect(dst),
            Action::Handshake { h1_writev, http2_only } => Action::Handshake {
                h1_writev,
                http2_only,
            },
            Action::AwaitReady => Action::AwaitReady,
            Action::PollDial => Action::PollDial,
            Action::Insert { is_proxied, ver } => Action::Insert { is_proxied, ver },
            Action::Send(req) => Action::Send(req),
            Action::PollSend => Action::PollSend,
            Action::Finish(disposal) => Action::Finish(disposal),
            Action::Fail(_) => Action::Park,
        }
    }

    /// Takes an action that is no failure to where a failure is told by
    /// something else.
    pub(crate) fn retell<G>(self) -> (r: Action<B, G>)
        requires
            !(self is Fail),
        ensures
            r == self.retold::<G>(),
    {
        match self {
            Action::Park => Action::Park,
            Action::Checkout(key) => Action::Checkout(key),
            Action::PollCheckout => Action::PollCheckout,
            Action::AskPermit(key) => Action::AskPermit(key),
            Action::Connect(dst) => Action::Connect(dst),
            Action::Handshake { h1_writev, http2_only } => Action::Handshake {
                h1_writev,
                http2_only,
            },
            Action::AwaitReady => Action::AwaitReady,
            Action::PollDial => Action::PollDial,
            Action::Insert { is_proxied, ver } => Action::Insert { is_proxied, ver },
            Action::Send(req) => Action::Send(req),
            Action::PollSend => Action::PollSend,
            Action::Finish(disposal) => Action::Finish(disposal),
            Action::Fail(_) => Action::Park,
        }
    }
}

/// How an attempt fails.
#[derive(Debug)]
pub enum ClientError<B, X> {
    /// For good.
    Normal(Error<X>),
    /// Before the connection had started on the request.
    Canceled { connection_reused: bool, req: Request<B>, reason: Error<X> },
}

/// A request as it is put on a connection.
pub open spec fn sent_request<B>(req: RequestView<B>, ver: Ver, is_proxied: bool) -> RequestView<
    B,
> {
    RequestView {
        uri: if ver == Ver::Http1 {
            crate::uri::relative_uri(req.uri, is_proxied)
        } else {
            req.uri
        },
        ..req
    }
}

/// The error of a request that may not have a connection of its own.
pub open spec fn in_progress<X>() -> Error<X> {
    Error::Canceled(crate::error::Cause::Message("HTTP/2 connection in progress"))
}

impl<B> Attempt<B> {
    /// Whether the attempt is in a state that it can get into.
    pub open spec fn well_formed(self) -> bool {
        match self.stage {
            Stage::Acquiring { req, checkout, dial, turn } => {
                &&& checkout || dial is Some
                &&& turn == Turn::Checkout ==> checkout
                &&& turn == Turn::Dial ==> dial is Some
                &&& dial matches Some(Dial::Insert { .. }) ==> turn == Turn::Dial
            },
            _ => true,
        }
    }

    /// Whether an event answers the question that the attempt has asked.
    pub open spec fn expects<X>(self, event: Event<B, X>) -> bool {
        match self.stage {
            Stage::Acquiring { req, checkout, dial, turn } => match turn {
                Turn::Parked => event is Woken,
                Turn::Checkout => event is CheckoutPending || event is CheckedOut
                    || event is CheckoutFailed,
                Turn::Dial => match dial {
                    Some(Dial::Permit) => event is Permitted,
                    Some(Dial::Connect) => event is DialPending || event is Connected
                        || event is ConnectFailed,
                    Some(Dial::Handshake { .. }) => event is DialPending || event is HandshakeDone
                        || event is DialFailed,
                    Some(Dial::Ready { .. }) => event is DialPending || event is SenderReady
                        || event is DialFailed,
                    Some(Dial::Insert { .. }) => event is Inserted,
                    None => false,
                },
            },
            Stage::Sending { reused, parked } => if parked {
                event is Woken
            } else {
                event is SendPending || event is SendFailed || event is Responded
            },
            Stage::Finished => false,
        }
    }

    /// The attempt with its stage replaced.
    pub open spec fn at(self, stage: Stage<B>) -> Self {
        Attempt { stage, ..self }
    }

    /// What is asked for when it is the new connection's turn.
    pub open spec fn dial_action<F>(self, dial: Dial) -> Action<B, F> {
        if dial == Dial::Permit {
            Action::AskPermit(self.key)
        } else {
            Action::PollDial
        }
    }

    /// The attempt has got a connection and puts the request on it.
    pub open spec fn goes_out<X>(
        self,
        req: Request<B>,
        is_reused: bool,
        is_proxied: bool,
        next: Self,
        action: Action<B, ClientError<B, X>>,
    ) -> bool {
        &&& next == self.at(Stage::Sending { reused: is_reused, parked: false })
        &&& action matches Action::Send(sent)
        &&& sent@ == sent_request(req@, self.key.ver, is_proxied)
        &&& sent == (Request { uri: sent.uri, ..req })
        &&& self.key.ver == Ver::Http2 ==> sent == req
    }

    /// No new connection can be made. If that was only given up, there is still
    /// the pool to wait for.
    pub open spec fn dial_fails<X>(
        self,
        req: Request<B>,
        checkout: bool,
        error: Error<X>,
        next: Self,
        action: Action<B, ClientError<B, X>>,
    ) -> bool {
        if checkout && error is Canceled {
            &&& next == self.at(
                Stage::Acquiring { req, checkout, dial: None, turn: Turn::Checkout },
            )
            &&& action == Action::<B, ClientError<B, X>>::PollCheckout
        } else {
            &&& next == self.at(Stage::Finished)
            &&& action == Action::<B, ClientError<B, X>>::Fail(ClientError::Normal(error))
        }
    }

    /// What an event makes of the attempt, and what is to be done then.
    pub open spec fn steps_to<X>(
        self,
        event: Event<B, X>,
        next: Self,
        action: Action<B, ClientError<B, X>>,
    ) -> bool {
        match self.stage {
            Stage::Acquiring { req, checkout, dial, turn } => match event {
                Event::Woken => if checkout {
                    &&& next == self.at(
                        Stage::Acquiring { req, checkout, dial, turn: Turn::Checkout },
                    )
                    &&& action == Action::<B, ClientError<B, X>>::PollCheckout
                } else {
                    &&& next == self.at(Stage::Acquiring { req, checkout, dial, turn: Turn::Dial })
                    &&& action == self.dial_action::<ClientError<B, X>>(dial->0)
                },
                Event::CheckoutPending => if dial is Some {
                    &&& next == self.at(Stage::Acquiring { req, checkout, dial, turn: Turn::Dial })
                    &&& action == self.dial_action::<ClientError<B, X>>(dial->0)
                } else {
                    &&& next == self.at(
                        Stage::Acquiring { req, checkout, dial, turn: Turn::Parked },
                    )
                    &&& action == Action::<B, ClientError<B, X>>::Park
                },
                Event::CheckedOut { is_reused, is_proxied } => self.goes_out(
                    req,
                    is_reused,
                    is_proxied,
                    next,
                    action,
                ),
                Event::CheckoutFailed(error) => if dial is Some && error is Canceled {
                    &&& next == self.at(
                        Stage::Acquiring { req, checkout: false, dial, turn: Turn::Dial },
                    )
                    &&& action == self.dial_action::<ClientError<B, X>>(dial->0)
                } else {
                    &&& next == self.at(Stage::Finished)
                    &&& action == Action::<B, ClientError<B, X>>::Fail(ClientError::Normal(error))
                },
                Event::Permitted(permitted) => if permitted {
                    &&& next == self.at(
                        Stage::Acquiring { req, checkout, dial: Some(Dial::Connect), turn },
                    )
                    &&& action == Action::<B, ClientError<B, X>>::Connect(
                        Destination { uri: self.dst },
                    )
                } else {
                    self.dial_fails(req, checkout, in_progress::<X>(), next, action)
                },
                Event::DialPending => {
                    &&& next == self.at(
                        Stage::Acquiring { req, checkout, dial, turn: Turn::Parked },
                    )
                    &&& action == Action::<B, ClientError<B, X>>::Park
                },
                Event::Connected { is_proxied } => {
                    &&& next == self.at(
                        Stage::Acquiring {
                            req,
                            checkout,
                            dial: Some(Dial::Handshake { is_proxied }),
                            turn,
                        },
                    )
                    &&& action == Action::<B, ClientError<B, X>>::Handshake {
                        h1_writev: self.h1_writev,
                        http2_only: self.key.ver == Ver::Http2,
                    }
                },
                Event::ConnectFailed(cause) => self.dial_fails(
                    req,
                    checkout,
                    Error::Connect(cause),
                    next,
                    action,
                ),
                Event::HandshakeDone => {
                    let is_proxied = dial->0->Handshake_is_proxied;
                    &&& next == self.at(
                        Stage::Acquiring {
                            req,
                            checkout,
                            dial: Some(Dial::Ready { is_proxied }),
                            turn,
                        },
                    )
                    &&& action == Action::<B, ClientError<B, X>>::AwaitReady
                },
                Event::SenderReady => {
                    let is_proxied = dial->0->Ready_is_proxied;
                    &&& next == self.at(
                        Stage::Acquiring {
                            req,
                            checkout,
                            dial: Some(Dial::Insert { is_proxied }),
                            turn,
                        },
                    )
                    &&& action == Action::<B, ClientError<B, X>>::Insert {
                        is_proxied,
                        ver: self.key.ver,
                    }
                },
                Event::DialFailed(error) => self.dial_fails(req, checkout, error, next, action),
                Event::Inserted { is_reused } => self.goes_out(
                    req,
                    is_reused,
                    dial->0->Insert_is_proxied,
                    next,
                    action,
                ),
                _ => false,
            },
            Stage::Sending { reused, parked } => match event {
                Event::Woken => {
                    &&& next == self.at(Stage::Sending { reused, parked: false })
                    &&& action == Action::<B, ClientError<B, X>>::PollSend
                },
                Event::SendPending => {
                    &&& next == self.at(Stage::Sending { reused, parked: true })
                    &&& action == Action::<B, ClientError<B, X>>::Park
                },
                Event::SendFailed { reason, req } => {
                    &&& next == self.at(Stage::Finished)
                    &&& action == Action::<B, ClientError<B, X>>::Fail(
                        match req {
                            Some(req) => ClientError::Canceled {
                                connection_reused: reused,
                                req,
                                reason,
                            },
                            None => ClientError::Normal(reason),
                        },
                    )
                },
                Event::Responded { is_ready, is_body_empty } => {
                    &&& next == self.at(Stage::Finished)
                    &&& action == Action::<B, ClientError<B, X>>::Finish(
                        if self.key.ver == Ver::Http2 || is_ready || is_body_empty {
                            Disposal::Release
                        } else {
                            Disposal::DelayEof
                        },
                    )
                },
                _ => false,
            },
            Stage::Finished => false,
        }
    }
}

impl<B> Attempt<B> {
    /// Searches for a connection.
    fn acquire(self, req: Request<B>, checkout: bool, dial: Option<Dial>, turn: Turn) -> (r: Self)
        ensures
            r == self.at(Stage::Acquiring { req, checkout, dial, turn }),
    {
        Attempt { stage: Stage::Acquiring { req, checkout, dial, turn }, ..self }
    }

    /// Puts the request on a connection.
    fn go_out<X>(self, req: Request<B>, is_reused: bool, is_proxied: bool) -> (r: (
        Self,
        Action<B, ClientError<B, X>>,
    ))
        ensures
            self.goes_out(req, is_reused, is_proxied, r.0, r.1),
    {
        let mut req = req;
        if self.key.ver == Ver::Http1 {
            set_relative_uri(&mut req.uri, is_proxied);
        }
        let stage = Stage::Sending { reused: is_reused, parked: false };
        (Attempt { stage, ..self }, Action::Send(req))
    }

    /// Turns to the new connection, to start it or to see how it goes on.
    fn turn_to_dial<X>(self, req: Request<B>, checkout: bool, dial: Dial) -> (r: (
        Self,
        Action<B, ClientError<B, X>>,
    ))
        ensures
            r.0 == self.at(
                Stage::Acquiring { req, checkout, dial: Some(dial), turn: Turn::Dial },
            ),
            r.1 == self.dial_action::<ClientError<B, X>>(dial),
    {
        let action = match dial {
            Dial::Permit => Action::AskPermit(self.key.clone()),
            _ => Action::PollDial,
        };
        (self.acquire(req, checkout, Some(dial), Turn::Dial), action)
    }

    /// Gives the new connection up.
    fn fail_dial<X>(self, req: Request<B>, checkout: bool, error: Error<X>) -> (r: (
        Self,
        Action<B, ClientError<B, X>>,
    ))
        ensures
            self.dial_fails(req, checkout, error, r.0, r.1),
    {
        if checkout && error.is_canceled() {
            (self.acquire(req, checkout, None, Turn::Checkout), Action::PollCheckout)
        } else {
            self.fail(ClientError::Normal(error))
        }
    }

    /// Ends the attempt without a response.
    fn fail<X>(self, error: ClientError<B, X>) -> (r: (Self, Action<B, ClientError<B, X>>))
        ensures
            r.0 == self.at(Stage::Finished),
            r.1 == Action::<B, ClientError<B, X>>::Fail(error),
    {
        (Attempt { stage: Stage::Finished, ..self }, Action::Fail(error))
    }

    /// Takes in what the pool said about an idle connection, or that the task
    /// was woken, while a connection is searched for.
    fn step_checkout<X>(
        self,
        req: Request<B>,
        checkout: bool,
        dial: Option<Dial>,
        turn: Turn,
        event: Event<B, X>,
    ) -> (r: (Self, Action<B, ClientError<B, X>>))
        requires
            self.at(Stage::Acquiring { req, checkout, dial, turn }).well_formed(),
            self.at(Stage::Acquiring { req, checkout, dial, turn }).expects(event),
            turn != Turn::Dial,
        ensures
            r.0.well_formed(),
            self.at(Stage::Acquiring { req, checkout, dial, turn }).steps_to(event, r.0, r.1),
    {
        match event {
            Event::Woken => {
                if checkout {
                    (self.acquire(req, checkout, dial, Turn::Checkout), Action::PollCheckout)
                } else {
                    self.turn_to_dial(req, checkout, dial.unwrap())
                }
            },
            Event::CheckoutPending => match dial {
                Some(dial) => self.turn_to_dial(req, checkout, dial),
                None => (self.acquire(req, checkout, None, Turn::Parked), Action::Park),
            },
            Event::CheckedOut { is_reused, is_proxied } => {
                self.go_out(req, is_reused, is_proxied)
            },
            Event::CheckoutFailed(error) => match dial {
                Some(dial) if error.is_canceled() => self.turn_to_dial(req, false, dial),
                _ => self.fail(ClientError::Normal(error)),
            },
            _ => vstd::pervasive::unreached(),
        }
    }

    /// Takes in what became of the new connection.
    fn step_dial<X>(
        self,
        req: Request<B>,
        checkout: bool,
        dial: Dial,
        event: Event<B, X>,
    ) -> (r: (Self, Action<B, ClientError<B, X>>))
        requires
            self.at(
                Stage::Acquiring { req, checkout, dial: Some(dial), turn: Turn::Dial },
            ).expects(event),
        ensures
            r.0.well_formed(),
            self.at(
                Stage::Acquiring { req, checkout, dial: Some(dial), turn: Turn::Dial },
            ).steps_to(event, r.0, r.1),
    {
        match (dial, event) {
            (Dial::Permit, Event::Permitted(permitted)) => {
                if permitted {
                    let action = Action::Connect(Destination { uri: self.dst.clone() });
                    (self.acquire(req, checkout, Some(Dial::Connect), Turn::Dial), action)
                } else {
                    let error = Error::new_canceled(Some("HTTP/2 connection in progress"));
                    self.fail_dial(req, checkout, error)
                }
            },
            (_, Event::DialPending) => {
                (self.acquire(req, checkout, Some(dial), Turn::Parked), Action::Park)
            },
            (Dial::Connect, Event::Connected { is_proxied }) => {
                let action = Action::Handshake {
                    h1_writev: self.h1_writev,
                    http2_only: self.key.ver == Ver::Http2,
                };
                let dial = Dial::Handshake { is_proxied };
                (self.acquire(req, checkout, Some(dial), Turn::Dial), action)
            },
            (Dial::Connect, Event::ConnectFailed(cause)) => {
                self.fail_dial(req, checkout, Error::new_connect(cause))
            },
            (Dial::Handshake { is_proxied }, Event::HandshakeDone) => {
                let dial = Dial::Ready { is_proxied };
                (self.acquire(req, checkout, Some(dial), Turn::Dial), Action::AwaitReady)
            },
            (Dial::Ready { is_proxied }, Event::SenderReady) => {
                let action = Action::Insert { is_proxied, ver: self.key.ver };
                let dial = Dial::Insert { is_proxied };
                (self.acquire(req, checkout, Some(dial), Turn::Dial), action)
            },
            (_, Event::DialFailed(error)) => self.fail_dial(req, checkout, error),
            (Dial::Insert { is_proxied }, Event::Inserted { is_reused }) => {
                self.go_out(req, is_reused, is_proxied)
            },
            _ => vstd::pervasive::unreached(),
        }
    }

    /// Takes in what became of the request on its connection.
    fn step_send<X>(self, reused: bool, parked: bool, event: Event<B, X>) -> (r: (
        Self,
        Action<B, ClientError<B, X>>,
    ))
        requires
            self.at(Stage::Sending { reused, parked }).expects(event),
        ensures
            r.0.well_formed(),
            self.at(Stage::Sending { reused, parked }).steps_to(event, r.0, r.1),
    {
        match event {
            Event::Woken => {
                let stage = Stage::Sending { reused, parked: false };
                (Attempt { stage, ..self }, Action::PollSend)
            },
            Event::SendPending => {
                let stage = Stage::Sending { reused, parked: true };
                (Attempt { stage, ..self }, Action::Park)
            },
            Event::SendFailed { reason, req } => match req {
                Some(req) => self.fail(
                    ClientError::Canceled { connection_reused: reused, req, reason },
                ),
                None => self.fail(ClientError::Normal(reason)),
            },
            Event::Responded { is_ready, is_body_empty } => {
                // An HTTP/2 connection is shared, so this handle to it can go at
                // once. An HTTP/1 connection is not ready again before the body
                // was read, and must not go back to the pool before that.
                let disposal = if self.key.ver == Ver::Http2 || is_ready || is_body_empty {
                    Disposal::Release
                } else {
                    Disposal::DelayEof
                };
                (Attempt { stage: Stage::Finished, ..self }, Action::Finish(disposal))
            },
            _ => vstd::pervasive::unreached(),
        }
    }

    /// Whether an event answers the question that the attempt has asked, so
    /// that it can be taken in.
    pub fn can_step<X>(&self, event: &Event<B, X>) -> (r: bool)
        ensures
            r == (self.well_formed() && self.expects(*event)),
    {
        match &self.stage {
            Stage::Acquiring { req: _, checkout, dial, turn } => match (turn, event, dial) {
                (Turn::Parked, Event::Woken, Some(Dial::Insert { .. })) => false,
                (Turn::Parked, Event::Woken, Some(_)) => true,
                (Turn::Parked, Event::Woken, None) => *checkout,
                (Turn::Checkout, _, Some(Dial::Insert { .. })) => false,
                (Turn::Checkout, Event::CheckoutPending, _) => *checkout,
                (Turn::Checkout, Event::CheckedOut { .. }, _) => *checkout,
                (Turn::Checkout, Event::CheckoutFailed(_), _) => *checkout,
                (Turn::Dial, Event::Permitted(_), Some(Dial::Permit)) => true,
                (Turn::Dial, Event::DialPending, Some(Dial::Connect)) => true,
                (Turn::Dial, Event::Connected { .. }, Some(Dial::Connect)) => true,
                (Turn::Dial, Event::ConnectFailed(_), Some(Dial::Connect)) => true,
                (Turn::Dial, Event::DialPending, Some(Dial::Handshake { .. })) => true,
                (Turn::Dial, Event::HandshakeDone, Some(Dial::Handshake { .. })) => true,
                (Turn::Dial, Event::DialFailed(_), Some(Dial::Handshake { .. })) => true,
                (Turn::Dial, Event::DialPending, Some(Dial::Ready { .. })) => true,
                (Turn::Dial, Event::SenderReady, Some(Dial::Ready { .. })) => true,
                (Turn::Dial, Event::DialFailed(_), Some(Dial::Ready { .. })) => true,
                (Turn::Dial, Event::Inserted { .. }, Some(Dial::Insert { .. })) => true,
                _ => false,
            },
            Stage::Sending { reused: _, parked } => match event {
                Event::Woken => *parked,
                Event::SendPending => !*parked,
                Event::SendFailed { .. } => !*parked,
                Event::Responded { .. } => !*parked,
                _ => false,
            },
            Stage::Finished => false,
        }
    }

    /// Takes an event in, and tells what is to be done next.
    pub fn step<X>(self, event: Event<B, X>) -> (r: (Self, Action<B, ClientError<B, X>>))
        requires
            self.well_formed(),
            self.expects(event),
        ensures
            r.0.well_formed(),
            self.steps_to(event, r.0, r.1),
    {
        let Attempt { key, dst, h1_writev, stage } = self;
        let rest = Attempt { key, dst, h1_writev, stage: Stage::Finished };
        match stage {
            Stage::Acquiring { req, checkout, dial, turn } => match turn {
                Turn::Dial => rest.step_dial(req, checkout, dial.unwrap(), event),
                _ => rest.step_checkout(req, checkout, dial, turn, event),
            },
            Stage::Sending { reused, parked } => rest.step_send(reused, parked, event),
            Stage::Finished => vstd::pervasive::unreached(),
        }
    }
}

} // verus!
