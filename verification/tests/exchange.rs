use http_client::{
    Action, Builder, Cause, Client, Dial, Disposal, Error, Event, FutureResponse, Request, Uri,
    Ver,
};

type Future = FutureResponse<(), (), u8, u8>;
type Happening = Event<u8, u8>;
type Doing = Action<u8, Error<u8>>;

fn build(configure: fn(&mut Builder<()>)) -> Client<(), ()> {
    let mut builder = Builder::default();
    configure(&mut builder);
    builder.build(())
}

fn request(uri: &str) -> Request<u8> {
    let mut req = Request::new(9);
    req.uri = Uri::parse(uri).unwrap();
    req
}

fn start(configure: fn(&mut Builder<()>), uri: &str) -> Future {
    let client = build(configure);
    let req = request(uri);
    assert!(client.can_request(&req));
    client.request(req)
}

fn tell(future: Future, event: Happening) -> (Future, Doing) {
    assert!(future.can_poll(&event));
    future.poll(event)
}

fn tell_all(future: Future, events: Vec<Happening>) -> (Future, Doing) {
    let mut state = (future, Action::Park);
    for event in events {
        state = tell(state.0, event);
    }
    state
}

fn canceled() -> Error<u8> {
    Error::new_canceled(None)
}

fn sent(action: Doing) -> Request<u8> {
    match action {
        Action::Send(req) => req,
        other => panic!("not sent: {:?}", other),
    }
}

#[test]
fn the_pool_is_asked_first() {
    let future = start(|_| (), "http://hyper.rs/a");
    let (future, action) = tell(future, Event::Woken);
    assert!(matches!(action, Action::PollCheckout));
    assert!(!future.can_poll(&Event::Woken));
    let (_, action) = tell(future, Event::CheckedOut { is_reused: true, is_proxied: false });
    let req = sent(action);
    assert_eq!(req.uri.to_string(), "/a");
    assert_eq!(req.body, 9);
    assert_eq!(req.headers[http::header::HOST], "hyper.rs");
}

#[test]
fn a_connection_is_made_meanwhile() {
    let future = start(|_| (), "http://hyper.rs/a");
    let (future, action) = tell_all(future, vec![Event::Woken, Event::CheckoutPending]);
    assert!(matches!(action, Action::AskPermit(ref key)
        if key.domain == "http://hyper.rs" && key.ver == Ver::Http1));
    let (future, action) = tell(future, Event::Permitted(true));
    assert!(matches!(action, Action::Connect(ref dst) if dst.uri.to_string() == "http://hyper.rs/a"));
    let (future, action) = tell(future, Event::DialPending);
    assert!(matches!(action, Action::Park));
    let (future, action) = tell(future, Event::Woken);
    assert!(matches!(action, Action::PollCheckout));
    let (future, action) = tell(future, Event::CheckoutPending);
    assert!(matches!(action, Action::PollDial));
    let (future, action) = tell(future, Event::Connected { is_proxied: true });
    assert!(matches!(action, Action::Handshake { h1_writev: true, http2_only: false }));
    let (future, action) = tell(future, Event::HandshakeDone);
    assert!(matches!(action, Action::AwaitReady));
    let (future, action) = tell(future, Event::SenderReady);
    assert!(matches!(action, Action::Insert { is_proxied: true, ver: Ver::Http1 }));
    let (_, action) = tell(future, Event::Inserted { is_reused: false });
    assert_eq!(sent(action).uri.to_string(), "http://hyper.rs/a");
}

#[test]
fn http2_requests_go_out_as_they_are() {
    let future = start(
        |builder| {
            builder.http2_only(true).http1_writev(false);
        },
        "https://hyper.rs/a",
    );
    let (future, action) = tell_all(
        future,
        vec![
            Event::Woken,
            Event::CheckoutPending,
            Event::Permitted(true),
            Event::Connected { is_proxied: false },
        ],
    );
    assert!(matches!(action, Action::Handshake { h1_writev: false, http2_only: true }));
    let (future, action) = tell_all(future, vec![Event::HandshakeDone, Event::SenderReady]);
    assert!(matches!(action, Action::Insert { is_proxied: false, ver: Ver::Http2 }));
    let (future, action) = tell(future, Event::Inserted { is_reused: false });
    let req = sent(action);
    assert_eq!(req.uri.to_string(), "https://hyper.rs/a");
    assert_eq!(req.headers[http::header::HOST], "hyper.rs");
    let responded = Event::Responded { is_ready: false, is_body_empty: false };
    let (_, action) = tell(future, responded);
    assert!(matches!(action, Action::Finish(Disposal::Release)));
}

#[test]
fn connections_go_back_when_they_can() {
    let finish = |is_ready, is_body_empty| {
        let future = start(|_| (), "http://hyper.rs/");
        let (future, action) = tell_all(
            future,
            vec![
                Event::Woken,
                Event::CheckedOut { is_reused: true, is_proxied: false },
                Event::SendPending,
            ],
        );
        assert!(matches!(action, Action::Park));
        let (future, action) = tell(future, Event::Woken);
        assert!(matches!(action, Action::PollSend));
        let (future, action) = tell(future, Event::Responded { is_ready, is_body_empty });
        assert!(!future.can_poll(&Event::Woken));
        match action {
            Action::Finish(disposal) => disposal,
            other => panic!("not over: {:?}", other),
        }
    };
    assert_eq!(finish(true, false), Disposal::Release);
    assert_eq!(finish(false, true), Disposal::Release);
    assert_eq!(finish(true, true), Disposal::Release);
    assert_eq!(finish(false, false), Disposal::DelayEof);
}

#[test]
fn a_canceled_checkout_leaves_the_new_connection() {
    let future = start(|_| (), "http://hyper.rs/");
    let (future, action) = tell_all(future, vec![Event::Woken, Event::CheckoutFailed(canceled())]);
    assert!(matches!(action, Action::AskPermit(_)));
    let (future, action) = tell_all(future, vec![Event::Permitted(true), Event::DialPending]);
    assert!(matches!(action, Action::Park));
    let (future, action) = tell(future, Event::Woken);
    assert!(matches!(action, Action::PollDial));
    let (future, action) = tell(future, Event::ConnectFailed(4));
    assert!(matches!(action, Action::Fail(Error::Connect(4))));
    assert!(!future.can_poll(&Event::Woken));
}

#[test]
fn a_connection_in_progress_leaves_the_pool() {
    let future = start(
        |builder| {
            builder.http2_only(true);
        },
        "http://hyper.rs/",
    );
    let (future, action) = tell_all(
        future,
        vec![Event::Woken, Event::CheckoutPending, Event::Permitted(false)],
    );
    assert!(matches!(action, Action::PollCheckout));
    let (future, action) = tell(future, Event::CheckoutPending);
    assert!(matches!(action, Action::Park));
    let (future, action) = tell(future, Event::Woken);
    assert!(matches!(action, Action::PollCheckout));
    let (_, action) = tell(future, Event::CheckoutFailed(canceled()));
    assert!(matches!(action, Action::Fail(Error::Canceled(Cause::Unknown))));
}

#[test]
fn nothing_left_to_wait_for() {
    let future = start(|_| (), "http://hyper.rs/");
    let (_, action) = tell_all(
        future,
        vec![Event::Woken, Event::CheckoutFailed(canceled()), Event::Permitted(false)],
    );
    assert!(matches!(
        action,
        Action::Fail(Error::Canceled(Cause::Message("HTTP/2 connection in progress")))
    ));
}

#[test]
fn other_failures_are_final() {
    let future = start(|_| (), "http://hyper.rs/");
    let (_, action) = tell_all(
        future,
        vec![Event::Woken, Event::CheckoutFailed(Error::Transport(3))],
    );
    assert!(matches!(action, Action::Fail(Error::Transport(3))));

    let future = start(|_| (), "http://hyper.rs/");
    let (_, action) = tell_all(
        future,
        vec![
            Event::Woken,
            Event::CheckoutPending,
            Event::Permitted(true),
            Event::ConnectFailed(5),
        ],
    );
    assert!(matches!(action, Action::Fail(Error::Connect(5))));
}

#[test]
fn a_canceled_handshake_leaves_the_pool() {
    let future = start(|_| (), "http://hyper.rs/");
    let (future, action) = tell_all(
        future,
        vec![
            Event::Woken,
            Event::CheckoutPending,
            Event::Permitted(true),
            Event::Connected { is_proxied: false },
            Event::DialFailed(canceled()),
        ],
    );
    assert!(matches!(action, Action::PollCheckout));
    let (_, action) = tell(future, Event::CheckedOut { is_reused: true, is_proxied: false });
    assert_eq!(sent(action).uri.to_string(), "/");
}

fn on_a_connection(configure: fn(&mut Builder<()>), is_reused: bool) -> (Future, Request<u8>) {
    let future = start(configure, "http://hyper.rs/a");
    let (future, action) = tell_all(
        future,
        vec![Event::Woken, Event::CheckedOut { is_reused, is_proxied: false }],
    );
    (future, sent(action))
}

#[test]
fn requests_given_back_are_tried_again() {
    let (future, req) = on_a_connection(|_| (), true);
    assert_eq!(req.uri.to_string(), "/a");
    let failed = Event::SendFailed { reason: canceled(), req: Some(req) };
    let (future, action) = tell(future, failed);
    assert!(matches!(action, Action::Checkout(ref key) if key.domain == "http://hyper.rs"));
    let (future, action) = tell_all(
        future,
        vec![Event::Woken, Event::CheckedOut { is_reused: true, is_proxied: true }],
    );
    let req = sent(action);
    assert_eq!(req.uri.to_string(), "http://hyper.rs/a");
    assert_eq!(req.body, 9);
    assert_eq!(req.headers.len(), 1);
    let failed = Event::SendFailed { reason: canceled(), req: Some(req) };
    let (_, action) = tell(future, failed);
    assert!(matches!(action, Action::Checkout(_)));
}

#[test]
fn fresh_connections_are_not_tried_again() {
    let (future, req) = on_a_connection(|_| (), false);
    let failed = Event::SendFailed { reason: canceled(), req: Some(req) };
    let (future, action) = tell(future, failed);
    assert!(matches!(action, Action::Fail(Error::Canceled(_))));
    assert!(!future.can_poll(&Event::Woken));
}

#[test]
fn requests_are_not_tried_again_unasked() {
    let configure = |builder: &mut Builder<()>| {
        builder.retry_canceled_requests(false);
    };
    let (future, req) = on_a_connection(configure, true);
    let failed = Event::SendFailed { reason: canceled(), req: Some(req) };
    let (_, action) = tell(future, failed);
    assert!(matches!(action, Action::Fail(Error::Canceled(_))));
}

#[test]
fn requests_that_are_gone_are_not_tried_again() {
    let (future, _) = on_a_connection(|_| (), true);
    let failed = Event::SendFailed { reason: Error::Transport(1), req: None };
    let (_, action) = tell(future, failed);
    assert!(matches!(action, Action::Fail(Error::Transport(1))));
}

#[test]
fn only_the_answer_is_taken() {
    let future = start(|_| (), "http://hyper.rs/");
    assert!(!future.can_poll(&Event::CheckoutPending));
    assert!(!future.can_poll(&Event::SendPending));
    let (future, _) = tell_all(
        future,
        vec![Event::Woken, Event::CheckoutPending, Event::Permitted(true)],
    );
    assert!(!future.can_poll(&Event::HandshakeDone));
    assert!(!future.can_poll(&Event::Permitted(true)));
    assert!(future.can_poll(&Event::Connected { is_proxied: false }));
    assert_ne!(Dial::Connect, Dial::Permit);
}

#[test]
fn kinds_of_errors() {
    assert!(Error::<u8>::new_canceled(Some("gone")).is_canceled());
    assert!(!Error::new_connect(2u8).is_canceled());
    assert!(matches!(Error::<u8>::new_canceled(None), Error::Canceled(Cause::Unknown)));
}
