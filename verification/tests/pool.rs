use http_client::{PoolClient, PoolKey, PoolTx, Reservation, Sender, Ver};

#[derive(Clone, Debug, PartialEq)]
struct Line {
    id: u8,
    ready: bool,
    closed: bool,
}

impl Sender for Line {
    fn is_ready(&self) -> bool {
        self.ready
    }

    fn is_closed(&self) -> bool {
        self.closed
    }
}

fn line(id: u8, ready: bool, closed: bool) -> Line {
    Line { id, ready, closed }
}

fn http1(line: Line) -> PoolClient<Line, Line> {
    PoolClient { is_proxied: true, tx: PoolTx::Http1(line) }
}

fn http2(line: Line) -> PoolClient<Line, Line> {
    PoolClient { is_proxied: true, tx: PoolTx::Http2(line) }
}

#[test]
fn connections_say_what_their_senders_say() {
    assert!(http1(line(1, true, false)).is_ready());
    assert!(!http1(line(1, false, true)).is_ready());
    assert!(http2(line(1, true, false)).is_ready());
    assert!(!http2(line(1, false, true)).is_ready());
    assert!(http1(line(1, false, true)).is_closed());
    assert!(!http1(line(1, true, false)).is_closed());
    assert!(http2(line(1, false, true)).is_closed());
    assert!(!http2(line(1, true, false)).is_closed());
}

#[test]
fn http1_senders_are_polled_until_ready() {
    let mut client = http1(line(1, false, false));
    client.poll_ready().unwrap().ready = true;
    assert!(client.is_ready());
    assert!(client.is_proxied);
    assert!(http2(line(1, false, false)).poll_ready().is_none());
}

#[test]
fn requests_go_to_the_sender() {
    let mut client = http1(line(1, true, false));
    match client.send_request_retryable() {
        PoolTx::Http1(sender) => sender.id = 5,
        PoolTx::Http2(_) => panic!("an HTTP/1 connection"),
    }
    assert!(matches!(client.tx, PoolTx::Http1(Line { id: 5, .. })));

    let mut client = http2(line(1, true, false));
    match client.send_request_retryable() {
        PoolTx::Http1(_) => panic!("an HTTP/2 connection"),
        PoolTx::Http2(sender) => sender.id = 6,
    }
    assert!(matches!(client.tx, PoolTx::Http2(Line { id: 6, .. })));
}

#[test]
fn http1_connections_are_reserved_for_one() {
    match http1(line(1, true, false)).reserve() {
        Reservation::Unique(client) => {
            assert!(client.is_proxied);
            assert!(matches!(client.tx, PoolTx::Http1(Line { id: 1, .. })));
        }
        Reservation::Shared(..) => panic!("an HTTP/1 connection"),
    }
}

#[test]
fn http2_connections_are_shared() {
    match http2(line(2, true, false)).reserve() {
        Reservation::Unique(_) => panic!("an HTTP/2 connection"),
        Reservation::Shared(first, second) => {
            assert!(first.is_proxied && second.is_proxied);
            assert!(matches!(first.tx, PoolTx::Http2(Line { id: 2, .. })));
            assert!(matches!(second.tx, PoolTx::Http2(Line { id: 2, .. })));
        }
    }
}

#[test]
fn keys_clone() {
    let key = PoolKey { domain: "http://hyper.rs".to_owned(), ver: Ver::Http2 };
    let clone = key.clone();
    assert_eq!(clone.domain, "http://hyper.rs");
    assert_eq!(clone.ver, Ver::Http2);
}
