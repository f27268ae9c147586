use std::sync::Arc;

use http_client::{Builder, Client, Duration, Exec, HttpConnector, Ver};

#[test]
fn default_configuration() {
    let builder: Builder<u8> = Client::builder();
    assert!(builder.keep_alive);
    assert_eq!(builder.keep_alive_timeout, Some(Duration { secs: 90, nanos: 0 }));
    assert!(builder.h1_writev);
    assert_eq!(builder.max_idle, 5);
    assert!(builder.retry_canceled_requests);
    assert!(builder.set_host);
    assert_eq!(builder.ver, Ver::Http1);
    assert!(matches!(builder.executor, Exec::Default));
}

#[test]
fn settings_chain() {
    let mut builder: Builder<u8> = Builder::default();
    builder
        .keep_alive(false)
        .keep_alive_timeout(Some(Duration::from_secs(5)))
        .http1_writev(false)
        .http2_only(true)
        .retry_canceled_requests(false)
        .set_host(false)
        .executor(7);
    let client = builder.build("connector");
    assert_eq!(*client.connector, "connector");
    assert!(!client.pool.enabled);
    assert_eq!(client.pool.timeout, Some(Duration { secs: 5, nanos: 0 }));
    assert!(!client.h1_writev);
    assert_eq!(client.ver, Ver::Http2);
    assert!(!client.retry_canceled_requests);
    assert!(!client.set_host);
    assert!(matches!(client.executor, Exec::Executor(ref executor) if **executor == 7));

    builder.http2_only(false).keep_alive_timeout(None);
    let client = builder.clone().build("other");
    assert_eq!(client.ver, Ver::Http1);
    assert_eq!(client.pool.timeout, None);
    assert!(!client.set_host);
}

#[test]
fn default_connector() {
    let client: Client<HttpConnector, u8> = Client::new();
    assert_eq!(client.connector.threads, 4);
    assert_eq!(client.connector.keepalive, Some(Duration::from_secs(90)));
    assert!(client.pool.enabled);

    let client: Client<HttpConnector, u8> = Client::default();
    assert_eq!(client.connector.threads, 4);
    assert!(client.set_host);

    let mut builder: Builder<u8> = Client::builder();
    let client = builder.keep_alive(false).build_http();
    assert_eq!(client.connector.keepalive, None);
    assert!(!client.pool.enabled);
    assert_eq!(client.pool.timeout, Some(Duration::from_secs(90)));
}

#[test]
fn clones_share_the_connector() {
    let mut builder: Builder<u8> = Builder::default();
    builder.executor(3);
    let client = builder.build(String::from("connector"));
    let clone = client.clone();
    assert!(Arc::ptr_eq(&client.connector, &clone.connector));
    assert_eq!(*clone.connector, "connector");
    assert!(clone.retry_canceled_requests);
    assert!(matches!((&client.executor, &clone.executor),
        (Exec::Executor(a), Exec::Executor(b)) if Arc::ptr_eq(a, b)));
}

#[test]
fn clones_share_the_pool() {
    let mut builder: Builder<u8> = Builder::default();
    let client = builder.build(());
    let clone = client.clone();
    assert!(Arc::ptr_eq(&client.pool.handle, &clone.pool.handle));
    assert_eq!(clone.pool.enabled, client.pool.enabled);
    assert_eq!(clone.pool.timeout, client.pool.timeout);
}

#[test]
fn builds_have_separate_pools() {
    let mut builder: Builder<u8> = Builder::default();
    let first = builder.build(());
    let second = builder.build(());
    let third = builder.clone().build_http();
    let fourth = builder.keep_alive(false).build_http();
    assert!(!Arc::ptr_eq(&first.pool.handle, &second.pool.handle));
    assert!(!Arc::ptr_eq(&second.pool.handle, &third.pool.handle));
    assert!(!Arc::ptr_eq(&third.pool.handle, &fourth.pool.handle));
    assert_eq!(first.pool.timeout, second.pool.timeout);
    assert_eq!(first.set_host, second.set_host);
}
