//! Connectors: the settings of the default one, and what one is asked for.

use vstd::prelude::*;

use crate::duration::Duration;
use crate::uri::Uri;

verus! {

/// The default connector, which reaches its destinations over TCP.
#[derive(Clone, Copy, Debug)]
pub struct HttpConnector {
    /// How many threads look up names.
    pub threads: usize,
    /// How long a socket may be idle before it is probed, if it is at all.
    pub keepalive: Option<Duration>,
}

impl HttpConnector {
    /// A connector that looks up names on `threads` threads and probes no idle
    /// sockets.
    pub fn new(threads: usize) -> (r: Self)
        ensures
            r == (HttpConnector { threads, keepalive: None }),
    {
        HttpConnector { threads, keepalive: None }
    }

    /// Sets how long a socket may be idle before it is probed.
    pub fn set_keepalive(&mut self, dur: Option<Duration>)
        ensures
            *final(self) == (HttpConnector { keepalive: dur, ..*old(self) }),
    {
        self.keepalive = dur;
    }
}

/// Where a connector is asked to connect to.
#[derive(Debug)]
pub struct Destination {
    pub uri: Uri,
}

} // verus!
