//! Requests.

use vstd::prelude::*;

use crate::headers;
use crate::uri::{same_text, Uri, UriView};

verus! {

/// The method of a request.
#[derive(Debug)]
pub enum Method {
    Options,
    Get,
    Post,
    Put,
    Delete,
    Head,
    Trace,
    Connect,
    Patch,
    /// Any other method, by its name.
    Extension(String),
}

impl Method {
    /// Whether this is the method `CONNECT`, also where it is given by its name.
    pub open spec fn connects(self) -> bool {
        match self {
            Method::Connect => true,
            Method::Extension(name) => name@ == "CONNECT"@,
            _ => false,
        }
    }

    /// Tells whether this is the method `CONNECT`, also where it is given by its
    /// name.
    pub fn is_connect(&self) -> (r: bool)
        ensures
            r == self.connects(),
    {
        match self {
            Method::Connect => true,
            Method::Extension(name) => same_text(name.as_str(), "CONNECT"),
            _ => false,
        }
    }
}

/// The version of HTTP that a request asks for.
#[derive(Clone, Copy, Debug, PartialEq, Eq, Structural)]
pub enum Version {
    Http09,
    Http10,
    Http11,
    Http2,
}

/// A request with a body of type `B`.
#[derive(Debug)]
pub struct Request<B> {
    pub method: Method,
    pub uri: Uri,
    pub version: Version,
    pub headers: http::header::HeaderMap<http::header::HeaderValue>,
    pub body: B,
}

/// What a request says.
#[verifier::ext_equal]
pub struct RequestView<B> {
    pub method: Method,
    pub uri: UriView,
    pub version: Version,
    pub headers: Map<Seq<char>, Seq<Seq<u8>>>,
    pub body: B,
}

impl<B> View for Request<B> {
    type V = RequestView<B>;

    open spec fn view(&self) -> RequestView<B> {
        RequestView {
            method: self.method,
            uri: self.uri@,
            version: self.version,
            headers: headers::header_lines(self.headers),
            body: self.body,
        }
    }
}

impl<B> Request<B> {
    /// A `GET` request for `/` in HTTP/1.1, without headers.
    pub fn new(body: B) -> (r: Self)
        ensures
            r@ == (RequestView {
                method: Method::Get,
                uri: UriView { scheme: None, authority: None, path_and_query: Some("/"@) },
                version: Version::Http11,
                headers: Map::empty(),
                body,
            }),
    {
        Request {
            method: Method::Get,
            uri: Uri::parse("/").unwrap(),
            version: Version::Http11,
            headers: headers::no_headers(),
            body,
        }
    }
}

} // verus!
