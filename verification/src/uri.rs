//! The URIs of requests.

use vstd::prelude::*;

use crate::text;

verus! {

/// An error of the `http` crate's URI parsers.
#[verifier::external_type_specification]
#[verifier::external_body]
pub struct ExInvalidUri(http::uri::InvalidUri);

/// The parts of a URI: the scheme, the authority, and the path together with
/// the query.
#[verifier::ext_equal]
pub struct UriView {
    pub scheme: Option<Seq<char>>,
    pub authority: Option<Seq<char>>,
    pub path_and_query: Option<Seq<char>>,
}

impl UriView {
    /// Whether the parts that are there make up a URI. Either all three are
    /// there (`http://example.com/path`), or only an authority is
    /// (`example.com`), or only a path is (`/path`), or none is.
    pub open spec fn complete(self) -> bool {
        &&& self.scheme is Some ==> self.authority is Some && self.path_and_query is Some
        &&& self.scheme is None ==> self.authority is None || self.path_and_query is None
    }

    /// Whether no part is there.
    pub open spec fn is_empty(self) -> bool {
        self.scheme is None && self.authority is None && self.path_and_query is None
    }

    /// The path and query that the URI leads to. Where no part is there, that is
    /// `/`.
    pub open spec fn target(self) -> Option<Seq<char>> {
        if self.is_empty() {
            Some("/"@)
        } else {
            self.path_and_query
        }
    }

    /// Whether each part can stand where it does: a scheme, printable characters
    /// and at least one of them in the authority, and a path.
    pub open spec fn separable(self) -> bool {
        &&& self.scheme matches Some(scheme) ==> is_scheme(scheme)
        &&& self.authority matches Some(authority) ==> authority.len() > 0 && text::is_graphic(
            authority,
        )
        &&& self.path_and_query matches Some(path) ==> is_path(path)
    }
}

/// Whether a character can stand in a scheme.
pub open spec fn is_scheme_char(c: char) -> bool {
    ||| 'a' <= c <= 'z'
    ||| 'A' <= c <= 'Z'
    ||| '0' <= c <= '9'
    ||| c == '+' || c == '-' || c == '.' || c == '~'
}

/// Whether a text is the scheme of a URI.
pub open spec fn is_scheme(s: Seq<char>) -> bool {
    &&& s.len() <= 64
    &&& forall|i: int| 0 <= i < s.len() ==> is_scheme_char(#[trigger] s[i])
}

/// Whether a character can stand in a query, which begins with its question
/// mark.
pub open spec fn is_query_char(c: char) -> bool {
    '!' <= c <= '~' && c != '"' && c != '#' && c != '<' && c != '>'
}

/// Whether a character can stand in a path.
pub open spec fn is_path_char(c: char) -> bool {
    is_query_char(c) && c != '?' && c != '`' && c != '{' && c != '}'
}

/// Where the question mark before the query stands in a path, or the length of
/// the path if it has none.
pub open spec fn query_index(s: Seq<char>) -> int {
    text::before_first(s, '?').len() as int
}

/// Whether a path has a question mark that is not taken for the start of a
/// query. The `http` crate keeps the place of the question mark in sixteen bits,
/// and the largest number that they can hold stands for a path without one.
pub open spec fn hides_query(s: Seq<char>) -> bool {
    query_index(s) < s.len() && query_index(s) % 65536 == 65535
}

/// Whether a text is the path of a URI together with its query. What stands
/// behind a question mark that is not taken for one can be anything.
pub open spec fn is_path(s: Seq<char>) -> bool {
    &&& s.len() > 0
    &&& forall|i: int|
        0 <= i < s.len() ==> if i < query_index(s) {
            is_path_char(#[trigger] s[i])
        } else {
            is_query_char(s[i]) || hides_query(s)
        }
}

/// Whether a text is only a fragment, or nothing at all.
pub open spec fn is_bare(s: Seq<char>) -> bool {
    s.len() == 0 || s[0] == '#'
}

/// The path and query in a text that may have a fragment behind them. Where
/// nothing is left, the path is `/`. The fragment goes unnoticed where it stands
/// behind a question mark that is not taken for one.
pub open spec fn path_of(s: Seq<char>) -> Seq<char> {
    if is_bare(s) {
        "/"@
    } else if hides_query(s) && !text::before_first(s, '?').contains('#') {
        s
    } else {
        text::before_first(s, '#')
    }
}

/// A path has no fragment.
pub proof fn lemma_path_is_whole(s: Seq<char>)
    requires
        is_path(s),
    ensures
        !is_bare(s),
        path_of(s) == s,
{
    let path = text::before_first(s, '?');
    text::lemma_before_first(s, '?');
    assert forall|i: int| 0 <= i < path.len() implies path[i] != '#' by {
        assert(is_path_char(s[i]));
    }
    assert(is_path_char(s[0]) || is_query_char(s[0]));
    if !hides_query(s) {
        assert forall|i: int| 0 <= i < s.len() implies s[i] != '#' by {
            assert(is_path_char(s[i]) || is_query_char(s[i]));
        }
        assert(s + Seq::empty() =~= s);
        text::lemma_before_first_of(s, '#', Seq::empty());
    }
}

/// `/` is a path.
pub proof fn lemma_slash_is_path()
    ensures
        is_path("/"@),
{
    reveal_strlit("/");
}

/// The authority without the user information that may stand before it.
pub open spec fn host_and_port(authority: Seq<char>) -> Seq<char> {
    text::after_last(authority, '@')
}

/// Whether a host can be read from the authority: what opens with a bracket,
/// as an IPv6 address does, has to close it.
pub open spec fn has_host(authority: Seq<char>) -> bool {
    host_and_port(authority).len() > 0 && host_and_port(authority)[0] == '[' ==> host_and_port(
        authority,
    ).contains(']')
}

/// The host of an authority: an address in brackets, brackets included, or
/// everything up to the first colon.
pub open spec fn host_of(authority: Seq<char>) -> Seq<char> {
    let rest = host_and_port(authority);
    if rest.len() > 0 && rest[0] == '[' {
        text::before_first(rest, ']').push(']')
    } else {
        text::before_first(rest, ':')
    }
}

/// The port of an authority: the number after its last colon, if that is one.
pub open spec fn port_of(authority: Seq<char>) -> Option<u16> {
    if authority.contains(':') {
        text::read_u16(text::after_last(authority, ':'))
    } else {
        None
    }
}

/// A host is as printable as the authority that it stands in.
pub proof fn lemma_host_is_graphic(authority: Seq<char>)
    requires
        text::is_graphic(authority),
    ensures
        text::is_graphic(host_of(authority)),
{
    text::lemma_after_last(authority, '@');
    let rest = host_and_port(authority);
    text::lemma_before_first(rest, ']');
    text::lemma_before_first(rest, ':');
}

/// The URI that a text stands for, where it stands for one.
pub uninterp spec fn parsed_uri(text: Seq<char>) -> Option<UriView>;

/// Whether a text is the authority of a URI.
pub uninterp spec fn is_authority(text: Seq<char>) -> bool;

/// The three parts of a URI as optional text.
pub open spec fn parts_view(
    parts: (Option<String>, Option<String>, Option<String>),
) -> UriView {
    UriView {
        scheme: match parts.0 {
            Some(s) => Some(s@),
            None => None,
        },
        authority: match parts.1 {
            Some(s) => Some(s@),
            None => None,
        },
        path_and_query: match parts.2 {
            Some(s) => Some(s@),
            None => None,
        },
    }
}

/// Parses a URI with `<http::Uri as FromStr>::from_str` and takes its scheme,
/// authority and path as `scheme_part`, `authority_part` and `path_and_query`
/// give them.
///
/// What the text parses to is `parsed_uri` of it. Of a URI so parsed it is
/// claimed that its parts make up a URI and one of them is there, that its
/// scheme and its path are of the characters that may stand there, that its
/// authority is what `http` takes for one, not empty and printable; and that `/`
/// parses to itself.
#[verifier::external_body]
fn parse_uri(text: &str) -> (r: Result<
    (Option<String>, Option<String>, Option<String>),
    http::uri::InvalidUri,
>)
    ensures
        r is Ok <==> parsed_uri(text@) is Some,
        r matches Ok(parts) ==> {
            &&& parsed_uri(text@) == Some(parts_view(parts))
            &&& parts_view(parts).complete()
            &&& !parts_view(parts).is_empty()
            &&& parts_view(parts).separable()
            &&& parts.1 matches Some(authority) ==> is_authority(authority@)
        },
        text@ == "/"@ ==> r is Ok && parts_view(r->Ok_0) == (UriView {
            scheme: None,
            authority: None,
            path_and_query: Some("/"@),
        }),
{
    let uri: http::Uri = text.parse()?;
    Ok(
        (
            uri.scheme_part().map(|s| s.as_str().to_owned()),
            uri.authority_part().map(|a| a.as_str().to_owned()),
            uri.path_and_query().map(|p| p.as_str().to_owned()),
        ),
    )
}

/// Asks `<http::uri::Authority as FromStr>::from_str` whether a text is the
/// authority of a URI, which is `is_authority` of it. A text that it accepts is
/// claimed to be printable and not empty.
#[verifier::external_body]
fn accepts_authority(text: &str) -> (r: bool)
    ensures
        r == is_authority(text@),
        r ==> text@.len() > 0 && text::is_graphic(text@),
{
    text.parse::<http::uri::Authority>().is_ok()
}

/// Asks `<http::uri::Scheme as FromStr>::from_str` whether a text is the scheme
/// of a URI: at most 64 letters, digits and `+`, `-`, `.` and `~`.
#[verifier::external_body]
fn accepts_scheme(text: &str) -> (r: bool)
    ensures
        r == is_scheme(text@),
{
    text.parse::<http::uri::Scheme>().is_ok()
}

/// Reads a path and its query with `<http::uri::PathAndQuery as FromStr>::from_str`,
/// and hands out what `as_str` gives of it. A fragment is dropped without a look
/// at its characters. A question mark at index 65535, or any index that leaves
/// this remainder by 65536, is not taken for the start of a query, and neither
/// are the characters behind it looked at nor a fragment dropped there.
#[verifier::external_body]
fn parse_path(text: &str) -> (r: Result<String, http::uri::InvalidUri>)
    ensures
        r is Ok <==> is_path(path_of(text@)),
        r matches Ok(path) ==> path@ == path_of(text@),
{
    let path: http::uri::PathAndQuery = text.parse()?;
    Ok(path.as_str().to_owned())
}

/// Reads the host of an authority with `http::uri::Authority::host`, which is
/// what `http::Uri::host` does with the authority of a URI.
///
/// It does not return where a bracket is opened and not closed.
#[verifier::external_body]
fn authority_host(authority: &str) -> (r: String)
    requires
        is_authority(authority@),
        has_host(authority@),
    ensures
        r@ == host_of(authority@),
{
    authority.parse::<http::uri::Authority>().unwrap().host().to_owned()
}

/// Reads the port of an authority with `http::uri::Authority::port_u16`, which
/// is what `http::Uri::port` does with the authority of a URI.
#[verifier::external_body]
fn authority_port(authority: &str) -> (r: Option<u16>)
    requires
        is_authority(authority@),
    ensures
        r == port_of(authority@),
{
    authority.parse::<http::uri::Authority>().unwrap().port_u16()
}

/// A text that is no URI.
#[derive(Clone, Copy, Debug, PartialEq, Eq, Structural)]
pub struct UriError;

/// Parts that make up no URI.
#[derive(Clone, Copy, Debug, PartialEq, Eq, Structural)]
pub enum InvalidUriParts {
    /// There is an authority and a path, but no scheme.
    SchemeMissing,
    /// There is a scheme, but no authority.
    AuthorityMissing,
    /// There is a scheme, but no path.
    PathAndQueryMissing,
    /// The scheme is too long, or has a character that may not stand there.
    InvalidScheme,
    /// The authority is none.
    InvalidAuthority,
    /// A character may not stand in the path or the query.
    InvalidPathAndQuery,
}

/// The URI of a request.
#[derive(Debug)]
pub struct Uri {
    scheme: Option<String>,
    authority: Option<String>,
    path_and_query: Option<String>,
}

impl View for Uri {
    type V = UriView;

    closed spec fn view(&self) -> UriView {
        parts_view((self.scheme, self.authority, self.path_and_query))
    }
}

impl Uri {
    #[verifier::type_invariant]
    spec fn well_formed(self) -> bool {
        &&& self@.complete()
        &&& self@.separable()
        &&& self@.authority matches Some(authority) ==> is_authority(authority)
    }
}

impl Clone for Uri {
    fn clone(&self) -> (r: Self)
        ensures
            r == *self,
    {
        proof {
            use_type_invariant(self);
        }
        Uri {
            scheme: self.scheme.clone(),
            authority: self.authority.clone(),
            path_and_query: self.path_and_query.clone(),
        }
    }
}

impl Uri {
    /// Parses a URI.
    pub fn parse(text: &str) -> (r: Result<Uri, UriError>)
        ensures
            r is Ok <==> parsed_uri(text@) is Some,
            r matches Ok(uri) ==> {
                &&& parsed_uri(text@) == Some(uri@)
                &&& uri@.complete()
                &&& uri@.separable()
            },
            text@ == "/"@ ==> r is Ok && r->Ok_0@ == (UriView {
                scheme: None,
                authority: None,
                path_and_query: Some("/"@),
            }),
    {
        match parse_uri(text) {
            Ok((scheme, authority, path_and_query)) => {
                Ok(Uri { scheme, authority, path_and_query })
            },
            Err(_) => Err(UriError),
        }
    }

    /// The scheme, `http` of `http://example.com/path`.
    pub fn scheme_part(&self) -> (r: Option<&str>)
        ensures
            r is Some <==> self@.scheme is Some,
            r matches Some(scheme) ==> scheme@ == self@.scheme->0,
            self@.complete(),
            self@.separable(),
    {
        proof {
            use_type_invariant(self);
        }
        match &self.scheme {
            Some(scheme) => Some(scheme.as_str()),
            None => None,
        }
    }

    /// The authority, `example.com` of `http://example.com/path`.
    pub fn authority_part(&self) -> (r: Option<&str>)
        ensures
            r is Some <==> self@.authority is Some,
            r matches Some(authority) ==> authority@ == self@.authority->0,
            self@.complete(),
            self@.separable(),
    {
        proof {
            use_type_invariant(self);
        }
        match &self.authority {
            Some(authority) => Some(authority.as_str()),
            None => None,
        }
    }

    /// The path and the query, `/path?key=value` of
    /// `http://example.com/path?key=value`.
    pub fn path_and_query(&self) -> (r: Option<&str>)
        ensures
            r is Some <==> self@.target() is Some,
            r matches Some(path) ==> path@ == self@.target()->0,
            self@.complete(),
            self@.separable(),
    {
        proof {
            use_type_invariant(self);
        }
        match &self.path_and_query {
            Some(path) => Some(path.as_str()),
            None => if self.authority.is_none() {
                Some("/")
            } else {
                None
            },
        }
    }

    /// The host, `example.com` of `http://example.com:8080/path`.
    pub fn host(&self) -> (r: Option<String>)
        requires
            self@.authority matches Some(authority) ==> has_host(authority),
        ensures
            r is Some <==> self@.authority is Some,
            r matches Some(host) ==> host@ == host_of(self@.authority->0) && text::is_graphic(host@),
    {
        proof {
            use_type_invariant(self);
            if let Some(authority) = self@.authority {
                lemma_host_is_graphic(authority);
            }
        }
        match &self.authority {
            Some(authority) => Some(authority_host(authority.as_str())),
            None => None,
        }
    }

    /// Whether `host` can read a host from the URI.
    pub fn has_host(&self) -> (r: bool)
        ensures
            r <==> (self@.authority is Some && has_host(self@.authority->0)),
    {
        match &self.authority {
            Some(authority) => {
                let rest = after_last_char(authority.as_str(), '@');
                rest.is_empty() || rest.get_char(0) != '[' || contains_char(rest, ']')
            },
            None => false,
        }
    }

    /// The port, `8080` of `http://example.com:8080/path`.
    pub fn port(&self) -> (r: Option<u16>)
        ensures
            r == match self@.authority {
                Some(authority) => port_of(authority),
                None => None,
            },
    {
        proof {
            use_type_invariant(self);
        }
        match &self.authority {
            Some(authority) => authority_port(authority.as_str()),
            None => None,
        }
    }
}

/// Whether two texts are the same.
pub(crate) fn same_text(a: &str, b: &str) -> (r: bool)
    ensures
        r == (a@ == b@),
{
    a.to_owned() == b.to_owned()
}

/// What a request target becomes: without scheme and authority, unless the
/// connection leads to a proxy that has to be told both.
pub open spec fn relative_uri(uri: UriView, is_proxied: bool) -> UriView {
    if is_proxied && uri.scheme != Some("https"@) {
        uri
    } else {
        UriView {
            scheme: None,
            authority: None,
            path_and_query: match uri.path_and_query {
                Some(path) => Some(path),
                None => Some("/"@),
            },
        }
    }
}

/// What is wrong with parts that make up no URI.
pub open spec fn parts_error(parts: UriView) -> Option<InvalidUriParts> {
    if parts.scheme is Some && parts.authority is None {
        Some(InvalidUriParts::AuthorityMissing)
    } else if parts.scheme is Some && parts.path_and_query is None {
        Some(InvalidUriParts::PathAndQueryMissing)
    } else if parts.scheme is None && parts.authority is Some && parts.path_and_query is Some {
        Some(InvalidUriParts::SchemeMissing)
    } else if parts.scheme is Some && !is_scheme(parts.scheme->0) {
        Some(InvalidUriParts::InvalidScheme)
    } else if parts.authority is Some && !is_authority(parts.authority->0) {
        Some(InvalidUriParts::InvalidAuthority)
    } else if parts.path_and_query is Some && !is_path(path_of(parts.path_and_query->0)) {
        Some(InvalidUriParts::InvalidPathAndQuery)
    } else {
        None
    }
}

/// The URI that parts make up: without a fragment, and empty where the path was
/// the only part and only a fragment.
pub open spec fn made_of(parts: UriView) -> UriView {
    UriView {
        path_and_query: match parts.path_and_query {
            Some(path) => if parts.authority is None && is_bare(path) {
                None
            } else {
                Some(path_of(path))
            },
            None => None,
        },
        ..parts
    }
}

/// The text of a path and its query. Where there is no path in front of the
/// question mark, it is written as `/`. The question mark is written where
/// sixteen bits say that it stands, over what stands there.
pub open spec fn path_text(path: Seq<char>) -> Seq<char> {
    let at = query_index(path) % 65536;
    if query_index(path) == path.len() || hides_query(path) {
        path
    } else if at == 0 {
        "/?"@ + path.skip(1)
    } else {
        path.take(at) + "?"@ + path.skip(at + 1)
    }
}

/// The text of a URI.
pub open spec fn uri_text(uri: UriView) -> Seq<char> {
    let scheme = match uri.scheme {
        Some(scheme) => scheme + "://"@,
        None => Seq::empty(),
    };
    let authority = match uri.authority {
        Some(authority) => authority,
        None => Seq::empty(),
    };
    let path = match uri.path_and_query {
        Some(path) => path_text(path),
        None => Seq::empty(),
    };
    scheme + authority + path
}

/// The part of `s` after its last `c`, or all of `s` if it has none.
fn after_last_char(s: &str, c: char) -> (r: &str)
    ensures
        r@ == text::after_last(s@, c),
{
    let n: usize = s.unicode_len();
    let mut i: usize = 0;
    let mut start: usize = 0;
    for x in chars: s.chars()
        invariant
            chars.seq() == s@,
            i == chars.index(),
            start <= i <= n,
            n == s@.len(),
            text::after_last(s@.take(i as int), c) =~= s@.subrange(start as int, i as int),
    {
        assert(s@.take(i + 1).drop_last() =~= s@.take(i as int));
        i += 1;
        if x == c {
            start = i;
        }
    }
    assert(s@.take(n as int) =~= s@);
    s.substring_char(start, n)
}

/// How many characters stand in `s` before its first `c`.
fn index_of_char(s: &str, c: char) -> (r: usize)
    ensures
        r == text::before_first(s@, c).len(),
{
    let n: usize = s.unicode_len();
    let mut i: usize = 0;
    for x in chars: s.chars()
        invariant
            chars.seq() == s@,
            i == chars.index(),
            i <= n,
            n == s@.len(),
            forall|j: int| 0 <= j < i ==> s@[j] != c,
    {
        if x == c {
            proof {
                assert(s@ =~= s@.take(i as int) + s@.skip(i as int));
                text::lemma_before_first_of(s@.take(i as int), c, s@.skip(i as int));
            }
            return i;
        }
        i += 1;
    }
    proof {
        assert(s@ =~= s@ + Seq::empty());
        text::lemma_before_first_of(s@, c, Seq::empty());
    }
    i
}

/// Whether `c` occurs in `s`.
fn contains_char(s: &str, c: char) -> (r: bool)
    ensures
        r == s@.contains(c),
{
    let index: usize = index_of_char(s, c);
    proof {
        text::lemma_before_first(s@, c);
        if s@.contains(c) && index == s@.len() {
            assert(s@.take(index as int) =~= s@);
        }
        if index < s@.len() {
            text::lemma_first(s@, c);
        }
    }
    index < s.unicode_len()
}

impl Uri {
    /// Puts a URI together from its parts.
    pub fn from_parts(
        scheme: Option<String>,
        authority: Option<String>,
        path_and_query: Option<String>,
    ) -> (r: Result<Uri, InvalidUriParts>)
        ensures
            match r {
                Ok(uri) => {
                    &&& parts_error(parts_view((scheme, authority, path_and_query))) is None
                    &&& uri@ == made_of(parts_view((scheme, authority, path_and_query)))
                    &&& uri@.complete()
                    &&& uri@.separable()
                },
                Err(error) => parts_error(parts_view((scheme, authority, path_and_query))) == Some(
                    error,
                ),
            },
    {
        if scheme.is_some() && authority.is_none() {
            return Err(InvalidUriParts::AuthorityMissing);
        }
        if scheme.is_some() && path_and_query.is_none() {
            return Err(InvalidUriParts::PathAndQueryMissing);
        }
        if scheme.is_none() && authority.is_some() && path_and_query.is_some() {
            return Err(InvalidUriParts::SchemeMissing);
        }
        if let Some(scheme) = &scheme {
            if !accepts_scheme(scheme.as_str()) {
                return Err(InvalidUriParts::InvalidScheme);
            }
        }
        if let Some(authority) = &authority {
            if !accepts_authority(authority.as_str()) {
                return Err(InvalidUriParts::InvalidAuthority);
            }
        }
        let path_and_query = match path_and_query {
            Some(path) => match parse_path(path.as_str()) {
                Ok(parsed) => {
                    let is_bare = path.as_str().is_empty() || path.as_str().get_char(0) == '#';
                    if authority.is_none() && is_bare {
                        None
                    } else {
                        Some(parsed)
                    }
                },
                Err(_) => return Err(InvalidUriParts::InvalidPathAndQuery),
            },
            None => None,
        };
        Ok(Uri { scheme, authority, path_and_query })
    }

    /// The text of the URI.
    pub fn to_string(&self) -> (r: String)
        ensures
            r@ == uri_text(self@),
    {
        let mut r = String::new();
        if let Some(scheme) = &self.scheme {
            r.append(scheme.as_str());
            r.append("://");
        }
        if let Some(authority) = &self.authority {
            r.append(authority.as_str());
        }
        let ghost front = r@;
        if let Some(path) = &self.path_and_query {
            let path = path.as_str();
            let len: usize = path.unicode_len();
            let index: usize = index_of_char(path, '?');
            let at: usize = index % 65536;
            proof {
                text::lemma_before_first(path@, '?');
                reveal_strlit("/?");
                reveal_strlit("?");
            }
            if index == len || at == 65535 {
                r.append(path);
            } else if at == 0 {
                r.append("/?");
                r.append(path.substring_char(1, len));
                assert(path@.subrange(1, len as int) =~= path@.skip(1));
            } else {
                r.append(path.substring_char(0, at));
                r.append("?");
                r.append(path.substring_char(at + 1, len));
                assert(path@.subrange(0, at as int) =~= path@.take(at as int));
                assert(path@.subrange(at + 1, len as int) =~= path@.skip(at + 1));
            }
            assert(r@ =~= front + path_text(path@));
        }
        assert(r@ =~= uri_text(self@));
        r
    }
}

/// Turns the URI of a request into the target that is sent for it: its path
/// and query alone, or all of it where the request goes to a proxy that is to
/// pass it on and is not reached through a tunnel.
pub fn set_relative_uri(uri: &mut Uri, is_proxied: bool)
    ensures
        final(uri)@ == relative_uri(old(uri)@, is_proxied),
{
    proof {
        use_type_invariant(&*uri);
        if let Some(path) = uri@.path_and_query {
            lemma_path_is_whole(path);
        }
    }
    if is_proxied {
        let secure = match uri.scheme_part() {
            Some(scheme) => same_text(scheme, "https"),
            None => false,
        };
        if !secure {
            return ;
        }
    }
    let path = match uri.path_and_query() {
        Some(path) if !same_text(path, "/") => {
            Uri::from_parts(None, None, Some(path.to_owned())).unwrap()
        },
        _ => Uri::parse("/").unwrap(),
    };
    *uri = path;
}

} // verus!
