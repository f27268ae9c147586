//! What the operations on URIs are for.

use vstd::prelude::*;

use crate::text;
use crate::uri::{set_relative_uri, InvalidUriParts, Uri, UriError};

verus! {

/// A target keeps the path and query of its URI. It loses the scheme and the
/// authority, unless it is for a proxy and the scheme is not `https`; then it
/// stays as it is. Where there is no path, the target is `/`.
pub proof fn targets_are_relative(uri: &mut Uri, is_proxied: bool)
    requires
        call_ensures(set_relative_uri, (uri, is_proxied), ()),
    ensures
        (*old(uri))@.path_and_query is Some ==> (*final(uri))@.path_and_query == (*old(uri))@.path_and_query,
        is_proxied && (*old(uri))@.scheme != Some("https"@) ==> (*final(uri))@ == (*old(uri))@,
        !is_proxied || (*old(uri))@.scheme == Some("https"@) ==> {
            &&& (*final(uri))@.scheme is None
            &&& (*final(uri))@.authority is None
            &&& (*old(uri))@.path_and_query is None ==> (*final(uri))@.path_and_query == Some("/"@)
        },
{
}

/// Making a target relative a second time changes nothing.
pub proof fn targets_stay_relative(first: &mut Uri, second: &mut Uri, is_proxied: bool)
    requires
        call_ensures(set_relative_uri, (first, is_proxied), ()),
        *second == *final(first),
        call_ensures(set_relative_uri, (second, is_proxied), ()),
    ensures
        (*final(second))@ == (*final(first))@,
{
}

/// A text is read as the URI that it stands for, and no other text is.
pub proof fn texts_are_parsed(text: &str, r: Result<Uri, UriError>)
    requires
        call_ensures(Uri::parse, (text,), r),
    ensures
        r is Ok <==> crate::uri::parsed_uri(text@) is Some,
        r matches Ok(uri) ==> Some(uri@) == crate::uri::parsed_uri(text@),
        text@ == "/"@ ==> {
            &&& r matches Ok(uri)
            &&& uri@.scheme is None
            &&& uri@.authority is None
            &&& uri@.path_and_query == Some("/"@)
        },
{
}

/// A URI tells its parts. One without any part leads to `/`.
pub proof fn uris_tell_their_parts(
    uri: Uri,
    scheme: Option<&str>,
    authority: Option<&str>,
    path: Option<&str>,
    port: Option<u16>,
    has_host: bool,
)
    requires
        call_ensures(Uri::scheme_part, (&uri,), scheme),
        call_ensures(Uri::authority_part, (&uri,), authority),
        call_ensures(Uri::path_and_query, (&uri,), path),
        call_ensures(Uri::port, (&uri,), port),
        call_ensures(Uri::has_host, (&uri,), has_host),
    ensures
        scheme is Some <==> uri@.scheme is Some,
        scheme is Some ==> uri@.scheme == Some(scheme->0@),
        authority is Some <==> uri@.authority is Some,
        authority is Some ==> uri@.authority == Some(authority->0@),
        uri@.path_and_query is Some ==> path is Some && uri@.path_and_query == Some(path->0@),
        uri@.path_and_query is None && uri@.authority is None ==> path is Some && path->0@ == "/"@,
        uri@.path_and_query is None && uri@.authority is Some ==> path is None,
        authority is Some ==> port == crate::uri::port_of(authority->0@),
        authority is None ==> port is None,
        has_host <==> authority is Some && crate::uri::has_host(authority->0@),
{
}

/// A URI tells its host, which is that of its authority.
pub proof fn uris_tell_their_host(uri: Uri, host: Option<String>)
    requires
        call_ensures(Uri::host, (&uri,), host),
    ensures
        host is Some <==> uri@.authority is Some,
        host is Some ==> host->0@ == crate::uri::host_of(uri@.authority->0),
{
}

/// A clone of a URI is the same URI.
pub proof fn uris_clone(uri: Uri, copy: Uri)
    requires
        call_ensures(Uri::clone, (&uri,), copy),
    ensures
        copy == uri,
{
}

/// The parts of any URI make up that URI.
pub proof fn parts_make_up_uris(
    scheme: Option<String>,
    authority: Option<String>,
    path: Option<String>,
    r: Result<Uri, InvalidUriParts>,
)
    requires
        crate::uri::parts_view((scheme, authority, path)).complete(),
        crate::uri::parts_view((scheme, authority, path)).separable(),
        authority is Some ==> crate::uri::is_authority(authority->0@),
        call_ensures(Uri::from_parts, (scheme, authority, path), r),
    ensures
        r matches Ok(uri) && {
            &&& uri@.scheme is Some <==> scheme is Some
            &&& scheme is Some ==> uri@.scheme == Some(scheme->0@)
            &&& uri@.authority is Some <==> authority is Some
            &&& authority is Some ==> uri@.authority == Some(authority->0@)
            &&& uri@.path_and_query is Some <==> path is Some
            &&& path is Some ==> uri@.path_and_query == Some(path->0@)
        },
{
    if path is Some {
        crate::uri::lemma_path_is_whole(path->0@);
    }
}

/// Of other parts, the scheme and the authority are kept or refused, and of the
/// path what stands before a fragment is; each error names what is wrong.
pub proof fn parts_are_kept_or_refused(
    scheme: Option<String>,
    authority: Option<String>,
    path: Option<String>,
    r: Result<Uri, InvalidUriParts>,
)
    requires
        call_ensures(Uri::from_parts, (scheme, authority, path), r),
    ensures
        r matches Ok(uri) ==> {
            &&& uri@.scheme is Some <==> scheme is Some
            &&& scheme is Some ==> uri@.scheme == Some(scheme->0@)
            &&& uri@.authority is Some <==> authority is Some
            &&& authority is Some ==> uri@.authority == Some(authority->0@)
            &&& path is None ==> uri@.path_and_query is None
            &&& path is Some && !crate::uri::is_bare(path->0@) ==> uri@.path_and_query == Some(
                crate::uri::path_of(path->0@),
            )
            &&& path is Some && crate::uri::is_bare(path->0@) ==> uri@.path_and_query == if scheme
                is Some {
                Some("/"@)
            } else {
                None
            }
        },
        r == Err::<Uri, InvalidUriParts>(InvalidUriParts::AuthorityMissing) <==> scheme is Some
            && authority is None,
        r == Err::<Uri, InvalidUriParts>(InvalidUriParts::PathAndQueryMissing) <==> scheme is Some
            && authority is Some && path is None,
        r == Err::<Uri, InvalidUriParts>(InvalidUriParts::SchemeMissing) <==> scheme is None
            && authority is Some && path is Some,
        r == Err::<Uri, InvalidUriParts>(InvalidUriParts::InvalidScheme) ==> scheme is Some
            && !crate::uri::is_scheme(scheme->0@),
        r == Err::<Uri, InvalidUriParts>(InvalidUriParts::InvalidAuthority) ==> authority is Some
            && !crate::uri::is_authority(authority->0@),
        r == Err::<Uri, InvalidUriParts>(InvalidUriParts::InvalidPathAndQuery) ==> path is Some
            && !crate::uri::is_path(crate::uri::path_of(path->0@)),
{
}

/// The text of a URI is its parts one after the other, the scheme followed by
/// `://`. A path that begins with its query has a `/` put in front.
pub proof fn texts_are_the_parts(uri: Uri, r: String)
    requires
        call_ensures(Uri::to_string, (&uri,), r),
        uri@.path_and_query is Some ==> crate::uri::query_index(uri@.path_and_query->0) < 65536,
    ensures
        ({
            let front = match uri@.scheme {
                Some(scheme) => scheme + "://"@,
                None => Seq::empty(),
            } + match uri@.authority {
                Some(authority) => authority,
                None => Seq::empty(),
            };
            &&& uri@.path_and_query is None ==> r@ == front
            &&& uri@.path_and_query matches Some(path) ==> {
                &&& path.len() > 0 && path[0] == '?' ==> r@ == front + "/"@ + path
                &&& path.len() == 0 || path[0] != '?' ==> r@ == front + path
            }
        }),
{
    reveal_strlit("/?");
    reveal_strlit("?");
    reveal_strlit("/");
    let front = match uri@.scheme {
        Some(scheme) => scheme + "://"@,
        None => Seq::empty(),
    } + match uri@.authority {
        Some(authority) => authority,
        None => Seq::empty(),
    };
    if let Some(path) = uri@.path_and_query {
        let at = crate::uri::query_index(path);
        text::lemma_before_first(path, '?');
        if at < path.len() {
            text::lemma_first(path, '?');
        }
        if path.len() > 0 && path[0] == '?' {
            assert(text::before_first(path, '?') =~= Seq::empty());
            assert(r@ =~= front + "/"@ + path);
        } else {
            if at < path.len() && at == 0 {
                assert(path[0] == '?');
            }
            assert(r@ =~= front + path);
        }
    } else {
        assert(r@ =~= front);
    }
}

/// In the text of a path with a query, every character stands where it does in
/// the path, but for one question mark, whose place is told by sixteen bits.
pub proof fn question_marks_are_placed(uri: Uri, r: String, path: Seq<char>)
    requires
        call_ensures(Uri::to_string, (&uri,), r),
        uri@.scheme is None,
        uri@.authority is None,
        uri@.path_and_query == Some(path),
        path.contains('?'),
        crate::uri::query_index(path) % 65536 != 0,
    ensures
        r@.len() == path.len(),
        forall|i: int|
            0 <= i < path.len() ==> #[trigger] r@[i] == if i == crate::uri::query_index(path)
                % 65536 && i != 65535 {
                '?'
            } else {
                path[i]
            },
{
    reveal_strlit("?");
    text::lemma_before_first(path, '?');
    let at = crate::uri::query_index(path);
    if at == path.len() {
        assert(path.take(at) =~= path);
    }
    assert(r@ =~= crate::uri::path_text(path));
}

/// A number is written in digits alone, reads back as that number, and has no
/// zero in front.
pub proof fn numbers_are_written_plainly(n: u16, r: String)
    requires
        call_ensures(text::to_decimal, (n,), r),
    ensures
        text::all_digits(r@),
        text::read_u16(r@) == Some(n),
        r@.len() > 0,
        r@[0] == '0' ==> r@.len() == 1,
        r@ == text::decimal(n as nat),
{
    text::lemma_decimal(n as nat);
    text::decimal_reads_back(n);
    lemma_no_leading_zero(n as nat);
}

proof fn lemma_no_leading_zero(n: nat)
    ensures
        text::decimal(n).len() > 0,
        n > 0 ==> text::decimal(n)[0] != '0',
        n < 10 ==> text::decimal(n).len() == 1,
    decreases n,
{
    if n >= 10 {
        lemma_no_leading_zero(n / 10);
    }
}

} // verus!
