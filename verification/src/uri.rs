//! URIs, parsed by `hyper`.
//!
//! A parsed URI is a `hyper::Uri`, which the verifier cannot look into. Its
//! components are named by [`uri_parts`], and every call into `hyper` is
//! stated over them. None of these statements is proved here: each is taken
//! from the source of the `http` crate, whose `Uri` `hyper` hands on.

use vstd::prelude::*;

verus! {

/// The components of a URI that the configuration reads.
pub struct UriParts {
    /// The scheme; `None` where the URI has none.
    pub scheme: Option<Seq<char>>,
    /// The authority; `None` where the URI has none.
    pub authority: Option<Seq<char>>,
    /// The path.
    pub path: Seq<char>,
}

/// `hyper::Uri`: a parsed URI. Nothing is known of it but what the calls
/// below say.
#[verifier::external_type_specification]
#[verifier::external_body]
pub struct ExUri(hyper::Uri);

/// `InvalidUri`: why a text is no URI. Nothing is read from it.
#[verifier::external_type_specification]
#[verifier::external_body]
pub struct ExInvalidUri(hyper::http::uri::InvalidUri);

/// `Authority`: the authority of a parsed URI.
#[verifier::external_type_specification]
#[verifier::external_body]
pub struct ExAuthority(hyper::http::uri::Authority);

/// The components of a `hyper::Uri`.
pub uninterp spec fn uri_parts(uri: hyper::Uri) -> UriParts;

/// The text of an authority.
pub uninterp spec fn authority_text(authority: hyper::http::uri::Authority) -> Seq<char>;

/// What parsing `text` as a `hyper::Uri` gives: the components, or `None`
/// where the parser reports an error.
pub uninterp spec fn uri_parsed(text: Seq<char>) -> Option<UriParts>;

/// `Uri::from_str`, as `str::parse` calls it: parses `text` as a URI.
#[verifier::external_body]
pub(crate) fn parse_uri(text: &str) -> (r: Result<hyper::Uri, hyper::http::uri::InvalidUri>)
    ensures
        match r {
            Ok(uri) => uri_parsed(text@) == Some(uri_parts(uri)),
            Err(_) => uri_parsed(text@) is None,
        },
{
    text.parse::<hyper::Uri>()
}

/// `Uri::scheme_str`: the scheme of the URI as text, `None` where it has none.
pub assume_specification<'a>[ hyper::Uri::scheme_str ](uri: &'a hyper::Uri) -> (r: Option<&'a str>)
    ensures
        match uri_parts(*uri).scheme {
            Some(scheme) => r matches Some(text) && text@ == scheme,
            None => r is None,
        },
;

/// `Uri::authority`: the authority of the URI, `None` where it has none.
pub assume_specification<'a>[ hyper::Uri::authority ](uri: &'a hyper::Uri) -> (r: Option<
    &'a hyper::http::uri::Authority,
>)
    ensures
        match uri_parts(*uri).authority {
            Some(authority) => r matches Some(found) && authority_text(*found) == authority,
            None => r is None,
        },
;

/// `Uri::path`: the path of the URI.
pub assume_specification<'a>[ hyper::Uri::path ](uri: &'a hyper::Uri) -> (r: &'a str)
    ensures
        r@ == uri_parts(*uri).path,
;

/// `Authority::as_str`: the text of the authority.
pub assume_specification<'a>[ hyper::http::uri::Authority::as_str ](
    authority: &'a hyper::http::uri::Authority,
) -> (r: &'a str)
    ensures
        r@ == authority_text(*authority),
;

} // verus!
