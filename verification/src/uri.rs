//! The library's view of a parsed URI, and the trusted boundary to the
//! HTTP client's URI parser.

use vstd::prelude::*;

verus! {

/// The components of a parsed URI, held as plain strings.  A component
/// the parser found absent is `None`.
pub struct UriParts {
    pub scheme: Option<String>,
    pub authority: Option<String>,
    pub path_and_query: Option<String>,
}

/// Whether the outside parser accepts the string as a URI.
pub uninterp spec fn uri_ok(s: Seq<char>) -> bool;

/// The scheme the outside parser reads from the string, when it parses.
pub uninterp spec fn uri_scheme(s: Seq<char>) -> Option<Seq<char>>;

/// The authority the outside parser reads from the string, when it parses.
pub uninterp spec fn uri_authority(s: Seq<char>) -> Option<Seq<char>>;

/// The path-and-query portion the outside parser reads from the string,
/// when it parses.
pub uninterp spec fn uri_path_and_query(s: Seq<char>) -> Option<Seq<char>>;

/// The view of an optional string: the character sequence it holds, if any.
pub open spec fn opt_string_view(o: Option<String>) -> Option<Seq<char>> {
    match o {
        Some(s) => Some(s@),
        None => None,
    }
}

/// Relies on `hyper::Uri::from_str` and the accessors `Uri::scheme_str`,
/// `Uri::authority` and `Uri::path_and_query`: whether the string parses,
/// and into which components, is a function of the string alone.
#[verifier::external_body]
pub(crate) fn parse_uri_components(s: &str) -> (r: Option<UriParts>)
    ensures
        r is Some <==> uri_ok(s@),
        r matches Some(p) ==> {
            &&& opt_string_view(p.scheme) == uri_scheme(s@)
            &&& opt_string_view(p.authority) == uri_authority(s@)
            &&& opt_string_view(p.path_and_query) == uri_path_and_query(s@)
        },
{
    match s.parse::<hyper::Uri>() {
        Ok(u) => Some(UriParts {
            scheme: u.scheme_str().map(|x| x.to_owned()),
            authority: u.authority().map(|a| a.as_str().to_owned()),
            path_and_query: u.path_and_query().map(|p| p.as_str().to_owned()),
        }),
        Err(_) => None,
    }
}

} // verus!
