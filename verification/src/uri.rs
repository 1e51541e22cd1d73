//! The URI of a request: what the resolution reads of it, and how two URIs
//! compare.

use crate::error::{ResolveError, ResolveErrorModel};
use crate::text::{ascii_lowercase, eq_ignoring_ascii_case, rest_after_first, without_first_char};
use vstd::prelude::*;

verus! {

/// What a [`RequestUri`] stands for: the parts of a URI.
pub struct UriModel {
    pub scheme: Option<Seq<char>>,
    pub authority: Option<Seq<char>>,
    pub path: Seq<char>,
    pub query: Option<Seq<char>>,
}

/// The parts of the URI that `text` is, as `hyper::Uri` reads it; `None`
/// where it refuses the text.
pub uninterp spec fn parsed_uri(text: Seq<char>) -> Option<UriModel>;

/// The text that `text` is the percent-encoding of, as the crate
/// `urlencoding` decodes it; `None` where the decoded bytes are no UTF-8.
pub uninterp spec fn percent_decoded(text: Seq<char>) -> Option<Seq<char>>;

/// Whether two optional parts are both absent, or both there and equal but
/// for the case of ASCII letters.
pub open spec fn same_ignoring_case(a: Option<Seq<char>>, b: Option<Seq<char>>) -> bool {
    match (a, b) {
        (None, None) => true,
        (Some(x), Some(y)) => ascii_lowercase(x) == ascii_lowercase(y),
        _ => false,
    }
}

/// `part` with `mark` in front, or nothing where the part is absent.
pub open spec fn prefixed(mark: Seq<char>, part: Option<Seq<char>>) -> Seq<char> {
    match part {
        Some(p) => mark + p,
        None => Seq::empty(),
    }
}

/// `part` with `mark` behind, or nothing where the part is absent.
pub open spec fn suffixed(part: Option<Seq<char>>, mark: Seq<char>) -> Seq<char> {
    match part {
        Some(p) => p + mark,
        None => Seq::empty(),
    }
}

impl UriModel {
    /// Whether two URIs are the same: scheme and authority but for the case
    /// of ASCII letters, path and query letter for letter.
    pub open spec fn same_as(self, other: UriModel) -> bool {
        &&& same_ignoring_case(self.scheme, other.scheme)
        &&& same_ignoring_case(self.authority, other.authority)
        &&& self.path == other.path
        &&& self.query == other.query
    }

    /// The URI written out: `scheme://authority/path?query`, without the
    /// parts that are absent.
    pub open spec fn text(self) -> Seq<char> {
        suffixed(self.scheme, seq![':', '/', '/']) + prefixed(Seq::empty(), self.authority)
            + self.path + prefixed(seq!['?'], self.query)
    }

    /// The path under which a content source is asked: the path of the URI
    /// without its first character (the slash), percent-decoded.
    pub open spec fn asset_path(self) -> Option<Seq<char>> {
        percent_decoded(rest_after_first(self.path))
    }
}

/// The error of `hyper::Uri::try_from`.
#[verifier::external_type_specification]
#[verifier::external_body]
pub struct ExInvalidUri(hyper::http::uri::InvalidUri);

/// The error of `urlencoding::decode`.
#[verifier::external_type_specification]
#[verifier::external_body]
pub struct ExFromUtf8Error(std::string::FromUtf8Error);

/// The URI of a request, or the target of a rewrite.
#[derive(Clone, Debug)]
pub struct RequestUri {
    scheme: Option<String>,
    authority: Option<String>,
    path: String,
    query: Option<String>,
}

/// The view of an optional string.
pub open spec fn text_of(part: Option<String>) -> Option<Seq<char>> {
    match part {
        Some(p) => Some(p@),
        None => None,
    }
}

impl View for RequestUri {
    type V = UriModel;

    closed spec fn view(&self) -> UriModel {
        UriModel {
            scheme: text_of(self.scheme),
            authority: text_of(self.authority),
            path: self.path@,
            query: text_of(self.query),
        }
    }
}

/// `hyper::Uri::try_from` on a string: the URI's scheme, authority, path
/// and query are those that [`parsed_uri`] names for the string, and the
/// call fails exactly where [`parsed_uri`] is `None`.
#[verifier::external_body]
fn parse_uri(text: &str) -> (parsed: Result<RequestUri, hyper::http::uri::InvalidUri>)
    ensures
        match parsed {
            Ok(uri) => parsed_uri(text@) == Some(uri@),
            Err(_) => parsed_uri(text@) is None,
        },
{
    let uri = hyper::Uri::try_from(text)?;
    Ok(
        RequestUri {
            scheme: uri.scheme_str().map(String::from),
            authority: uri.authority().map(hyper::http::uri::Authority::as_str).map(String::from),
            path: String::from(uri.path()),
            query: uri.query().map(String::from),
        },
    )
}

/// `urlencoding::decode` on a string: the decoded text is the one that
/// [`percent_decoded`] names for the string, and the call fails exactly
/// where [`percent_decoded`] is `None`.
#[verifier::external_body]
fn percent_decode(text: &str) -> (decoded: Result<String, std::string::FromUtf8Error>)
    ensures
        match decoded {
            Ok(d) => percent_decoded(text@) == Some(d@),
            Err(_) => percent_decoded(text@) is None,
        },
{
    Ok(urlencoding::decode(text)?.into_owned())
}

/// Whether two optional strings are both absent, or both there and equal
/// but for the case of ASCII letters.
fn options_same_ignoring_case(a: &Option<String>, b: &Option<String>) -> (same: bool)
    ensures
        same == same_ignoring_case(text_of(*a), text_of(*b)),
{
    match (a, b) {
        (None, None) => true,
        (Some(x), Some(y)) => eq_ignoring_ascii_case(x.as_str(), y.as_str()),
        _ => false,
    }
}

/// Whether two optional strings are both absent, or both there and equal.
fn options_equal(a: &Option<String>, b: &Option<String>) -> (same: bool)
    ensures
        same == (text_of(*a) == text_of(*b)),
{
    match (a, b) {
        (None, None) => true,
        (Some(x), Some(y)) => *x == *y,
        _ => false,
    }
}

impl RequestUri {
    /// Reads a URI. A text that is no URI, or a URI without a path, is
    /// refused.
    pub fn parse(text: &str) -> (parsed: Result<RequestUri, ResolveError>)
        ensures
            match parsed {
                Ok(uri) => parsed_uri(text@) == Some(uri@) && uri@.path.len() > 0,
                Err(e) => e@ == ResolveErrorModel::InvalidUri && (parsed_uri(text@) matches Some(
                    m,
                ) ==> m.path.len() == 0),
            },
    {
        match parse_uri(text) {
            Ok(uri) => {
                if uri.path.as_str().unicode_len() == 0 {
                    Err(ResolveError::InvalidUri)
                } else {
                    Ok(uri)
                }
            },
            Err(_) => Err(ResolveError::InvalidUri),
        }
    }

    /// Whether this URI and `other` are the same URI.
    pub fn same_as(&self, other: &RequestUri) -> (same: bool)
        ensures
            same == self@.same_as(other@),
    {
        options_same_ignoring_case(&self.scheme, &other.scheme) && options_same_ignoring_case(
            &self.authority,
            &other.authority,
        ) && self.path == other.path && options_equal(&self.query, &other.query)
    }

    /// The URI written out.
    pub fn text(&self) -> (text: String)
        ensures
            text@ == self@.text(),
    {
        let mut text = String::new();
        if let Some(scheme) = &self.scheme {
            text.append(scheme.as_str());
            text.append("://");
        }
        if let Some(authority) = &self.authority {
            text.append(authority.as_str());
        }
        text.append(self.path.as_str());
        if let Some(query) = &self.query {
            text.append("?");
            text.append(query.as_str());
        }
        proof {
            reveal_strlit("://");
            reveal_strlit("?");
            assert("://"@ =~= seq![':', '/', '/']);
            assert("?"@ =~= seq!['?']);
            assert(text@ =~= self@.text());
        }
        text
    }

    /// The path of the URI.
    pub fn path(&self) -> (path: &str)
        ensures
            path@ == self@.path,
    {
        self.path.as_str()
    }

    /// The query string of the URI: what follows the question mark.
    pub fn query(&self) -> (query: Option<&str>)
        ensures
            match query {
                Some(q) => self@.query == Some(q@),
                None => self@.query is None,
            },
    {
        match &self.query {
            Some(q) => Some(q.as_str()),
            None => None,
        }
    }

    /// The path under which a content source is asked for this URI.
    pub fn asset_path(&self) -> (path: Result<String, ResolveError>)
        ensures
            match path {
                Ok(p) => self@.asset_path() == Some(p@),
                Err(e) => self@.asset_path() is None && e@ == ResolveErrorModel::InvalidPath,
            },
    {
        let rest = without_first_char(self.path.as_str());
        match percent_decode(rest.as_str()) {
            Ok(decoded) => Ok(decoded),
            Err(_) => Err(ResolveError::InvalidPath),
        }
    }
}

} // verus!
