//! The ways in which a resolution fails.

use vstd::prelude::*;

verus! {

/// What a [`ResolveError`] stands for.
pub enum ResolveErrorModel {
    InvalidPath,
    InvalidQuery,
    InvalidUri,
    RewriteLoop(Seq<char>),
}

/// Why a request could not be resolved. Content that is not there is no
/// error: it is an ordinary outcome.
#[derive(Clone, Debug, PartialEq, Eq)]
pub enum ResolveError {
    /// The path of the URI is not the percent-encoding of a text.
    InvalidPath,
    /// The query string of the URI is not a list of keys and values.
    InvalidQuery,
    /// The target of a rewrite is not a URI with a path.
    InvalidUri,
    /// A rewrite led to the source and the URI that it came from; the
    /// variant holds that URI.
    RewriteLoop(String),
}

impl View for ResolveError {
    type V = ResolveErrorModel;

    open spec fn view(&self) -> ResolveErrorModel {
        match self {
            ResolveError::InvalidPath => ResolveErrorModel::InvalidPath,
            ResolveError::InvalidQuery => ResolveErrorModel::InvalidQuery,
            ResolveError::InvalidUri => ResolveErrorModel::InvalidUri,
            ResolveError::RewriteLoop(uri) => ResolveErrorModel::RewriteLoop(uri@),
        }
    }
}

impl ResolveErrorModel {
    /// The sentence that describes the error.
    pub open spec fn message(self) -> Seq<char> {
        match self {
            ResolveErrorModel::InvalidPath => "invalid percent-encoding in the request path"@,
            ResolveErrorModel::InvalidQuery => "invalid query string"@,
            ResolveErrorModel::InvalidUri => "invalid rewrite target"@,
            ResolveErrorModel::RewriteLoop(uri) => "rewrite loop detected: "@ + uri,
        }
    }
}

impl ResolveError {
    /// The sentence that describes the error.
    pub fn message(&self) -> (text: String)
        ensures
            text@ == self@.message(),
    {
        match self {
            ResolveError::InvalidPath => String::from_str(
                "invalid percent-encoding in the request path",
            ),
            ResolveError::InvalidQuery => String::from_str("invalid query string"),
            ResolveError::InvalidUri => String::from_str("invalid rewrite target"),
            ResolveError::RewriteLoop(uri) => String::from_str("rewrite loop detected: ").concat(
                uri.as_str(),
            ),
        }
    }
}

} // verus!
