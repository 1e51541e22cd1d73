//! The request that is resolved.

use crate::uri::{RequestUri, UriModel};
use vstd::prelude::*;

verus! {

/// What a [`SourceRequest`] stands for.
pub struct RequestModel {
    pub method: Seq<char>,
    pub uri: UriModel,
    pub headers: Seq<(Seq<char>, Seq<u8>)>,
    pub body: Seq<u8>,
}

/// A request as the server received it. A header value is kept as the
/// bytes that came: it need not be text.
#[derive(Clone, Debug)]
pub struct SourceRequest {
    pub method: String,
    pub uri: RequestUri,
    pub headers: Vec<(String, Vec<u8>)>,
    pub body: Vec<u8>,
}

/// What a list of headers stands for.
pub open spec fn raw_headers_model(headers: Seq<(String, Vec<u8>)>) -> Seq<(Seq<char>, Seq<u8>)> {
    headers.map_values(|h: (String, Vec<u8>)| (h.0@, h.1@))
}

impl View for SourceRequest {
    type V = RequestModel;

    open spec fn view(&self) -> RequestModel {
        RequestModel {
            method: self.method@,
            uri: self.uri@,
            headers: raw_headers_model(self.headers@),
            body: self.body@,
        }
    }
}

} // verus!
