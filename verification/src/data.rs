//! The part of a request that a content source is shown: what it declared
//! that it varies on, and nothing else.

use crate::cache_buster::CacheBuster;
use crate::error::{ResolveError, ResolveErrorModel};
use crate::headers::{merged, merged_under, Headers, HeadersModel};
use crate::query::{parsed_query, retained, Query, QueryModel};
use crate::request::{raw_headers_model, RequestModel, SourceRequest};
use crate::text::{ascii_lowercase, copy_bytes, to_ascii_lowercase};
use crate::uri::{RequestUri, UriModel};
use crate::vary::{ContentSourceDataFilter, ContentSourceDataVary, FilterModel, VaryModel};
use vstd::prelude::*;

verus! {

/// What a [`ContentSourceData`] stands for.
pub struct DataModel {
    pub method: Option<Seq<char>>,
    pub url: Option<Seq<char>>,
    pub query: Option<QueryModel>,
    pub headers: Option<HeadersModel>,
    pub body: Option<Seq<u8>>,
    pub cache_buster: u64,
}

impl DataModel {
    /// The data that shows nothing of a request.
    pub open spec fn empty() -> DataModel {
        DataModel {
            method: None,
            url: None,
            query: None,
            headers: None,
            body: None,
            cache_buster: 0,
        }
    }
}

/// The part of a request that a content source is shown. A part that the
/// source did not ask for is `None`; `cache_buster` is then 0.
#[derive(Clone, Debug, PartialEq, Eq)]
pub struct ContentSourceData {
    pub method: Option<String>,
    pub url: Option<String>,
    pub query: Option<Query>,
    pub headers: Option<Headers>,
    pub body: Option<Vec<u8>>,
    pub cache_buster: u64,
}

impl View for ContentSourceData {
    type V = DataModel;

    open spec fn view(&self) -> DataModel {
        DataModel {
            method: match self.method {
                Some(m) => Some(m@),
                None => None,
            },
            url: match self.url {
                Some(u) => Some(u@),
                None => None,
            },
            query: match self.query {
                Some(q) => Some(q@),
                None => None,
            },
            headers: match self.headers {
                Some(h) => Some(h@),
                None => None,
            },
            body: match self.body {
                Some(b) => Some(b@),
                None => None,
            },
            cache_buster: self.cache_buster,
        }
    }
}

impl Default for ContentSourceData {
    fn default() -> (data: ContentSourceData)
        ensures
            data@ == DataModel::empty(),
    {
        ContentSourceData::empty()
    }
}

impl ContentSourceData {
    /// The data that shows nothing of a request.
    pub fn empty() -> (data: ContentSourceData)
        ensures
            data@ == DataModel::empty(),
    {
        ContentSourceData {
            method: None,
            url: None,
            query: None,
            headers: None,
            body: None,
            cache_buster: 0,
        }
    }
}

/// The headers that the filter lets through, merged by name in the order
/// in which they came. A header's name counts in its lower-case form.
pub open spec fn projected_headers(
    headers: Seq<(Seq<char>, Seq<u8>)>,
    filter: FilterModel,
) -> HeadersModel
    decreases headers.len(),
{
    if headers.len() == 0 {
        HeadersModel::empty()
    } else {
        let before = projected_headers(headers.drop_last(), filter);
        let (name, raw) = headers.last();
        if filter.contains(ascii_lowercase(name)) {
            merged(before, name, raw)
        } else {
            before
        }
    }
}

/// The parameters of the URI's query string that the filter lets through;
/// none where the URI has no query string. `None` where the query string
/// cannot be read.
pub open spec fn projected_query(uri: UriModel, filter: FilterModel) -> Option<QueryModel> {
    match uri.query {
        Some(text) => match parsed_query(text) {
            Some(entries) => Some(retained(entries, filter)),
            None => None,
        },
        None => Some(QueryModel::empty()),
    }
}

/// What a projection gives: the data that the source is shown, or the
/// error.
pub type ProjectionModel = Result<DataModel, ResolveErrorModel>;

/// The projection that shows `data`.
pub open spec fn shown(data: DataModel) -> ProjectionModel {
    Ok(data)
}

/// The projection that fails with `error`.
pub open spec fn refused(error: ResolveErrorModel) -> ProjectionModel {
    Err(error)
}

/// What a source that declared `vary` is shown of `request`, where `token`
/// is the next value of the cache-buster counter.
pub open spec fn projected(request: RequestModel, vary: VaryModel, token: u64) -> ProjectionModel {
    if vary.query matches Some(filter) && projected_query(request.uri, filter) is None {
        Err(ResolveErrorModel::InvalidQuery)
    } else {
        Ok(
            DataModel {
                method: if vary.method {
                    Some(request.method)
                } else {
                    None
                },
                url: if vary.url {
                    Some(request.uri.text())
                } else {
                    None
                },
                query: match vary.query {
                    Some(filter) => projected_query(request.uri, filter),
                    None => None,
                },
                headers: match vary.headers {
                    Some(filter) => Some(projected_headers(request.headers, filter)),
                    None => None,
                },
                body: if vary.body {
                    Some(request.body)
                } else {
                    None
                },
                cache_buster: if vary.cache_buster {
                    token
                } else {
                    0
                },
            },
        )
    }
}

/// The parameters of the URI's query string that the filter lets through.
pub fn query_to_data(uri: &RequestUri, filter: &ContentSourceDataFilter) -> (query: Result<
    Query,
    ResolveError,
>)
    ensures
        match query {
            Ok(q) => projected_query(uri@, filter@) == Some(q@),
            Err(e) => projected_query(uri@, filter@) is None && e@
                == ResolveErrorModel::InvalidQuery,
        },
{
    match uri.query() {
        Some(text) => {
            let mut query = Query::parse(text)?;
            query.filter_with(filter);
            Ok(query)
        },
        None => Ok(Query::new()),
    }
}

/// The headers that the filter lets through, merged by name.
pub fn headers_to_data(headers: &Vec<(String, Vec<u8>)>, filter: &ContentSourceDataFilter) -> (kept:
    Headers)
    ensures
        kept@ == projected_headers(raw_headers_model(headers@), filter@),
{
    let ghost all = raw_headers_model(headers@);
    let mut kept = Headers::new();
    let mut i: usize = 0;
    assert(all.subrange(0, 0) =~= Seq::empty());
    while i < headers.len()
        invariant
            i <= headers.len(),
            all == raw_headers_model(headers@),
            kept@ == projected_headers(all.subrange(0, i as int), filter@),
        decreases headers.len() - i,
    {
        let key = to_ascii_lowercase(headers[i].0.as_str());
        proof {
            let until = all.subrange(0, i + 1);
            assert(until.drop_last() =~= all.subrange(0, i as int));
            assert(until.last() == (headers[i as int].0@, headers[i as int].1@));
        }
        if filter.contains(&key) {
            kept.merge_under(key, &headers[i].1);
        }
        i = i + 1;
    }
    assert(all.subrange(0, i as int) =~= all);
    kept
}

/// Computes what a content source that declared `vary` is shown of
/// `request`. The cache-buster is drawn from the counter only where the
/// source asked for one, and only once everything else has been computed.
pub fn request_to_data(
    request: &SourceRequest,
    vary: &ContentSourceDataVary,
    cache_buster: &mut CacheBuster,
) -> (data: Result<ContentSourceData, ResolveError>)
    ensures
        match data {
            Ok(d) => projected(request@, vary@, old(cache_buster).upcoming()) == shown(d@),
            Err(e) => projected(request@, vary@, old(cache_buster).upcoming()) == refused(e@),
        },
        final(cache_buster).upcoming() == (if data is Ok && vary.cache_buster {
            CacheBuster::following(old(cache_buster).upcoming())
        } else {
            old(cache_buster).upcoming()
        }),
{
    let mut data = ContentSourceData::empty();
    if vary.method {
        data.method = Some(request.method.clone());
    }
    if vary.url {
        data.url = Some(request.uri.text());
    }
    if vary.body {
        data.body = Some(copy_bytes(&request.body));
    }
    if let Some(filter) = &vary.query {
        match query_to_data(&request.uri, filter) {
            Ok(query) => {
                data.query = Some(query);
            },
            Err(e) => {
                return Err(e);
            },
        }
    }
    if let Some(filter) = &vary.headers {
        data.headers = Some(headers_to_data(&request.headers, filter));
    }
    if vary.cache_buster {
        data.cache_buster = cache_buster.next();
    }
    Ok(data)
}

/// A content source is shown a part of the request exactly where it
/// declared that part: method, URL and body where it set the flag, query
/// and headers (which may be empty) where it gave a filter.
pub proof fn lemma_minimal_disclosure(request: RequestModel, vary: VaryModel, token: u64)
    ensures
        projected(request, vary, token) matches Ok(data) ==> {
            &&& data.method is Some <==> vary.method
            &&& data.url is Some <==> vary.url
            &&& data.body is Some <==> vary.body
            &&& data.query is Some <==> vary.query is Some
            &&& data.headers is Some <==> vary.headers is Some
            &&& !vary.cache_buster ==> data.cache_buster == 0
        },
{
}

/// The headers that the filter lets through, each under the lower-case
/// form of its name, in the order in which they came.
pub open spec fn visible_headers(headers: Seq<(Seq<char>, Seq<u8>)>, filter: FilterModel) -> Seq<
    (Seq<char>, Seq<u8>),
>
    decreases headers.len(),
{
    if headers.len() == 0 {
        Seq::empty()
    } else {
        let before = visible_headers(headers.drop_last(), filter);
        let (name, raw) = headers.last();
        if filter.contains(ascii_lowercase(name)) {
            before.push((ascii_lowercase(name), raw))
        } else {
            before
        }
    }
}

/// The collection that holds the given headers, merged one after the
/// other under their names as they are written.
pub open spec fn merged_all(headers: Seq<(Seq<char>, Seq<u8>)>) -> HeadersModel
    decreases headers.len(),
{
    if headers.len() == 0 {
        HeadersModel::empty()
    } else {
        merged_under(merged_all(headers.drop_last()), headers.last().0, headers.last().1)
    }
}

/// The headers shown to a source are made of the headers that its filter
/// lets through, and of nothing else.
pub proof fn lemma_projected_headers_from_visible(
    headers: Seq<(Seq<char>, Seq<u8>)>,
    filter: FilterModel,
)
    ensures
        projected_headers(headers, filter) == merged_all(visible_headers(headers, filter)),
    decreases headers.len(),
{
    if headers.len() > 0 {
        lemma_projected_headers_from_visible(headers.drop_last(), filter);
        let before = visible_headers(headers.drop_last(), filter);
        let (name, raw) = headers.last();
        if filter.contains(ascii_lowercase(name)) {
            let shown = before.push((ascii_lowercase(name), raw));
            assert(shown.drop_last() =~= before);
        }
    }
}

/// Whether two requests are the same in every part that `vary` declares:
/// method, URL and body where the flag is set, the query string where there
/// is a query filter, and the headers that the header filter lets through.
pub open spec fn same_declared_parts(a: RequestModel, b: RequestModel, vary: VaryModel) -> bool {
    &&& vary.method ==> a.method == b.method
    &&& vary.url ==> a.uri.text() == b.uri.text()
    &&& vary.body ==> a.body == b.body
    &&& vary.query is Some ==> a.uri.query == b.uri.query
    &&& vary.headers matches Some(filter) ==> visible_headers(a.headers, filter)
        == visible_headers(b.headers, filter)
}

/// A content source is shown nothing that it did not declare: two requests
/// that are the same in every declared part are shown to it as the same
/// data, whatever else differs between them.
pub proof fn lemma_undeclared_parts_stay_hidden(
    a: RequestModel,
    b: RequestModel,
    vary: VaryModel,
    token: u64,
)
    requires
        same_declared_parts(a, b, vary),
    ensures
        projected(a, vary, token) == projected(b, vary, token),
{
    match vary.headers {
        Some(filter) => {
            lemma_projected_headers_from_visible(a.headers, filter);
            lemma_projected_headers_from_visible(b.headers, filter);
        },
        None => {},
    }
}

} // verus!
