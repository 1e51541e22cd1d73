use serde_json::Value;
use source_resolve::cache_buster::CacheBuster;
use source_resolve::data::{headers_to_data, query_to_data, request_to_data, ContentSourceData};
use source_resolve::error::ResolveError;
use source_resolve::headers::HeaderValue;
use source_resolve::query::Query;
use source_resolve::request::SourceRequest;
use source_resolve::uri::RequestUri;
use source_resolve::vary::{ContentSourceDataFilter, ContentSourceDataVary};

fn request(uri: &str) -> SourceRequest {
    SourceRequest {
        method: "POST".to_string(),
        uri: RequestUri::parse(uri).unwrap(),
        headers: vec![
            ("accept".to_string(), b"text/html".to_vec()),
            ("cookie".to_string(), b"a=1".to_vec()),
            ("Accept".to_string(), b"image/png".to_vec()),
            ("x-bin".to_string(), vec![0xff]),
        ],
        body: vec![1, 2, 3],
    }
}

fn subset(names: &[&str]) -> ContentSourceDataFilter {
    ContentSourceDataFilter::Subset(names.iter().map(|n| n.to_string()).collect())
}

fn text(value: &str) -> Value {
    Value::String(value.to_string())
}

#[test]
fn nothing_declared_shows_nothing() {
    let mut counter = CacheBuster::new();
    let data = request_to_data(
        &request("/a?x=1"),
        &ContentSourceDataVary::none(),
        &mut counter,
    )
    .unwrap();
    assert_eq!(data, ContentSourceData::empty());
    assert_eq!(data.method, None);
    assert_eq!(data.url, None);
    assert_eq!(data.query, None);
    assert_eq!(data.headers, None);
    assert_eq!(data.body, None);
    assert_eq!(data.cache_buster, 0);
    assert_eq!(counter.next(), 0);
}

#[test]
fn each_flag_shows_its_part_only() {
    let mut counter = CacheBuster::new();
    let mut vary = ContentSourceDataVary::none();
    vary.method = true;
    let data = request_to_data(&request("/a?x=1"), &vary, &mut counter).unwrap();
    assert_eq!(data.method, Some("POST".to_string()));
    assert!(data.url.is_none() && data.body.is_none());
    assert!(data.query.is_none() && data.headers.is_none());

    let mut vary = ContentSourceDataVary::none();
    vary.url = true;
    let data = request_to_data(&request("/a?x=1"), &vary, &mut counter).unwrap();
    assert_eq!(data.url, Some("/a?x=1".to_string()));
    assert!(data.method.is_none() && data.body.is_none());
    assert!(data.query.is_none() && data.headers.is_none());

    let mut vary = ContentSourceDataVary::none();
    vary.body = true;
    let data = request_to_data(&request("/a?x=1"), &vary, &mut counter).unwrap();
    assert_eq!(data.body, Some(vec![1, 2, 3]));
    assert!(data.method.is_none() && data.url.is_none());
    assert!(data.query.is_none() && data.headers.is_none());
}

#[test]
fn everything_declared_shows_everything() {
    let mut counter = CacheBuster::starting_at(41);
    let vary = ContentSourceDataVary {
        method: true,
        url: true,
        query: Some(ContentSourceDataFilter::All),
        headers: Some(ContentSourceDataFilter::All),
        body: true,
        cache_buster: true,
    };
    let data = request_to_data(&request("/a?x=1&y=2"), &vary, &mut counter).unwrap();
    assert_eq!(data.method, Some("POST".to_string()));
    assert_eq!(data.url, Some("/a?x=1&y=2".to_string()));
    assert_eq!(data.body, Some(vec![1, 2, 3]));
    assert_eq!(data.cache_buster, 41);
    let query = data.query.unwrap();
    assert_eq!(query.len(), 2);
    assert_eq!(query.get(&"x".to_string()), Some(&text("1")));
    assert_eq!(query.get(&"y".to_string()), Some(&text("2")));
    let headers = data.headers.unwrap();
    assert_eq!(headers.len(), 3);
    assert_eq!(
        headers.get("accept"),
        Some(&HeaderValue::MultiStrings(vec![
            "text/html".to_string(),
            "image/png".to_string()
        ]))
    );
    assert_eq!(
        headers.get("cookie"),
        Some(&HeaderValue::SingleString("a=1".to_string()))
    );
    assert_eq!(
        headers.get("x-bin"),
        Some(&HeaderValue::SingleBytes(vec![0xff]))
    );
    assert_eq!(counter.next(), 42);
}

#[test]
fn query_filter_keeps_the_named_keys() {
    let uri = RequestUri::parse("/a?x=1&y=2&z=3").unwrap();
    let query = query_to_data(&uri, &subset(&["z", "x", "w"])).unwrap();
    assert_eq!(query.len(), 2);
    let keys: Vec<&str> = query.entries().iter().map(|e| e.0.as_str()).collect();
    assert_eq!(keys, vec!["x", "z"]);
    assert_eq!(query.get(&"y".to_string()), None);
    assert_eq!(query.get_json(&"z".to_string()), Some("\"3\"".to_string()));
}

#[test]
fn query_filter_on_a_uri_without_query_gives_an_empty_query() {
    let mut counter = CacheBuster::new();
    let mut vary = ContentSourceDataVary::none();
    vary.query = Some(subset(&["x"]));
    let data = request_to_data(&request("/a"), &vary, &mut counter).unwrap();
    assert_eq!(data.query, Some(Query::new()));
    assert_eq!(data.query.unwrap().len(), 0);
}

#[test]
fn empty_filter_gives_an_empty_query_and_empty_headers() {
    let mut counter = CacheBuster::new();
    let mut vary = ContentSourceDataVary::none();
    vary.query = Some(subset(&[]));
    vary.headers = Some(subset(&[]));
    let data = request_to_data(&request("/a?x=1"), &vary, &mut counter).unwrap();
    assert_eq!(data.query.unwrap().len(), 0);
    assert_eq!(data.headers.unwrap().len(), 0);
}

#[test]
fn query_values_may_be_lists_and_nested() {
    let query = Query::parse("a[]=1&a[]=2&b[c]=3&d=x%20y&e=p+q").unwrap();
    assert_eq!(
        query.get(&"a".to_string()),
        Some(&Value::Array(vec![text("1"), text("2")]))
    );
    assert_eq!(
        query.get_json(&"b".to_string()),
        Some("{\"c\":\"3\"}".to_string())
    );
    assert_eq!(query.get(&"d".to_string()), Some(&text("x y")));
    assert_eq!(query.get(&"e".to_string()), Some(&text("p q")));
    assert_eq!(query.len(), 4);
}

#[test]
fn query_string_with_a_key_twice_is_refused() {
    assert_eq!(Query::parse("a=1&a=2").err(), Some(ResolveError::InvalidQuery));
    let mut counter = CacheBuster::starting_at(5);
    let mut vary = ContentSourceDataVary::none();
    vary.query = Some(ContentSourceDataFilter::All);
    vary.cache_buster = true;
    assert_eq!(
        request_to_data(&request("/a?a=1&a=2"), &vary, &mut counter),
        Err(ResolveError::InvalidQuery)
    );
    assert_eq!(counter.next(), 5);
}

#[test]
fn unread_query_string_is_no_error() {
    let mut counter = CacheBuster::new();
    let mut vary = ContentSourceDataVary::none();
    vary.url = true;
    let data = request_to_data(&request("/a?a=1&a=2"), &vary, &mut counter).unwrap();
    assert_eq!(data.url, Some("/a?a=1&a=2".to_string()));
}

#[test]
fn header_filter_keeps_the_named_headers() {
    let kept = headers_to_data(&request("/").headers, &subset(&["accept"]));
    assert_eq!(kept.len(), 1);
    assert_eq!(
        kept.get("accept"),
        Some(&HeaderValue::MultiStrings(vec![
            "text/html".to_string(),
            "image/png".to_string()
        ]))
    );
    assert_eq!(kept.get("cookie"), None);
}

#[test]
fn header_filter_without_match_gives_empty_headers() {
    let mut counter = CacheBuster::new();
    let mut vary = ContentSourceDataVary::none();
    vary.headers = Some(subset(&["authorization"]));
    let data = request_to_data(&request("/"), &vary, &mut counter).unwrap();
    assert_eq!(data.headers.map(|h| h.len()), Some(0));
}

#[test]
fn header_filter_names_are_taken_as_written() {
    let kept = headers_to_data(&request("/").headers, &subset(&["Accept"]));
    assert_eq!(kept.len(), 0);
}

#[test]
fn cache_buster_follows_the_order_of_calls() {
    let mut counter = CacheBuster::new();
    let mut vary = ContentSourceDataVary::none();
    vary.cache_buster = true;
    let first = request_to_data(&request("/a"), &vary, &mut counter).unwrap();
    let second = request_to_data(&request("/a"), &vary, &mut counter).unwrap();
    let unasked =
        request_to_data(&request("/a"), &ContentSourceDataVary::none(), &mut counter).unwrap();
    let third = request_to_data(&request("/a"), &vary, &mut counter).unwrap();
    assert_eq!(first.cache_buster, 0);
    assert_eq!(second.cache_buster, 1);
    assert_eq!(unasked.cache_buster, 0);
    assert_eq!(third.cache_buster, 2);
}

#[test]
fn requests_that_differ_in_undeclared_parts_are_shown_alike() {
    let mut vary = ContentSourceDataVary::none();
    vary.method = true;
    vary.query = Some(subset(&["x"]));
    vary.headers = Some(subset(&["accept"]));
    let one = request("/a?x=1");
    let mut other = request("/a?x=1");
    other.body = vec![9];
    other.headers.push(("cookie".to_string(), b"b=2".to_vec()));
    other.headers.insert(0, ("host".to_string(), b"h".to_vec()));
    let shown_one = request_to_data(&one, &vary, &mut CacheBuster::new()).unwrap();
    let shown_other = request_to_data(&other, &vary, &mut CacheBuster::new()).unwrap();
    assert_eq!(shown_one, shown_other);
}

#[test]
fn filter_contains() {
    assert!(ContentSourceDataFilter::All.contains(&"anything".to_string()));
    let some = subset(&["a", "b"]);
    assert!(some.contains(&"b".to_string()));
    assert!(!some.contains(&"c".to_string()));
    assert!(!subset(&[]).contains(&"a".to_string()));
}

#[test]
fn filter_with_drops_the_other_keys() {
    let mut query = Query::parse("k=1&m=2&n=3").unwrap();
    query.filter_with(&subset(&["m"]));
    assert_eq!(query.len(), 1);
    assert_eq!(query.get(&"m".to_string()), Some(&text("2")));
    let mut all = Query::parse("k=1&m=2&n=3").unwrap();
    all.filter_with(&ContentSourceDataFilter::All);
    assert_eq!(all, Query::parse("k=1&m=2&n=3").unwrap());
}

#[test]
fn default_data_shows_nothing() {
    assert_eq!(ContentSourceData::default(), ContentSourceData::empty());
}

#[test]
fn copies_are_equal_to_what_they_copy() {
    let mut counter = CacheBuster::new();
    let vary = ContentSourceDataVary {
        method: true,
        url: true,
        query: Some(ContentSourceDataFilter::All),
        headers: Some(ContentSourceDataFilter::All),
        body: true,
        cache_buster: true,
    };
    let mut with_lists = request("/a?x[]=1&x[]=2&y[z]=3");
    with_lists.headers.push(("x-bin".to_string(), vec![0xfe]));
    with_lists.headers.push(("cookie".to_string(), b"b=2".to_vec()));
    let data = request_to_data(&with_lists, &vary, &mut counter).unwrap();
    let copy = data.clone();
    assert_eq!(copy, data);
    assert_eq!(
        copy.headers.as_ref().unwrap().get("x-bin"),
        Some(&HeaderValue::MultiBytes(vec![vec![0xff], vec![0xfe]]))
    );
    assert_eq!(
        copy.query.as_ref().unwrap().get_json(&"x".to_string()),
        Some("[\"1\",\"2\"]".to_string())
    );
}
