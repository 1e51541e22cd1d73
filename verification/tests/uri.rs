use source_resolve::error::ResolveError;
use source_resolve::text::{eq_ignoring_ascii_case, to_ascii_lowercase, without_first_char};
use source_resolve::uri::RequestUri;

#[test]
fn path_and_query_are_read() {
    let uri = RequestUri::parse("/a/b?x=1&y=2").unwrap();
    assert_eq!(uri.path(), "/a/b");
    assert_eq!(uri.query(), Some("x=1&y=2"));
    assert_eq!(uri.text(), "/a/b?x=1&y=2");
}

#[test]
fn uri_without_query_has_none() {
    let uri = RequestUri::parse("/a").unwrap();
    assert_eq!(uri.path(), "/a");
    assert_eq!(uri.query(), None);
    assert_eq!(uri.text(), "/a");
}

#[test]
fn absolute_uri_is_written_out_with_scheme_and_authority() {
    let uri = RequestUri::parse("http://example.com:8080/p?q=1").unwrap();
    assert_eq!(uri.path(), "/p");
    assert_eq!(uri.query(), Some("q=1"));
    assert_eq!(uri.text(), "http://example.com:8080/p?q=1");
}

#[test]
fn fragment_is_left_out() {
    let uri = RequestUri::parse("/p?q=1#top").unwrap();
    assert_eq!(uri.query(), Some("q=1"));
    assert_eq!(uri.text(), "/p?q=1");
}

#[test]
fn text_that_is_no_uri_is_refused() {
    assert_eq!(
        RequestUri::parse("/a b").err(),
        Some(ResolveError::InvalidUri)
    );
    assert_eq!(RequestUri::parse("").err(), Some(ResolveError::InvalidUri));
}

#[test]
fn uri_without_a_path_is_refused() {
    assert_eq!(
        RequestUri::parse("localhost:3000").err(),
        Some(ResolveError::InvalidUri)
    );
}

#[test]
fn same_uri_ignores_case_of_scheme_and_authority_only() {
    let a = RequestUri::parse("http://Example.com/p?q=1").unwrap();
    let b = RequestUri::parse("HTTP://example.COM/p?q=1").unwrap();
    let c = RequestUri::parse("http://example.com/P?q=1").unwrap();
    let d = RequestUri::parse("http://example.com/p?Q=1").unwrap();
    let e = RequestUri::parse("/p?q=1").unwrap();
    let f = RequestUri::parse("/p").unwrap();
    assert!(a.same_as(&b));
    assert!(!a.same_as(&c));
    assert!(!a.same_as(&d));
    assert!(!a.same_as(&e));
    assert!(!e.same_as(&f));
    assert!(e.same_as(&RequestUri::parse("/p?q=1").unwrap()));
}

#[test]
fn asset_path_strips_the_slash_and_decodes() {
    let uri = RequestUri::parse("/a%20b/c%2Fd?x=%20").unwrap();
    assert_eq!(uri.asset_path(), Ok("a b/c/d".to_string()));
    assert_eq!(RequestUri::parse("/").unwrap().asset_path(), Ok(String::new()));
    assert_eq!(
        RequestUri::parse("/a+b").unwrap().asset_path(),
        Ok("a+b".to_string())
    );
    assert_eq!(
        RequestUri::parse("/%C3%A9").unwrap().asset_path(),
        Ok("é".to_string())
    );
}

#[test]
fn asset_path_that_decodes_to_no_text_is_refused() {
    let uri = RequestUri::parse("/%FF").unwrap();
    assert_eq!(uri.asset_path(), Err(ResolveError::InvalidPath));
}

#[test]
fn ascii_lowercase_leaves_other_letters_alone() {
    assert_eq!(to_ascii_lowercase("Content-TYPE"), "content-type");
    assert_eq!(to_ascii_lowercase("ÀbC@[`{"), "Àbc@[`{");
    assert_eq!(to_ascii_lowercase(""), "");
}

#[test]
fn comparison_ignores_ascii_case_only() {
    assert!(eq_ignoring_ascii_case("Host", "hOST"));
    assert!(!eq_ignoring_ascii_case("Host", "Hosts"));
    assert!(!eq_ignoring_ascii_case("é", "É"));
    assert!(eq_ignoring_ascii_case("", ""));
}

#[test]
fn first_character_is_dropped() {
    assert_eq!(without_first_char("/a/b"), "a/b");
    assert_eq!(without_first_char("éa"), "a");
    assert_eq!(without_first_char(""), "");
}

#[test]
fn error_messages() {
    assert_eq!(
        ResolveError::RewriteLoop("/a?b=1".to_string()).message(),
        "rewrite loop detected: /a?b=1"
    );
    assert_eq!(ResolveError::InvalidQuery.message(), "invalid query string");
    assert_eq!(ResolveError::InvalidUri.message(), "invalid rewrite target");
    assert_eq!(
        ResolveError::InvalidPath.message(),
        "invalid percent-encoding in the request path"
    );
}
