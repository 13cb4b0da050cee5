use unsplash_fetch::search::{interpret_search, read_search_response, search_url};
use unsplash_fetch::Failure;

#[test]
fn search_url_carries_seed_and_key() {
    assert_eq!(
        search_url("KEY123", "Nature"),
        "https://api.unsplash.com/search/photos?query=Nature&client_id=KEY123"
    );
}

#[test]
fn first_result_is_read() {
    let body = r#"{"results":[{"description":"A cat","urls":{"raw":"http://x/y.jpg"}}]}"#;
    let r = read_search_response(body).ok().unwrap();
    assert_eq!(r.description.as_deref(), Some("A cat"));
    assert_eq!(r.raw_url, "http://x/y.jpg");
}

#[test]
fn null_description_is_absent() {
    let body = r#"{"results":[{"description":null,"urls":{"raw":"http://x/z.png"}},{"description":"B","urls":{"raw":"http://x/b"}}]}"#;
    let r = read_search_response(body).ok().unwrap();
    assert_eq!(r.description, None);
    assert_eq!(r.raw_url, "http://x/z.png");
}

#[test]
fn oauth_error_is_an_authentication_failure() {
    let body = r#"{"errors":["OAuth error: invalid token"]}"#;
    assert_eq!(read_search_response(body).err(), Some(Failure::Authentication));
}

#[test]
fn other_error_without_results_is_a_parse_failure() {
    let body = r#"{"errors":["Rate Limit Exceeded"]}"#;
    assert_eq!(read_search_response(body).err(), Some(Failure::SearchParse));
}

#[test]
fn empty_results_are_a_parse_failure() {
    assert_eq!(read_search_response(r#"{"results":[]}"#).err(), Some(Failure::SearchParse));
}

#[test]
fn non_json_body_is_a_parse_failure() {
    assert_eq!(read_search_response("<html>busy</html>").err(), Some(Failure::SearchParse));
}

#[test]
fn interpret_prefers_authentication_over_a_result() {
    let r = interpret_search(Some("OAuth error"), None, Some("http://x"));
    assert_eq!(r.err(), Some(Failure::Authentication));
}

#[test]
fn interpret_ignores_non_oauth_errors() {
    let r = interpret_search(Some("Rate limit"), Some("d"), Some("http://x")).ok().unwrap();
    assert_eq!(r.description.as_deref(), Some("d"));
    assert_eq!(r.raw_url, "http://x");
}

#[test]
fn interpret_without_url_fails() {
    let r = interpret_search(None, Some("d"), None);
    assert_eq!(r.err(), Some(Failure::SearchParse));
}

#[test]
fn oauth_text_outside_an_errors_array_is_no_authentication_failure() {
    let body = r#"{"errors":"OAuth error","results":[{"urls":{"raw":"http://x/a"}}]}"#;
    let r = read_search_response(body).ok().unwrap();
    assert_eq!(r.description, None);
    assert_eq!(r.raw_url, "http://x/a");
}

#[test]
fn non_string_url_is_a_parse_failure() {
    let body = r#"{"results":[{"description":"d","urls":{"raw":7}}]}"#;
    assert_eq!(read_search_response(body).err(), Some(Failure::SearchParse));
}
