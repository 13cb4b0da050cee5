//! The search exchange: the request address, and what a search response
//! means for the run.
use vstd::prelude::*;

use crate::json::{is_array_at, is_json, json_is_array_at, json_str_at, parses, str_at};
use crate::text::{contains, has_substring};
use crate::Failure;

verus! {

/// The address of the search endpoint.
pub open spec fn endpoint() -> Seq<char> {
    "https://api.unsplash.com/search/photos"@
}

/// The search request for `seed`, authorised by `api_key`; both are passed
/// verbatim as query parameters.
pub open spec fn search_url_of(api_key: Seq<char>, seed: Seq<char>) -> Seq<char> {
    endpoint() + "?query="@ + seed + "&client_id="@ + api_key
}

/// The service rejected the credential: its first error text mentions OAuth.
pub open spec fn is_auth_failure(first_error: Option<Seq<char>>) -> bool {
    first_error matches Some(t) && has_substring(t, "OAuth"@)
}

/// The characters of an optional text.
pub open spec fn text_of(o: Option<&str>) -> Option<Seq<char>> {
    match o {
        Some(t) => Some(t@),
        None => None,
    }
}

/// The first result of a search: its description, if it has one, and the
/// address of the raw image.
pub struct SearchResult {
    pub description: Option<String>,
    pub raw_url: String,
}

impl View for SearchResult {
    type V = (Option<Seq<char>>, Seq<char>);

    open spec fn view(&self) -> (Option<Seq<char>>, Seq<char>) {
        let description = match self.description {
            Some(d) => Some(d@),
            None => None,
        };
        (description, self.raw_url@)
    }
}

/// Builds the search request for `seed` with the credential `api_key`.
pub fn search_url(api_key: &str, seed: &str) -> (r: String)
    ensures
        r@ == search_url_of(api_key@, seed@),
{
    let url = "https://api.unsplash.com/search/photos".to_owned();
    let url = url.concat("?query=");
    let url = url.concat(seed);
    let url = url.concat("&client_id=");
    let url = url.concat(api_key);
    url
}

/// Decides a search from the fields read out of its response: the text of
/// the first entry of its `errors` array, and the first result's
/// description and raw image address.
pub fn interpret_search(
    first_error: Option<&str>,
    description: Option<&str>,
    raw_url: Option<&str>,
) -> (r: Result<SearchResult, Failure>)
    ensures
        (r matches Err(e) && e == Failure::Authentication) <==> is_auth_failure(text_of(first_error)),
        (r matches Err(e) && e == Failure::SearchParse) <==> (!is_auth_failure(text_of(first_error))
            && raw_url is None),
        r matches Err(e) ==> e == Failure::Authentication || e == Failure::SearchParse,
        r matches Ok(s) ==> s@ == (text_of(description), raw_url->Some_0@),
{
    if let Some(text) = first_error {
        if contains(text, "OAuth") {
            return Err(Failure::Authentication);
        }
    }
    match raw_url {
        None => Err(Failure::SearchParse),
        Some(url) => {
            let description = match description {
                Some(d) => Some(d.to_owned()),
                None => None,
            };
            Ok(SearchResult { description, raw_url: url.to_owned() })
        },
    }
}

/// The text of the first entry of a response's `errors`, when `errors` is
/// an array.
pub open spec fn first_error_of(body: Seq<char>) -> Option<Seq<char>> {
    if json_is_array_at(body, "/errors"@) {
        json_str_at(body, "/errors/0"@)
    } else {
        None
    }
}

/// Reads a search response body: `interpret_search` on the text of
/// `errors[0]` (when `errors` is an array), and on the texts of
/// `results[0].description` and `results[0].urls.raw`. A body that is no
/// JSON document is a parse failure.
pub fn read_search_response(body: &str) -> (r: Result<SearchResult, Failure>)
    ensures
        (r matches Err(e) && e == Failure::Authentication) <==> is_auth_failure(
            first_error_of(body@),
        ),
        (r matches Err(e) && e == Failure::SearchParse) <==> (!is_auth_failure(
            first_error_of(body@),
        ) && json_str_at(body@, "/results/0/urls/raw"@) is None),
        r matches Err(e) ==> e == Failure::Authentication || e == Failure::SearchParse,
        r matches Ok(s) ==> s@ == (
            json_str_at(body@, "/results/0/description"@),
            json_str_at(body@, "/results/0/urls/raw"@)->Some_0,
        ),
        !is_json(body@) ==> (r matches Err(e) && e == Failure::SearchParse),
{
    if !parses(body) {
        return Err(Failure::SearchParse);
    }
    let first_error = if is_array_at(body, "/errors") {
        str_at(body, "/errors/0")
    } else {
        None
    };
    let description = str_at(body, "/results/0/description");
    let raw_url = str_at(body, "/results/0/urls/raw");
    let first_error_text: Option<&str> = match &first_error {
        Some(t) => Some(t.as_str()),
        None => None,
    };
    let description_text: Option<&str> = match &description {
        Some(t) => Some(t.as_str()),
        None => None,
    };
    let raw_url_text: Option<&str> = match &raw_url {
        Some(t) => Some(t.as_str()),
        None => None,
    };
    interpret_search(first_error_text, description_text, raw_url_text)
}

} // verus!
