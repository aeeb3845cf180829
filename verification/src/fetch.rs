//! The compute half of the HTTP fetch boundary: the request and response
//! shapes, choosing the HTTP method from the caller's options, and judging
//! a response status. Sending the request is the application's business.

use vstd::prelude::*;
use std::collections::HashMap;

verus! {

/// A fetched response: status, headers, body.
#[derive(Debug)]
pub struct FetchResponse {
    pub status: u16,
    pub headers: HashMap<String, String>,
    pub body: String,
}

/// A caller's request options; every field may be left out.
#[derive(Debug)]
pub struct FetchOptions {
    pub method: Option<String>,
    pub headers: Option<HashMap<String, String>>,
    pub body: Option<String>,
}

/// The HTTP methods a fetch request may use.
#[derive(Clone, Copy, Debug, PartialEq, Eq, Structural)]
pub enum HttpMethod {
    Get,
    Post,
    Put,
    Delete,
    Patch,
}

/// An ASCII capital letter mapped to its small form; every other
/// character stays as it is.
pub open spec fn ascii_lower(c: char) -> char {
    if 'A' <= c && c <= 'Z' {
        ((c as u8) + 32) as char
    } else {
        c
    }
}

/// A character sequence with every ASCII capital mapped to its small form.
pub open spec fn ascii_lower_seq(s: Seq<char>) -> Seq<char> {
    s.map_values(|c: char| ascii_lower(c))
}

/// Whether two strings match ignoring ASCII case.
pub open spec fn eq_ignore_ascii_case_spec(a: Seq<char>, b: Seq<char>) -> bool {
    ascii_lower_seq(a) == ascii_lower_seq(b)
}

/// Relies on `str::eq_ignore_ascii_case`: true exactly when the two
/// strings are equal after mapping ASCII capitals to small letters.
#[verifier::external_body]
fn str_eq_ignore_ascii_case(a: &str, b: &str) -> (r: bool)
    ensures
        r == eq_ignore_ascii_case_spec(a@, b@),
{
    a.eq_ignore_ascii_case(b)
}

/// The method a string names, compared ignoring ASCII case; a string that
/// names none of the five supported methods yields nothing.
pub open spec fn http_method_of(s: Seq<char>) -> Option<HttpMethod> {
    if eq_ignore_ascii_case_spec(s, "GET"@) {
        Some(HttpMethod::Get)
    } else if eq_ignore_ascii_case_spec(s, "POST"@) {
        Some(HttpMethod::Post)
    } else if eq_ignore_ascii_case_spec(s, "PUT"@) {
        Some(HttpMethod::Put)
    } else if eq_ignore_ascii_case_spec(s, "DELETE"@) {
        Some(HttpMethod::Delete)
    } else if eq_ignore_ascii_case_spec(s, "PATCH"@) {
        Some(HttpMethod::Patch)
    } else {
        None
    }
}

/// Parses an HTTP method name, ignoring ASCII case.
pub fn parse_method(s: &str) -> (r: Option<HttpMethod>)
    ensures
        r == http_method_of(s@),
{
    if str_eq_ignore_ascii_case(s, "GET") {
        Some(HttpMethod::Get)
    } else if str_eq_ignore_ascii_case(s, "POST") {
        Some(HttpMethod::Post)
    } else if str_eq_ignore_ascii_case(s, "PUT") {
        Some(HttpMethod::Put)
    } else if str_eq_ignore_ascii_case(s, "DELETE") {
        Some(HttpMethod::Delete)
    } else if str_eq_ignore_ascii_case(s, "PATCH") {
        Some(HttpMethod::Patch)
    } else {
        None
    }
}

/// The method a request uses: the one the options name — unsupported
/// names yield nothing and the request is refused — with `GET` as the
/// default when the options leave the method out.
pub open spec fn effective_method(method: Option<Seq<char>>) -> Option<HttpMethod> {
    match method {
        Some(m) => http_method_of(m),
        None => http_method_of("GET"@),
    }
}

/// Chooses the HTTP method for a request from the caller's options.
pub fn request_method(method: &Option<String>) -> (r: Option<HttpMethod>)
    ensures
        r == effective_method(method.deep_view()),
{
    match method {
        Some(m) => parse_method(m.as_str()),
        None => parse_method("GET"),
    }
}

/// Leaving the method out is the same as asking for `GET`.
pub proof fn lemma_default_method_is_get()
    ensures
        effective_method(None) == Some(HttpMethod::Get),
{
}

/// Whether an HTTP status reports success.
pub fn is_success_status(status: u16) -> (r: bool)
    ensures
        r <==> 200 <= status < 300,
{
    200 <= status && status < 300
}

} // verus!
