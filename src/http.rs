//! The requests that the engine asks the transport to make, and the URL of
//! each. Sending them is left to the transport.
use vstd::prelude::*;

verus! {

/// The service's base URL.
pub const API_HOST: &'static str = "https://api.wit.ai";

/// The API version that every request asks for.
pub const API_VERSION: &'static str = "20160516";

/// The HTTP methods that the service is called with.
#[derive(PartialEq, Eq, Structural, Clone, Copy, Debug)]
pub enum Method {
    Get,
    Post,
}

/// A failure to talk to the service: a readable message, the HTTP status
/// (0 when none came back), and whether the service was unreachable or
/// answered with a status other than success.
#[derive(Debug)]
pub struct HttpError {
    pub message: String,
    pub status: u16,
    pub code: u16,
}

/// The service could not be reached.
pub const HTTP_UNREACHABLE: u16 = 100;

/// The service answered with a status other than success.
pub const HTTP_BAD_STATUS: u16 = 101;

/// One request to the service: method, path, query pairs in order, and the
/// JSON body if there is one.
pub struct HttpRequest {
    pub method: Method,
    pub path: String,
    pub query: Vec<(String, String)>,
    pub body: Option<serde_json::Value>,
}

/// The texts of query pairs.
pub open spec fn pairs_view(pairs: Seq<(String, String)>) -> Seq<(Seq<char>, Seq<char>)> {
    pairs.map_values(|p: (String, String)| (p.0@, p.1@))
}

/// The form encoding (`k1=v1&k2=v2`, escaped) of query pairs.
pub uninterp spec fn urlencoded(pairs: Seq<(Seq<char>, Seq<char>)>) -> Seq<char>;

/// Relies on `serde_urlencoded::to_string`: the form encoding of the pairs,
/// which never fails on pairs of strings; no pairs encode to the empty text.
#[verifier::external_body]
fn form_encode(pairs: &Vec<(String, String)>) -> (r: Option<String>)
    ensures
        r is Some,
        r matches Some(s) ==> s@ == urlencoded(pairs_view(pairs@)),
        r matches Some(s) ==> (pairs@.len() == 0 ==> s@.len() == 0),
{
    serde_urlencoded::to_string(pairs).ok()
}

/// The full URL of a path, with the encoded query after a `?` when there is one.
pub open spec fn url_spec(path: Seq<char>, encoded: Seq<char>) -> Seq<char> {
    if encoded.len() > 0 {
        API_HOST@ + path + "?"@ + encoded
    } else {
        API_HOST@ + path
    }
}

/// Joins the base URL, a path and an already encoded query.
pub fn join_url(path: &str, encoded: &str) -> (r: String)
    ensures
        r@ == url_spec(path@, encoded@),
{
    let mut url = String::from_str(API_HOST);
    url.append(path);
    if encoded.unicode_len() > 0 {
        url.append("?");
        url.append(encoded);
    }
    url
}

/// The URL of a path and query pairs.
pub fn build_url(path: &str, query: &Vec<(String, String)>) -> (r: String)
    ensures
        r@ == url_spec(path@, urlencoded(pairs_view(query@))),
        query@.len() == 0 ==> r@ == API_HOST@ + path@,
{
    match form_encode(query) {
        Some(encoded) => join_url(path, encoded.as_str()),
        None => join_url(path, ""),
    }
}

} // verus!
