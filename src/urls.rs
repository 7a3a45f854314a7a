//! URLs: the verifier's endpoints, the redirect bridge, query parameters.
use vstd::prelude::*;
use crate::error::DuoError;

verus! {

#[verifier::external_type_specification]
#[verifier::external_body]
pub struct ExUrlParseError(url::ParseError);

/// The view of a list of name/value pairs.
pub open spec fn pairs_view(v: Seq<(String, String)>) -> Seq<(Seq<char>, Seq<char>)> {
    v.map_values(|p: (String, String)| (p.0@, p.1@))
}

/// `url::Url::parse` accepts `url`.
pub uninterp spec fn url_parses(url: Seq<char>) -> bool;

/// `url::Url::parse` accepts `base` and `url::Url::join` then accepts `reference`.
pub uninterp spec fn url_joins(base: Seq<char>, reference: Seq<char>) -> bool;

/// The serialization of `url` once the pairs are appended, in order and
/// form-encoded, to its query.
pub uninterp spec fn url_with_query(url: Seq<char>, pairs: Seq<(Seq<char>, Seq<char>)>) -> Seq<char>;

/// The serialization of `reference` resolved against the base `base`.
pub uninterp spec fn joined_url(base: Seq<char>, reference: Seq<char>) -> Seq<char>;

/// Relies on `url::Url::parse`, then `form_urlencoded::Serializer::extend_pairs`
/// (through `query_pairs_mut`), which cannot fail on a parsed URL: the URL
/// with the pairs appended to its query, serialized; it depends on its
/// arguments alone.
#[verifier::external_body]
fn append_query_pairs(url: &str, pairs: &Vec<(String, String)>) -> (r: Result<String, url::ParseError>)
    ensures
        r is Ok <==> url_parses(url@),
        r matches Ok(s) ==> s@ == url_with_query(url@, pairs_view(pairs@)),
{
    let mut parsed = url::Url::parse(url)?;
    parsed.query_pairs_mut().extend_pairs(pairs.iter());
    Ok(parsed.to_string())
}

/// Relies on `url::Url::parse` and `url::Url::join`: the reference resolved
/// against the base, serialized; it depends on its arguments alone. The
/// serialization of a `Url` parses again (the crate's own invariant, checked
/// by `Url::check_invariants`).
#[verifier::external_body]
fn join_reference(base: &str, reference: &str) -> (r: Result<String, url::ParseError>)
    ensures
        r is Ok <==> url_joins(base@, reference@),
        r matches Ok(s) ==> s@ == joined_url(base@, reference@) && url_parses(s@),
{
    Ok(url::Url::parse(base)?.join(reference)?.to_string())
}

/// Appends the pairs, in order, to the query of `url`.
pub fn with_query(url: &str, pairs: &Vec<(String, String)>) -> (r: Result<String, DuoError>)
    ensures
        r is Ok <==> url_parses(url@),
        r matches Ok(s) ==> s@ == url_with_query(url@, pairs_view(pairs@)),
        r matches Err(e) ==> e == DuoError::BadUrl,
{
    match append_query_pairs(url, pairs) {
        Ok(s) => Ok(s),
        Err(_) => Err(DuoError::BadUrl),
    }
}

/// A name/value pair.
pub fn pair(key: &str, value: &str) -> (r: (String, String))
    ensures
        r.0@ == key@,
        r.1@ == value@,
{
    (String::from_str(key), String::from_str(value))
}

/// The file of the client-side bridge that the verifier redirects the browser to.
pub const REDIRECT_LOCATION: &'static str = "duo-redirect-connector.html";

/// The redirect-bridge URL for a client application, before serialization.
pub open spec fn callback_url(domain: Seq<char>, client_name: Seq<char>) -> Seq<char> {
    url_with_query(joined_url(domain, REDIRECT_LOCATION@), seq![("client"@, client_name)])
}

/// The URL the verifier sends the browser back to: the application's base
/// `domain`, the redirect bridge's location, and a `client` query parameter
/// naming the requesting client application.
pub fn make_callback_url(domain: &str, client_name: &str) -> (r: Result<String, DuoError>)
    ensures
        r is Ok <==> url_joins(domain@, REDIRECT_LOCATION@),
        r matches Ok(s) ==> s@ == callback_url(domain@, client_name@),
        r matches Err(e) ==> e == DuoError::BadUrl,
{
    let base = match join_reference(domain, REDIRECT_LOCATION) {
        Ok(s) => s,
        Err(_) => return Err(DuoError::BadUrl),
    };
    let mut pairs: Vec<(String, String)> = Vec::new();
    pairs.push(pair("client", client_name));
    assert(pairs_view(pairs@) =~= seq![("client"@, client_name@)]);
    with_query(base.as_str(), &pairs)
}

/// `https://` followed by the host and the path.
pub open spec fn https_url(host: Seq<char>, path: Seq<char>) -> Seq<char> {
    "https://"@ + host + path
}

/// Builds `https://<host><path>`.
pub fn make_https_url(host: &str, path: &str) -> (r: String)
    ensures
        r@ == https_url(host@, path@),
{
    let mut s = String::from_str("https://");
    s.append(host);
    s.append(path);
    s
}

} // verus!
