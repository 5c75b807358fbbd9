//! The URL-parsing, public-suffix and form-encoding capabilities the library
//! consumes from outside crates, behind trusted declarations.

use vstd::prelude::*;

use crate::url_value::UrlParts;
use crate::url_value::UrlPartsV;

verus! {

#[verifier::external_type_specification]
#[verifier::external_body]
pub struct ExParseError(url::ParseError);

/// What `url::Url::parse` yields on a given string, reduced to the parts the
/// cleaning rules read; `None` when the string is not a valid URL.
pub uninterp spec fn parsed_parts(s: Seq<char>) -> Option<UrlPartsV>;

/// Relies on url::Url::parse, with the accessors scheme, authority,
/// host_str, path_segments and query_pairs converting its result: parsing is
/// a function of the input string alone; path segments are handed out
/// percent-encoded, query pairs decoded.
#[verifier::external_body]
pub(crate) fn parse_url_parts(s: &str) -> (r: Result<UrlParts, url::ParseError>)
    ensures
        match r {
            Ok(p) => parsed_parts(s@) == Some(p@),
            Err(_) => parsed_parts(s@) is None,
        },
{
    let u = url::Url::parse(s)?;
    Ok(UrlParts {
        scheme: u.scheme().to_string(),
        authority: u.authority().to_string(),
        host: u.host_str().map(|h| h.to_string()),
        segments: u.path_segments().map(|ps| ps.map(|seg| seg.to_string()).collect()),
        query: u.query_pairs().map(|(k, v)| (k.into_owned(), v.into_owned())).collect(),
    })
}

/// The registrable domain the public suffix list gives for a host; `None`
/// when the host cannot be classified.
pub uninterp spec fn registrable_domain_of(host: Seq<char>) -> Option<Seq<char>>;

/// Relies on psl::domain_str: the registrable domain under the bundled
/// public suffix list, a function of the host name alone.
#[verifier::external_body]
pub(crate) fn lookup_registrable_domain(host: &str) -> (r: Option<String>)
    ensures
        match r {
            Some(d) => registrable_domain_of(host@) == Some(d@),
            None => registrable_domain_of(host@) is None,
        },
{
    psl::domain_str(host).map(|d| d.to_string())
}

/// The form-urlencoded serialization of query pairs.
pub uninterp spec fn query_encoding(pairs: Seq<(Seq<char>, Seq<char>)>) -> Seq<char>;

/// Relies on url::form_urlencoded::Serializer (extend_pairs, finish):
/// percent-encodes each key and value and writes them as `k=v` pairs joined
/// by `&`, a function of the pairs alone.
#[verifier::external_body]
pub(crate) fn encode_query(pairs: &Vec<(String, String)>) -> (r: String)
    ensures
        r@ == query_encoding(pairs.deep_view()),
{
    let mut ser = url::form_urlencoded::Serializer::new(String::new());
    ser.extend_pairs(pairs.iter().map(|p| (p.0.as_str(), p.1.as_str())));
    ser.finish()
}

/// What resolving a (possibly relative) reference against a base URL gives;
/// `None` when the base does not parse or the reference cannot be joined.
pub uninterp spec fn joined_url(base: Seq<char>, rel: Seq<char>) -> Option<Seq<char>>;

/// Relies on url::Url::join, with url::Url::parse reading the base and the
/// Display serialization writing the result: a function of the two strings
/// alone.
#[verifier::external_body]
pub(crate) fn join_absolute(base: &str, rel: &str) -> (r: Result<String, url::ParseError>)
    ensures
        match r {
            Ok(t) => joined_url(base@, rel@) == Some(t@),
            Err(_) => joined_url(base@, rel@) is None,
        },
{
    let b = url::Url::parse(base)?;
    let j = b.join(rel)?;
    Ok(j.to_string())
}

} // verus!
