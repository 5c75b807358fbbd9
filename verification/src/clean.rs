//! The canonicalizer: parses a URL, classifies its registrable domain,
//! applies the platform's cleaning rule and serializes the result.

use vstd::pervasive::unreached;
use vstd::prelude::*;
use vstd::string::StringExecFns;

use crate::facebook::fb_shape_check;
use crate::facebook::fb_shape_ok;
use crate::facebook::facebook_clean_spec;
use crate::facebook::FacebookCleaner;
use crate::reddit::reddit_clean_spec;
use crate::reddit::RedditCleaner;
use crate::text::string_is;
use crate::url_ext::encode_query;
use crate::url_ext::lookup_registrable_domain;
use crate::url_ext::parse_url_parts;
use crate::url_ext::parsed_parts;
use crate::url_ext::query_encoding;
use crate::url_ext::registrable_domain_of;
use crate::url_value::UrlParts;
use crate::url_value::UrlPartsV;

verus! {

/// Why cleaning failed.
#[derive(Debug)]
pub enum CleanUrlError {
    /// The input is not a syntactically valid URL.
    ParseError(url::ParseError),
    /// Path mutation was attempted on a URL without hierarchical segments.
    PathSegmentsError,
    /// The host cannot be classified against the public suffix list.
    UnknownDomain,
    /// The scheme is neither http nor https.
    UnsupportedUrlScheme,
    /// The registrable domain has no cleaning rule registered.
    UnsupportedUrlHost,
    /// The path matches none of the platform's accepted shapes.
    UnsupportedUrlPath,
}

/// The kind of a cleaning failure, as a value.
pub ghost enum CleanKind {
    Parse,
    PathSegments,
    UnknownDomain,
    UnsupportedScheme,
    UnsupportedHost,
    UnsupportedPath,
}

/// The kind of a cleaning error.
pub open spec fn error_kind(e: CleanUrlError) -> CleanKind {
    match e {
        CleanUrlError::ParseError(_) => CleanKind::Parse,
        CleanUrlError::PathSegmentsError => CleanKind::PathSegments,
        CleanUrlError::UnknownDomain => CleanKind::UnknownDomain,
        CleanUrlError::UnsupportedUrlScheme => CleanKind::UnsupportedScheme,
        CleanUrlError::UnsupportedUrlHost => CleanKind::UnsupportedHost,
        CleanUrlError::UnsupportedUrlPath => CleanKind::UnsupportedPath,
    }
}

impl CleanUrlError {
    /// A human-readable description of the failure.
    pub fn message(&self) -> (r: String)
        ensures
            self is ParseError ==> r@ == "could not parse URL"@,
            self is PathSegmentsError ==> r@ == "URL does not support path segments"@,
            self is UnknownDomain ==> r@ == "unknown domain"@,
            self is UnsupportedUrlScheme ==> r@ == "unsupported URL scheme"@,
            self is UnsupportedUrlHost ==> r@ == "unsupported URL host"@,
            self is UnsupportedUrlPath ==> r@ == "unsupported URL path"@,
    {
        match self {
            CleanUrlError::ParseError(_) => String::from_str("could not parse URL"),
            CleanUrlError::PathSegmentsError => String::from_str(
                "URL does not support path segments",
            ),
            CleanUrlError::UnknownDomain => String::from_str("unknown domain"),
            CleanUrlError::UnsupportedUrlScheme => String::from_str("unsupported URL scheme"),
            CleanUrlError::UnsupportedUrlHost => String::from_str("unsupported URL host"),
            CleanUrlError::UnsupportedUrlPath => String::from_str("unsupported URL path"),
        }
    }
}

impl From<url::ParseError> for CleanUrlError {
    fn from(e: url::ParseError) -> (r: Self) {
        CleanUrlError::ParseError(e)
    }
}

impl vstd::std_specs::convert::FromSpecImpl<url::ParseError> for CleanUrlError {
    open spec fn obeys_from_spec() -> bool {
        true
    }

    open spec fn from_spec(e: url::ParseError) -> Self {
        CleanUrlError::ParseError(e)
    }
}

/// The scheme is one the canonicalizer accepts.
pub open spec fn scheme_ok(p: UrlPartsV) -> bool {
    p.scheme == "https"@ || p.scheme == "http"@
}

/// What cleaning does to parsed URL parts: validates the scheme, classifies
/// the registrable domain and applies the matching platform rule; a Facebook
/// URL whose shape the rule does not cover is rejected as an unsupported
/// path.
pub open spec fn clean_spec(p: UrlPartsV) -> Result<UrlPartsV, CleanKind> {
    if !scheme_ok(p) {
        Err(CleanKind::UnsupportedScheme)
    } else {
        match p.host {
            None => Err(CleanKind::UnknownDomain),
            Some(h) => match registrable_domain_of(h) {
                None => Err(CleanKind::UnknownDomain),
                Some(d) => if d == "reddit.com"@ {
                    reddit_clean_spec(p)
                } else if d == "facebook.com"@ {
                    if fb_shape_ok(p) {
                        facebook_clean_spec(p)
                    } else {
                        Err(CleanKind::UnsupportedPath)
                    }
                } else {
                    Err(CleanKind::UnsupportedHost)
                },
            },
        }
    }
}

/// The path part of a serialized URL: each segment prefixed by a slash.
pub open spec fn path_str(segs: Seq<Seq<char>>) -> Seq<char>
    decreases segs.len(),
{
    if segs.len() == 0 {
        Seq::empty()
    } else {
        path_str(segs.drop_last()) + "/"@ + segs.last()
    }
}

/// The serialized form of cleaned URL parts: scheme, authority, slash-joined
/// path, and the form-encoded query when any pairs remain.
pub open spec fn render_url(p: UrlPartsV) -> Seq<char>
    recommends
        p.segments is Some,
{
    p.scheme + "://"@ + p.authority + path_str(p.segments.unwrap()) + (if p.query.len() == 0 {
        Seq::<char>::empty()
    } else {
        "?"@ + query_encoding(p.query)
    })
}

/// Serializes cleaned URL parts back to a string.
fn render(p: &UrlParts) -> (r: String)
    requires
        p@.segments is Some,
    ensures
        r@ == render_url(p@),
{
    let mut out = String::new();
    out.append(p.scheme.as_str());
    out.append("://");
    out.append(p.authority.as_str());
    let ghost head = p@.scheme + "://"@ + p@.authority;
    let segs = match &p.segments {
        Some(s) => s,
        None => unreached(),
    };
    let mut i: usize = 0;
    while i < segs.len()
        invariant
            i <= segs@.len(),
            p@.segments == Some(segs.deep_view()),
            out@ == head + path_str(segs.deep_view().take(i as int)),
        decreases segs@.len() - i,
    {
        out.append("/");
        out.append(segs[i].as_str());
        proof {
            assert(segs.deep_view().take(i + 1).drop_last() =~= segs.deep_view().take(i as int));
            assert(segs.deep_view().take(i + 1).last() == segs@[i as int]@);
        }
        i = i + 1;
    }
    proof {
        assert(segs.deep_view().take(segs@.len() as int) =~= segs.deep_view());
    }
    if p.query.len() > 0 {
        out.append("?");
        let enc = encode_query(&p.query);
        out.append(enc.as_str());
    }
    out
}

/// Cleans one URL: parses it, validates the scheme, classifies the host's
/// registrable domain, applies the platform's rule and serializes the
/// result. Each error kind is returned exactly when the corresponding stage
/// rejects the input.
pub fn clean_url(url: &str) -> (r: Result<String, CleanUrlError>)
    ensures
        match parsed_parts(url@) {
            None => r matches Err(e) && e is ParseError,
            Some(p) => match clean_spec(p) {
                Ok(q) => r matches Ok(s) && s@ == render_url(q),
                Err(k) => r matches Err(e) && error_kind(e) == k,
            },
        },
{
    let mut p = match parse_url_parts(url) {
        Err(e) => {
            return Err(CleanUrlError::ParseError(e));
        },
        Ok(p) => p,
    };
    if !(string_is(&p.scheme, "https") || string_is(&p.scheme, "http")) {
        return Err(CleanUrlError::UnsupportedUrlScheme);
    }
    let domain = {
        match &p.host {
            None => {
                return Err(CleanUrlError::UnknownDomain);
            },
            Some(h) => match lookup_registrable_domain(h.as_str()) {
                None => {
                    return Err(CleanUrlError::UnknownDomain);
                },
                Some(d) => d,
            },
        }
    };
    if string_is(&domain, "reddit.com") {
        match (RedditCleaner).clean(&mut p) {
            Ok(()) => {},
            Err(e) => {
                return Err(e);
            },
        }
    } else if string_is(&domain, "facebook.com") {
        if !fb_shape_check(&p) {
            return Err(CleanUrlError::UnsupportedUrlPath);
        }
        match (FacebookCleaner).clean(&mut p) {
            Ok(()) => {},
            Err(e) => {
                return Err(e);
            },
        }
    } else {
        return Err(CleanUrlError::UnsupportedUrlHost);
    }
    Ok(render(&p))
}

} // verus!
