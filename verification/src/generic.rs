//! The generic cleaning rule: strip every query parameter and one trailing
//! empty path segment; accept any path shape.

use vstd::prelude::*;

use crate::clean::error_kind;
use crate::clean::CleanKind;
use crate::clean::CleanUrlError;
use crate::url_value::pop_empty;
use crate::url_value::pop_empty_segment;
use crate::url_value::UrlParts;
use crate::url_value::UrlPartsV;

verus! {

/// What stripping does to URL parts: every query pair is dropped, and one
/// trailing empty path segment with them; a URL without hierarchical path
/// segments is rejected.
pub open spec fn strip_query_spec(p: UrlPartsV) -> Result<UrlPartsV, CleanKind> {
    match p.segments {
        None => Err(CleanKind::PathSegments),
        Some(s) => Ok(
            UrlPartsV {
                scheme: p.scheme,
                authority: p.authority,
                host: p.host,
                segments: Some(pop_empty(s)),
                query: Seq::empty(),
            },
        ),
    }
}

/// Cleans URLs of platforms whose only noise is tracking parameters and
/// whose path needs no shape validation.
pub struct GenericCleaner;

impl GenericCleaner {
    /// Removes every query parameter and a trailing empty path segment. On
    /// an error the URL is left unchanged.
    pub fn clean(&self, url: &mut UrlParts) -> (r: Result<(), CleanUrlError>)
        ensures
            match r {
                Ok(()) => strip_query_spec(old(url)@) == Ok::<UrlPartsV, CleanKind>(final(url)@),
                Err(e) => strip_query_spec(old(url)@) == Err::<UrlPartsV, CleanKind>(error_kind(e)) && final(url)@ == old(
                    url,
                )@,
            },
    {
        match &mut url.segments {
            None => Err(CleanUrlError::PathSegmentsError),
            Some(segs) => {
                pop_empty_segment(segs);
                url.query = Vec::new();
                proof {
                    assert(url@.query =~= Seq::<(Seq<char>, Seq<char>)>::empty());
                    assert(strip_query_spec(old(url)@) == Ok::<UrlPartsV, CleanKind>(url@)) by {
                        assert(url@ =~~= strip_query_spec(old(url)@)->Ok_0);
                    }
                }
                Ok(())
            },
        }
    }
}

} // verus!
