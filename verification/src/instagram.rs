//! The Instagram cleaning rule: Instagram share links carry their tracking
//! in query parameters (igsh), so stripping the query is all that is needed.

use vstd::prelude::*;

use crate::clean::error_kind;
use crate::clean::CleanKind;
use crate::clean::CleanUrlError;
use crate::generic::strip_query_spec;
use crate::url_value::pop_empty_segment;
use crate::url_value::UrlPartsV;
use crate::url_value::UrlParts;

verus! {

/// Cleans Instagram URLs.
pub struct InstagramCleaner;

impl InstagramCleaner {
    /// Removes every query parameter and a trailing empty path segment. On
    /// an error the URL is left unchanged.
    pub fn clean(&self, url: &mut UrlParts) -> (r: Result<(), CleanUrlError>)
        ensures
            match r {
                Ok(()) => strip_query_spec(old(url)@) == Ok::<UrlPartsV, CleanKind>(final(url)@),
                Err(e) => strip_query_spec(old(url)@) == Err::<UrlPartsV, CleanKind>(error_kind(e)) && final(url)@ == old(
                    url,
                )@,
            },
    {
        match &mut url.segments {
            None => Err(CleanUrlError::PathSegmentsError),
            Some(segs) => {
                pop_empty_segment(segs);
                url.query = Vec::new();
                proof {
                    assert(url@.query =~= Seq::<(Seq<char>, Seq<char>)>::empty());
                    assert(strip_query_spec(old(url)@) == Ok::<UrlPartsV, CleanKind>(url@)) by {
                        assert(url@ =~~= strip_query_spec(old(url)@)->Ok_0);
                    }
                }
                Ok(())
            },
        }
    }
}

} // verus!
