//! The Reddit cleaning rule: strip the query, drop a trailing empty path
//! segment, accept only post and comment paths, and drop a post's
//! human-readable slug.

use vstd::pervasive::unreached;
use vstd::prelude::*;

use crate::clean::error_kind;
use crate::clean::CleanKind;
use crate::clean::CleanUrlError;
use crate::text::string_is;
use crate::url_ext::lookup_registrable_domain;
use crate::url_ext::registrable_domain_of;
use crate::url_value::pop_empty;
use crate::url_value::pop_empty_segment;
use crate::url_value::UrlParts;
use crate::url_value::UrlPartsV;

verus! {

/// The path names a post: `/r/<sub>/comments/<post-id>`.
pub open spec fn is_reddit_post(s: Seq<Seq<char>>) -> bool {
    s.len() == 4 && s[0] == "r"@ && s[2] == "comments"@
}

/// The path names a post followed by a human-readable slug:
/// `/r/<sub>/comments/<post-id>/<slug>`.
pub open spec fn is_reddit_post_slug(s: Seq<Seq<char>>) -> bool {
    s.len() == 5 && s[0] == "r"@ && s[2] == "comments"@
}

/// The path names a comment: `/r/<sub>/comments/<post-id>/comment/<id>`.
pub open spec fn is_reddit_comment(s: Seq<Seq<char>>) -> bool {
    s.len() == 6 && s[0] == "r"@ && s[2] == "comments"@ && s[4] == "comment"@
}

/// What the Reddit rule does to URL parts: requires the host to classify to
/// reddit.com, strips the query, drops a trailing empty segment, accepts
/// only post and comment shapes, and removes a post's slug segment.
pub open spec fn reddit_clean_spec(p: UrlPartsV) -> Result<UrlPartsV, CleanKind>
    recommends
        p.host is Some,
{
    match registrable_domain_of(p.host.unwrap()) {
        None => Err(CleanKind::UnknownDomain),
        Some(d) => if d != "reddit.com"@ {
            Err(CleanKind::UnsupportedHost)
        } else {
            match p.segments {
                None => Err(CleanKind::PathSegments),
                Some(s0) => {
                    let s = pop_empty(s0);
                    if is_reddit_post_slug(s) {
                        Ok(
                            UrlPartsV {
                                scheme: p.scheme,
                                authority: p.authority,
                                host: p.host,
                                segments: Some(s.drop_last()),
                                query: Seq::empty(),
                            },
                        )
                    } else if is_reddit_post(s) || is_reddit_comment(s) {
                        Ok(
                            UrlPartsV {
                                scheme: p.scheme,
                                authority: p.authority,
                                host: p.host,
                                segments: Some(s),
                                query: Seq::empty(),
                            },
                        )
                    } else {
                        Err(CleanKind::UnsupportedPath)
                    }
                },
            }
        },
    }
}

/// Cleans Reddit URLs.
pub struct RedditCleaner;

impl RedditCleaner {
    /// Applies the Reddit rule in place. On an error the URL is left
    /// unchanged.
    pub fn clean(&self, url: &mut UrlParts) -> (r: Result<(), CleanUrlError>)
        requires
            old(url)@.host is Some,
        ensures
            match r {
                Ok(()) => reddit_clean_spec(old(url)@) == Ok::<UrlPartsV, CleanKind>(final(url)@),
                Err(e) => reddit_clean_spec(old(url)@) == Err::<UrlPartsV, CleanKind>(error_kind(e)) && final(url)@
                    == old(url)@,
            },
    {
        let domain = {
            let host = match &url.host {
                Some(h) => h,
                None => unreached(),
            };
            match lookup_registrable_domain(host.as_str()) {
                None => {
                    return Err(CleanUrlError::UnknownDomain);
                },
                Some(d) => d,
            }
        };
        if !string_is(&domain, "reddit.com") {
            return Err(CleanUrlError::UnsupportedUrlHost);
        }
        let ghost s0 = old(url)@.segments.unwrap();
        let shape = {
            let segs = match &url.segments {
                None => {
                    return Err(CleanUrlError::PathSegmentsError);
                },
                Some(s) => s,
            };
            let n0 = segs.len();
            let trailing = n0 > 1 && segs[n0 - 1].as_str().is_empty();
            let n = if trailing {
                n0 - 1
            } else {
                n0
            };
            proof {
                assert(pop_empty(s0).len() == n);
                assert(forall|j: int| 0 <= j < n ==> pop_empty(s0)[j] == s0[j]);
            }
            if !((n == 4 || n == 5 || n == 6) && string_is(&segs[0], "r") && string_is(
                &segs[2],
                "comments",
            )) {
                return Err(CleanUrlError::UnsupportedUrlPath);
            }
            if n == 6 && !string_is(&segs[4], "comment") {
                return Err(CleanUrlError::UnsupportedUrlPath);
            }
            n
        };
        url.query = Vec::new();
        let segs = match &mut url.segments {
            Some(s) => s,
            None => unreached(),
        };
        pop_empty_segment(segs);
        if shape == 5 {
            segs.pop();
            proof {
                assert(segs.deep_view() =~= pop_empty(s0).drop_last());
            }
        }
        proof {
            assert(url@.query =~= Seq::<(Seq<char>, Seq<char>)>::empty());
            assert(reddit_clean_spec(old(url)@) == Ok::<UrlPartsV, CleanKind>(url@)) by {
                assert(url@ =~~= reddit_clean_spec(old(url)@)->Ok_0);
            }
        }
        Ok(())
    }
}

} // verus!
