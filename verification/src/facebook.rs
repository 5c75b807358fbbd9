//! The Facebook cleaning rule: capture the query, strip it, classify the
//! path shape, and re-attach only the identity-bearing parameters; for some
//! link kinds the canonical identity lives in the query, not the path.

use vstd::pervasive::unreached;
use vstd::prelude::*;
use vstd::string::StringExecFns;

use crate::clean::error_kind;
use crate::clean::CleanKind;
use crate::clean::CleanUrlError;
use crate::text::string_is;
use crate::url_value::pop_empty;
use crate::url_value::pop_empty_segment;
use crate::url_value::q_lookup;
use crate::url_value::query_get;
use crate::url_value::UrlParts;
use crate::url_value::UrlPartsV;

verus! {

broadcast use vstd::string::group_string_axioms;

/// The path names a page post: `/<page>/posts/<post-id>`.
pub open spec fn is_fb_page_post(s: Seq<Seq<char>>) -> bool {
    s.len() == 3 && s[1] == "posts"@
}

/// The path names a reel: `/reel/<reel-id>`.
pub open spec fn is_fb_reel(s: Seq<Seq<char>>) -> bool {
    s.len() == 2 && s[0] == "reel"@
}

/// The path names a group post: `/groups/<group>/permalink/<post-id>`.
pub open spec fn is_fb_group_post(s: Seq<Seq<char>>) -> bool {
    s.len() == 4 && s[0] == "groups"@ && s[2] == "permalink"@
}

/// The path is `/permalink.php`: the story is addressed by the query.
pub open spec fn is_fb_permalink_php(s: Seq<Seq<char>>) -> bool {
    s.len() == 1 && s[0] == "permalink.php"@
}

/// The path is `/photo.php`: the photo is addressed by the query.
pub open spec fn is_fb_photo_php(s: Seq<Seq<char>>) -> bool {
    s.len() == 1 && s[0] == "photo.php"@
}

/// The URL has one of the shapes the Facebook rule covers, with the
/// identity-bearing query parameters its shape requires. A URL without
/// hierarchical segments is covered: the rule rejects it cleanly.
pub open spec fn fb_shape_ok(p: UrlPartsV) -> bool {
    match p.segments {
        None => true,
        Some(s0) => {
            let s = pop_empty(s0);
            ||| is_fb_page_post(s)
            ||| is_fb_reel(s)
            ||| is_fb_group_post(s)
            ||| (is_fb_permalink_php(s) && q_lookup(p.query, "story_fbid"@) is Some && q_lookup(
                p.query,
                "id"@,
            ) is Some)
            ||| (is_fb_photo_php(s) && q_lookup(p.query, "fbid"@) is Some)
        },
    }
}

/// What the Facebook rule does to URL parts: the query is stripped, a
/// trailing empty segment dropped, and then, by path shape, the minimal
/// identity-bearing parameters are re-attached: `comment_id` for a group
/// post that had one, `story_fbid` and `id` for `permalink.php`, `fbid` for
/// `photo.php`.
pub open spec fn facebook_clean_spec(p: UrlPartsV) -> Result<UrlPartsV, CleanKind>
    recommends
        fb_shape_ok(p),
{
    match p.segments {
        None => Err(CleanKind::PathSegments),
        Some(s0) => {
            let s = pop_empty(s0);
            let base = UrlPartsV {
                scheme: p.scheme,
                authority: p.authority,
                host: p.host,
                segments: Some(s),
                query: Seq::empty(),
            };
            if is_fb_page_post(s) || is_fb_reel(s) || (is_fb_group_post(s) && q_lookup(
                p.query,
                "comment_id"@,
            ) is None) {
                Ok(base)
            } else if is_fb_permalink_php(s) {
                Ok(
                    UrlPartsV {
                        query: seq![
                            ("story_fbid"@, q_lookup(p.query, "story_fbid"@).unwrap()),
                            ("id"@, q_lookup(p.query, "id"@).unwrap()),
                        ],
                        ..base
                    },
                )
            } else if is_fb_photo_php(s) {
                Ok(
                    UrlPartsV {
                        query: seq![("fbid"@, q_lookup(p.query, "fbid"@).unwrap())],
                        ..base
                    },
                )
            } else if is_fb_group_post(s) {
                Ok(
                    UrlPartsV {
                        query: seq![("comment_id"@, q_lookup(p.query, "comment_id"@).unwrap())],
                        ..base
                    },
                )
            } else {
                Err(CleanKind::UnsupportedPath)
            }
        },
    }
}

/// The shapes the Facebook rule distinguishes.
enum FbShape {
    PagePost,
    Reel,
    GroupPost,
    Permalink,
    Photo,
}

/// Whether the URL has a shape the Facebook rule covers, with the query
/// parameters that shape requires.
pub fn fb_shape_check(p: &UrlParts) -> (b: bool)
    ensures
        b == fb_shape_ok(p@),
{
    let segs = match &p.segments {
        None => {
            return true;
        },
        Some(s) => s,
    };
    let ghost s0 = p@.segments.unwrap();
    let n0 = segs.len();
    let trailing = n0 > 1 && segs[n0 - 1].as_str().is_empty();
    let n = if trailing {
        n0 - 1
    } else {
        n0
    };
    proof {
        assert(pop_empty(s0).len() == n);
        assert(forall|j: int| 0 <= j < n ==> pop_empty(s0)[j] == s0[j]);
        reveal_strlit("permalink.php");
        reveal_strlit("photo.php");
        assert("permalink.php"@.len() == 13);
        assert("photo.php"@.len() == 9);
        assert("permalink.php"@ != "photo.php"@);
    }
    if n == 3 && string_is(&segs[1], "posts") {
        return true;
    }
    if n == 2 && string_is(&segs[0], "reel") {
        return true;
    }
    if n == 4 && string_is(&segs[0], "groups") && string_is(&segs[2], "permalink") {
        return true;
    }
    if n == 1 && string_is(&segs[0], "permalink.php") {
        return query_get(&p.query, &String::from_str("story_fbid")).is_some() && query_get(
            &p.query,
            &String::from_str("id"),
        ).is_some();
    }
    if n == 1 && string_is(&segs[0], "photo.php") {
        return query_get(&p.query, &String::from_str("fbid")).is_some();
    }
    false
}

/// Cleans Facebook URLs.
pub struct FacebookCleaner;

impl FacebookCleaner {
    /// Applies the Facebook rule in place; the URL's shape must be one the
    /// rule covers (`fb_shape_ok`). On an error the URL is left unchanged.
    pub fn clean(&self, url: &mut UrlParts) -> (r: Result<(), CleanUrlError>)
        requires
            fb_shape_ok(old(url)@),
        ensures
            match r {
                Ok(()) => facebook_clean_spec(old(url)@) == Ok::<UrlPartsV, CleanKind>(final(url)@),
                Err(e) => facebook_clean_spec(old(url)@) == Err::<UrlPartsV, CleanKind>(error_kind(e)) && final(url)@
                    == old(url)@,
            },
    {
        let ghost s0 = old(url)@.segments.unwrap();
        let shape: FbShape = {
            let segs = match &url.segments {
                None => {
                    return Err(CleanUrlError::PathSegmentsError);
                },
                Some(s) => s,
            };
            let n0 = segs.len();
            let trailing = n0 > 1 && segs[n0 - 1].as_str().is_empty();
            let n = if trailing {
                n0 - 1
            } else {
                n0
            };
            proof {
                assert(pop_empty(s0).len() == n);
                assert(forall|j: int| 0 <= j < n ==> pop_empty(s0)[j] == s0[j]);
                reveal_strlit("permalink.php");
                reveal_strlit("photo.php");
                assert("permalink.php"@.len() == 13);
                assert("photo.php"@.len() == 9);
                assert("permalink.php"@ != "photo.php"@);
            }
            if n == 3 && string_is(&segs[1], "posts") {
                FbShape::PagePost
            } else if n == 2 && string_is(&segs[0], "reel") {
                FbShape::Reel
            } else if n == 4 && string_is(&segs[0], "groups") && string_is(&segs[2], "permalink") {
                FbShape::GroupPost
            } else if n == 1 && string_is(&segs[0], "permalink.php") {
                FbShape::Permalink
            } else if n == 1 && string_is(&segs[0], "photo.php") {
                FbShape::Photo
            } else {
                proof {
                    assert(false);
                }
                unreached()
            }
        };
        match shape {
            FbShape::PagePost | FbShape::Reel => {
                let segs = match &mut url.segments {
                    Some(s) => s,
                    None => unreached(),
                };
                pop_empty_segment(segs);
                url.query = Vec::new();
                proof {
                    assert(url@.query =~= Seq::<(Seq<char>, Seq<char>)>::empty());
                }
            },
            FbShape::GroupPost => {
                let c = query_get(&url.query, &String::from_str("comment_id"));
                let segs = match &mut url.segments {
                    Some(s) => s,
                    None => unreached(),
                };
                pop_empty_segment(segs);
                url.query = Vec::new();
                match c {
                    None => {
                        proof {
                            assert(url@.query =~= Seq::<(Seq<char>, Seq<char>)>::empty());
                        }
                    },
                    Some(v) => {
                        let ghost vv = v@;
                        url.query.push((String::from_str("comment_id"), v));
                        proof {
                            assert(url@.query =~= seq![("comment_id"@, vv)]);
                        }
                    },
                }
            },
            FbShape::Permalink => {
                let sf = match query_get(&url.query, &String::from_str("story_fbid")) {
                    Some(v) => v,
                    None => unreached(),
                };
                let id = match query_get(&url.query, &String::from_str("id")) {
                    Some(v) => v,
                    None => unreached(),
                };
                let ghost sfv = sf@;
                let ghost idv = id@;
                let segs = match &mut url.segments {
                    Some(s) => s,
                    None => unreached(),
                };
                pop_empty_segment(segs);
                url.query = Vec::new();
                url.query.push((String::from_str("story_fbid"), sf));
                url.query.push((String::from_str("id"), id));
                proof {
                    assert(url@.query =~= seq![("story_fbid"@, sfv), ("id"@, idv)]);
                }
            },
            FbShape::Photo => {
                let f = match query_get(&url.query, &String::from_str("fbid")) {
                    Some(v) => v,
                    None => unreached(),
                };
                let ghost fv = f@;
                let segs = match &mut url.segments {
                    Some(s) => s,
                    None => unreached(),
                };
                pop_empty_segment(segs);
                url.query = Vec::new();
                url.query.push((String::from_str("fbid"), f));
                proof {
                    assert(url@.query =~= seq![("fbid"@, fv)]);
                }
            },
        }
        proof {
            assert(facebook_clean_spec(old(url)@) == Ok::<UrlPartsV, CleanKind>(url@)) by {
                assert(url@ =~~= facebook_clean_spec(old(url)@)->Ok_0);
            }
        }
        Ok(())
    }
}

} // verus!
