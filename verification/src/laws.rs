//! Laws the canonicalizer and the resolver obey, stated over their
//! specifications and proved once for all inputs.

use vstd::prelude::*;

use crate::clean::clean_spec;
use crate::clean::scheme_ok;
use crate::clean::CleanKind;
use crate::facebook::facebook_clean_spec;
use crate::facebook::fb_shape_ok;
use crate::facebook::is_fb_permalink_php;
use crate::facebook::is_fb_photo_php;
use crate::generic::strip_query_spec;
use crate::reddit::is_reddit_comment;
use crate::reddit::is_reddit_post;
use crate::reddit::is_reddit_post_slug;
use crate::reddit::reddit_clean_spec;
use crate::resolve::advance_spec;
use crate::resolve::spec_extract_meta_refresh;
use crate::resolve::starts_with_http;
use crate::resolve::StepV;
use crate::resolve::MAX_META_REFRESH_HOPS;
use crate::url_ext::registrable_domain_of;
use crate::url_value::pop_empty;
use crate::url_value::q_lookup;
use crate::url_value::UrlPartsV;

verus! {

broadcast use vstd::string::group_string_axioms;

/// The cleaned parts end in a nonempty path segment.
pub open spec fn ends_nonempty(q: UrlPartsV) -> bool {
    q.segments matches Some(s) && s.len() > 0 && s.last().len() > 0
}

/// Idempotence: a URL value that cleaning itself produced cleans to itself,
/// unchanged, provided its last path segment is nonempty. (A post id that is
/// itself the empty segment re-cleans to a shorter path: from segments `r`,
/// `sub`, `comments`, `` the empty id is dropped as a trailing slash on the
/// second pass, so such inputs are left out.)
pub proof fn lemma_clean_idempotent(p: UrlPartsV)
    requires
        clean_spec(p) is Ok,
        ends_nonempty(clean_spec(p)->Ok_0),
    ensures
        clean_spec(clean_spec(p)->Ok_0) == clean_spec(p),
{
    reveal_strlit("story_fbid");
    reveal_strlit("id");
    assert("story_fbid"@.len() == 10);
    assert("id"@.len() == 2);
    let q = clean_spec(p)->Ok_0;
    assert(pop_empty(q.segments.unwrap()) == q.segments.unwrap());
    let h = p.host.unwrap();
    let d = registrable_domain_of(h).unwrap();
    if d == "reddit.com"@ {
        assert(clean_spec(q) == Ok::<UrlPartsV, CleanKind>(q));
    } else {
        let s = pop_empty(p.segments.unwrap());
        if is_fb_permalink_php(s) {
            let sf = q_lookup(p.query, "story_fbid"@).unwrap();
            let id = q_lookup(p.query, "id"@).unwrap();
            assert(q.query == seq![("story_fbid"@, sf), ("id"@, id)]);
            assert(q_lookup(q.query, "id"@) == Some(id));
            assert(q.query.drop_last() =~= seq![("story_fbid"@, sf)]);
            assert(q_lookup(seq![("story_fbid"@, sf)], "story_fbid"@) == Some(sf));
            assert(q_lookup(q.query, "story_fbid"@) == Some(sf));
            assert(fb_shape_ok(q));
            assert(clean_spec(q) == Ok::<UrlPartsV, CleanKind>(q));
        } else if is_fb_photo_php(s) {
            let f = q_lookup(p.query, "fbid"@).unwrap();
            assert(q.query == seq![("fbid"@, f)]);
            assert(q_lookup(q.query, "fbid"@) == Some(f));
            assert(clean_spec(q) == Ok::<UrlPartsV, CleanKind>(q));
        } else {
            assert(clean_spec(q) == Ok::<UrlPartsV, CleanKind>(q));
        }
    }
}

/// Tracking-parameter removal, Reddit: the rule never reads the query it
/// strips, so any two URL values differing only in their query pairs clean
/// to one result, whose query is empty.
pub proof fn lemma_reddit_ignores_query(p: UrlPartsV, other: Seq<(Seq<char>, Seq<char>)>)
    ensures
        reddit_clean_spec(UrlPartsV { query: other, ..p }) == reddit_clean_spec(p),
        reddit_clean_spec(p) matches Ok(c) ==> c.query == Seq::<(Seq<char>, Seq<char>)>::empty(),
{
}

/// Tracking-parameter removal, generic rule: any two URL values differing
/// only in their query pairs clean to one result, whose query is empty.
pub proof fn lemma_generic_ignores_query(p: UrlPartsV, other: Seq<(Seq<char>, Seq<char>)>)
    ensures
        strip_query_spec(UrlPartsV { query: other, ..p }) == strip_query_spec(p),
        strip_query_spec(p) matches Ok(c) ==> c.query == Seq::<(Seq<char>, Seq<char>)>::empty(),
{
}

/// Facebook query round-trip, permalink.php: whatever other pairs the query
/// carries and in whatever order, cleaning keeps exactly `story_fbid` and
/// `id`, with their original values.
pub proof fn lemma_facebook_permalink_roundtrip(p: UrlPartsV, sf: Seq<char>, id: Seq<char>)
    requires
        p.segments matches Some(s0) && is_fb_permalink_php(pop_empty(s0)),
        q_lookup(p.query, "story_fbid"@) == Some(sf),
        q_lookup(p.query, "id"@) == Some(id),
    ensures
        facebook_clean_spec(p) matches Ok(c) && c.query == seq![
            ("story_fbid"@, sf),
            ("id"@, id),
        ],
{
}

/// Facebook query round-trip, photo.php: whatever other pairs the query
/// carries and in whatever order, cleaning keeps exactly `fbid`, with its
/// original value.
pub proof fn lemma_facebook_photo_roundtrip(p: UrlPartsV, f: Seq<char>)
    requires
        p.segments matches Some(s0) && is_fb_photo_php(pop_empty(s0)),
        q_lookup(p.query, "fbid"@) == Some(f),
    ensures
        facebook_clean_spec(p) matches Ok(c) && c.query == seq![("fbid"@, f)],
{
    reveal_strlit("permalink.php");
    reveal_strlit("photo.php");
    assert("permalink.php"@.len() == 13);
    assert("photo.php"@.len() == 9);
}

/// Path normalization: a Reddit post URL with a human-readable slug and one
/// without clean to the same result when subreddit and post id match and the
/// post id is nonempty.
pub proof fn lemma_reddit_slug_normalized(p: UrlPartsV, s: Seq<Seq<char>>, slug: Seq<char>)
    requires
        is_reddit_post(s),
        s.last().len() > 0,
        p.segments == Some(s.push(slug)),
    ensures
        reddit_clean_spec(p) == reddit_clean_spec(UrlPartsV { segments: Some(s), ..p }),
{
    let a = s.push(slug);
    assert(a.last() == slug);
    if slug.len() == 0 {
        assert(pop_empty(a) =~= s);
        assert(pop_empty(s) == s);
    } else {
        assert(pop_empty(a) == a);
        assert(a[0] == s[0] && a[2] == s[2]);
        assert(is_reddit_post_slug(a));
        assert(a.drop_last() =~= s);
        assert(pop_empty(s) == s);
    }
}

/// Rejection: a URL whose registrable domain has no cleaning rule yields
/// the unsupported-host error.
pub proof fn lemma_unsupported_host(p: UrlPartsV)
    requires
        scheme_ok(p),
        p.host matches Some(h) && registrable_domain_of(h) matches Some(d) && d != "reddit.com"@
            && d != "facebook.com"@,
    ensures
        clean_spec(p) == Err::<UrlPartsV, CleanKind>(CleanKind::UnsupportedHost),
{
}

/// Rejection: a Reddit URL whose path is neither a post nor a comment
/// yields the unsupported-path error.
pub proof fn lemma_reddit_unsupported_path(p: UrlPartsV)
    requires
        p.host matches Some(h) && registrable_domain_of(h) == Some("reddit.com"@),
        p.segments matches Some(s0) && !is_reddit_post(pop_empty(s0)) && !is_reddit_post_slug(
            pop_empty(s0),
        ) && !is_reddit_comment(pop_empty(s0)),
    ensures
        reddit_clean_spec(p) == Err::<UrlPartsV, CleanKind>(CleanKind::UnsupportedPath),
{
}

/// Rejection: a Facebook URL whose shape the rule does not cover yields the
/// unsupported-path error.
pub proof fn lemma_facebook_unsupported_path(p: UrlPartsV)
    requires
        scheme_ok(p),
        p.host matches Some(h) && registrable_domain_of(h) == Some("facebook.com"@),
        !fb_shape_ok(p),
    ensures
        clean_spec(p) == Err::<UrlPartsV, CleanKind>(CleanKind::UnsupportedPath),
{
    reveal_strlit("reddit.com");
    reveal_strlit("facebook.com");
    assert("reddit.com"@.len() == 10);
    assert("facebook.com"@.len() == 12);
}

/// The outcome of chasing a chain of fetched pages, each given as the URL
/// the fetch landed on and the body it returned: steps are taken until one
/// is not a redirect; `None` means the chain ran out with resolution still
/// pending.
pub open spec fn chase(depth: u32, pages: Seq<(Seq<char>, Seq<char>)>) -> Option<StepV>
    decreases pages.len(),
{
    if pages.len() == 0 {
        None
    } else {
        match advance_spec(depth, pages[0].0, pages[0].1) {
            StepV::Next(u, d) => chase(d, pages.drop_first()),
            outcome => Some(outcome),
        }
    }
}

/// Bounded recursion: on a chain of pages that all carry an absolute
/// meta-refresh target, resolution started at any depth within the cap
/// fails with the too-many-redirects outcome before it runs out of a chain
/// longer than the remaining hops — it never follows redirects unboundedly.
pub proof fn lemma_bounded_recursion(depth: u32, pages: Seq<(Seq<char>, Seq<char>)>)
    requires
        depth <= MAX_META_REFRESH_HOPS,
        pages.len() > MAX_META_REFRESH_HOPS - depth,
        forall|i: int|
            0 <= i < pages.len() ==> (spec_extract_meta_refresh(
                (#[trigger] pages[i]).1,
            ) matches Some(t) && starts_with_http(t)),
    ensures
        chase(depth, pages) == Some(StepV::TooMany),
    decreases pages.len(),
{
    assert(spec_extract_meta_refresh(pages[0].1) is Some);
    if depth == MAX_META_REFRESH_HOPS {
        assert(advance_spec(depth, pages[0].0, pages[0].1) == StepV::TooMany);
    } else {
        let rest = pages.drop_first();
        assert forall|i: int|
            0 <= i < rest.len() implies (spec_extract_meta_refresh(
            (#[trigger] rest[i]).1,
        ) matches Some(t) && starts_with_http(t)) by {
            assert(rest[i] == pages[i + 1]);
        }
        lemma_bounded_recursion((depth + 1) as u32, rest);
    }
}

} // verus!
