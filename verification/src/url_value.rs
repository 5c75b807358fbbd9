//! The URL value that the cleaning rules work on: scheme, authority, host,
//! path segments and query pairs, held as plain values.

use vstd::prelude::*;

verus! {

/// A parsed absolute URL, reduced to the parts the cleaning rules read.
///
/// `segments` is `None` for a URL whose scheme does not support hierarchical
/// paths (a "cannot-be-a-base" URL); `host` is `None` for a URL without an
/// authority host. Path segments keep the percent-encoded spelling they had
/// in the input; query pairs are held decoded.
pub struct UrlParts {
    pub scheme: String,
    pub authority: String,
    pub host: Option<String>,
    pub segments: Option<Vec<String>>,
    pub query: Vec<(String, String)>,
}

/// The mathematical model of a `UrlParts` value.
#[verifier::ext_equal]
pub ghost struct UrlPartsV {
    pub scheme: Seq<char>,
    pub authority: Seq<char>,
    pub host: Option<Seq<char>>,
    pub segments: Option<Seq<Seq<char>>>,
    pub query: Seq<(Seq<char>, Seq<char>)>,
}

impl View for UrlParts {
    type V = UrlPartsV;

    open spec fn view(&self) -> UrlPartsV {
        UrlPartsV {
            scheme: self.scheme@,
            authority: self.authority@,
            host: self.host.deep_view(),
            segments: self.segments.deep_view(),
            query: self.query.deep_view(),
        }
    }
}

/// The value bound to key `k` in query pairs `q`, when the pairs are read
/// into a map one by one: the last pair with key `k` wins.
pub open spec fn q_lookup(q: Seq<(Seq<char>, Seq<char>)>, k: Seq<char>) -> Option<Seq<char>>
    decreases q.len(),
{
    if q.len() == 0 {
        None
    } else if q.last().0 == k {
        Some(q.last().1)
    } else {
        q_lookup(q.drop_last(), k)
    }
}

/// Looks a key up among query pairs; the last pair with that key wins.
pub fn query_get(q: &Vec<(String, String)>, k: &String) -> (r: Option<String>)
    ensures
        match r {
            Some(v) => q_lookup(q.deep_view(), k@) == Some(v@),
            None => q_lookup(q.deep_view(), k@) is None,
        },
{
    let mut i: usize = q.len();
    proof {
        assert(q.deep_view().take(q.len() as int) =~= q.deep_view());
    }
    while i > 0
        invariant
            i <= q.len(),
            q_lookup(q.deep_view(), k@) == q_lookup(q.deep_view().take(i as int), k@),
        decreases i,
    {
        i = i - 1;
        proof {
            assert(q.deep_view().take(i + 1).last() == (q[i as int].0@, q[i as int].1@));
            assert(q.deep_view().take(i + 1).drop_last() =~= q.deep_view().take(i as int));
        }
        if q[i].0.eq(k) {
            return Some(q[i].1.clone());
        }
    }
    proof {
        assert(q.deep_view().take(0) =~= Seq::<(Seq<char>, Seq<char>)>::empty());
    }
    None
}

/// Removes one trailing empty segment, unless it is the only segment.
pub open spec fn pop_empty(segs: Seq<Seq<char>>) -> Seq<Seq<char>> {
    if segs.len() > 1 && segs.last().len() == 0 {
        segs.drop_last()
    } else {
        segs
    }
}

/// Removes one trailing empty segment, unless it is the only segment.
pub fn pop_empty_segment(segs: &mut Vec<String>)
    ensures
        final(segs).deep_view() == pop_empty(old(segs).deep_view()),
{
    if segs.len() > 1 && segs[segs.len() - 1].as_str().is_empty() {
        segs.pop();
        assert(segs.deep_view() =~= old(segs).deep_view().drop_last());
    } else {
        assert(segs.deep_view() =~= old(segs).deep_view());
    }
}

} // verus!
