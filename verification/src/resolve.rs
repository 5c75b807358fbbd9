//! Client-side redirect handling: scanning HTML for a meta-refresh redirect
//! target, and the bounded-depth state machine that follows such redirects.

use vstd::prelude::*;
use vstd::string::StrSliceExecFns;

use crate::text::char_needle;
use crate::text::chars_vec;
use crate::text::contains_ci;
use crate::text::find_ci_from;
use crate::text::find_ci_in;
use crate::text::first_ws_token;
use crate::text::has_prefix_at;
use crate::text::trim;
use crate::text::trim_in;
use crate::text::ws_token_in;
use crate::url_ext::join_absolute;
use crate::url_ext::joined_url;

verus! {

/// The prefix of `s` before the first occurrence of `q`, or all of `s` if
/// `q` does not occur.
pub open spec fn up_to_char(s: Seq<char>, q: char) -> Seq<char> {
    match find_ci_from(s, seq![q], 0) {
        Some(i) => s.subrange(0, i),
        None => s,
    }
}

/// The value of a `content` attribute, given the text that follows
/// `content=`: a double- or single-quoted span, or the first
/// whitespace-delimited token when unquoted.
pub open spec fn content_value(cp: Seq<char>) -> Option<Seq<char>> {
    if cp.len() > 0 && cp[0] == '"' {
        Some(up_to_char(cp.drop_first(), '"'))
    } else if cp.len() > 0 && cp[0] == '\'' {
        Some(up_to_char(cp.drop_first(), '\''))
    } else {
        first_ws_token(cp)
    }
}

/// The redirect target inside a `content` attribute value: the trimmed text
/// after a case-insensitive `url=`, or, failing that, the trimmed text after
/// a semicolon once a case-sensitive `url=` prefix is stripped.
pub open spec fn url_in_value(v: Seq<char>) -> Option<Seq<char>> {
    match find_ci_from(v, "url="@, 0) {
        Some(i) => Some(trim(v.subrange(i + "url="@.len(), v.len() as int))),
        None => match find_ci_from(v, seq![';'], 0) {
            Some(si) => {
                let tail = trim(v.subrange(si + 1, v.len() as int));
                if tail.len() >= "url="@.len() && tail.subrange(0, "url="@.len() as int)
                    == "url="@ {
                    Some(trim(tail.subrange("url="@.len() as int, tail.len() as int)))
                } else {
                    None
                }
            },
            None => None,
        },
    }
}

/// The redirect target of the first meta-refresh tag in `html`, if the first
/// `<meta` tag is a refresh directive carrying one.
pub open spec fn spec_extract_meta_refresh(html: Seq<char>) -> Option<Seq<char>> {
    match find_ci_from(html, "<meta"@, 0) {
        None => None,
        Some(start) => match find_ci_from(html.subrange(start, html.len() as int), seq!['>'], 0) {
            None => None,
            Some(g) => {
                let tag = html.subrange(start, start + g);
                if contains_ci(tag, "http-equiv"@) && contains_ci(tag, "refresh"@) {
                    match find_ci_from(tag, "content="@, 0) {
                        None => None,
                        Some(ci) => match content_value(
                            tag.subrange(ci + "content="@.len(), tag.len() as int),
                        ) {
                            None => None,
                            Some(v) => url_in_value(v),
                        },
                    }
                } else {
                    None
                }
            },
        },
    }
}

/// Scans HTML for a meta-refresh redirect: finds the first `<meta ...>` tag,
/// and if that tag names `http-equiv` and `refresh`, extracts the redirect
/// target from its `content` attribute. The target may be a relative path;
/// resolving it against a base is the caller's concern.
#[verifier::rlimit(100)]
pub fn extract_meta_refresh(html: &str) -> (r: Option<String>)
    ensures
        match r {
            Some(u) => spec_extract_meta_refresh(html@) == Some(u@),
            None => spec_extract_meta_refresh(html@) is None,
        },
{
    let hv = chars_vec(html);
    let n = hv.len();
    let meta_tok = chars_vec("<meta");
    proof {
        assert(hv@.subrange(0, n as int) =~= html@);
    }
    let start = match find_ci_in(&hv, &meta_tok, 0, n) {
        None => {
            return None;
        },
        Some(s) => s,
    };
    let gt_tok = char_needle('>');
    proof {
        assert(hv@.subrange(start as int, n as int) =~= html@.subrange(
            start as int,
            html@.len() as int,
        ));
    }
    let gt = match find_ci_in(&hv, &gt_tok, start, n) {
        None => {
            return None;
        },
        Some(g) => g,
    };
    let ghost tag = html@.subrange(start as int, start + (gt - start));
    proof {
        assert(hv@.subrange(start as int, gt as int) =~= tag);
    }
    let he_tok = chars_vec("http-equiv");
    let rf_tok = chars_vec("refresh");
    if find_ci_in(&hv, &he_tok, start, gt).is_none() {
        return None;
    }
    if find_ci_in(&hv, &rf_tok, start, gt).is_none() {
        return None;
    }
    let ct_tok = chars_vec("content=");
    let ci_abs = match find_ci_in(&hv, &ct_tok, start, gt) {
        None => {
            return None;
        },
        Some(c) => c,
    };
    let cp_lo = ci_abs + ct_tok.len();
    let ghost cp = tag.subrange(ci_abs - start + "content="@.len(), tag.len() as int);
    proof {
        assert(cp =~= html@.subrange(cp_lo as int, gt as int));
    }
    let vl: usize;
    let vh: usize;
    if cp_lo < gt && hv[cp_lo] == '"' {
        let q_tok = char_needle('"');
        proof {
            assert(cp[0] == hv@[cp_lo as int]);
            assert(cp.drop_first() =~= html@.subrange(cp_lo + 1, gt as int));
            assert(hv@.subrange(cp_lo + 1, gt as int) =~= cp.drop_first());
        }
        match find_ci_in(&hv, &q_tok, cp_lo + 1, gt) {
            Some(qi) => {
                vl = cp_lo + 1;
                vh = qi;
                proof {
                    assert(cp.drop_first().subrange(0, qi - (cp_lo + 1)) =~= html@.subrange(
                        vl as int,
                        vh as int,
                    ));
                }
            },
            None => {
                vl = cp_lo + 1;
                vh = gt;
            },
        }
        proof {
            assert(content_value(cp) == Some(html@.subrange(vl as int, vh as int)));
        }
    } else if cp_lo < gt && hv[cp_lo] == '\'' {
        let q_tok = char_needle('\'');
        proof {
            assert(cp[0] == hv@[cp_lo as int]);
            assert(cp.drop_first() =~= html@.subrange(cp_lo + 1, gt as int));
            assert(hv@.subrange(cp_lo + 1, gt as int) =~= cp.drop_first());
        }
        match find_ci_in(&hv, &q_tok, cp_lo + 1, gt) {
            Some(qi) => {
                vl = cp_lo + 1;
                vh = qi;
                proof {
                    assert(cp.drop_first().subrange(0, qi - (cp_lo + 1)) =~= html@.subrange(
                        vl as int,
                        vh as int,
                    ));
                }
            },
            None => {
                vl = cp_lo + 1;
                vh = gt;
            },
        }
        proof {
            assert(content_value(cp) == Some(html@.subrange(vl as int, vh as int)));
        }
    } else {
        proof {
            if cp.len() > 0 {
                assert(cp[0] == hv@[cp_lo as int]);
            }
        }
        match ws_token_in(&hv, cp_lo, gt) {
            None => {
                proof {
                    assert(content_value(cp) is None);
                }
                return None;
            },
            Some(t) => {
                vl = t.0;
                vh = t.1;
                proof {
                    assert(content_value(cp) == Some(html@.subrange(vl as int, vh as int)));
                }
            },
        }
    }
    let ghost v = html@.subrange(vl as int, vh as int);
    let url_tok = chars_vec("url=");
    match find_ci_in(&hv, &url_tok, vl, vh) {
        Some(ui) => {
            let t = trim_in(&hv, ui + url_tok.len(), vh);
            proof {
                assert(v.subrange(ui - vl + "url="@.len(), v.len() as int) =~= html@.subrange(
                    ui + "url="@.len(),
                    vh as int,
                ));
                assert(url_in_value(v) == Some(html@.subrange(t.0 as int, t.1 as int)));
            }
            Some(html.substring_char(t.0, t.1).to_owned())
        },
        None => {
            let sc_tok = char_needle(';');
            match find_ci_in(&hv, &sc_tok, vl, vh) {
                None => {
                    proof {
                        assert(url_in_value(v) is None);
                    }
                    None
                },
                Some(si) => {
                    let t = trim_in(&hv, si + 1, vh);
                    let ghost tail = trim(v.subrange(si - vl + 1, v.len() as int));
                    proof {
                        assert(v.subrange(si - vl + 1, v.len() as int) =~= html@.subrange(
                            si + 1,
                            vh as int,
                        ));
                        assert(tail == html@.subrange(t.0 as int, t.1 as int));
                    }
                    if has_prefix_at(&hv, &url_tok, t.0, t.1) {
                        let u = trim_in(&hv, t.0 + url_tok.len(), t.1);
                        proof {
                            assert(tail.subrange(0, "url="@.len() as int) =~= html@.subrange(
                                t.0 as int,
                                t.0 + "url="@.len(),
                            ));
                            assert(tail.subrange("url="@.len() as int, tail.len() as int)
                                =~= html@.subrange(t.0 + "url="@.len(), t.1 as int));
                            assert(url_in_value(v) == Some(
                                html@.subrange(u.0 as int, u.1 as int),
                            ));
                        }
                        Some(html.substring_char(u.0, u.1).to_owned())
                    } else {
                        proof {
                            if tail.len() >= "url="@.len() {
                                assert(tail.subrange(0, "url="@.len() as int) =~= html@.subrange(
                                    t.0 as int,
                                    t.0 + "url="@.len(),
                                ));
                            }
                            assert(url_in_value(v) is None);
                        }
                        None
                    }
                },
            }
        },
    }
}

/// The largest number of meta-refresh hops the resolver follows before it
/// gives up; guards against client-side redirect loops.
pub const MAX_META_REFRESH_HOPS: u32 = 5;

/// Why resolution failed.
#[derive(Debug)]
pub enum ResolveError {
    /// The chain of meta-refresh redirects exceeded the recursion cap.
    TooManyMetaRefreshRedirects,
    /// A meta-refresh target could not be joined against its base URL.
    Join(url::ParseError),
    /// The HTTP collaborator failed; `retryable` tags transient failures
    /// worth another attempt.
    Transport { retryable: bool, message: String },
}

/// Whether the outer retry policy should retry after this error: only
/// transport failures tagged retryable are retried.
pub open spec fn spec_retryable(e: ResolveError) -> bool {
    match e {
        ResolveError::Transport { retryable, .. } => retryable,
        _ => false,
    }
}

impl ResolveError {
    /// Whether the outer retry policy should retry after this error.
    pub fn is_retryable(&self) -> (b: bool)
        ensures
            b == spec_retryable(*self),
    {
        match self {
            ResolveError::Transport { retryable, .. } => *retryable,
            _ => false,
        }
    }

    /// A human-readable description of the failure.
    pub fn message(&self) -> (r: String)
        ensures
            self is TooManyMetaRefreshRedirects ==> r@ == "Too many meta refresh redirects"@,
            self matches ResolveError::Transport { message, .. } ==> r@ == message@,
    {
        match self {
            ResolveError::TooManyMetaRefreshRedirects => String::from_str(
                "Too many meta refresh redirects",
            ),
            ResolveError::Join(_) => String::from_str(
                "could not resolve meta refresh target against its base",
            ),
            ResolveError::Transport { message, .. } => message.clone(),
        }
    }
}

/// What the resolver does after one fetch.
#[derive(Debug, PartialEq)]
pub enum Advance {
    /// Resolution finished at this URL.
    Done(String),
    /// Fetch this redirect target next, at this meta-refresh depth.
    Next(String, u32),
}

/// `s` begins with the HTTP scheme token.
pub open spec fn starts_with_http(s: Seq<char>) -> bool {
    s.len() >= "http"@.len() && s.subrange(0, "http"@.len() as int) == "http"@
}

/// The outcome of one resolver step, as a value.
#[verifier::ext_equal]
pub ghost enum StepV {
    Done(Seq<char>),
    Next(Seq<char>, u32),
    TooMany,
    JoinFailed,
}

/// One decision step of the resolver: what follows from the body the last
/// fetch returned and the URL it landed on, at the given meta-refresh depth.
pub open spec fn advance_spec(depth: u32, fin: Seq<char>, body: Seq<char>) -> StepV {
    match spec_extract_meta_refresh(body) {
        None => StepV::Done(fin),
        Some(t) => {
            let next = if starts_with_http(t) {
                Some(t)
            } else {
                joined_url(fin, t)
            };
            match next {
                None => StepV::JoinFailed,
                Some(n) => if depth >= MAX_META_REFRESH_HOPS {
                    StepV::TooMany
                } else {
                    StepV::Next(n, (depth + 1) as u32)
                },
            }
        },
    }
}

/// `s` begins with the HTTP scheme token.
fn starts_with_http_x(s: &String) -> (b: bool)
    ensures
        b == starts_with_http(s@),
{
    let sv = chars_vec(s.as_str());
    let tok = chars_vec("http");
    let n = sv.len();
    let b = has_prefix_at(&sv, &tok, 0, n);
    proof {
        if n >= tok@.len() {
            assert(sv@.subrange(0, tok@.len() as int) =~= s@.subrange(0, "http"@.len() as int));
        }
    }
    b
}

/// One decision step of the resolver: given the number of meta-refresh hops
/// taken so far, the URL the last fetch landed on after server-side
/// redirects, and the body it returned, decide whether resolution is done,
/// which URL to fetch next, or why to fail. The caller performs the fetches;
/// this function never returns a transport error.
pub fn advance(depth: u32, final_url: &str, body: &str) -> (r: Result<Advance, ResolveError>)
    ensures
        match r {
            Ok(Advance::Done(u)) => advance_spec(depth, final_url@, body@) == StepV::Done(u@),
            Ok(Advance::Next(u, d)) => advance_spec(depth, final_url@, body@) == StepV::Next(
                u@,
                d,
            ),
            Err(ResolveError::TooManyMetaRefreshRedirects) => advance_spec(
                depth,
                final_url@,
                body@,
            ) is TooMany,
            Err(ResolveError::Join(_)) => advance_spec(depth, final_url@, body@) is JoinFailed,
            Err(ResolveError::Transport { .. }) => false,
        },
{
    match extract_meta_refresh(body) {
        None => Ok(Advance::Done(final_url.to_owned())),
        Some(target) => {
            let next = if starts_with_http_x(&target) {
                target
            } else {
                match join_absolute(final_url, target.as_str()) {
                    Ok(j) => j,
                    Err(e) => {
                        return Err(ResolveError::Join(e));
                    },
                }
            };
            if depth >= MAX_META_REFRESH_HOPS {
                Err(ResolveError::TooManyMetaRefreshRedirects)
            } else {
                Ok(Advance::Next(next, depth + 1))
            }
        },
    }
}

} // verus!
