//! Character-level text scanning: ASCII case folding, case-insensitive
//! substring search, whitespace trimming and token extraction, with the
//! mathematical definitions the scanner contracts are stated over.

use vstd::prelude::*;
use vstd::string::StringExecFns;

verus! {

broadcast use vstd::string::group_string_axioms;

/// ASCII case folding of one character; other characters are untouched.
pub open spec fn lower_char(c: char) -> char {
    if 65 <= c as u32 && c as u32 <= 90 {
        ((c as u32) + 32) as char
    } else {
        c
    }
}

/// ASCII case folding of one character; other characters are untouched.
pub(crate) fn lower_char_x(c: char) -> (r: char)
    ensures
        r == lower_char(c),
{
    let u = c as u32;
    if 65 <= u && u <= 90 {
        (((u + 32) as u8) as char)
    } else {
        c
    }
}

/// The characters the scanner treats as whitespace: the ASCII part of the
/// white-space class.
pub open spec fn is_space(c: char) -> bool {
    c == ' ' || c == '\t' || c == '\n' || c == '\u{B}' || c == '\u{C}' || c == '\r'
}

/// The characters the scanner treats as whitespace.
pub(crate) fn is_space_x(c: char) -> (b: bool)
    ensures
        b == is_space(c),
{
    c == ' ' || c == '\t' || c == '\n' || c == '\u{B}' || c == '\u{C}' || c == '\r'
}

/// `needle` occurs in `hay` at position `i`, compared case-insensitively.
pub open spec fn ci_match_at(hay: Seq<char>, needle: Seq<char>, i: int) -> bool {
    &&& 0 <= i
    &&& i + needle.len() <= hay.len()
    &&& forall|j: int|
        0 <= j < needle.len() ==> lower_char(hay[i + j]) == lower_char(#[trigger] needle[j])
}

/// The first position at or after `i` where `needle` occurs in `hay`,
/// compared case-insensitively.
pub open spec fn find_ci_from(hay: Seq<char>, needle: Seq<char>, i: int) -> Option<int>
    decreases hay.len() - i,
    when 0 <= i <= hay.len()
{
    if i + needle.len() > hay.len() {
        None
    } else if ci_match_at(hay, needle, i) {
        Some(i)
    } else {
        find_ci_from(hay, needle, i + 1)
    }
}

/// `needle` occurs somewhere in `hay`, compared case-insensitively.
pub open spec fn contains_ci(hay: Seq<char>, needle: Seq<char>) -> bool {
    find_ci_from(hay, needle, 0) is Some
}

/// The characters of `s`, one per element.
pub(crate) fn chars_vec(s: &str) -> (v: Vec<char>)
    ensures
        v@ == s@,
{
    let mut v: Vec<char> = Vec::new();
    for c in it: s.chars()
        invariant
            it.seq() == s@,
            v@ == it.seq().subrange(0, it.index() as int),
    {
        v.push(c);
    }
    proof {
        assert(v@ =~= s@);
    }
    v
}

/// Whether a string equals the given literal.
pub(crate) fn string_is(s: &String, lit: &str) -> (b: bool)
    ensures
        b == (s@ == lit@),
{
    s.eq(&String::from_str(lit))
}

/// A one-character search needle.
pub(crate) fn char_needle(c: char) -> (v: Vec<char>)
    ensures
        v@ == seq![c],
{
    let mut v: Vec<char> = Vec::new();
    v.push(c);
    proof {
        assert(v@ =~= seq![c]);
    }
    v
}

/// `needle` occurs at position `i` of `hay`, compared case-insensitively.
pub(crate) fn ci_match_here(hay: &Vec<char>, needle: &Vec<char>, i: usize) -> (b: bool)
    requires
        i + needle@.len() <= hay@.len(),
    ensures
        b == ci_match_at(hay@, needle@, i as int),
{
    let hay_len = hay.len();
    let mut j: usize = 0;
    while j < needle.len()
        invariant
            j <= needle@.len(),
            i + needle@.len() <= hay@.len(),
            hay@.len() == hay_len,
            forall|t: int|
                0 <= t < j ==> lower_char(hay@[i + t]) == lower_char(#[trigger] needle@[t]),
        decreases needle@.len() - j,
    {
        if lower_char_x(hay[i + j]) != lower_char_x(needle[j]) {
            return false;
        }
        j = j + 1;
    }
    true
}

/// The first position in the window `[lo, hi)` of `hay` where `needle`
/// occurs, compared case-insensitively; positions are absolute in `hay`.
pub(crate) fn find_ci_in(hay: &Vec<char>, needle: &Vec<char>, lo: usize, hi: usize) -> (r: Option<
    usize,
>)
    requires
        lo <= hi <= hay@.len(),
    ensures
        match r {
            Some(i) => lo <= i && i + needle@.len() <= hi && find_ci_from(
                hay@.subrange(lo as int, hi as int),
                needle@,
                0,
            ) == Some(i - lo),
            None => find_ci_from(hay@.subrange(lo as int, hi as int), needle@, 0) is None,
        },
{
    let ghost sub = hay@.subrange(lo as int, hi as int);
    let mut i: usize = lo;
    while needle.len() <= hi - i
        invariant
            lo <= i <= hi <= hay@.len(),
            sub == hay@.subrange(lo as int, hi as int),
            find_ci_from(sub, needle@, 0) == find_ci_from(sub, needle@, i - lo),
        decreases hi - i,
    {
        proof {
            lemma_ci_match_window(hay@, needle@, lo as int, hi as int, i as int);
        }
        if ci_match_here(hay, needle, i) {
            return Some(i);
        }
        i = i + 1;
    }
    proof {
        assert(find_ci_from(sub, needle@, i - lo) is None);
    }
    None
}

/// `s` without its leading whitespace.
pub open spec fn trim_front(s: Seq<char>) -> Seq<char>
    decreases s.len(),
{
    if s.len() > 0 && is_space(s[0]) {
        trim_front(s.drop_first())
    } else {
        s
    }
}

/// `s` without its trailing whitespace.
pub open spec fn trim_back(s: Seq<char>) -> Seq<char>
    decreases s.len(),
{
    if s.len() > 0 && is_space(s.last()) {
        trim_back(s.drop_last())
    } else {
        s
    }
}

/// `s` without leading and trailing whitespace.
pub open spec fn trim(s: Seq<char>) -> Seq<char> {
    trim_back(trim_front(s))
}

/// The first position at or after `i` holding a non-whitespace character.
pub open spec fn first_non_space(s: Seq<char>, i: int) -> Option<int>
    decreases s.len() - i,
    when 0 <= i <= s.len()
{
    if i >= s.len() {
        None
    } else if !is_space(s[i]) {
        Some(i)
    } else {
        first_non_space(s, i + 1)
    }
}

/// The first position at or after `i` holding a whitespace character, or the
/// length of `s` if there is none.
pub open spec fn first_space_from(s: Seq<char>, i: int) -> int
    decreases s.len() - i,
    when 0 <= i <= s.len()
{
    if i >= s.len() {
        i
    } else if is_space(s[i]) {
        i
    } else {
        first_space_from(s, i + 1)
    }
}

/// The first whitespace-delimited token of `s`, or `None` if `s` is empty or
/// all whitespace.
pub open spec fn first_ws_token(s: Seq<char>) -> Option<Seq<char>> {
    match first_non_space(s, 0) {
        None => None,
        Some(a) => Some(s.subrange(a, first_space_from(s, a))),
    }
}

/// Dropping leading whitespace reaches the first non-whitespace position.
proof fn lemma_trim_front_at(s: Seq<char>, k: int)
    requires
        0 <= k <= s.len(),
        forall|j: int| 0 <= j < k ==> is_space(#[trigger] s[j]),
        k < s.len() ==> !is_space(s[k]),
    ensures
        trim_front(s) == s.subrange(k, s.len() as int),
    decreases k,
{
    if k == 0 {
        if s.len() > 0 && is_space(s[0]) {
            assert(false);
        }
        assert(trim_front(s) == s);
        assert(s.subrange(0, s.len() as int) =~= s);
    } else {
        assert(is_space(s[0]));
        let s1 = s.drop_first();
        assert forall|j: int| 0 <= j < k - 1 implies is_space(#[trigger] s1[j]) by {
            assert(s1[j] == s[j + 1]);
        }
        if k - 1 < s1.len() {
            assert(s1[k - 1] == s[k]);
        }
        lemma_trim_front_at(s1, k - 1);
        assert(s1.subrange(k - 1, s1.len() as int) =~= s.subrange(k, s.len() as int));
    }
}

/// Dropping trailing whitespace reaches the last non-whitespace position.
proof fn lemma_trim_back_at(s: Seq<char>, m: int)
    requires
        0 <= m <= s.len(),
        forall|j: int| m <= j < s.len() ==> is_space(#[trigger] s[j]),
        m > 0 ==> !is_space(s[m - 1]),
    ensures
        trim_back(s) == s.subrange(0, m),
    decreases s.len() - m,
{
    if m == s.len() {
        if s.len() > 0 && is_space(s.last()) {
            assert(!is_space(s[m - 1]));
            assert(false);
        }
        assert(trim_back(s) == s);
        assert(s.subrange(0, m) =~= s);
    } else {
        assert(is_space(s[s.len() - 1]));
        let s1 = s.drop_last();
        assert forall|j: int| m <= j < s1.len() implies is_space(#[trigger] s1[j]) by {
            assert(s1[j] == s[j]);
        }
        if m > 0 {
            assert(s1[m - 1] == s[m - 1]);
        }
        lemma_trim_back_at(s1, m);
        assert(s1.subrange(0, m) =~= s.subrange(0, m));
    }
}

/// Trims the window `[lo, hi)` of `hay`; returns the trimmed window's
/// absolute bounds.
pub(crate) fn trim_in(hay: &Vec<char>, lo: usize, hi: usize) -> (r: (usize, usize))
    requires
        lo <= hi <= hay@.len(),
    ensures
        lo <= r.0 <= r.1 <= hi,
        hay@.subrange(r.0 as int, r.1 as int) == trim(hay@.subrange(lo as int, hi as int)),
{
    let ghost sub = hay@.subrange(lo as int, hi as int);
    let mut a: usize = lo;
    while a < hi && is_space_x(hay[a])
        invariant
            lo <= a <= hi <= hay@.len(),
            forall|j: int| lo <= j < a ==> is_space(#[trigger] hay@[j]),
        decreases hi - a,
    {
        a = a + 1;
    }
    proof {
        assert forall|j: int| 0 <= j < a - lo implies is_space(#[trigger] sub[j]) by {
            assert(sub[j] == hay@[lo + j]);
        }
        if a - lo < sub.len() {
            assert(sub[a - lo] == hay@[a as int]);
        }
        lemma_trim_front_at(sub, a - lo);
        assert(sub.subrange(a - lo, sub.len() as int) =~= hay@.subrange(a as int, hi as int));
    }
    let ghost mid = hay@.subrange(a as int, hi as int);
    let mut b: usize = hi;
    while b > a && is_space_x(hay[b - 1])
        invariant
            a <= b <= hi <= hay@.len(),
            forall|j: int| b <= j < hi ==> is_space(#[trigger] hay@[j]),
        decreases b,
    {
        b = b - 1;
    }
    proof {
        assert forall|j: int| b - a <= j < mid.len() implies is_space(#[trigger] mid[j]) by {
            assert(mid[j] == hay@[a + j]);
        }
        if b > a {
            assert(mid[b - a - 1] == hay@[b - 1]);
        }
        lemma_trim_back_at(mid, b - a);
        assert(mid.subrange(0, b - a) =~= hay@.subrange(a as int, b as int));
    }
    (a, b)
}

/// The first whitespace-delimited token in the window `[lo, hi)` of `hay`,
/// as absolute bounds.
pub(crate) fn ws_token_in(hay: &Vec<char>, lo: usize, hi: usize) -> (r: Option<(usize, usize)>)
    requires
        lo <= hi <= hay@.len(),
    ensures
        match r {
            Some(t) => lo <= t.0 <= t.1 <= hi && first_ws_token(
                hay@.subrange(lo as int, hi as int),
            ) == Some(hay@.subrange(t.0 as int, t.1 as int)),
            None => first_ws_token(hay@.subrange(lo as int, hi as int)) is None,
        },
{
    let ghost sub = hay@.subrange(lo as int, hi as int);
    let mut a: usize = lo;
    while a < hi && is_space_x(hay[a])
        invariant
            lo <= a <= hi <= hay@.len(),
            sub == hay@.subrange(lo as int, hi as int),
            first_non_space(sub, 0) == first_non_space(sub, a - lo),
        decreases hi - a,
    {
        proof {
            assert(sub[a - lo] == hay@[a as int]);
        }
        a = a + 1;
    }
    if a == hi {
        proof {
            assert(first_non_space(sub, a - lo) is None);
        }
        return None;
    }
    proof {
        assert(sub[a - lo] == hay@[a as int]);
        assert(first_non_space(sub, 0) == Some(a - lo));
    }
    let mut b: usize = a;
    while b < hi && !is_space_x(hay[b])
        invariant
            lo <= a <= b <= hi <= hay@.len(),
            sub == hay@.subrange(lo as int, hi as int),
            first_space_from(sub, a - lo) == first_space_from(sub, b - lo),
        decreases hi - b,
    {
        proof {
            assert(sub[b - lo] == hay@[b as int]);
        }
        b = b + 1;
    }
    proof {
        if b < hi {
            assert(sub[b - lo] == hay@[b as int]);
        }
        assert(first_space_from(sub, b - lo) == b - lo);
        assert(sub.subrange(a - lo, b - lo) =~= hay@.subrange(a as int, b as int));
    }
    Some((a, b))
}

/// The window `[lo, hi)` of `hay` begins with exactly `needle`.
pub(crate) fn has_prefix_at(hay: &Vec<char>, needle: &Vec<char>, lo: usize, hi: usize) -> (b: bool)
    requires
        lo <= hi <= hay@.len(),
    ensures
        b == (hi - lo >= needle@.len() && hay@.subrange(lo as int, lo + needle@.len())
            == needle@),
{
    if hi - lo < needle.len() {
        return false;
    }
    let mut j: usize = 0;
    while j < needle.len()
        invariant
            j <= needle@.len(),
            lo + needle@.len() <= hi <= hay@.len(),
            forall|t: int| 0 <= t < j ==> hay@[lo + t] == #[trigger] needle@[t],
        decreases needle@.len() - j,
    {
        if hay[lo + j] != needle[j] {
            proof {
                assert(hay@.subrange(lo as int, lo + needle@.len())[j as int] == hay@[lo + j]);
            }
            return false;
        }
        j = j + 1;
    }
    proof {
        assert(hay@.subrange(lo as int, lo + needle@.len()) =~= needle@);
    }
    true
}

/// Within a window of `hay`, a case-insensitive match at an absolute
/// position is a match at the corresponding window position.
proof fn lemma_ci_match_window(hay: Seq<char>, needle: Seq<char>, lo: int, hi: int, i: int)
    requires
        0 <= lo <= i,
        i + needle.len() <= hi <= hay.len(),
    ensures
        ci_match_at(hay.subrange(lo, hi), needle, i - lo) == ci_match_at(hay, needle, i),
{
    let sub = hay.subrange(lo, hi);
    if ci_match_at(hay, needle, i) {
        assert forall|j: int|
            0 <= j < needle.len() implies lower_char(sub[i - lo + j]) == lower_char(
            #[trigger] needle[j],
        ) by {
            assert(sub[i - lo + j] == hay[i + j]);
            assert(lower_char(hay[i + j]) == lower_char(needle[j]));
        }
        assert(ci_match_at(sub, needle, i - lo));
    }
    if ci_match_at(sub, needle, i - lo) {
        assert forall|j: int|
            0 <= j < needle.len() implies lower_char(hay[i + j]) == lower_char(
            #[trigger] needle[j],
        ) by {
            assert(sub[i - lo + j] == hay[i + j]);
            assert(lower_char(sub[i - lo + j]) == lower_char(needle[j]));
        }
        assert(ci_match_at(hay, needle, i));
    }
}

} // verus!
