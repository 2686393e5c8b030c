//! Extraction of the font-file URL from a font-delivery stylesheet: the
//! text after the one font-source marker, up to the closing parenthesis
//! or the end of that line, with surrounding quote marks trimmed.

use vstd::prelude::*;
use vstd::string::StrSliceExecFns;

verus! {

/// The marker that introduces the font-file reference in a stylesheet.
pub open spec fn spec_src_url_marker() -> Seq<char> {
    "src: url("@
}

/// Whether `pat` occurs in `s` at position `i`.
pub open spec fn spec_match_at(s: Seq<char>, pat: Seq<char>, i: int) -> bool {
    0 <= i && i + pat.len() <= s.len() && s.subrange(i, i + pat.len()) == pat
}

/// Whether `i` is the first occurrence of `pat` in `s`.
pub open spec fn spec_first_match(s: Seq<char>, pat: Seq<char>, i: int) -> bool {
    spec_match_at(s, pat, i) && forall|k: int| 0 <= k < i ==> !spec_match_at(s, pat, k)
}

/// Characters that end the URL reference: the closing parenthesis of the
/// marker, or the end of the line it stands on.
pub open spec fn spec_is_stop(c: char) -> bool {
    c == ')' || c == '\n' || c == '\r'
}

/// Whether `e` is where the reference starting at `start` ends: the first
/// stop character at or after `start`, or else the end of the text.
pub open spec fn spec_url_end(s: Seq<char>, start: int, e: int) -> bool {
    start <= e <= s.len() && (forall|k: int| start <= k < e ==> !spec_is_stop(s[k])) && (e < s.len()
        ==> spec_is_stop(s[e]))
}

/// Quote marks trimmed from either end of the reference.
pub open spec fn spec_is_quote(c: char) -> bool {
    c == '\'' || c == '"'
}

/// `s` without its leading quote marks.
pub open spec fn spec_trim_start(s: Seq<char>) -> Seq<char>
    decreases s.len(),
{
    if s.len() > 0 && spec_is_quote(s[0]) {
        spec_trim_start(s.subrange(1, s.len() as int))
    } else {
        s
    }
}

/// `s` without its trailing quote marks.
pub open spec fn spec_trim_end(s: Seq<char>) -> Seq<char>
    decreases s.len(),
{
    if s.len() > 0 && spec_is_quote(s[s.len() - 1]) {
        spec_trim_end(s.subrange(0, s.len() - 1))
    } else {
        s
    }
}

/// `s` without leading and trailing quote marks.
pub open spec fn spec_trim_quotes(s: Seq<char>) -> Seq<char> {
    spec_trim_end(spec_trim_start(s))
}

/// The font-file URL a stylesheet refers to, when it holds the marker:
/// the trimmed text between the first marker and the end of the reference.
pub open spec fn spec_extract_font_url(css: Seq<char>) -> Option<Seq<char>> {
    if exists|i: int| spec_first_match(css, spec_src_url_marker(), i) {
        let p = choose|i: int| spec_first_match(css, spec_src_url_marker(), i);
        let start = p + spec_src_url_marker().len();
        let e = choose|e: int| spec_url_end(css, start, e);
        Option::Some(spec_trim_quotes(css.subrange(start, e)))
    } else {
        Option::None
    }
}

/// At most one position is the first occurrence.
proof fn lemma_first_match_unique(s: Seq<char>, pat: Seq<char>, i: int, j: int)
    requires
        spec_first_match(s, pat, i),
        spec_first_match(s, pat, j),
    ensures
        i == j,
{
}

/// At most one position ends the reference.
proof fn lemma_url_end_unique(s: Seq<char>, start: int, e1: int, e2: int)
    requires
        spec_url_end(s, start, e1),
        spec_url_end(s, start, e2),
    ensures
        e1 == e2,
{
}

fn match_at(s: &str, pat: &str, i: usize) -> (b: bool)
    requires
        i + pat@.len() <= s@.len(),
    ensures
        b == spec_match_at(s@, pat@, i as int),
{
    let n = s.unicode_len();
    let m = pat.unicode_len();
    let mut k: usize = 0;
    while k < m
        invariant
            i + m <= n,
            n == s@.len(),
            m == pat@.len(),
            k <= m,
            forall|j: int| 0 <= j < k ==> s@[i + j] == pat@[j],
        decreases m - k,
    {
        if s.get_char(i + k) != pat.get_char(k) {
            proof {
                assert(s@.subrange(i as int, i + pat@.len())[k as int] == s@[i + k]);
            }
            return false;
        }
        k = k + 1;
    }
    proof {
        assert(s@.subrange(i as int, i + pat@.len()) =~= pat@);
    }
    true
}

fn find_first(s: &str, pat: &str) -> (r: Option<usize>)
    requires
        pat@.len() >= 1,
    ensures
        match r {
            Option::Some(i) => spec_first_match(s@, pat@, i as int),
            Option::None => forall|k: int| !spec_match_at(s@, pat@, k),
        },
{
    let n = s.unicode_len();
    let m = pat.unicode_len();
    if m > n {
        return None;
    }
    let mut i: usize = 0;
    while i <= n - m
        invariant
            1 <= m <= n,
            n == s@.len(),
            m == pat@.len(),
            i <= n - m + 1,
            forall|k: int| 0 <= k < i ==> !spec_match_at(s@, pat@, k),
        decreases n - m + 1 - i,
    {
        if match_at(s, pat, i) {
            return Some(i);
        }
        i = i + 1;
    }
    None
}

fn find_url_end(s: &str, start: usize) -> (e: usize)
    requires
        start <= s@.len(),
    ensures
        spec_url_end(s@, start as int, e as int),
{
    let n = s.unicode_len();
    let mut e = start;
    while e < n
        invariant
            start <= e <= n,
            n == s@.len(),
            forall|k: int| start <= k < e ==> !spec_is_stop(s@[k]),
        decreases n - e,
    {
        let c = s.get_char(e);
        if c == ')' || c == '\n' || c == '\r' {
            return e;
        }
        e = e + 1;
    }
    e
}

/// Trimming the quoted prefix leaves the suffix from the first non-quote.
proof fn lemma_trim_start_range(s: Seq<char>, a: int)
    requires
        0 <= a <= s.len(),
        forall|k: int| 0 <= k < a ==> spec_is_quote(s[k]),
        a < s.len() ==> !spec_is_quote(s[a]),
    ensures
        spec_trim_start(s) == s.subrange(a, s.len() as int),
    decreases a,
{
    if a == 0 {
        assert(s.subrange(0, s.len() as int) =~= s);
    } else {
        let w = s.subrange(1, s.len() as int);
        lemma_trim_start_range(w, a - 1);
        assert(w.subrange(a - 1, w.len() as int) =~= s.subrange(a, s.len() as int));
    }
}

/// Trimming the quoted suffix leaves the prefix up to the last non-quote.
proof fn lemma_trim_end_range(s: Seq<char>, b: int)
    requires
        0 <= b <= s.len(),
        forall|k: int| b <= k < s.len() ==> spec_is_quote(s[k]),
        b > 0 ==> !spec_is_quote(s[b - 1]),
    ensures
        spec_trim_end(s) == s.subrange(0, b),
    decreases s.len() - b,
{
    if b == s.len() {
        assert(s.subrange(0, s.len() as int) =~= s);
    } else {
        let w = s.subrange(0, s.len() - 1);
        lemma_trim_end_range(w, b);
        assert(w.subrange(0, b) =~= s.subrange(0, b));
    }
}

fn quote_at(s: &str, i: usize) -> (b: bool)
    requires
        i < s@.len(),
    ensures
        b == spec_is_quote(s@[i as int]),
{
    let c = s.get_char(i);
    c == '\'' || c == '"'
}

fn trim_quotes(s: &str) -> (r: String)
    ensures
        r@ == spec_trim_quotes(s@),
{
    let n = s.unicode_len();
    let mut a: usize = 0;
    while a < n && quote_at(s, a)
        invariant
            a <= n,
            n == s@.len(),
            forall|k: int| 0 <= k < a ==> spec_is_quote(s@[k]),
        decreases n - a,
    {
        a = a + 1;
    }
    let mut b: usize = n;
    while b > a && quote_at(s, b - 1)
        invariant
            a <= b <= n,
            n == s@.len(),
            forall|k: int| 0 <= k < a ==> spec_is_quote(s@[k]),
            a < n ==> !spec_is_quote(s@[a as int]),
            forall|k: int| b <= k < n ==> spec_is_quote(s@[k]),
        decreases b,
    {
        b = b - 1;
    }
    let r = String::from_str(s.substring_char(a, b));
    proof {
        lemma_trim_start_range(s@, a as int);
        let t = s@.subrange(a as int, s@.len() as int);
        lemma_trim_end_range(t, b - a);
        assert(t.subrange(0, b - a) =~= s@.subrange(a as int, b as int));
    }
    r
}

/// Extracts the font-file URL from a fetched stylesheet, when the text
/// holds the font-source marker; `None` exactly when it does not.
pub fn extract_font_url(css: &str) -> (r: Option<String>)
    ensures
        match r {
            Option::Some(u) => spec_extract_font_url(css@) == Option::Some(u@),
            Option::None => spec_extract_font_url(css@) is None,
        },
{
    let marker = "src: url(";
    proof {
        reveal_strlit("src: url(");
    }
    let n = css.unicode_len();
    let m = marker.unicode_len();
    match find_first(css, marker) {
        Option::Some(p) => {
            let start = p + m;
            let e = find_url_end(css, start);
            let url = trim_quotes(css.substring_char(start, e));
            proof {
                let pat = spec_src_url_marker();
                assert(marker@ == pat);
                assert(spec_first_match(css@, pat, p as int));
                assert(exists|i: int| spec_first_match(css@, pat, i));
                let p0 = choose|i: int| spec_first_match(css@, pat, i);
                assert(spec_first_match(css@, pat, p0));
                lemma_first_match_unique(css@, pat, p0, p as int);
                let s0 = p0 + pat.len();
                assert(spec_url_end(css@, s0, e as int));
                assert(exists|x: int| spec_url_end(css@, s0, x));
                let e0 = choose|e0: int| spec_url_end(css@, s0, e0);
                assert(spec_url_end(css@, s0, e0));
                lemma_url_end_unique(css@, s0, e0, e as int);
            }
            Option::Some(url)
        },
        Option::None => {
            proof {
                assert(forall|i: int| !spec_first_match(css@, spec_src_url_marker(), i));
            }
            Option::None
        },
    }
}

} // verus!
