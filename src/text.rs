//! Text helpers: white-space trimming and substring tests, with their models.

use vstd::prelude::*;

verus! {

/// The Unicode `White_Space` property of a character, which `char::is_whitespace` and
/// `str::trim` go by: tab to carriage return, space, next line, no-break space, ogham space
/// mark, the spaces from en quad to hair space, line and paragraph separators, narrow no-break
/// space, medium mathematical space and ideographic space.
pub open spec fn is_white_space(c: char) -> bool {
    let u = c as u32;
    ||| 0x9 <= u <= 0xd
    ||| u == 0x20
    ||| u == 0x85
    ||| u == 0xa0
    ||| u == 0x1680
    ||| 0x2000 <= u <= 0x200a
    ||| u == 0x2028
    ||| u == 0x2029
    ||| u == 0x202f
    ||| u == 0x205f
    ||| u == 0x3000
}

/// Every character of `s` is white space.
pub open spec fn all_white(s: Seq<char>) -> bool {
    forall|k: int| 0 <= k < s.len() ==> #[trigger] is_white_space(s[k])
}

/// The first index at or after `i` whose character is not white space (or the length).
pub open spec fn skip_white_from(s: Seq<char>, i: int) -> int
    decreases s.len() - i,
{
    if 0 <= i < s.len() && is_white_space(s[i]) {
        skip_white_from(s, i + 1)
    } else {
        i
    }
}

/// Walking back from `j`, but not below `lo`, the end of the last character that is not white
/// space.
pub open spec fn skip_white_back(s: Seq<char>, j: int, lo: int) -> int
    decreases j - lo,
{
    if lo < j <= s.len() && is_white_space(s[j - 1]) {
        skip_white_back(s, j - 1, lo)
    } else {
        j
    }
}

/// Where the trimmed text starts.
pub open spec fn trim_start(s: Seq<char>) -> int {
    skip_white_from(s, 0)
}

/// Where the trimmed text ends.
pub open spec fn trim_end(s: Seq<char>) -> int {
    skip_white_back(s, s.len() as int, trim_start(s))
}

/// `s` without its leading and trailing white space.
pub open spec fn trim_white(s: Seq<char>) -> Seq<char> {
    s.subrange(trim_start(s), trim_end(s))
}

/// The bounds `a..b` of the trimmed text of `s`, as a predicate: white space before `a` and
/// from `b` on, and no white space at either edge of what is kept.
pub open spec fn is_trim_bounds(s: Seq<char>, a: int, b: int) -> bool {
    &&& 0 <= a <= b <= s.len()
    &&& forall|k: int| 0 <= k < a ==> #[trigger] is_white_space(s[k])
    &&& forall|k: int| b <= k < s.len() ==> #[trigger] is_white_space(s[k])
    &&& a < s.len() ==> !is_white_space(s[a])
    &&& a < b ==> !is_white_space(s[b - 1])
}

/// `t` occurs in `s` at some position.
pub open spec fn occurs_in(t: Seq<char>, s: Seq<char>) -> bool {
    exists|i: int| 0 <= i && i + t.len() <= s.len() && #[trigger] s.subrange(i, i + t.len()) == t
}

/// `t` is a prefix of `s`.
pub open spec fn is_prefix_of(t: Seq<char>, s: Seq<char>) -> bool {
    t.len() <= s.len() && s.subrange(0, t.len() as int) == t
}

proof fn lemma_skip_white_from(s: Seq<char>, i: int)
    requires
        0 <= i <= s.len(),
    ensures
        i <= skip_white_from(s, i) <= s.len(),
        forall|k: int| i <= k < skip_white_from(s, i) ==> #[trigger] is_white_space(s[k]),
        skip_white_from(s, i) < s.len() ==> !is_white_space(s[skip_white_from(s, i)]),
    decreases s.len() - i,
{
    if i < s.len() && is_white_space(s[i]) {
        lemma_skip_white_from(s, i + 1);
    }
}

proof fn lemma_skip_white_back(s: Seq<char>, j: int, lo: int)
    requires
        0 <= lo <= j <= s.len(),
    ensures
        lo <= skip_white_back(s, j, lo) <= j,
        forall|k: int| skip_white_back(s, j, lo) <= k < j ==> #[trigger] is_white_space(s[k]),
        skip_white_back(s, j, lo) > lo ==> !is_white_space(s[skip_white_back(s, j, lo) - 1]),
    decreases j - lo,
{
    if lo < j && is_white_space(s[j - 1]) {
        lemma_skip_white_back(s, j - 1, lo);
    }
}

/// The trimmed text of `s` is bounded as `is_trim_bounds` says.
pub proof fn lemma_trim_bounds(s: Seq<char>)
    ensures
        is_trim_bounds(s, trim_start(s), trim_end(s)),
        trim_white(s) == s.subrange(trim_start(s), trim_end(s)),
{
    lemma_skip_white_from(s, 0);
    lemma_skip_white_back(s, s.len() as int, trim_start(s));
}

/// Only one pair of bounds meets `is_trim_bounds`.
pub proof fn lemma_trim_bounds_unique(s: Seq<char>, a: int, b: int)
    requires
        is_trim_bounds(s, a, b),
    ensures
        a == trim_start(s),
        b == trim_end(s),
{
    lemma_trim_bounds(s);
    let sa = trim_start(s);
    let sb = trim_end(s);
    if sa < a {
        assert(is_white_space(s[sa]));
    }
    if a < sa {
        assert(is_white_space(s[a]));
    }
    if sb < b {
        assert(is_white_space(s[b - 1]));
    }
    if b < sb {
        assert(is_white_space(s[sb - 1]));
    }
}

/// Trimming ignores white space added before and after a text.
pub proof fn lemma_trim_white_padding(p: Seq<char>, x: Seq<char>, q: Seq<char>)
    requires
        all_white(p),
        all_white(q),
    ensures
        trim_white(p + x + q) == trim_white(x),
{
    let s = p + x + q;
    lemma_trim_bounds(x);
    let a = trim_start(x);
    let b = trim_end(x);
    if a == x.len() {
        assert(is_trim_bounds(s, s.len() as int, s.len() as int)) by {
            assert forall|k: int| 0 <= k < s.len() implies #[trigger] is_white_space(s[k]) by {
                if k < p.len() {
                    assert(s[k] == p[k]);
                } else if k < p.len() + x.len() {
                    assert(s[k] == x[k - p.len()]);
                } else {
                    assert(s[k] == q[k - p.len() - x.len()]);
                }
            }
        }
        lemma_trim_bounds_unique(s, s.len() as int, s.len() as int);
        assert(trim_white(s) =~= trim_white(x));
    } else {
        let pa = p.len() + a;
        let pb = p.len() + b;
        assert(is_trim_bounds(s, pa, pb)) by {
            assert forall|k: int| 0 <= k < pa implies #[trigger] is_white_space(s[k]) by {
                if k < p.len() {
                    assert(s[k] == p[k]);
                } else {
                    assert(s[k] == x[k - p.len()]);
                }
            }
            assert forall|k: int| pb <= k < s.len() implies #[trigger] is_white_space(s[k]) by {
                if k < p.len() + x.len() {
                    assert(s[k] == x[k - p.len()]);
                } else {
                    assert(s[k] == q[k - p.len() - x.len()]);
                }
            }
            assert(s[pa] == x[a]);
            assert(s[pb - 1] == x[b - 1]);
        }
        lemma_trim_bounds_unique(s, pa, pb);
        assert(trim_white(s) =~= trim_white(x));
    }
}

proof fn lemma_trim_change_kept(x: Seq<char>, y: Seq<char>, i: int)
    requires
        x.len() == y.len(),
        0 <= i < x.len(),
        forall|k: int| 0 <= k < x.len() && k != i ==> x[k] == y[k],
        x[i] != y[i],
        !is_white_space(x[i]),
    ensures
        trim_white(x) != trim_white(y),
{
    lemma_trim_bounds(x);
    lemma_trim_bounds(y);
    let ax = trim_start(x);
    let bx = trim_end(x);
    let ay = trim_start(y);
    let by = trim_end(y);
    if i < ax {
        assert(is_white_space(x[i]));
    }
    if bx <= i {
        assert(is_white_space(x[i]));
    }
    if trim_white(x) == trim_white(y) {
        assert(trim_white(x).len() == bx - ax);
        assert(trim_white(y).len() == by - ay);
        if ay < ax {
            assert(x[ay] == y[ay]);
            assert(is_white_space(x[ay]));
        }
        if by > bx {
            assert(x[by - 1] == y[by - 1]);
            assert(is_white_space(x[by - 1]));
        }
        assert(trim_white(x)[i - ax] == x[i]);
        assert(trim_white(y)[i - ay] == y[i]);
    }
}

/// Changing one character of a text changes its trimmed text, unless the old and the new
/// character are both white space.
pub proof fn lemma_trim_one_change(x: Seq<char>, y: Seq<char>, i: int)
    requires
        x.len() == y.len(),
        0 <= i < x.len(),
        forall|k: int| 0 <= k < x.len() && k != i ==> x[k] == y[k],
        x[i] != y[i],
        !(is_white_space(x[i]) && is_white_space(y[i])),
    ensures
        trim_white(x) != trim_white(y),
{
    if !is_white_space(x[i]) {
        lemma_trim_change_kept(x, y, i);
    } else {
        lemma_trim_change_kept(y, x, i);
    }
}

/// Relies on `str::trim`: the slice without its leading and trailing characters that have the
/// Unicode `White_Space` property.
#[verifier::external_body]
pub(crate) fn trim_text(s: &str) -> (r: &str)
    ensures
        r@ == trim_white(s@),
        r@.len() > 0 ==> !is_white_space(r@[0]) && !is_white_space(r@.last()),
{
    s.trim()
}

/// Relies on `str::contains` with a `&str` pattern: whether the pattern occurs in the slice.
#[verifier::external_body]
pub(crate) fn contains_text(s: &str, pattern: &str) -> (r: bool)
    ensures
        r == occurs_in(pattern@, s@),
{
    s.contains(pattern)
}

/// Relies on `str::starts_with` with a `&str` pattern: whether the slice begins with it.
#[verifier::external_body]
pub(crate) fn starts_with_text(s: &str, pattern: &str) -> (r: bool)
    ensures
        r == is_prefix_of(pattern@, s@),
{
    s.starts_with(pattern)
}

} // verus!
