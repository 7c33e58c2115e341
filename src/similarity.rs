//! The similarity engine: a character diff of two texts, its score and its rendering.

use difference::{Changeset, Difference};
use vstd::prelude::*;

use crate::text::{all_white, lemma_trim_white_padding, trim_text, trim_white};

verus! {

/// How a piece of a diff relates the expected text to the actual one.
#[derive(Clone, Copy, Debug, PartialEq, Eq)]
pub enum SegmentKind {
    /// In both texts.
    Same,
    /// In the actual text only.
    Added,
    /// In the expected text only.
    Removed,
}

/// One piece of a diff.
pub struct Segment {
    pub kind: SegmentKind,
    pub text: String,
}

impl View for Segment {
    type V = (SegmentKind, Seq<char>);

    open spec fn view(&self) -> (SegmentKind, Seq<char>) {
        (self.kind, self.text@)
    }
}

/// The pieces that `difference::Changeset::new(orig, edit, "")` finds between two texts, split
/// into characters.
pub uninterp spec fn char_diff(orig: Seq<char>, edit: Seq<char>) -> Seq<(SegmentKind, Seq<char>)>;

/// The model of a list of segments.
pub open spec fn segments_view(v: Seq<Segment>) -> Seq<(SegmentKind, Seq<char>)> {
    v.map_values(|s: Segment| s@)
}

/// The texts of the pieces of `d` whose kind is not `skip`, in order, joined.
pub open spec fn joined_except(d: Seq<(SegmentKind, Seq<char>)>, skip: SegmentKind) -> Seq<char>
    decreases d.len(),
{
    if d.len() == 0 {
        Seq::empty()
    } else if d.last().0 == skip {
        joined_except(d.drop_last(), skip)
    } else {
        joined_except(d.drop_last(), skip) + d.last().1
    }
}

/// The number of characters in the pieces of `d` of kind `k`.
pub open spec fn kind_len(d: Seq<(SegmentKind, Seq<char>)>, k: SegmentKind) -> nat
    decreases d.len(),
{
    if d.len() == 0 {
        0
    } else if d.last().0 == k {
        kind_len(d.drop_last(), k) + d.last().1.len()
    } else {
        kind_len(d.drop_last(), k)
    }
}

/// The mark that a piece of kind `k` carries in a rendered diff.
pub open spec fn mark(k: SegmentKind) -> char {
    match k {
        SegmentKind::Same => '=',
        SegmentKind::Added => '+',
        SegmentKind::Removed => '-',
    }
}

/// Each piece of `d` as its mark followed by its text, joined.
pub open spec fn render(d: Seq<(SegmentKind, Seq<char>)>) -> Seq<char>
    decreases d.len(),
{
    if d.len() == 0 {
        Seq::empty()
    } else {
        render(d.drop_last()) + seq![mark(d.last().0)] + d.last().1
    }
}

/// The diff between an actual and an expected text, both trimmed of white space.
pub open spec fn diff_of(got: Seq<char>, expected: Seq<char>) -> Seq<(SegmentKind, Seq<char>)> {
    char_diff(trim_white(expected), trim_white(got))
}

/// No character occurs in both texts.
pub open spec fn no_common_char(a: Seq<char>, b: Seq<char>) -> bool {
    forall|c: char| !(#[trigger] a.contains(c) && b.contains(c))
}

/// A threshold `num / den`.
#[derive(Clone, Copy, Debug, PartialEq, Eq)]
pub struct Fraction {
    pub num: u32,
    pub den: u32,
}

impl Fraction {
    /// A threshold between 0 and 1.
    pub open spec fn wf(&self) -> bool {
        0 < self.den && self.num <= self.den
    }

    /// The fraction one.
    pub fn one() -> (r: Fraction)
        ensures
            r.num == 1 && r.den == 1,
    {
        Fraction { num: 1, den: 1 }
    }
}

/// How much two texts agree: the characters that the diff keeps, and those it adds and removes.
/// The score is `same / (same + added + removed)`, and one where that sum is zero.
#[derive(Clone, Copy, Debug, PartialEq, Eq)]
pub struct Similarity {
    pub same: usize,
    pub added: usize,
    pub removed: usize,
}

impl Similarity {
    /// All the characters that the diff looks at.
    pub open spec fn total(&self) -> int {
        self.same + self.added + self.removed
    }

    /// The score reaches the threshold `t`.
    pub open spec fn spec_reaches(&self, t: Fraction) -> bool {
        if self.total() == 0 {
            t.num <= t.den
        } else {
            self.same * t.den >= t.num * self.total()
        }
    }

    /// The score is one: nothing was added or removed.
    pub open spec fn is_full(&self) -> bool {
        self.added == 0 && self.removed == 0
    }

    /// Whether the score reaches the threshold `t`.
    pub fn reaches(&self, t: Fraction) -> (r: bool)
        ensures
            r == self.spec_reaches(t),
    {
        let total: u128 = self.same as u128 + self.added as u128 + self.removed as u128;
        if total == 0 {
            t.num <= t.den
        } else {
            let same = self.same as u128;
            let den = t.den as u128;
            let num = t.num as u128;
            assert(same * den <= 0xffff_ffff_ffff_ffffu128 * 0xffff_ffffu128) by (nonlinear_arith)
                requires
                    same <= 0xffff_ffff_ffff_ffffu128,
                    den <= 0xffff_ffffu128,
            ;
            assert(num * total <= 0xffff_ffffu128 * 0x3_ffff_ffff_ffff_fffdu128) by (nonlinear_arith)
                requires
                    num <= 0xffff_ffffu128,
                    total <= 0x3_ffff_ffff_ffff_fffdu128,
            ;
            let lhs: u128 = same * den;
            let rhs: u128 = num * total;
            lhs >= rhs
        }
    }
}

/// The similarity that `d` gives.
pub open spec fn similarity_of(d: Seq<(SegmentKind, Seq<char>)>, s: Similarity) -> bool {
    &&& s.same == kind_len(d, SegmentKind::Same)
    &&& s.added == kind_len(d, SegmentKind::Added)
    &&& s.removed == kind_len(d, SegmentKind::Removed)
}

/// The score of `d` reaches the threshold `t`.
pub open spec fn diff_reaches(d: Seq<(SegmentKind, Seq<char>)>, t: Fraction) -> bool {
    let same = kind_len(d, SegmentKind::Same);
    let total = same + kind_len(d, SegmentKind::Added) + kind_len(d, SegmentKind::Removed);
    if total == 0 {
        t.num <= t.den
    } else {
        same * t.den >= t.num * total
    }
}

/// Similarity is the same after white space is added around either text.
pub proof fn lemma_similarity_ignores_padding(
    p: Seq<char>,
    x: Seq<char>,
    q: Seq<char>,
    y: Seq<char>,
)
    requires
        all_white(p),
        all_white(q),
    ensures
        diff_of(p + x + q, y) == diff_of(x, y),
        diff_of(y, p + x + q) == diff_of(y, x),
{
    lemma_trim_white_padding(p, x, q);
}

proof fn lemma_kind_len_prefix(d: Seq<(SegmentKind, Seq<char>)>, i: int, k: SegmentKind)
    requires
        0 <= i <= d.len(),
    ensures
        kind_len(d.take(i), k) <= kind_len(d, k),
    decreases d.len() - i,
{
    if i < d.len() {
        lemma_kind_len_prefix(d, i + 1, k);
        assert(d.take(i + 1).drop_last() =~= d.take(i));
    } else {
        assert(d.take(i) =~= d);
    }
}

proof fn lemma_joined_len(d: Seq<(SegmentKind, Seq<char>)>, skip: SegmentKind)
    ensures
        joined_except(d, skip).len() == kind_len(d, SegmentKind::Same) + kind_len(d, SegmentKind::Added)
            + kind_len(d, SegmentKind::Removed) - kind_len(d, skip),
    decreases d.len(),
{
    if d.len() > 0 {
        lemma_joined_len(d.drop_last(), skip);
    }
}

proof fn lemma_all_same(d: Seq<(SegmentKind, Seq<char>)>)
    requires
        forall|i: int| 0 <= i < d.len() ==> (#[trigger] d[i]).0 == SegmentKind::Same,
    ensures
        kind_len(d, SegmentKind::Added) == 0,
        kind_len(d, SegmentKind::Removed) == 0,
    decreases d.len(),
{
    if d.len() > 0 {
        assert(d[d.len() - 1].0 == SegmentKind::Same);
        lemma_all_same(d.drop_last());
    }
}

proof fn lemma_unchanged_sides_equal(d: Seq<(SegmentKind, Seq<char>)>)
    requires
        kind_len(d, SegmentKind::Added) == 0,
        kind_len(d, SegmentKind::Removed) == 0,
    ensures
        joined_except(d, SegmentKind::Added) == joined_except(d, SegmentKind::Removed),
    decreases d.len(),
{
    if d.len() > 0 {
        lemma_unchanged_sides_equal(d.drop_last());
        let rest = d.drop_last();
        if d.last().0 == SegmentKind::Added {
            assert(joined_except(rest, SegmentKind::Removed) + d.last().1 =~= joined_except(
                rest,
                SegmentKind::Removed,
            ));
        } else if d.last().0 == SegmentKind::Removed {
            assert(joined_except(rest, SegmentKind::Added) + d.last().1 =~= joined_except(
                rest,
                SegmentKind::Added,
            ));
        }
    }
}

proof fn lemma_same_is_common(d: Seq<(SegmentKind, Seq<char>)>)
    requires
        kind_len(d, SegmentKind::Same) > 0,
    ensures
        exists|c: char|
            #[trigger] joined_except(d, SegmentKind::Added).contains(c) && joined_except(
                d,
                SegmentKind::Removed,
            ).contains(c),
    decreases d.len(),
{
    let rest = d.drop_last();
    let a = joined_except(d, SegmentKind::Added);
    let b = joined_except(d, SegmentKind::Removed);
    if d.last().0 == SegmentKind::Same && d.last().1.len() > 0 {
        let c = d.last().1[0];
        let ra = joined_except(rest, SegmentKind::Added);
        let rb = joined_except(rest, SegmentKind::Removed);
        assert(a[ra.len() as int] == c);
        assert(b[rb.len() as int] == c);
        assert(a.contains(c) && b.contains(c));
    } else {
        lemma_same_is_common(rest);
        let c = choose|c: char|
            #[trigger] joined_except(rest, SegmentKind::Added).contains(c) && joined_except(
                rest,
                SegmentKind::Removed,
            ).contains(c);
        let ra = joined_except(rest, SegmentKind::Added);
        let rb = joined_except(rest, SegmentKind::Removed);
        let i = choose|i: int| 0 <= i < ra.len() && ra[i] == c;
        let j = choose|j: int| 0 <= j < rb.len() && rb[j] == c;
        assert(a[i] == c);
        assert(b[j] == c);
        assert(a.contains(c) && b.contains(c));
    }
}

/// The similarity that the pieces `segs` give, and the pieces rendered with a mark before each:
/// `=` kept, `+` added, `-` removed. The kept pieces with either the added or the removed ones
/// must count no more characters than a `usize` holds, as two texts in memory do.
pub fn score_segments(segs: &Vec<Segment>) -> (r: (Similarity, String))
    requires
        kind_len(segments_view(segs@), SegmentKind::Same) + kind_len(
            segments_view(segs@),
            SegmentKind::Removed,
        ) <= usize::MAX,
        kind_len(segments_view(segs@), SegmentKind::Same) + kind_len(
            segments_view(segs@),
            SegmentKind::Added,
        ) <= usize::MAX,
    ensures
        similarity_of(segments_view(segs@), r.0),
        r.1@ == render(segments_view(segs@)),
{
    let ghost d = segments_view(segs@);
    proof {
        reveal_strlit("=");
        reveal_strlit("+");
        reveal_strlit("-");
    }
    let mut same: usize = 0;
    let mut added: usize = 0;
    let mut removed: usize = 0;
    let mut out = String::new();
    let mut i: usize = 0;
    while i < segs.len()
        invariant
            i <= segs.len(),
            d == segments_view(segs@),
            same == kind_len(d.take(i as int), SegmentKind::Same),
            added == kind_len(d.take(i as int), SegmentKind::Added),
            removed == kind_len(d.take(i as int), SegmentKind::Removed),
            out@ == render(d.take(i as int)),
            kind_len(d, SegmentKind::Same) + kind_len(d, SegmentKind::Removed) <= usize::MAX,
            kind_len(d, SegmentKind::Same) + kind_len(d, SegmentKind::Added) <= usize::MAX,
            "="@ == seq!['='],
            "+"@ == seq!['+'],
            "-"@ == seq!['-'],
        decreases segs.len() - i,
    {
        let seg = &segs[i];
        let n = seg.text.as_str().unicode_len();
        proof {
            assert(d.take(i + 1).drop_last() =~= d.take(i as int));
            assert(d.take(i + 1).last() == seg@);
            lemma_kind_len_prefix(d, i + 1, SegmentKind::Same);
            lemma_kind_len_prefix(d, i + 1, SegmentKind::Added);
            lemma_kind_len_prefix(d, i + 1, SegmentKind::Removed);
        }
        match seg.kind {
            SegmentKind::Same => {
                same = same + n;
                out.append("=");
            },
            SegmentKind::Added => {
                added = added + n;
                out.append("+");
            },
            SegmentKind::Removed => {
                removed = removed + n;
                out.append("-");
            },
        }
        out.append(seg.text.as_str());
        i = i + 1;
    }
    assert(d.take(segs.len() as int) =~= d);
    (Similarity { same, added, removed }, out)
}

/// The similarity of an actual text `got` to an expected one, both trimmed of white space, and
/// their diff rendered with a mark before each piece: `=` kept, `+` added, `-` removed.
///
/// The diff is the one that `difference` finds character by character. It fills the table of
/// longest common subsequences of the prefixes, then walks back from the ends of both texts.
/// Where the two characters agree it keeps one and steps back in both. Otherwise it steps back
/// in the actual text where dropping that character leaves a strictly longer common
/// subsequence than dropping the expected one, or where the expected text is at its first
/// character; else, ties included, it steps back in the expected text. At the first character
/// of the actual text that comparison reads the wrong cell of the table and the walk may stop
/// early, so the kept characters can be fewer than a longest common subsequence: `"ab"` against
/// an expected `"abcb"` keeps only `"b"`. The score is thus not symmetric in general. Equal
/// texts keep every character.
pub fn percentage_diff(got: &str, expected: &str) -> (r: (Similarity, String))
    ensures
        similarity_of(diff_of(got@, expected@), r.0),
        r.1@ == render(diff_of(got@, expected@)),
        joined_except(diff_of(got@, expected@), SegmentKind::Removed) == trim_white(got@),
        joined_except(diff_of(got@, expected@), SegmentKind::Added) == trim_white(expected@),
        r.0.same + r.0.removed == trim_white(expected@).len(),
        r.0.same + r.0.added == trim_white(got@).len(),
        r.0.is_full() <==> trim_white(got@) == trim_white(expected@),
        no_common_char(trim_white(got@), trim_white(expected@)) ==> r.0.same == 0,
{
    let g = trim_text(got);
    let e = trim_text(expected);
    let segs = changeset(e, g);
    let ghost d = segments_view(segs@);
    let n_e = e.unicode_len();
    let n_g = g.unicode_len();
    proof {
        lemma_joined_len(d, SegmentKind::Added);
        lemma_joined_len(d, SegmentKind::Removed);
    }
    let r = score_segments(&segs);
    proof {
        if r.0.added == 0 && r.0.removed == 0 {
            lemma_unchanged_sides_equal(d);
        }
        if g@ == e@ {
            lemma_all_same(d);
        }
        if r.0.same > 0 {
            lemma_same_is_common(d);
        }
    }
    r
}

/// Relies on `difference::Changeset::new` with an empty separator, which diffs two texts
/// character by character: the kept and removed pieces give back the first text, the kept and
/// added pieces the second, and two equal texts differ in no piece.
#[verifier::external_body]
fn changeset(orig: &str, edit: &str) -> (r: Vec<Segment>)
    ensures
        segments_view(r@) == char_diff(orig@, edit@),
        joined_except(segments_view(r@), SegmentKind::Added) == orig@,
        joined_except(segments_view(r@), SegmentKind::Removed) == edit@,
        orig@ == edit@ ==> forall|i: int|
            0 <= i < r@.len() ==> (#[trigger] r@[i]).kind == SegmentKind::Same,
{
    let mut r: Vec<Segment> = Vec::new();
    for d in Changeset::new(orig, edit, "").diffs {
        r.push(
            match d {
                Difference::Same(text) => Segment { kind: SegmentKind::Same, text },
                Difference::Add(text) => Segment { kind: SegmentKind::Added, text },
                Difference::Rem(text) => Segment { kind: SegmentKind::Removed, text },
            },
        );
    }
    r
}

} // verus!
