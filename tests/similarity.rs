use test_runner::{percentage_diff, score_segments, Fraction, Segment, SegmentKind, Similarity};

fn score(s: &Similarity) -> f64 {
    let total = s.same + s.added + s.removed;
    if total == 0 {
        1.0
    } else {
        s.same as f64 / total as f64
    }
}

#[test]
fn test_percentage_diff() {
    let str1 = "1234";
    let str2 = "12345";
    let (percentage, outdiff) = percentage_diff(str1, str2);
    println!("{:?} {}", percentage, outdiff);
    assert!(score(&percentage) == 0.8);
}

#[test]
fn test_percentage_diff2() {
    let str1 = "12345";
    let str2 = "1234";
    let (percentage, outdiff) = percentage_diff(str1, str2);
    println!("{:?} {}", percentage, outdiff);
    assert!(score(&percentage) == 0.8);
}

#[test]
fn identical_texts_score_one() {
    let (s, diff) = percentage_diff("hello world", "hello world");
    assert_eq!(s, Similarity { same: 11, added: 0, removed: 0 });
    assert_eq!(score(&s), 1.0);
    assert_eq!(diff, "=hello world");
}

#[test]
fn empty_texts_score_one() {
    let (s, diff) = percentage_diff("", "  \n");
    assert_eq!(s, Similarity { same: 0, added: 0, removed: 0 });
    assert_eq!(score(&s), 1.0);
    assert!(s.reaches(Fraction::one()));
    assert_eq!(diff, "");
}

#[test]
fn disjoint_texts_score_zero() {
    let (s, diff) = percentage_diff("abc", "xyz");
    assert_eq!(s.same, 0);
    assert_eq!(s.added, 3);
    assert_eq!(s.removed, 3);
    assert_eq!(score(&s), 0.0);
    assert!(diff.contains("-xyz"));
    assert!(diff.contains("+abc"));
    assert!(!diff.contains('='));
}

#[test]
fn empty_against_text_scores_zero() {
    let (s, diff) = percentage_diff("", "abc");
    assert_eq!(s, Similarity { same: 0, added: 0, removed: 3 });
    assert_eq!(diff, "-abc");
}

#[test]
fn surrounding_white_space_is_ignored() {
    let plain = percentage_diff("hello", "help");
    let padded = percentage_diff(" \t hello\n\n", "help");
    let padded_expected = percentage_diff("hello", "\n  help  ");
    assert_eq!(plain.0, padded.0);
    assert_eq!(plain.1, padded.1);
    assert_eq!(plain.0, padded_expected.0);
    assert_eq!(plain.1, padded_expected.1);
    let (s, _) = percentage_diff("  same text\n", "same text");
    assert_eq!(s, Similarity { same: 9, added: 0, removed: 0 });
}

#[test]
fn partial_overlap_scores_between_zero_and_one() {
    let (s, outdiff) = percentage_diff("1234", "12345");
    let p = score(&s);
    assert!(p > 0.0 && p < 1.0);
    assert!(outdiff.contains('='));
    assert!(outdiff.contains('-') || outdiff.contains('+'));
    assert_eq!(s, Similarity { same: 4, added: 0, removed: 1 });
    assert_eq!(outdiff, "=1234-5");
    let (s2, outdiff2) = percentage_diff("12345", "1234");
    assert_eq!(s2, Similarity { same: 4, added: 1, removed: 0 });
    assert_eq!(outdiff2, "=1234+5");
}

#[test]
fn characters_are_counted_not_bytes() {
    let (s, diff) = percentage_diff("héllo", "hello");
    assert_eq!(s.same, 4);
    assert_eq!(s.added, 1);
    assert_eq!(s.removed, 1);
    assert!(diff.starts_with("=h"));
}

#[test]
fn interleaved_diff_renders_each_piece() {
    let (s, diff) = percentage_diff("tost", "test");
    assert_eq!(s, Similarity { same: 3, added: 1, removed: 1 });
    assert_eq!(diff, "=t-e+o=st");
}

#[test]
fn threshold_comparison() {
    let s = Similarity { same: 4, added: 0, removed: 1 };
    assert!(s.reaches(Fraction { num: 4, den: 5 }));
    assert!(s.reaches(Fraction { num: 0, den: 1 }));
    assert!(!s.reaches(Fraction { num: 81, den: 100 }));
    assert!(!s.reaches(Fraction::one()));
    let full = Similarity { same: 3, added: 0, removed: 0 };
    assert!(full.reaches(Fraction::one()));
}

#[test]
fn segments_are_counted_and_rendered() {
    let segs = vec![
        Segment { kind: SegmentKind::Same, text: "ab".to_string() },
        Segment { kind: SegmentKind::Removed, text: "cd".to_string() },
        Segment { kind: SegmentKind::Added, text: "é".to_string() },
        Segment { kind: SegmentKind::Same, text: "z".to_string() },
    ];
    let (s, diff) = score_segments(&segs);
    assert_eq!(s, Similarity { same: 3, added: 1, removed: 2 });
    assert_eq!(diff, "=ab-cd+é=z");
    let (empty, none) = score_segments(&Vec::new());
    assert_eq!(empty, Similarity { same: 0, added: 0, removed: 0 });
    assert_eq!(none, "");
}

#[test]
fn diff_keeps_fewer_than_longest_common_subsequence() {
    let (s, diff) = percentage_diff("ab", "abcb");
    assert_eq!(s, Similarity { same: 1, added: 1, removed: 3 });
    assert_eq!(diff, "-a+a=b-cb");
    let (t, _) = percentage_diff("abcb", "ab");
    assert_eq!(t.same, 2);
}
