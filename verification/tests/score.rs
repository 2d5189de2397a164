use mathdrill::score::Score;

#[test]
fn new_score_is_zero() {
    let s = Score::new();
    assert_eq!(s.correct, 0);
    assert_eq!(s.incorrect, 0);
}

#[test]
fn empty_score_shows_no_score_yet() {
    assert_eq!(Score::new().format(), "no score yet");
    assert_eq!(Score::new().percent(), None);
}

#[test]
fn format_seven_of_ten() {
    let s = Score { correct: 7, incorrect: 3 };
    assert_eq!(s.format(), "7, score 70%");
}

#[test]
fn format_rounds_percent_down() {
    let s = Score { correct: 1, incorrect: 2 };
    assert_eq!(s.percent(), Some(33));
    assert_eq!(s.format(), "1, score 33%");
    let s = Score { correct: 2, incorrect: 1 };
    assert_eq!(s.percent(), Some(66));
    assert_eq!(s.format(), "2, score 66%");
}

#[test]
fn format_all_right_and_all_wrong() {
    assert_eq!(Score { correct: 5, incorrect: 0 }.format(), "5, score 100%");
    assert_eq!(Score { correct: 0, incorrect: 4 }.format(), "0, score 0%");
}

#[test]
fn format_matches_integer_division_on_a_grid() {
    for c in 0u32..60 {
        for i in 0u32..60 {
            let s = Score { correct: c, incorrect: i };
            if c + i == 0 {
                assert_eq!(s.format(), "no score yet");
            } else {
                let p = 100 * c / (c + i);
                assert_eq!(s.percent(), Some(p));
                assert_eq!(s.format(), format!("{}, score {}%", c, p));
                assert!(p * (c + i) <= 100 * c && 100 * c < (p + 1) * (c + i));
            }
        }
    }
}

#[test]
fn format_with_the_largest_counts() {
    let s = Score { correct: u32::MAX, incorrect: u32::MAX };
    assert_eq!(s.format(), "4294967295, score 50%");
    let s = Score { correct: u32::MAX, incorrect: 0 };
    assert_eq!(s.format(), "4294967295, score 100%");
    let s = Score { correct: 30_000_000, incorrect: 1 };
    assert_eq!(s.format(), "30000000, score 99%");
}

#[test]
fn zero_merged_with_itself_stays_zero() {
    let mut s = Score::new();
    s.merge(Score::new());
    assert_eq!(s, Score::new());
    assert_eq!(s, Score { correct: 0, incorrect: 0 });
}

#[test]
fn merge_adds_both_counts() {
    let mut s = Score { correct: 7, incorrect: 3 };
    s.merge(Score { correct: 1, incorrect: 2 });
    assert_eq!(s, Score { correct: 8, incorrect: 5 });
}

#[test]
fn merge_is_commutative() {
    let a = Score { correct: 4, incorrect: 9 };
    let b = Score { correct: 11, incorrect: 2 };
    let mut ab = a;
    ab.merge(b);
    let mut ba = b;
    ba.merge(a);
    assert_eq!(ab, ba);
    assert_eq!(ab, Score { correct: 15, incorrect: 11 });
}

#[test]
fn merge_is_associative() {
    let a = Score { correct: 1, incorrect: 2 };
    let b = Score { correct: 30, incorrect: 40 };
    let c = Score { correct: 500, incorrect: 600 };
    let mut left = a;
    left.merge(b);
    left.merge(c);
    let mut bc = b;
    bc.merge(c);
    let mut right = a;
    right.merge(bc);
    assert_eq!(left, right);
    assert_eq!(left, Score { correct: 531, incorrect: 642 });
}

#[test]
fn merge_up_to_the_limit() {
    let mut s = Score { correct: u32::MAX - 1, incorrect: 0 };
    let one = Score { correct: 1, incorrect: 0 };
    assert!(s.has_room_for(one));
    s.merge(one);
    assert_eq!(s.correct, u32::MAX);
    assert!(!s.has_room_for(one));
    assert!(s.has_room_for(Score { correct: 0, incorrect: u32::MAX }));
}

#[test]
fn record_counts_one_answer() {
    let mut s = Score::new();
    s.record(true);
    s.record(false);
    s.record(true);
    assert_eq!(s, Score { correct: 2, incorrect: 1 });
}
