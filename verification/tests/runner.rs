use mathdrill::problem::{Problem, Question};
use mathdrill::runner::{write_complaint, Batch};
use mathdrill::score::Score;

fn two_plus_two() -> Problem {
    Problem { text: "2 + 2 = ".to_string(), answer: 4 }
}

#[test]
fn complaint_names_the_input() {
    assert_eq!(write_complaint("abc"), "Illegal value: abc\n");
    assert_eq!(write_complaint(""), "Illegal value: \n");
}

#[test]
fn batch_begins_with_an_empty_line() {
    let (batch, shown) = Batch::begin(3);
    assert_eq!(shown, "\n");
    assert!(batch.awaits_problem());
    assert!(!batch.awaits_acknowledgment());
    assert!(!batch.is_done());
    assert_eq!(batch.remaining(), 3);
    assert_eq!(batch.tally(), Score::new());
    assert_eq!(batch.prompt(), "");
}

#[test]
fn batch_of_none_goes_straight_to_the_summary() {
    let (mut batch, shown) = Batch::begin(0);
    assert_eq!(shown, "\n\nGreat job! No errors.\n\n");
    assert!(!batch.awaits_problem());
    assert!(batch.awaits_acknowledgment());
    assert_eq!(batch.prompt(), "Press ENTER to continue.");
    assert_eq!(batch.answer("anything"), "");
    assert!(batch.is_done());
    assert_eq!(batch.tally(), Score::new());
}

#[test]
fn batch_of_three_with_one_mistake() {
    let (mut batch, _) = Batch::begin(3);
    batch.pose(two_plus_two());
    assert_eq!(batch.prompt(), "2 + 2 = ");
    assert_eq!(batch.answer("4"), "");
    assert_eq!(batch.remaining(), 2);
    assert!(batch.awaits_problem());
    batch.pose(two_plus_two());
    assert_eq!(batch.answer("5"), "");
    assert_eq!(batch.tally(), Score { correct: 1, incorrect: 1 });
    batch.pose(two_plus_two());
    assert_eq!(batch.answer("4"), "\nYou had 2 correct and 1 incorrect answers.\n\n");
    assert_eq!(batch.tally(), Score { correct: 2, incorrect: 1 });
    assert_eq!(batch.remaining(), 0);
    assert!(batch.awaits_acknowledgment());
    assert_eq!(batch.prompt(), "Press ENTER to continue.");
    assert_eq!(batch.answer(""), "");
    assert!(batch.is_done());
    let mut running = Score::new();
    running.merge(batch.tally());
    assert_eq!(running, Score { correct: 2, incorrect: 1 });
}

#[test]
fn batch_without_mistakes_is_praised() {
    let (mut batch, _) = Batch::begin(2);
    batch.pose(Question::Difference { left: 9, right: 4 }.problem());
    assert_eq!(batch.prompt(), "9 - 4 = ");
    assert_eq!(batch.answer("5"), "");
    batch.pose(Question::Partner { whole: 10, part: 4 }.problem());
    assert_eq!(batch.prompt(), "10 = 4 + ");
    assert_eq!(batch.answer("+6"), "\nGreat job! No errors.\n\n");
    assert_eq!(batch.tally(), Score { correct: 2, incorrect: 0 });
}

#[test]
fn malformed_answer_is_asked_again() {
    let (mut batch, _) = Batch::begin(1);
    batch.pose(Problem { text: "3 + 4 = ".to_string(), answer: 7 });
    assert_eq!(batch.answer("abc"), "Illegal value: abc\n");
    assert_eq!(batch.remaining(), 1);
    assert_eq!(batch.tally(), Score::new());
    assert!(!batch.awaits_problem());
    assert_eq!(batch.prompt(), "3 + 4 = ");
    assert_eq!(batch.answer("7"), "\nGreat job! No errors.\n\n");
    assert_eq!(batch.tally(), Score { correct: 1, incorrect: 0 });
    assert_eq!(batch.remaining(), 0);
}

#[test]
fn every_malformed_answer_is_complained_about() {
    let (mut batch, _) = Batch::begin(1);
    batch.pose(two_plus_two());
    for line in ["", "four", "4.0", "4 4", "99999999999", "-", "4!"] {
        assert_eq!(batch.answer(line), format!("Illegal value: {}\n", line));
        assert_eq!(batch.remaining(), 1);
        assert_eq!(batch.tally(), Score::new());
    }
    assert_eq!(batch.answer("-4"), "\nYou had 0 correct and 1 incorrect answers.\n\n");
    assert_eq!(batch.tally(), Score { correct: 0, incorrect: 1 });
}

#[test]
fn problem_is_taken_only_when_one_is_awaited() {
    let (mut batch, _) = Batch::begin(2);
    batch.pose(two_plus_two());
    batch.pose(Problem { text: "1 + 1 = ".to_string(), answer: 2 });
    assert_eq!(batch.prompt(), "2 + 2 = ");
    assert_eq!(batch.answer("4"), "");
    assert_eq!(batch.tally(), Score { correct: 1, incorrect: 0 });
}

#[test]
fn lines_are_ignored_while_a_problem_is_awaited_and_after_the_end() {
    let (mut batch, _) = Batch::begin(1);
    assert_eq!(batch.answer("4"), "");
    assert!(batch.awaits_problem());
    assert_eq!(batch.remaining(), 1);
    batch.pose(two_plus_two());
    assert_eq!(batch.answer("4"), "\nGreat job! No errors.\n\n");
    assert_eq!(batch.answer(""), "");
    assert!(batch.is_done());
    assert_eq!(batch.answer("4"), "");
    batch.pose(two_plus_two());
    assert!(batch.is_done());
    assert_eq!(batch.prompt(), "");
    assert_eq!(batch.tally(), Score { correct: 1, incorrect: 0 });
}
