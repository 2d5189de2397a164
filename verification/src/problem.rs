//! Drill categories and the problems drawn for them.

use crate::text::{render, signed_decimal};
use rand::rngs::ThreadRng;
use rand::Rng;
use vstd::prelude::*;

verus! {

/// `rand::rngs::ThreadRng`, the handle to the thread's random number
/// generator. Trusted as an opaque value: nothing is known of its state.
#[verifier::external_type_specification]
#[verifier::external_body]
pub struct ExThreadRng(ThreadRng);

/// Draws a whole number from `low` up to, but not including, `high`.
///
/// Trusted: calls `rand::Rng::gen_range` on the thread's generator. The
/// contract claims only the bounds that `gen_range` documents for its
/// result; `gen_range` panics unless `low < high`, hence the precondition.
/// Nothing is claimed about how the numbers are distributed.
#[verifier::external_body]
fn pick(rng: &mut ThreadRng, low: i32, high: i32) -> (n: i32)
    requires
        low < high,
    ensures
        low <= n < high,
{
    rng.gen_range(low, high)
}

/// The nine kinds of drill, in the order of the menu.
#[derive(Clone, Copy, Debug, PartialEq, Eq, Structural)]
pub enum Category {
    /// What is missing from a number to make ten.
    TensPartners,
    /// What is missing from a number to make a given whole from five to ten.
    Partners,
    /// Sums up to ten.
    AdditionToTen,
    /// Sums from ten to twenty.
    AdditionToTwenty,
    /// Sums up to one hundred.
    AdditionToHundred,
    /// Differences of numbers up to ten.
    SubtractionToTen,
    /// Differences that take a number from ten to twenty down to ten or less.
    SubtractionToTwenty,
    /// Differences of numbers up to one hundred.
    SubtractionToHundred,
    /// Sums and differences up to one hundred, by the toss of a coin.
    Mixed,
}

/// The two numbers of a problem and what is asked about them.
#[derive(Clone, Copy, Debug, PartialEq, Eq, Structural)]
pub enum Question {
    /// Which number makes `whole` together with `part`?
    Partner { whole: i32, part: i32 },
    /// What is `left` plus `right`?
    Sum { left: i32, right: i32 },
    /// What is `left` minus `right`?
    Difference { left: i32, right: i32 },
}

/// The mathematical content of a [`Problem`].
pub struct ProblemView {
    pub text: Seq<char>,
    pub answer: int,
}

/// A problem as it is put to the user: the text to show and the answer
/// that counts as correct.
#[derive(Debug, PartialEq, Eq)]
pub struct Problem {
    pub text: String,
    pub answer: i32,
}

impl View for Problem {
    type V = ProblemView;

    open spec fn view(&self) -> ProblemView {
        ProblemView { text: self.text@, answer: self.answer as int }
    }
}

impl Clone for Problem {
    fn clone(&self) -> (p: Problem)
        ensures
            p@ == self@,
    {
        Problem { text: self.text.clone(), answer: self.answer }
    }
}

impl Question {
    /// The correct answer.
    pub open spec fn answer(self) -> int {
        match self {
            Question::Partner { whole, part } => whole - part,
            Question::Sum { left, right } => left + right,
            Question::Difference { left, right } => left - right,
        }
    }

    /// The text that asks the question; the answer completes it.
    pub open spec fn prompt(self) -> Seq<char> {
        match self {
            Question::Partner { whole, part } => {
                signed_decimal(whole as int) + " = "@ + signed_decimal(part as int) + " + "@
            },
            Question::Sum { left, right } => {
                signed_decimal(left as int) + " + "@ + signed_decimal(right as int) + " = "@
            },
            Question::Difference { left, right } => {
                signed_decimal(left as int) + " - "@ + signed_decimal(right as int) + " = "@
            },
        }
    }

    /// The question as a problem: its text and its answer.
    pub open spec fn posed(self) -> ProblemView {
        ProblemView { text: self.prompt(), answer: self.answer() }
    }

    /// Writes the question out as a problem.
    pub fn problem(&self) -> (p: Problem)
        requires
            i32::MIN <= self.answer() <= i32::MAX,
        ensures
            p@ == self.posed(),
    {
        match *self {
            Question::Partner { whole, part } => {
                let mut text = render(whole as i64);
                text.append(" = ");
                text.append(render(part as i64).as_str());
                text.append(" + ");
                Problem { text, answer: whole - part }
            },
            Question::Sum { left, right } => {
                let mut text = render(left as i64);
                text.append(" + ");
                text.append(render(right as i64).as_str());
                text.append(" = ");
                Problem { text, answer: left + right }
            },
            Question::Difference { left, right } => {
                let mut text = render(left as i64);
                text.append(" - ");
                text.append(render(right as i64).as_str());
                text.append(" = ");
                Problem { text, answer: left - right }
            },
        }
    }
}

/// Whether `q` asks for a sum of two numbers, neither negative, that is
/// at most `limit`.
pub open spec fn sum_up_to(q: Question, limit: int) -> bool {
    &&& q matches Question::Sum { left, right }
    &&& 0 <= left <= limit
    &&& 0 <= right <= limit - left
}

/// Whether `q` asks for the difference of a number from zero to `limit`
/// and a number from zero to the first.
pub open spec fn difference_up_to(q: Question, limit: int) -> bool {
    &&& q matches Question::Difference { left, right }
    &&& 0 <= left <= limit
    &&& 0 <= right <= left
}

/// Draws a sum of at most `limit`: the first number from zero to `limit`,
/// the second from zero to what the first leaves of `limit`.
fn draw_sum(rng: &mut ThreadRng, limit: i32) -> (q: Question)
    requires
        0 <= limit < i32::MAX,
    ensures
        sum_up_to(q, limit as int),
{
    let left: i32 = pick(rng, 0, limit + 1);
    let right: i32 = pick(rng, 0, limit + 1 - left);
    Question::Sum { left, right }
}

/// Draws a difference within `limit`: the first number from zero to
/// `limit`, the second from zero to the first.
fn draw_difference(rng: &mut ThreadRng, limit: i32) -> (q: Question)
    requires
        0 <= limit < i32::MAX,
    ensures
        difference_up_to(q, limit as int),
{
    let left: i32 = pick(rng, 0, limit + 1);
    let right: i32 = pick(rng, 0, left + 1);
    Question::Difference { left, right }
}

impl Category {
    /// The questions that a drill of this category may ask. The second
    /// number is bounded in terms of the first, so that no answer is
    /// negative.
    pub open spec fn admits(self, q: Question) -> bool {
        match self {
            Category::TensPartners => {
                &&& q matches Question::Partner { whole, part }
                &&& whole == 10
                &&& 0 <= part <= 10
            },
            Category::Partners => {
                &&& q matches Question::Partner { whole, part }
                &&& 5 <= whole <= 10
                &&& 0 <= part <= whole
            },
            Category::AdditionToTen => sum_up_to(q, 10),
            Category::AdditionToTwenty => {
                &&& q matches Question::Sum { left, right }
                &&& 0 <= left <= 10
                &&& 10 - left <= right <= 10
            },
            Category::AdditionToHundred => sum_up_to(q, 100),
            Category::SubtractionToTen => difference_up_to(q, 10),
            Category::SubtractionToTwenty => {
                &&& q matches Question::Difference { left, right }
                &&& 10 <= left <= 20
                &&& left - 10 <= right <= left
            },
            Category::SubtractionToHundred => difference_up_to(q, 100),
            Category::Mixed => sum_up_to(q, 100) || difference_up_to(q, 100),
        }
    }

    /// The place of the category in the menu, from 1 to 9.
    pub open spec fn number_spec(self) -> u8 {
        match self {
            Category::TensPartners => 1,
            Category::Partners => 2,
            Category::AdditionToTen => 3,
            Category::AdditionToTwenty => 4,
            Category::AdditionToHundred => 5,
            Category::SubtractionToTen => 6,
            Category::SubtractionToTwenty => 7,
            Category::SubtractionToHundred => 8,
            Category::Mixed => 9,
        }
    }

    /// The place of the category in the menu, from 1 to 9.
    #[verifier::when_used_as_spec(number_spec)]
    pub fn number(self) -> (n: u8)
        ensures
            n == self.number_spec(),
            1 <= n <= 9,
    {
        match self {
            Category::TensPartners => 1,
            Category::Partners => 2,
            Category::AdditionToTen => 3,
            Category::AdditionToTwenty => 4,
            Category::AdditionToHundred => 5,
            Category::SubtractionToTen => 6,
            Category::SubtractionToTwenty => 7,
            Category::SubtractionToHundred => 8,
            Category::Mixed => 9,
        }
    }

    /// Draws a question of this category. The first number is drawn from
    /// the category's range, the second from the range that the first
    /// leaves; the mixed category first tosses a coin between addition
    /// and subtraction up to one hundred.
    pub fn draw(self, rng: &mut ThreadRng) -> (q: Question)
        ensures
            self.admits(q),
    {
        match self {
            Category::TensPartners => {
                let part: i32 = pick(rng, 0, 11);
                Question::Partner { whole: 10, part }
            },
            Category::Partners => {
                let whole: i32 = pick(rng, 5, 11);
                let part: i32 = pick(rng, 0, whole + 1);
                Question::Partner { whole, part }
            },
            Category::AdditionToTen => draw_sum(rng, 10),
            Category::AdditionToTwenty => {
                let left: i32 = pick(rng, 0, 11);
                let right: i32 = pick(rng, 10 - left, 11);
                Question::Sum { left, right }
            },
            Category::AdditionToHundred => draw_sum(rng, 100),
            Category::SubtractionToTen => draw_difference(rng, 10),
            Category::SubtractionToTwenty => {
                let left: i32 = pick(rng, 10, 21);
                let right: i32 = pick(rng, left - 10, left + 1);
                Question::Difference { left, right }
            },
            Category::SubtractionToHundred => draw_difference(rng, 100),
            Category::Mixed => {
                let coin: i32 = pick(rng, 0, 2);
                if coin == 0 {
                    draw_sum(rng, 100)
                } else {
                    draw_difference(rng, 100)
                }
            },
        }
    }

    /// Whether `p` is one of the problems that a drill of this category
    /// may pose.
    pub open spec fn poses(self, p: ProblemView) -> bool {
        exists|q: Question| #[trigger] self.admits(q) && p == q.posed()
    }

    /// Draws a question of this category and writes it out as a problem.
    pub fn generate(self, rng: &mut ThreadRng) -> (p: Problem)
        ensures
            self.poses(p@),
    {
        let q = self.draw(rng);
        proof {
            lemma_answer_bounds(self, q);
        }
        q.problem()
    }
}

/// Whatever the category, neither number of a question is negative, and
/// the answer lies between zero and one hundred.
pub proof fn lemma_answer_bounds(category: Category, q: Question)
    requires
        category.admits(q),
    ensures
        0 <= q.answer() <= 100,
        match q {
            Question::Partner { whole, part } => 0 <= part <= whole <= 100,
            Question::Sum { left, right } => 0 <= left <= 100 && 0 <= right <= 100,
            Question::Difference { left, right } => 0 <= right <= left <= 100,
        },
{
}

/// Partners of a whole from five to ten: the whole lies from five to
/// ten, the part from zero to the whole, and the answer, the whole less
/// the part, lies from zero to ten.
pub proof fn lemma_partners(q: Question)
    requires
        Category::Partners.admits(q),
    ensures
        ({
            &&& q matches Question::Partner { whole, part }
            &&& 5 <= whole <= 10
            &&& 0 <= part <= whole
            &&& q.answer() == whole - part
        }),
        0 <= q.answer() <= 10,
{
}

/// Addition up to ten: the first number lies from zero to ten, the
/// second from zero to what the first leaves of ten, so the sum, which
/// is the answer, is at most ten.
pub proof fn lemma_addition_to_ten(q: Question)
    requires
        Category::AdditionToTen.admits(q),
    ensures
        ({
            &&& q matches Question::Sum { left, right }
            &&& 0 <= left <= 10
            &&& 0 <= right <= 10 - left
            &&& left + right <= 10
            &&& q.answer() == left + right
        }),
{
}

/// Subtraction between ten and twenty: the first number lies from ten
/// to twenty, the second from ten below the first up to the first, and
/// the answer, their difference, lies from zero to ten.
pub proof fn lemma_subtraction_to_twenty(q: Question)
    requires
        Category::SubtractionToTwenty.admits(q),
    ensures
        ({
            &&& q matches Question::Difference { left, right }
            &&& 10 <= left <= 20
            &&& left - 10 <= right <= left
            &&& q.answer() == left - right
        }),
        0 <= q.answer() <= 10,
{
}

} // verus!
