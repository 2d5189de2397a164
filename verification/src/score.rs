//! Running tallies of correct and incorrect answers.

use crate::text::{decimal, render_unsigned};
use vstd::prelude::*;

verus! {

/// The mathematical content of a [`Score`]: how many answers were right
/// and how many were wrong.
pub struct Tally {
    pub correct: nat,
    pub incorrect: nat,
}

impl Tally {
    /// The tally of no answers.
    pub open spec fn zero() -> Tally {
        Tally { correct: 0, incorrect: 0 }
    }

    /// The tally of one answer.
    pub open spec fn one(right: bool) -> Tally {
        if right {
            Tally { correct: 1, incorrect: 0 }
        } else {
            Tally { correct: 0, incorrect: 1 }
        }
    }

    /// The number of answers counted.
    pub open spec fn total(self) -> nat {
        self.correct + self.incorrect
    }

    /// The two tallies counted together.
    pub open spec fn plus(self, other: Tally) -> Tally {
        Tally {
            correct: self.correct + other.correct,
            incorrect: self.incorrect + other.incorrect,
        }
    }

    /// Whether both counts fit a `Score`.
    pub open spec fn representable(self) -> bool {
        self.correct <= u32::MAX && self.incorrect <= u32::MAX
    }

    /// The share of correct answers in percent, rounded down.
    pub open spec fn percent(self) -> nat
        recommends
            self.total() > 0,
    {
        100 * self.correct / self.total()
    }

    /// The tally as it is shown to the user.
    pub open spec fn text(self) -> Seq<char> {
        if self.total() == 0 {
            "no score yet"@
        } else {
            decimal(self.correct) + ", score "@ + decimal(self.percent()) + "%"@
        }
    }
}

/// A tally of graded answers.
#[derive(Clone, Copy, Debug, PartialEq, Eq, Structural)]
pub struct Score {
    pub correct: u32,
    pub incorrect: u32,
}

impl View for Score {
    type V = Tally;

    open spec fn view(&self) -> Tally {
        Tally { correct: self.correct as nat, incorrect: self.incorrect as nat }
    }
}

impl Score {
    /// The empty tally.
    pub fn new() -> (s: Score)
        ensures
            s@ == Tally::zero(),
    {
        Score { correct: 0, incorrect: 0 }
    }

    /// Adds the counts of `other` to this tally.
    pub fn merge(&mut self, other: Score)
        requires
            old(self)@.plus(other@).representable(),
        ensures
            final(self)@ == old(self)@.plus(other@),
    {
        self.correct = self.correct + other.correct;
        self.incorrect = self.incorrect + other.incorrect;
    }

    /// Counts one more answer, right or wrong.
    pub fn record(&mut self, right: bool)
        requires
            old(self)@.plus(Tally::one(right)).representable(),
        ensures
            final(self)@ == old(self)@.plus(Tally::one(right)),
    {
        if right {
            self.correct = self.correct + 1;
        } else {
            self.incorrect = self.incorrect + 1;
        }
    }

    /// Whether `other` can be merged into this tally without leaving the
    /// range of the counters.
    pub fn has_room_for(&self, other: Score) -> (b: bool)
        ensures
            b == self@.plus(other@).representable(),
    {
        other.correct <= u32::MAX - self.correct && other.incorrect <= u32::MAX - self.incorrect
    }

    /// The share of correct answers in percent, rounded down; `None` while
    /// nothing has been answered.
    pub fn percent(&self) -> (p: Option<u32>)
        ensures
            match p {
                Some(v) => self@.total() > 0 && v == self@.percent(),
                None => self@.total() == 0,
            },
    {
        let right: u64 = self.correct as u64;
        let all: u64 = right + self.incorrect as u64;
        if all == 0 {
            None
        } else {
            assert((100 * right) / (all as int) <= 100) by (nonlinear_arith)
                requires
                    0 <= right <= all,
                    all > 0,
            ;
            Some((100 * right / all) as u32)
        }
    }

    /// The tally as it is shown to the user: the number of correct answers
    /// and their share, or a note that nothing has been answered yet.
    pub fn format(&self) -> (s: String)
        ensures
            s@ == self@.text(),
    {
        match self.percent() {
            None => String::from_str("no score yet"),
            Some(p) => {
                let mut s = render_unsigned(self.correct as u64);
                s.append(", score ");
                s.append(render_unsigned(p as u64).as_str());
                s.append("%");
                s
            },
        }
    }
}

/// The percentage is the largest whole number that, taken of all answers,
/// does not exceed the correct ones; it never exceeds one hundred.
pub proof fn lemma_percent_rounds_down(t: Tally)
    requires
        t.total() > 0,
    ensures
        t.percent() * t.total() <= 100 * t.correct < (t.percent() + 1) * t.total(),
        t.percent() <= 100,
{
    let c = t.correct as int;
    let n = t.total() as int;
    assert((100 * c / n) * n <= 100 * c < (100 * c / n + 1) * n && 100 * c / n <= 100)
        by (nonlinear_arith)
        requires
            0 <= c <= n,
            n > 0,
    ;
}

/// Merging nothing into nothing leaves nothing.
pub proof fn lemma_zero_plus_zero()
    ensures
        Tally::zero().plus(Tally::zero()) == Tally::zero(),
{
}

/// Merging the empty tally changes nothing.
pub proof fn lemma_plus_zero(a: Tally)
    ensures
        a.plus(Tally::zero()) == a,
        Tally::zero().plus(a) == a,
{
}

/// The order of two merged tallies does not matter.
pub proof fn lemma_plus_commutative(a: Tally, b: Tally)
    ensures
        a.plus(b) == b.plus(a),
{
}

/// The grouping of merged tallies does not matter.
pub proof fn lemma_plus_associative(a: Tally, b: Tally, c: Tally)
    ensures
        a.plus(b).plus(c) == a.plus(b.plus(c)),
{
}

} // verus!
